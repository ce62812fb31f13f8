//! The on-screen log panel's events: each one carries a message that is
//! rendered as its own line.

use vstd::prelude::*;

verus! {

/// A message for the scrolling log panel.
pub struct GameLogEvent(pub String);

/// The text a log event contributes to the panel: the message, closed by a
/// line break.
pub fn log_line(event: &GameLogEvent) -> (line: String)
    ensures
        line@ == event.0@ + "\n"@,
{
    let message = event.0.clone();
    message.concat("\n")
}

} // verus!
