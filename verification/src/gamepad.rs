//! The process-wide gamepad binding: the first pad to connect becomes the
//! active one, and stays bound until that same pad disconnects.

use vstd::prelude::*;

verus! {

/// The id of the gamepad currently bound as the player's own.
#[derive(Clone, Copy, PartialEq, Eq, Structural)]
pub struct MyGamepad(pub usize);

/// A gamepad hot-plug notification, naming the pad's id.
#[derive(Clone, Copy, PartialEq, Eq, Structural)]
pub enum GamepadConnection {
    Connected(usize),
    Disconnected(usize),
}

/// The binding after one connection event: a pad connecting binds itself
/// only while no pad is bound; a pad disconnecting unbinds only itself.
pub open spec fn binding_after_event(
    binding: Option<MyGamepad>,
    ev: GamepadConnection,
) -> Option<MyGamepad> {
    match ev {
        GamepadConnection::Connected(id) => {
            if binding is None {
                Some(MyGamepad(id))
            } else {
                binding
            }
        },
        GamepadConnection::Disconnected(id) => {
            if binding == Some(MyGamepad(id)) {
                None
            } else {
                binding
            }
        },
    }
}

/// The binding after a sequence of connection events, applied in order.
pub open spec fn binding_after(
    binding: Option<MyGamepad>,
    evs: Seq<GamepadConnection>,
) -> Option<MyGamepad>
    decreases evs.len(),
{
    if evs.len() == 0 {
        binding
    } else {
        binding_after_event(binding_after(binding, evs.drop_last()), evs.last())
    }
}

/// Maintain the active-gamepad binding across this step's hot-plug events.
pub fn gamepad_detection(binding: &mut Option<MyGamepad>, events: &Vec<GamepadConnection>)
    ensures
        *final(binding) == binding_after(*old(binding), events@),
{
    let mut i: usize = 0;
    while i < events.len()
        invariant
            0 <= i <= events@.len(),
            *binding == binding_after(*old(binding), events@.take(i as int)),
        decreases events@.len() - i,
    {
        proof {
            assert(events@.take(i as int + 1).drop_last() =~= events@.take(i as int));
            assert(events@.take(i as int + 1).last() == events@[i as int]);
        }
        match events[i] {
            GamepadConnection::Connected(id) => {
                if binding.is_none() {
                    *binding = Some(MyGamepad(id));
                }
            },
            GamepadConnection::Disconnected(id) => {
                match *binding {
                    Some(my_gamepad) => {
                        if my_gamepad.0 == id {
                            *binding = None;
                        }
                    },
                    None => {},
                }
            },
        }
        i = i + 1;
    }
    proof {
        assert(events@.take(events@.len() as int) =~= events@);
    }
}

} // verus!
