use dungeon_interaction::game_logs::{log_line, GameLogEvent};

#[test]
fn it_updates_log_text() {
    let event = GameLogEvent("Hello World!".to_string());
    assert_eq!(log_line(&event), "Hello World!\n".to_string());
}

#[test]
fn empty_log_message_still_gets_its_line_break() {
    let event = GameLogEvent(String::new());
    assert_eq!(log_line(&event), "\n");
}
