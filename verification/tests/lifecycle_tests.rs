use orderbot::i18n::KeyboardKind;
use orderbot::message_control::{edit_smart, send_smart};
use orderbot::platform::ChatPlatform;
use orderbot::store::SessionStore;

#[test]
fn send_smart_replaces_the_previous_message() {
    let mut sessions = SessionStore::new();
    let mut platform = ChatPlatform::new();

    let first = send_smart(&mut sessions, &mut platform, 7, "one", KeyboardKind::NoKeyboard, None);
    assert_eq!(platform.count_bot_messages(7), 1);
    assert_eq!(sessions.get(7).last_message_id, Some(first));

    let second = send_smart(&mut sessions, &mut platform, 7, "two", KeyboardKind::NoKeyboard, None);
    assert_ne!(first, second);
    assert_eq!(platform.count_bot_messages(7), 1);
    assert_eq!(sessions.get(7).last_message_id, Some(second));
    let visible = platform
        .messages()
        .iter()
        .find(|m| m.user == 7 && m.from_bot)
        .unwrap();
    assert_eq!(visible.text, "two");
}

#[test]
fn users_do_not_share_a_surface() {
    let mut sessions = SessionStore::new();
    let mut platform = ChatPlatform::new();

    send_smart(&mut sessions, &mut platform, 7, "for seven", KeyboardKind::NoKeyboard, None);
    send_smart(&mut sessions, &mut platform, 8, "for eight", KeyboardKind::NoKeyboard, None);
    assert_eq!(platform.count_bot_messages(7), 1);
    assert_eq!(platform.count_bot_messages(8), 1);
}

#[test]
fn edit_smart_edits_in_place_when_the_message_is_there() {
    let mut sessions = SessionStore::new();
    let mut platform = ChatPlatform::new();

    let id = send_smart(&mut sessions, &mut platform, 7, "hello", KeyboardKind::NoKeyboard, None);
    let edited = edit_smart(&mut sessions, &mut platform, 7, id, "hello again", KeyboardKind::NoKeyboard);
    assert_eq!(edited, id);
    assert_eq!(platform.count_bot_messages(7), 1);
    let visible = platform
        .messages()
        .iter()
        .find(|m| m.user == 7 && m.from_bot)
        .unwrap();
    assert_eq!(visible.text, "hello again");
    assert_eq!(visible.id, id);
}

#[test]
fn edit_smart_falls_back_to_sending_when_the_message_is_gone() {
    let mut sessions = SessionStore::new();
    let mut platform = ChatPlatform::new();

    let id = send_smart(&mut sessions, &mut platform, 7, "hello", KeyboardKind::NoKeyboard, None);
    let edited = edit_smart(&mut sessions, &mut platform, 7, id + 1000, "fresh", KeyboardKind::NoKeyboard);
    assert_ne!(edited, id);
    assert_eq!(platform.count_bot_messages(7), 1);
    assert_eq!(sessions.get(7).last_message_id, Some(edited));
    let visible = platform
        .messages()
        .iter()
        .find(|m| m.user == 7 && m.from_bot)
        .unwrap();
    assert_eq!(visible.text, "fresh");
}
