use orderbot::engine::{step, AssetId, Event, Prompt, RecordAction, RenderAction};
use orderbot::i18n::KeyboardKind;
use orderbot::session::{Language, SessionState};

fn msg(user: i64, text: &str) -> Event {
    Event::Message {
        user,
        message_id: 100,
        username: String::from("someone"),
        display_name: String::from("Some One"),
        text: String::from(text),
    }
}

fn cb(user: i64, data: &str) -> Event {
    Event::Callback { user, id: String::from("q1"), data: String::from(data) }
}

#[test]
fn start_without_language_opens_language_select() {
    let o = step(SessionState::Idle, None, &msg(1, "/start"));
    assert_eq!(o.next_state, SessionState::LanguageSelect);
    assert!(o.write_state);
    assert!(o.set_language.is_none());
    assert!(matches!(o.record, RecordAction::NoRecord));
    assert!(matches!(
        o.render,
        RenderAction::RenderText { prompt: Prompt::ChooseLanguage, keyboard: KeyboardKind::LanguageChoice }
    ));
    assert!(o.delete_incoming);
    assert!(!o.answer_callback);
}

#[test]
fn start_with_language_shows_main_menu() {
    let o = step(SessionState::Idle, Some(Language::En), &msg(1, "/start"));
    assert_eq!(o.next_state, SessionState::Idle);
    assert!(!o.write_state);
    assert!(matches!(
        o.render,
        RenderAction::RenderImage {
            asset: AssetId::Start,
            caption: Prompt::Welcome,
            keyboard: KeyboardKind::MainMenu
        }
    ));
}

#[test]
fn menu_command_shows_choose_action() {
    let o = step(SessionState::Idle, Some(Language::Ru), &msg(1, "/menu"));
    assert_eq!(o.next_state, SessionState::Idle);
    assert!(!o.write_state);
    assert!(matches!(
        o.render,
        RenderAction::RenderImage {
            asset: AssetId::Start,
            caption: Prompt::ChooseAction,
            keyboard: KeyboardKind::MainMenu
        }
    ));
}

#[test]
fn lang_command_reopens_language_select() {
    let o = step(SessionState::Idle, Some(Language::Ru), &msg(1, "/lang"));
    assert_eq!(o.next_state, SessionState::LanguageSelect);
    assert!(o.write_state);
    assert!(matches!(
        o.render,
        RenderAction::RenderText { prompt: Prompt::ChooseLanguage, keyboard: KeyboardKind::LanguageChoice }
    ));
}

#[test]
fn other_text_in_idle_hints_at_start() {
    let o = step(SessionState::Idle, None, &msg(1, "hello there"));
    assert_eq!(o.next_state, SessionState::Idle);
    assert!(!o.write_state);
    assert!(matches!(
        o.render,
        RenderAction::RenderText { prompt: Prompt::WriteStart, keyboard: KeyboardKind::NoKeyboard }
    ));
    assert!(o.delete_incoming);
}

#[test]
fn text_during_language_select_is_ignored() {
    let o = step(SessionState::LanguageSelect, None, &msg(1, "/start"));
    assert_eq!(o.next_state, SessionState::LanguageSelect);
    assert!(!o.write_state);
    assert!(o.set_language.is_none());
    assert!(matches!(o.record, RecordAction::NoRecord));
    assert!(matches!(o.render, RenderAction::NoRender));
    assert!(o.delete_incoming);
}

#[test]
fn order_button_starts_order_flow() {
    let o = step(SessionState::Idle, Some(Language::Ru), &cb(1, "menu_order"));
    assert_eq!(o.next_state, SessionState::AwaitingOrderTask);
    assert!(o.write_state);
    assert!(matches!(
        o.render,
        RenderAction::RenderImage {
            asset: AssetId::OrderTaskImage,
            caption: Prompt::OrderTask,
            keyboard: KeyboardKind::NoKeyboard
        }
    ));
    assert!(!o.delete_incoming);
    assert!(o.answer_callback);
}

#[test]
fn test_button_starts_test_flow() {
    let o = step(SessionState::Idle, Some(Language::Ru), &cb(1, "menu_test"));
    assert_eq!(o.next_state, SessionState::AwaitingTestChannel);
    assert!(o.write_state);
    assert!(matches!(
        o.render,
        RenderAction::RenderImage {
            asset: AssetId::TestChannelImage,
            caption: Prompt::TestChannel,
            keyboard: KeyboardKind::NoKeyboard
        }
    ));
}

#[test]
fn language_pick_returns_to_idle() {
    let o = step(SessionState::LanguageSelect, None, &cb(1, "lang_en"));
    assert_eq!(o.next_state, SessionState::Idle);
    assert!(o.write_state);
    assert_eq!(o.set_language, Some(Language::En));
    assert!(matches!(
        o.render,
        RenderAction::RenderText { prompt: Prompt::LangChanged, keyboard: KeyboardKind::MainMenu }
    ));
    assert!(o.answer_callback);

    let o = step(SessionState::LanguageSelect, None, &cb(1, "lang_ru"));
    assert_eq!(o.set_language, Some(Language::Ru));
}

#[test]
fn order_task_text_creates_record_and_asks_contacts() {
    let o = step(SessionState::AwaitingOrderTask, Some(Language::Ru), &msg(1, "Need a logo"));
    assert_eq!(o.next_state, SessionState::AwaitingOrderContacts);
    assert!(o.write_state);
    match &o.record {
        RecordAction::CreateOrder { text } => assert_eq!(text, "Need a logo"),
        _ => panic!("expected an order creation"),
    }
    assert!(matches!(
        o.render,
        RenderAction::RenderImage {
            asset: AssetId::OrderContactsImage,
            caption: Prompt::OrderContacts,
            keyboard: KeyboardKind::NoKeyboard
        }
    ));
}

#[test]
fn order_contacts_text_updates_record_and_finishes() {
    let o = step(SessionState::AwaitingOrderContacts, Some(Language::Ru), &msg(1, "@me"));
    assert_eq!(o.next_state, SessionState::Idle);
    assert!(o.write_state);
    match &o.record {
        RecordAction::UpdateLatestOrderContacts { contacts } => assert_eq!(contacts, "@me"),
        _ => panic!("expected a contacts update"),
    }
    assert!(matches!(
        o.render,
        RenderAction::RenderText { prompt: Prompt::OrderSaved, keyboard: KeyboardKind::NoKeyboard }
    ));
}

#[test]
fn test_channel_text_moves_to_contacts_without_record() {
    let o = step(SessionState::AwaitingTestChannel, Some(Language::Ru), &msg(1, "t.me/chan"));
    assert_eq!(o.next_state, SessionState::AwaitingTestContacts);
    assert!(o.write_state);
    assert!(matches!(o.record, RecordAction::NoRecord));
    assert!(matches!(
        o.render,
        RenderAction::RenderImage {
            asset: AssetId::TestContactsImage,
            caption: Prompt::TestContacts,
            keyboard: KeyboardKind::NoKeyboard
        }
    ));
}

#[test]
fn test_contacts_text_finishes_without_record() {
    let o = step(SessionState::AwaitingTestContacts, Some(Language::Ru), &msg(1, "@me"));
    assert_eq!(o.next_state, SessionState::Idle);
    assert!(o.write_state);
    assert!(matches!(o.record, RecordAction::NoRecord));
    assert!(matches!(
        o.render,
        RenderAction::RenderText { prompt: Prompt::TestRegistered, keyboard: KeyboardKind::NoKeyboard }
    ));
}

#[test]
fn unknown_callback_is_a_noop() {
    for state in [
        SessionState::Idle,
        SessionState::LanguageSelect,
        SessionState::AwaitingOrderTask,
        SessionState::AwaitingOrderContacts,
        SessionState::AwaitingTestChannel,
        SessionState::AwaitingTestContacts,
    ] {
        let o = step(state, Some(Language::Ru), &cb(1, "something_else"));
        assert_eq!(o.next_state, state);
        assert!(!o.write_state);
        assert!(o.set_language.is_none());
        assert!(matches!(o.record, RecordAction::NoRecord));
        assert!(matches!(o.render, RenderAction::NoRender));
        assert!(o.answer_callback);
    }
}

#[test]
fn menu_callbacks_outside_idle_are_noops() {
    let o = step(SessionState::AwaitingOrderTask, Some(Language::Ru), &cb(1, "menu_order"));
    assert_eq!(o.next_state, SessionState::AwaitingOrderTask);
    assert!(!o.write_state);
    assert!(matches!(o.render, RenderAction::NoRender));

    let o = step(SessionState::Idle, Some(Language::Ru), &cb(1, "lang_en"));
    assert_eq!(o.next_state, SessionState::Idle);
    assert!(o.set_language.is_none());
}

#[test]
fn state_codes_round_trip() {
    for (state, code) in [
        (SessionState::LanguageSelect, -1),
        (SessionState::Idle, 0),
        (SessionState::AwaitingOrderTask, 1),
        (SessionState::AwaitingOrderContacts, 2),
        (SessionState::AwaitingTestChannel, 3),
        (SessionState::AwaitingTestContacts, 4),
    ] {
        assert_eq!(state.code(), code);
        assert_eq!(SessionState::from_code(code), Some(state));
    }
    assert_eq!(SessionState::from_code(5), None);
    assert_eq!(SessionState::from_code(-2), None);
}

#[test]
fn asset_ids_name_their_files() {
    assert_eq!(AssetId::Start.name(), "start");
    assert_eq!(AssetId::Start.subfolder(), "");
    assert_eq!(AssetId::OrderTaskImage.subfolder(), "order");
    assert_eq!(AssetId::OrderTaskImage.name(), "task");
    assert_eq!(AssetId::OrderContactsImage.name(), "contacts");
    assert_eq!(AssetId::TestChannelImage.name(), "channel");
    assert_eq!(AssetId::TestContactsImage.name(), "test_contacts");
}
