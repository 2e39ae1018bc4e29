use orderbot::bot::World;
use orderbot::engine::Event;
use orderbot::i18n::KeyboardKind;
use orderbot::image_cache::AssetRepo;
use orderbot::platform::ChatMessage;
use orderbot::session::{Language, SessionState};

fn repo_with_assets() -> AssetRepo {
    let mut repo = AssetRepo::new();
    repo.add(String::from("start.png"), vec![1, 2, 3]);
    repo.add(String::from("order/task.png"), vec![4, 5]);
    repo.add(String::from("order/contacts.png"), vec![6, 7]);
    repo.add(String::from("test/channel.png"), vec![8]);
    repo.add(String::from("test/test_contacts.png"), vec![9]);
    repo
}

fn msg(user: i64, message_id: i64, text: &str) -> Event {
    Event::Message {
        user,
        message_id,
        username: String::from("someone"),
        display_name: String::from("Some One"),
        text: String::from(text),
    }
}

fn cb(user: i64, data: &str) -> Event {
    Event::Callback { user, id: String::from("q1"), data: String::from(data) }
}

fn last_message_for<'a>(w: &'a World, user: i64) -> &'a ChatMessage {
    w.platform
        .messages()
        .iter()
        .rev()
        .find(|m| m.user == user && m.from_bot)
        .expect("a bot message should be visible")
}

#[test]
fn first_contact_runs_language_flow() {
    let mut w = World::new(repo_with_assets());
    w.handle_event(&msg(7, 1000, "/start"), 50);

    let session = w.sessions.get(7);
    assert_eq!(session.state, SessionState::LanguageSelect);
    assert_eq!(session.language, None);
    let shown = last_message_for(&w, 7);
    assert_eq!(shown.text, "Выберите язык:");
    assert_eq!(shown.keyboard, KeyboardKind::LanguageChoice);

    w.handle_event(&cb(7, "lang_en"), 51);
    let session = w.sessions.get(7);
    assert_eq!(session.state, SessionState::Idle);
    assert_eq!(session.language, Some(Language::En));
    let shown = last_message_for(&w, 7);
    assert_eq!(shown.text, "✅ Language changed!");
    assert_eq!(shown.keyboard, KeyboardKind::MainMenu);
}

#[test]
fn order_task_creates_one_record() {
    let mut w = World::new(repo_with_assets());
    w.sessions.set_state(7, SessionState::AwaitingOrderTask);

    w.handle_event(&msg(7, 1000, "Need a logo"), 50);

    let orders = w.orders.get_orders_by_user(7);
    assert_eq!(orders.len(), 1);
    assert_eq!(orders[0].text, "Need a logo");
    assert_eq!(orders[0].contacts, "");
    assert_eq!(orders[0].username, "someone");
    assert_eq!(orders[0].name, "Some One");
    assert_eq!(orders[0].created_at, 50);
    assert_eq!(w.sessions.get(7).state, SessionState::AwaitingOrderContacts);
    let shown = last_message_for(&w, 7);
    assert_eq!(shown.text, "Введите ваши контакты:");
    assert!(shown.image.is_some());
}

#[test]
fn order_flow_keeps_one_record_through_contacts() {
    let mut w = World::new(repo_with_assets());
    w.sessions.set_state(7, SessionState::AwaitingOrderTask);

    w.handle_event(&msg(7, 1000, "Need a logo"), 50);
    w.handle_event(&msg(7, 1001, "@reach_me"), 60);

    let orders = w.orders.get_orders_by_user(7);
    assert_eq!(orders.len(), 1);
    assert_eq!(orders[0].text, "Need a logo");
    assert_eq!(orders[0].contacts, "@reach_me");
    assert_eq!(orders[0].created_at, 50);
    assert_eq!(w.sessions.get(7).state, SessionState::Idle);
    let shown = last_message_for(&w, 7);
    assert_eq!(shown.text, "✅ Заказ сохранён! Мы свяжемся с вами.");
}

#[test]
fn test_flow_records_nothing() {
    let mut w = World::new(repo_with_assets());
    w.sessions.set_language(5, Language::Ru);
    w.handle_event(&cb(5, "menu_test"), 10);
    assert_eq!(w.sessions.get(5).state, SessionState::AwaitingTestChannel);

    w.handle_event(&msg(5, 1000, "t.me/my_channel"), 11);
    assert_eq!(w.sessions.get(5).state, SessionState::AwaitingTestContacts);

    w.handle_event(&msg(5, 1001, "@me"), 12);
    assert_eq!(w.sessions.get(5).state, SessionState::Idle);
    assert_eq!(w.orders.get_orders_by_user(5).len(), 0);
    let shown = last_message_for(&w, 5);
    assert_eq!(shown.text, "✅ Вы записаны на тесты!");
}

#[test]
fn at_most_one_bot_message_is_visible() {
    let mut w = World::new(repo_with_assets());
    w.handle_event(&msg(7, 1000, "/start"), 1);
    assert_eq!(w.platform.count_bot_messages(7), 1);
    w.handle_event(&cb(7, "lang_en"), 2);
    assert_eq!(w.platform.count_bot_messages(7), 1);
    w.handle_event(&msg(7, 1001, "/menu"), 3);
    assert_eq!(w.platform.count_bot_messages(7), 1);
    w.handle_event(&cb(7, "menu_order"), 4);
    assert_eq!(w.platform.count_bot_messages(7), 1);
    w.handle_event(&msg(7, 1002, "a task"), 5);
    assert_eq!(w.platform.count_bot_messages(7), 1);

    // another user's surface is independent
    w.handle_event(&msg(8, 1003, "/start"), 6);
    assert_eq!(w.platform.count_bot_messages(8), 1);
    assert_eq!(w.platform.count_bot_messages(7), 1);
}

#[test]
fn language_choice_persists_across_renders() {
    let mut w = World::new(repo_with_assets());
    w.handle_event(&msg(7, 1000, "/start"), 1);
    w.handle_event(&cb(7, "lang_en"), 2);

    w.handle_event(&msg(7, 1001, "/menu"), 3);
    assert_eq!(last_message_for(&w, 7).text, "Choose an action:");
    assert_eq!(w.sessions.get(7).language, Some(Language::En));

    w.handle_event(&cb(7, "menu_order"), 4);
    assert_eq!(last_message_for(&w, 7).text, "Describe your order:");

    w.handle_event(&msg(7, 1002, "a logo"), 5);
    assert_eq!(last_message_for(&w, 7).text, "Enter your contacts:");
}

#[test]
fn incoming_text_is_deleted_from_the_surface() {
    let mut w = World::new(repo_with_assets());
    let incoming = w.platform.post_user_message(7, "/start");
    w.handle_event(
        &Event::Message {
            user: 7,
            message_id: incoming,
            username: String::from("someone"),
            display_name: String::from("Some One"),
            text: String::from("/start"),
        },
        1,
    );
    assert!(w
        .platform
        .messages()
        .iter()
        .all(|m| !(m.user == 7 && m.id == incoming)));
}

#[test]
fn missing_asset_falls_back_to_text() {
    let mut w = World::new(AssetRepo::new());
    w.sessions.set_language(7, Language::En);
    w.handle_event(&msg(7, 1000, "/menu"), 1);
    let shown = last_message_for(&w, 7);
    assert_eq!(shown.text, "Choose an action:");
    assert!(shown.image.is_none());
    assert_eq!(w.platform.upload_count(), 0);
    assert_eq!(w.platform.count_bot_messages(7), 1);
}

#[test]
fn menu_image_is_uploaded_once_and_reused() {
    let mut w = World::new(repo_with_assets());
    w.sessions.set_language(7, Language::En);
    w.handle_event(&msg(7, 1000, "/menu"), 1);
    assert_eq!(w.platform.upload_count(), 1);
    let first = last_message_for(&w, 7).image.clone().unwrap();

    w.handle_event(&msg(7, 1001, "/menu"), 2);
    assert_eq!(w.platform.upload_count(), 1);
    let second = last_message_for(&w, 7).image.clone().unwrap();
    assert_eq!(first, second);
}
