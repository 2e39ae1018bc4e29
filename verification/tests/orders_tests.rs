use orderbot::orders::{apply_update, Order, OrderStore, OrderUpdate};

fn no_change() -> OrderUpdate {
    OrderUpdate { username: None, name: None, contacts: None, text: None }
}

fn sample_order() -> Order {
    Order {
        id: 3,
        user_id: 7,
        username: String::from("someone"),
        name: String::from("Some One"),
        contacts: String::from("@old"),
        text: String::from("old task"),
        created_at: 100,
    }
}

#[test]
fn create_assigns_serial_identifiers() {
    let mut store = OrderStore::new();
    let a = store.create_order(7, "u1", "n1", "", "first", 10);
    let b = store.create_order(8, "u2", "n2", "", "second", 11);
    let c = store.create_order(7, "u1", "n1", "", "third", 12);
    assert_eq!((a, b, c), (1, 2, 3));
}

#[test]
fn get_order_by_id_finds_exactly_the_known_ids() {
    let mut store = OrderStore::new();
    store.create_order(7, "u", "n", "", "first", 10);
    store.create_order(7, "u", "n", "", "second", 11);

    let o = store.get_order_by_id(2).expect("exists");
    assert_eq!(o.text, "second");
    assert_eq!(o.id, 2);
    assert!(store.get_order_by_id(0).is_none());
    assert!(store.get_order_by_id(3).is_none());
    assert!(store.get_order_by_id(-5).is_none());
}

#[test]
fn partial_update_writes_only_present_fields() {
    let updated = apply_update(
        sample_order(),
        OrderUpdate { contacts: Some(String::from("@new")), ..no_change() },
    );
    assert_eq!(updated.contacts, "@new");
    assert_eq!(updated.username, "someone");
    assert_eq!(updated.name, "Some One");
    assert_eq!(updated.text, "old task");
    assert_eq!(updated.id, 3);
    assert_eq!(updated.created_at, 100);

    let renamed = apply_update(
        sample_order(),
        OrderUpdate {
            username: Some(String::from("other")),
            text: Some(String::from("new task")),
            ..no_change()
        },
    );
    assert_eq!(renamed.username, "other");
    assert_eq!(renamed.text, "new task");
    assert_eq!(renamed.contacts, "@old");
}

#[test]
fn update_order_reports_unknown_ids() {
    let mut store = OrderStore::new();
    store.create_order(7, "u", "n", "", "task", 10);
    assert!(store.update_order(1, OrderUpdate { contacts: Some(String::from("@x")), ..no_change() }));
    assert_eq!(store.get_order_by_id(1).unwrap().contacts, "@x");
    assert!(!store.update_order(2, OrderUpdate { contacts: Some(String::from("@y")), ..no_change() }));
}

#[test]
fn orders_by_user_come_most_recent_first() {
    let mut store = OrderStore::new();
    store.create_order(7, "u", "n", "", "first", 10);
    store.create_order(9, "v", "m", "", "other", 11);
    store.create_order(7, "u", "n", "", "second", 12);
    store.create_order(7, "u", "n", "", "third", 13);

    let mine = store.get_orders_by_user(7);
    let texts: Vec<&str> = mine.iter().map(|o| o.text.as_str()).collect();
    assert_eq!(texts, vec!["third", "second", "first"]);
    assert_eq!(store.get_orders_by_user(9).len(), 1);
    assert_eq!(store.get_orders_by_user(1).len(), 0);
}

#[test]
fn latest_contacts_update_touches_the_most_recent_order() {
    let mut store = OrderStore::new();
    store.create_order(7, "u", "n", "", "first", 10);
    store.create_order(7, "u", "n", "", "second", 11);

    assert!(store.update_latest_contacts(7, "@late"));
    assert_eq!(store.get_order_by_id(2).unwrap().contacts, "@late");
    assert_eq!(store.get_order_by_id(1).unwrap().contacts, "");
    assert!(!store.update_latest_contacts(42, "@none"));
}
