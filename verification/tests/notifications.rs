use tamagotchi::notification::{Notification, NotificationLevel};
use tamagotchi::pet::Tamagotchi;
use tamagotchi::text::u8_to_string;

fn empty_pet() -> Tamagotchi {
    Tamagotchi::new("Momo".to_string())
}

#[test]
fn keyed_constructor_fills_every_field() {
    let n = Notification::with_key(
        "hello".to_string(),
        NotificationLevel::Error,
        "some_key",
        123,
    );
    assert_eq!(n.message, "hello");
    assert_eq!(n.level, NotificationLevel::Error);
    assert_eq!(n.timestamp, 123);
    assert!(n.removable);
    assert_eq!(n.key.as_deref(), Some("some_key"));
}

#[test]
fn keyless_constructor_has_no_key() {
    let n = Notification::new("hello".to_string(), NotificationLevel::Info, 5);
    assert_eq!(n.key, None);
    assert_eq!(n.timestamp, 5);
    assert!(n.removable);
}

#[test]
fn matching_key_refreshes_in_place() {
    let mut pet = empty_pet();
    pet.add_notification(Notification::with_key(
        "first text".to_string(),
        NotificationLevel::Info,
        "k",
        0,
    ));
    pet.add_notification(Notification::with_key(
        "second text".to_string(),
        NotificationLevel::Warning,
        "k",
        1000,
    ));
    assert_eq!(pet.notifications.len(), 1);
    // Only the timestamp is refreshed; text and level stay as first entered.
    assert_eq!(pet.notifications[0].timestamp, 1000);
    assert_eq!(pet.notifications[0].message, "first text");
    assert_eq!(pet.notifications[0].level, NotificationLevel::Info);
}

#[test]
fn distinct_keys_append_in_insertion_order() {
    let mut pet = empty_pet();
    pet.add_notification(Notification::with_key(
        "a".to_string(),
        NotificationLevel::Info,
        "ka",
        0,
    ));
    pet.add_notification(Notification::with_key(
        "b".to_string(),
        NotificationLevel::Info,
        "kb",
        0,
    ));
    assert_eq!(pet.notifications.len(), 2);
    assert_eq!(pet.notifications[0].key.as_deref(), Some("ka"));
    assert_eq!(pet.notifications[1].key.as_deref(), Some("kb"));
}

#[test]
fn same_text_distinct_keys_stay_distinct() {
    let mut pet = empty_pet();
    pet.add_notification(Notification::with_key(
        "same text".to_string(),
        NotificationLevel::Info,
        "ka",
        0,
    ));
    pet.add_notification(Notification::with_key(
        "same text".to_string(),
        NotificationLevel::Info,
        "kb",
        0,
    ));
    assert_eq!(pet.notifications.len(), 2);
}

#[test]
fn keyless_notifications_accumulate() {
    let mut pet = empty_pet();
    pet.add_notification(Notification::new(
        "again".to_string(),
        NotificationLevel::Info,
        0,
    ));
    pet.add_notification(Notification::new(
        "again".to_string(),
        NotificationLevel::Info,
        1,
    ));
    assert_eq!(pet.notifications.len(), 2);
}

#[test]
fn entries_live_until_the_duration_elapses() {
    let mut pet = empty_pet();
    pet.add_notification(Notification::with_key(
        "hi".to_string(),
        NotificationLevel::Info,
        "k",
        0,
    ));
    let live = pet.print_notifications(4999);
    assert_eq!(live.len(), 1);
    assert_eq!(live[0].0, NotificationLevel::Info);
    assert_eq!(live[0].1, "hi");
    let gone = pet.print_notifications(5000);
    assert!(gone.is_empty());
    assert!(pet.notifications.is_empty());
}

#[test]
fn refresh_resets_the_expiry_window() {
    let mut pet = empty_pet();
    pet.add_notification(Notification::with_key(
        "hi".to_string(),
        NotificationLevel::Info,
        "k",
        0,
    ));
    pet.add_notification(Notification::with_key(
        "hi".to_string(),
        NotificationLevel::Info,
        "k",
        3000,
    ));
    // Without the refresh the entry would die at 5000.
    assert_eq!(pet.print_notifications(7999).len(), 1);
    assert_eq!(pet.print_notifications(8000).len(), 0);
}

#[test]
fn distinct_keys_expire_independently() {
    let mut pet = empty_pet();
    pet.add_notification(Notification::with_key(
        "a".to_string(),
        NotificationLevel::Info,
        "ka",
        0,
    ));
    pet.add_notification(Notification::with_key(
        "b".to_string(),
        NotificationLevel::Warning,
        "kb",
        3000,
    ));
    let live = pet.print_notifications(6000);
    assert_eq!(live.len(), 1);
    assert_eq!(live[0].1, "b");
    let gone = pet.print_notifications(8000);
    assert!(gone.is_empty());
}

#[test]
fn pruning_is_idempotent() {
    let mut pet = empty_pet();
    pet.add_notification(Notification::with_key(
        "a".to_string(),
        NotificationLevel::Info,
        "ka",
        0,
    ));
    pet.add_notification(Notification::with_key(
        "b".to_string(),
        NotificationLevel::Info,
        "kb",
        2000,
    ));
    let first = pet.print_notifications(6000);
    let second = pet.print_notifications(6000);
    assert_eq!(first.len(), 1);
    assert_eq!(second.len(), 1);
    assert_eq!(second[0].1, "b");
}

#[test]
fn non_removable_entries_never_expire() {
    let mut pet = empty_pet();
    pet.add_notification(Notification {
        message: "pinned".to_string(),
        timestamp: 0,
        level: NotificationLevel::Error,
        removable: false,
        key: None,
    });
    let live = pet.print_notifications(1_000_000);
    assert_eq!(live.len(), 1);
    assert_eq!(live[0].0, NotificationLevel::Error);
    assert_eq!(live[0].1, "pinned");
}

#[test]
fn survivors_come_back_in_insertion_order() {
    let mut pet = empty_pet();
    pet.add_notification(Notification::new(
        "one".to_string(),
        NotificationLevel::Info,
        1000,
    ));
    pet.add_notification(Notification::with_key(
        "two".to_string(),
        NotificationLevel::Warning,
        "k2",
        1500,
    ));
    pet.add_notification(Notification::new(
        "three".to_string(),
        NotificationLevel::Error,
        2000,
    ));
    let live = pet.print_notifications(2000);
    assert_eq!(live.len(), 3);
    assert_eq!(live[0].1, "one");
    assert_eq!(live[1].1, "two");
    assert_eq!(live[2].1, "three");
    assert_eq!(live[0].0, NotificationLevel::Info);
    assert_eq!(live[1].0, NotificationLevel::Warning);
    assert_eq!(live[2].0, NotificationLevel::Error);
}

#[test]
fn duplicate_copies_every_field() {
    let n = Notification::with_key("text".to_string(), NotificationLevel::Warning, "k", 9);
    let c = n.duplicate();
    assert_eq!(c.message, n.message);
    assert_eq!(c.timestamp, n.timestamp);
    assert_eq!(c.level, n.level);
    assert_eq!(c.removable, n.removable);
    assert_eq!(c.key, n.key);
}

#[test]
fn decimal_rendering_matches_the_numeral() {
    assert_eq!(u8_to_string(0), "0");
    assert_eq!(u8_to_string(7), "7");
    assert_eq!(u8_to_string(10), "10");
    assert_eq!(u8_to_string(81), "81");
    assert_eq!(u8_to_string(100), "100");
    assert_eq!(u8_to_string(255), "255");
}
