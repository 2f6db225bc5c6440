use outrider::overlays::{Notification, NotificationLevel, Notifications, MAX_NOTIFICATIONS};

#[test]
fn newest_notification_is_visible_and_dismissible() {
    let mut notifications = Notifications::default();
    notifications.push(Notification::warning("cache unavailable"));
    assert_eq!(notifications.visible().unwrap().message, "cache unavailable");
    notifications.dismiss_visible();
    assert!(notifications.visible().is_none());
}

#[test]
fn dismissing_newest_reveals_previous_notification() {
    let mut notifications = Notifications::default();
    notifications.push(Notification::warning("first"));
    notifications.push(Notification::warning("second"));
    notifications.dismiss_visible();
    assert_eq!(notifications.visible().unwrap().message, "first");
}

#[test]
fn notification_stack_evicts_the_oldest_beyond_64_entries() {
    let mut notifications = Notifications::default();
    for index in 0..=64 {
        notifications.push(Notification::warning(&index.to_string()));
    }
    assert_eq!(notifications.visible().unwrap().message, "64");
    for _ in 0..63 {
        notifications.dismiss_visible();
    }
    assert_eq!(notifications.visible().unwrap().message, "1");
    notifications.dismiss_visible();
    assert!(notifications.visible().is_none());
}

#[test]
fn warnings_have_warning_level_and_dismissing_empty_is_harmless() {
    let n = Notification::warning("w");
    assert_eq!(n.level, NotificationLevel::Warning);
    let mut notifications = Notifications::new();
    notifications.dismiss_visible();
    assert_eq!(notifications.len(), 0);
    for i in 0..100 {
        notifications.push(Notification::warning(&i.to_string()));
    }
    assert_eq!(notifications.len(), MAX_NOTIFICATIONS);
}
