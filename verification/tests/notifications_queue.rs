//! The notification queue: identifiers, expiry and dismissal.

use fos_server::notifications::{
    Notification, NotificationQueue, NotificationType, Notify, NOTIFICATION_LIFETIME_MS,
};

fn message_of(n: &Notification) -> &str {
    n.message.as_str()
}

#[test]
fn notify_assigns_fresh_ids() {
    let mut q = NotificationQueue::new();
    q.notify(Notify::info(String::from("first")));
    q.notify(Notify::error(String::from("second")));
    assert_eq!(q.len(), 2);
    assert_eq!(q.messages[0].id, 0);
    assert_eq!(q.messages[1].id, 1);
    assert_eq!(message_of(&q.messages[0]), "first");
    assert_eq!(message_of(&q.messages[1]), "second");
    assert_eq!(q.messages[0].type_, NotificationType::Info);
    assert_eq!(q.messages[1].type_, NotificationType::Error);
    assert_eq!(q.messages[0].remaining_ms, NOTIFICATION_LIFETIME_MS);
}

#[test]
fn tick_expires_old_messages() {
    let mut q = NotificationQueue::new();
    q.notify(Notify::warning(String::from("stale")));
    q.tick(3000);
    q.notify(Notify::success(String::from("fresh")));
    q.tick(3000);
    assert_eq!(q.len(), 1);
    assert_eq!(message_of(&q.messages[0]), "fresh");
    assert_eq!(q.messages[0].remaining_ms, NOTIFICATION_LIFETIME_MS - 3000);
}

#[test]
fn dismiss_removes_only_the_given_id() {
    let mut q = NotificationQueue::new();
    q.notify(Notify::info(String::from("a")));
    q.notify(Notify::info(String::from("b")));
    q.notify(Notify::info(String::from("c")));
    q.dismiss(1);
    assert_eq!(q.len(), 2);
    assert_eq!(message_of(&q.messages[0]), "a");
    assert_eq!(message_of(&q.messages[1]), "c");
    q.dismiss(7);
    assert_eq!(q.len(), 2);
}
