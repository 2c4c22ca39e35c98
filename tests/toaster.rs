use leptoaster::toast::{DEFAULT_EXPIRY, DEFAULT_POSITION};
use leptoaster::{ToastBuilder, ToastLevel, ToastPosition, ToasterContext};

fn ids(c: &ToasterContext) -> Vec<u64> {
    c.queue().iter().map(|t| t.id).collect()
}

#[test]
fn ids_increase_across_toasts() {
    let mut c = ToasterContext::default();
    c.toast(ToastBuilder::new("one"));
    c.info("two");
    c.error("three");
    assert_eq!(ids(&c), vec![1, 2, 3]);
    c.remove(3);
    c.warn("four");
    assert_eq!(ids(&c), vec![1, 2, 4]);
    assert_eq!(c.total(), 4);
}

#[test]
fn remove_keeps_order_of_others() {
    let mut c = ToasterContext::default();
    for m in ["a", "b", "c", "d"] {
        c.info(m);
    }
    c.remove(2);
    assert_eq!(ids(&c), vec![1, 3, 4]);
    let messages: Vec<&str> = c.queue().iter().map(|t| t.message.as_str()).collect();
    assert_eq!(messages, vec!["a", "c", "d"]);
    assert_eq!(c.visible(), 3);
    c.remove(1);
    c.remove(4);
    assert_eq!(ids(&c), vec![3]);
    assert_eq!(c.visible(), 1);
}

#[test]
fn remove_unknown_id_is_noop() {
    let mut c = ToasterContext::default();
    c.remove(1);
    assert!(c.queue().is_empty());
    assert_eq!(c.visible(), 0);
    c.success("x");
    c.success("y");
    c.remove(9);
    c.remove(0);
    assert_eq!(ids(&c), vec![1, 2]);
    assert_eq!(c.visible(), 2);
    assert_eq!(c.total(), 2);
}

#[test]
fn clear_flags_every_toast_and_keeps_them() {
    let mut c = ToasterContext::default();
    c.info("a");
    c.warn("b");
    assert!(c.queue().iter().all(|t| !t.cleared));
    c.clear();
    assert_eq!(c.queue().len(), 2);
    assert!(c.queue().iter().all(|t| t.cleared));
    assert_eq!(ids(&c), vec![1, 2]);
    assert_eq!(c.queue()[1].level, ToastLevel::Warn);
    assert_eq!(c.visible(), 2);
    c.info("c");
    assert!(!c.queue()[2].cleared);
}

#[test]
fn clear_on_empty_queue() {
    let mut c = ToasterContext::default();
    c.clear();
    assert!(c.queue().is_empty());
}

#[test]
fn builder_defaults_and_setters() {
    let b = ToastBuilder::new("hello");
    assert_eq!(b.message, "hello");
    assert_eq!(b.level, ToastLevel::Info);
    assert_eq!(b.expiry, Some(DEFAULT_EXPIRY));
    assert_eq!(b.expiry, Some(2_500));
    assert_eq!(b.position, DEFAULT_POSITION);
    let t = b
        .with_message("bye")
        .with_level(ToastLevel::Error)
        .with_expiry(None)
        .with_position(ToastPosition::TopRight)
        .build(7);
    assert_eq!(t.id, 7);
    assert_eq!(t.message, "bye");
    assert_eq!(t.level, ToastLevel::Error);
    assert_eq!(t.expiry, None);
    assert_eq!(t.position, ToastPosition::TopRight);
    assert!(!t.cleared);
}

#[test]
fn toast_keeps_builder_settings() {
    let mut c = ToasterContext::default();
    c.toast(
        ToastBuilder::new("m")
            .with_expiry(Some(1_500))
            .with_level(ToastLevel::Success),
    );
    let t = &c.queue()[0];
    assert_eq!(t.id, 1);
    assert_eq!(t.message, "m");
    assert_eq!(t.expiry, Some(1_500));
    assert_eq!(t.level, ToastLevel::Success);
}

#[test]
fn quick_methods_without_defaults() {
    let mut c = ToasterContext::default();
    c.info("i");
    c.success("s");
    c.warn("w");
    c.error("e");
    let levels: Vec<ToastLevel> = c.queue().iter().map(|t| t.level).collect();
    assert_eq!(
        levels,
        vec![ToastLevel::Info, ToastLevel::Success, ToastLevel::Warn, ToastLevel::Error]
    );
    let messages: Vec<&str> = c.queue().iter().map(|t| t.message.as_str()).collect();
    assert_eq!(messages, vec!["i", "s", "w", "e"]);
    assert!(c.queue().iter().all(|t| t.expiry == Some(DEFAULT_EXPIRY)));
    assert!(c.queue().iter().all(|t| t.position == DEFAULT_POSITION));
}

#[test]
fn quick_methods_use_defaults() {
    let defaults = ToastBuilder::new("ignored")
        .with_level(ToastLevel::Error)
        .with_expiry(None)
        .with_position(ToastPosition::TopLeft);
    let mut c = ToasterContext::new_with_defaults(defaults);
    c.success("done");
    let t = &c.queue()[0];
    assert_eq!(t.message, "done");
    assert_eq!(t.level, ToastLevel::Success);
    assert_eq!(t.expiry, None);
    assert_eq!(t.position, ToastPosition::TopLeft);
    assert_eq!(t.id, 1);
}

#[test]
fn queue_at_partitions_by_corner() {
    let mut c = ToasterContext::default();
    c.toast(ToastBuilder::new("a").with_position(ToastPosition::TopLeft));
    c.toast(ToastBuilder::new("b").with_position(ToastPosition::BottomRight));
    c.toast(ToastBuilder::new("c").with_position(ToastPosition::TopLeft));
    let top_left: Vec<u64> = c.queue_at(ToastPosition::TopLeft).iter().map(|t| t.id).collect();
    assert_eq!(top_left, vec![1, 3]);
    let bottom_right: Vec<u64> =
        c.queue_at(ToastPosition::BottomRight).iter().map(|t| t.id).collect();
    assert_eq!(bottom_right, vec![2]);
    assert!(c.queue_at(ToastPosition::TopRight).is_empty());
}

#[test]
fn fresh_toaster_has_room() {
    let c = ToasterContext::default();
    assert!(c.has_room());
    assert_eq!(c.total(), 0);
    assert_eq!(c.visible(), 0);
}

#[test]
fn cloned_toast_is_equal_in_fields() {
    let t = ToastBuilder::new("x").build(3);
    let u = t.clone();
    assert_eq!(u.id, 3);
    assert_eq!(u.message, "x");
    assert_eq!(u.cleared, t.cleared);
}

#[test]
fn is_dismissed_follows_clear() {
    let mut c = ToasterContext::default();
    c.info("a");
    assert!(!c.is_dismissed(1));
    c.clear();
    assert!(c.is_dismissed(1));
    assert!(!c.is_dismissed(2));
    c.info("b");
    assert!(!c.is_dismissed(2));
    c.remove(1);
    assert!(!c.is_dismissed(1));
}
