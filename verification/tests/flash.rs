use blog_posts::flash::{FlashKind, FlashMessage, FlashSlot};

#[test]
fn emitted_notification_is_consumed_once() {
    let mut slot = FlashSlot::new();
    assert!(slot.is_empty());
    slot.emit(FlashMessage::success("Post successfully added"));
    assert!(!slot.is_empty());
    assert_eq!(
        slot.consume(),
        Some(FlashMessage { kind: FlashKind::Success, message: "Post successfully added".to_owned() }),
    );
    assert!(slot.is_empty());
    assert_eq!(slot.consume(), None);
    assert_eq!(slot.consume(), None);
}

#[test]
fn consuming_an_empty_slot_gives_nothing() {
    let mut slot = FlashSlot::new();
    assert_eq!(slot.consume(), None);
    assert!(slot.is_empty());
}

#[test]
fn second_emit_replaces_the_first() {
    let mut slot = FlashSlot::new();
    slot.emit(FlashMessage::success("one"));
    slot.emit(FlashMessage::error("two"));
    assert_eq!(slot.consume(), Some(FlashMessage::error("two")));
    assert_eq!(slot.consume(), None);
}

#[test]
fn kinds_have_their_words() {
    assert_eq!(FlashKind::Success.name(), "success");
    assert_eq!(FlashKind::Error.name(), "error");
    assert_eq!(FlashKind::from_name("success"), Some(FlashKind::Success));
    assert_eq!(FlashKind::from_name("error"), Some(FlashKind::Error));
    assert_eq!(FlashKind::from_name("Success"), None);
    assert_eq!(FlashKind::from_name("warning"), None);
    assert_eq!(FlashKind::from_name(""), None);
}

#[test]
fn notification_is_read_from_its_parts() {
    assert_eq!(
        FlashMessage::from_parts("error", "no".to_owned()),
        Some(FlashMessage { kind: FlashKind::Error, message: "no".to_owned() }),
    );
    assert_eq!(
        FlashMessage::from_parts("success", "yes".to_owned()),
        Some(FlashMessage::success("yes")),
    );
    assert_eq!(FlashMessage::from_parts("info", "hm".to_owned()), None);
}

#[test]
fn clone_of_a_notification_is_equal() {
    let flash = FlashMessage::error("broken");
    assert_eq!(flash.clone(), flash);
    assert_eq!(flash.kind, FlashKind::Error);
    assert_eq!(flash.message, "broken");
}
