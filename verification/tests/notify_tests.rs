use foamshot::foamshot::FoamShot;
use foamshot::notify::NotificationLevel;

#[test]
fn urgency_keywords() {
    assert_eq!(NotificationLevel::Info.to_urgency(), "low");
    assert_eq!(NotificationLevel::Warn.to_urgency(), "normal");
    assert_eq!(NotificationLevel::Error.to_urgency(), "critical");
}

#[test]
fn save_info_names_the_path() {
    let mut s = FoamShot::new();
    s.config.output_path = String::from("/tmp/shot.png");
    s.config.allow_notify = true;
    let n = s.send_save_info();
    assert_eq!(n.level, NotificationLevel::Info);
    assert_eq!(n.summary, "image_saved");
    assert_eq!(n.body, "Image saved in /tmp/shot.png");
    assert_eq!(n.image_path, "/tmp/shot.png");
    assert!(n.allow);
}

#[test]
fn error_notification_fields() {
    let mut s = FoamShot::new();
    s.config.allow_notify = false;
    let n = s.send_error("error about wait screencopy");
    assert_eq!(n.level, NotificationLevel::Error);
    assert_eq!(n.summary, "foamshot error");
    assert_eq!(n.body, "error about wait screencopy");
    assert_eq!(n.image_path, "dialog-error");
    assert!(!n.allow);
}

#[test]
fn warn_notification_fields() {
    let s = FoamShot::new();
    let n = s.send_warn("nothing selected");
    assert_eq!(n.level, NotificationLevel::Warn);
    assert_eq!(n.summary, "foamshot warn");
    assert_eq!(n.body, "nothing selected");
    assert_eq!(n.image_path, "dialog-warning");
    assert!(n.allow);
}
