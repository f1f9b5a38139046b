use camera_trace::camera::{
    camera_error_message, camera_error_message_from, error_name, should_retry_with_any_camera,
    text_or_empty, PropertyText, GENERIC_CAMERA_MESSAGE,
    NOT_ALLOWED_MESSAGE, NOT_FOUND_MESSAGE, NOT_READABLE_MESSAGE, OVERCONSTRAINED_MESSAGE,
};
use camera_trace::project::Project;
use camera_trace::screen::{guide_key_action, GuideKey, PhotoButton};
use camera_trace::session::{Event, Session};

fn photo(id: &str) -> Project {
    Project {
        id: id.to_string(),
        image: String::new(),
        opacity: 50,
        rotation: 0,
        scale: 100,
        x: 0,
        y: 0,
        flipped: false,
        updated_at: 1,
    }
}

#[test]
fn camera_errors_are_explained() {
    let text = |direct: Option<&str>, name: &str, message: &str| {
        camera_error_message(direct.map(|s| s.to_string()), name, message.to_string())
    };
    assert_eq!(text(Some("plain"), "NotAllowedError", "m"), "plain");
    assert_eq!(text(None, "NotAllowedError", "m"), NOT_ALLOWED_MESSAGE);
    assert_eq!(
        NOT_ALLOWED_MESSAGE,
        "Camera access was denied. In Safari, open Page Settings, set Camera to Allow, then reload."
    );
    assert_eq!(text(None, "NotFoundError", ""), NOT_FOUND_MESSAGE);
    assert_eq!(NOT_FOUND_MESSAGE, "No camera was found on this device.");
    assert_eq!(text(None, "NotReadableError", ""), NOT_READABLE_MESSAGE);
    assert_eq!(text(None, "OverconstrainedError", "x"), OVERCONSTRAINED_MESSAGE);
    assert_eq!(text(None, "TypeError", "bad constraint"), "bad constraint");
    assert_eq!(text(None, "", ""), GENERIC_CAMERA_MESSAGE);
    assert_eq!(GENERIC_CAMERA_MESSAGE, "The browser could not start the camera.");
}

#[test]
fn only_a_missing_camera_is_retried() {
    assert!(should_retry_with_any_camera("NotFoundError"));
    assert!(should_retry_with_any_camera("OverconstrainedError"));
    assert!(!should_retry_with_any_camera("NotAllowedError"));
    assert!(!should_retry_with_any_camera(""));
}

#[test]
fn guide_keys() {
    assert_eq!(guide_key_action("Escape"), GuideKey::Close);
    assert_eq!(guide_key_action("Tab"), GuideKey::HoldFocus);
    assert_eq!(guide_key_action("Enter"), GuideKey::Ignore);
    assert_eq!(guide_key_action("escape"), GuideKey::Ignore);
}

#[test]
fn intro_covers_the_page_until_a_photo_is_chosen() {
    let mut session = Session::new(None, None);
    let layout = session.layout();
    assert!(!layout.intro_visible);
    assert!(layout.show_controls && layout.show_camera_prompt && layout.show_empty_state);
    session.handle(Event::HistoryLoaded(None));
    let layout = session.layout();
    assert!(layout.intro_visible && !layout.show_controls && !layout.show_camera_prompt);
    assert_eq!(layout.intro_photo_button, PhotoButton::Choose);
    session.handle(Event::ImportStarted);
    assert_eq!(session.layout().intro_photo_button, PhotoButton::Preparing);
    assert!(!session.layout().photo_button_enabled);
    session.handle(Event::ImportFinished(Some(photo("a"))));
    let layout = session.layout();
    assert!(!layout.intro_visible && layout.show_photo && layout.show_gesture_surface);
    assert_eq!(layout.photo_button, PhotoButton::Replace);
    assert!(layout.show_history && layout.show_sliders && layout.show_lock_row);
}

#[test]
fn locking_hides_the_gesture_surface_and_alignment_controls() {
    let mut session = Session::new(None, None);
    session.handle(Event::ImportFinished(Some(photo("a"))));
    session.handle(Event::CameraStarted);
    assert!(session.layout().show_alignment_hint);
    session.handle(Event::LockToggled { now: 2 });
    let layout = session.layout();
    assert!(!layout.show_gesture_surface);
    assert!(layout.show_lock_status);
    assert!(!layout.alignment_controls_enabled);
    assert!(!layout.show_alignment_hint);
    session.handle(Event::OverlayToggled);
    let layout = session.layout();
    assert!(!layout.show_lock_status && !layout.show_photo && layout.show_empty_state);
}

#[test]
fn a_failed_or_non_string_read_gives_the_empty_text() {
    assert_eq!(text_or_empty(None), "");
    assert_eq!(text_or_empty(Some("NotFoundError".to_string())), "NotFoundError");
    assert_eq!(text_or_empty(Some(String::new())), "");
}

fn read(key: &str, text: &str) -> PropertyText {
    PropertyText { key: key.to_string(), text: text.to_string() }
}

#[test]
fn keyed_reads_map_to_the_name_and_the_message() {
    assert_eq!(error_name(read("name", "OverconstrainedError")), "OverconstrainedError");
    assert_eq!(error_name(read("name", "")), "");
    assert_eq!(
        camera_error_message_from(None, read("name", "NotFoundError"), read("message", "m")),
        NOT_FOUND_MESSAGE
    );
    assert_eq!(
        camera_error_message_from(None, read("name", "TypeError"), read("message", "oops")),
        "oops"
    );
    assert_eq!(
        camera_error_message_from(Some("plain".into()), read("name", ""), read("message", "")),
        "plain"
    );
}
