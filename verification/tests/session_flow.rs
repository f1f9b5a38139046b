use camera_trace::history::HISTORY_LIMIT;
use camera_trace::project::Project;
use camera_trace::session::{Effect, Event, Point, Preference, Session, IMPORT_FAILED_MESSAGE};

fn photo(id: &str, updated_at: u64) -> Project {
    Project {
        id: id.to_string(),
        image: format!("data:image/png;base64,{id}"),
        opacity: 50,
        rotation: 0,
        scale: 100,
        x: 0,
        y: 0,
        flipped: false,
        updated_at,
    }
}

fn ids(session: &Session) -> Vec<String> {
    session.history.iter().map(|p| p.id.clone()).collect()
}

fn loaded_session(projects: Vec<Project>) -> Session {
    let mut session = Session::new(None, None);
    session.handle(Event::HistoryLoaded(Some(projects)));
    session
}

fn with_current(projects: Vec<Project>, index: usize) -> Session {
    let mut session = loaded_session(projects);
    session.handle(Event::HistorySelected(index));
    session
}

#[test]
fn new_session_reads_the_stored_dismissals() {
    let session = Session::new(Some("dismissed"), None);
    assert!(session.onboarding_dismissed);
    assert!(!session.alignment_hint_dismissed);
    let session = Session::new(Some("yes"), Some("dismissed"));
    assert!(!session.onboarding_dismissed);
    assert!(session.alignment_hint_dismissed);
    assert!(!session.history_loaded);
    assert!(session.current.is_none());
}

#[test]
fn loading_saved_projects_dismisses_the_intro() {
    let mut session = Session::new(None, None);
    let effects = session.handle(Event::HistoryLoaded(Some(vec![photo("a", 2), photo("b", 1)])));
    assert!(session.history_loaded);
    assert!(session.onboarding_dismissed);
    assert_eq!(ids(&session), vec!["a", "b"]);
    assert!(matches!(
        effects.as_slice(),
        [Effect::RememberDismissal(Preference::Onboarding)]
    ));
}

#[test]
fn loading_nothing_or_failing_keeps_the_intro() {
    let mut session = Session::new(None, None);
    let effects = session.handle(Event::HistoryLoaded(Some(Vec::new())));
    assert!(session.history_loaded && !session.onboarding_dismissed && effects.is_empty());
    let mut session = Session::new(None, None);
    let effects = session.handle(Event::HistoryLoaded(None));
    assert!(session.history_loaded && !session.onboarding_dismissed && effects.is_empty());
    assert!(session.layout().intro_visible);
}

#[test]
fn successful_import_shows_saves_and_unlocks() {
    let mut session = with_current(vec![photo("a", 5)], 0);
    session.handle(Event::LockToggled { now: 6 });
    assert!(session.position_locked);
    session.handle(Event::ImportStarted);
    assert!(session.busy);
    let effects = session.handle(Event::ImportFinished(Some(photo("n", 9))));
    assert!(!session.busy);
    assert!(!session.position_locked);
    assert_eq!(session.current.as_ref().unwrap().id, "n");
    assert_eq!(ids(&session), vec!["n", "a"]);
    assert!(session.onboarding_dismissed);
    match effects.as_slice() {
        [Effect::SaveProject(p), Effect::RememberDismissal(Preference::Onboarding)] => {
            assert_eq!(p.id, "n")
        }
        other => panic!("unexpected effects {other:?}"),
    }
}

#[test]
fn failed_import_reports_the_error() {
    let mut session = loaded_session(Vec::new());
    session.handle(Event::ImportStarted);
    let effects = session.handle(Event::ImportFinished(None));
    assert!(effects.is_empty());
    assert!(!session.busy);
    assert_eq!(session.import_error.as_deref(), Some(IMPORT_FAILED_MESSAGE));
    assert_eq!(
        IMPORT_FAILED_MESSAGE,
        "This image could not be prepared. Try another photo."
    );
    let effects = session.handle(Event::PhotoRequested);
    assert!(session.import_error.is_none());
    assert!(matches!(effects.as_slice(), [Effect::OpenFilePicker]));
}

#[test]
fn imports_keep_only_a_dozen_recent_projects() {
    let mut session = loaded_session(Vec::new());
    for i in 0..15u64 {
        session.handle(Event::ImportFinished(Some(photo(&format!("p{i}"), i))));
    }
    assert_eq!(session.history.len(), HISTORY_LIMIT);
    assert_eq!(HISTORY_LIMIT, 12);
    assert_eq!(session.history[0].id, "p14");
    assert_eq!(session.history[11].id, "p3");
}

#[test]
fn drag_moves_by_the_distance_travelled_and_commits_on_release() {
    let mut session = with_current(vec![photo("a", 1), photo("b", 2)], 0);
    let effects = session.handle(Event::DragStarted(Some(Point { x: 10, y: 20 })));
    assert!(matches!(effects.as_slice(), [Effect::ConsumeGesture]));
    session.handle(Event::DragMoved(Some(Point { x: 15, y: 5 })));
    let shown = session.current.as_ref().unwrap();
    assert_eq!((shown.x, shown.y), (5, -15));
    session.handle(Event::DragMoved(Some(Point { x: 0, y: 0 })));
    let shown = session.current.as_ref().unwrap();
    assert_eq!((shown.x, shown.y), (-10, -20));
    let effects = session.handle(Event::DragEnded { now: 100 });
    match effects.as_slice() {
        [Effect::SaveProject(p)] => {
            assert_eq!((p.id.as_str(), p.x, p.y, p.updated_at), ("a", -10, -20, 100))
        }
        other => panic!("unexpected effects {other:?}"),
    }
    assert!(session.drag.is_none());
    // the changed project is now the most recent one
    assert_eq!(ids(&session), vec!["a", "b"]);
    assert_eq!(session.history[0].x, -10);
}

#[test]
fn touch_without_touches_does_nothing() {
    let mut session = with_current(vec![photo("a", 1)], 0);
    assert!(session.handle(Event::DragStarted(None)).is_empty());
    assert!(session.drag.is_none());
    assert!(session.handle(Event::DragEnded { now: 3 }).is_empty());
}

#[test]
fn locked_position_ignores_drags_and_alignment_controls() {
    let mut session = with_current(vec![photo("a", 1)], 0);
    session.handle(Event::LockToggled { now: 2 });
    let before = session.current.clone();
    assert!(session.handle(Event::DragStarted(Some(Point { x: 1, y: 1 }))).is_empty());
    assert!(session.handle(Event::DragMoved(Some(Point { x: 50, y: 50 }))).is_empty());
    assert!(session.handle(Event::DragEnded { now: 3 }).is_empty());
    assert!(session.handle(Event::FlipRequested { now: 4 }).is_empty());
    assert!(session.handle(Event::ResetRequested { now: 5 }).is_empty());
    let scale = Event::NumberChanged { field: "scale".into(), value: 300, now: 6 };
    assert!(session.handle(scale).is_empty());
    assert_eq!(session.current, before);
    // opacity stays editable
    let opacity = Event::NumberChanged { field: "opacity".into(), value: 30, now: 7 };
    let effects = session.handle(opacity);
    assert_eq!(effects.len(), 1);
    let shown = session.current.as_ref().unwrap();
    assert_eq!((shown.opacity, shown.x, shown.y, shown.updated_at), (30, 0, 0, 7));
}

#[test]
fn locking_during_a_drag_commits_the_drag_and_dismisses_the_tip() {
    let mut session = with_current(vec![photo("a", 1)], 0);
    session.handle(Event::DragStarted(Some(Point { x: 0, y: 0 })));
    session.handle(Event::DragMoved(Some(Point { x: 7, y: 8 })));
    let effects = session.handle(Event::LockToggled { now: 50 });
    assert!(session.position_locked);
    assert!(session.alignment_hint_dismissed);
    assert!(session.drag.is_none());
    match effects.as_slice() {
        [Effect::SaveProject(p), Effect::RememberDismissal(Preference::AlignmentHint)] => {
            assert_eq!((p.x, p.y, p.updated_at), (7, 8, 50))
        }
        other => panic!("unexpected effects {other:?}"),
    }
    // unlocking asks for nothing
    assert!(session.handle(Event::LockToggled { now: 51 }).is_empty());
    assert!(!session.position_locked);
}

#[test]
fn lock_button_needs_a_photo() {
    let mut session = loaded_session(Vec::new());
    assert!(session.handle(Event::LockToggled { now: 1 }).is_empty());
    assert!(!session.position_locked);
}

#[test]
fn changes_reorder_recent_projects_newest_first() {
    let mut session = with_current(vec![photo("a", 30), photo("b", 20), photo("c", 10)], 2);
    session.handle(Event::FlipRequested { now: 40 });
    assert_eq!(ids(&session), vec!["c", "a", "b"]);
    assert!(session.history[0].flipped);
    // a change at an earlier time keeps the stable order among equals
    session.handle(Event::HistorySelected(2));
    session.handle(Event::ResetRequested { now: 30 });
    assert_eq!(ids(&session), vec!["c", "a", "b"]);
    assert_eq!(session.history[2].updated_at, 30);
}

#[test]
fn removing_the_current_project_shows_the_next_one() {
    let mut session = with_current(vec![photo("a", 3), photo("b", 2), photo("c", 1)], 0);
    session.handle(Event::LockToggled { now: 4 });
    let effects = session.handle(Event::CurrentRemoved);
    match effects.as_slice() {
        [Effect::DeleteProject(id)] => assert_eq!(id, "a"),
        other => panic!("unexpected effects {other:?}"),
    }
    assert_eq!(ids(&session), vec!["b", "c"]);
    assert_eq!(session.current.as_ref().unwrap().id, "b");
    assert!(!session.position_locked);
    session.handle(Event::CurrentRemoved);
    session.handle(Event::CurrentRemoved);
    assert!(session.current.is_none());
    assert!(session.history.is_empty());
    assert!(session.handle(Event::CurrentRemoved).is_empty());
}

#[test]
fn reselecting_the_shown_project_keeps_the_lock() {
    let mut session = with_current(vec![photo("a", 3), photo("b", 2)], 0);
    session.handle(Event::LockToggled { now: 4 });
    assert!(session.is_selected(0));
    assert!(!session.is_selected(1));
    assert!(!session.is_selected(7));
    session.handle(Event::HistorySelected(0));
    assert!(session.position_locked);
    session.handle(Event::HistorySelected(1));
    assert!(!session.position_locked);
    assert_eq!(session.current.as_ref().unwrap().id, "b");
    assert!(session.handle(Event::HistorySelected(9)).is_empty());
    assert_eq!(session.current.as_ref().unwrap().id, "b");
}

#[test]
fn overlay_toggle_twice_restores_it() {
    let mut session = with_current(vec![photo("a", 3)], 0);
    session.handle(Event::OverlayToggled);
    assert!(session.overlay_hidden);
    session.handle(Event::OverlayToggled);
    assert!(!session.overlay_hidden);
}

#[test]
fn guide_and_camera_events() {
    let mut session = loaded_session(Vec::new());
    assert!(matches!(
        session.handle(Event::GuideOpened).as_slice(),
        [Effect::FocusGuideClose]
    ));
    assert!(session.handle(Event::GuideOpened).is_empty());
    assert!(matches!(
        session.handle(Event::GuideClosed).as_slice(),
        [Effect::FocusGuideTrigger]
    ));
    assert!(!session.guide_open);
    session.handle(Event::CameraFailed("nope".into()));
    assert_eq!(session.camera_error.as_deref(), Some("nope"));
    session.handle(Event::CameraRequested);
    assert!(session.camera_error.is_none());
    session.handle(Event::CameraStarted);
    assert!(session.camera_on);
}

#[test]
fn skipping_and_dismissing_are_remembered() {
    let mut session = loaded_session(Vec::new());
    assert!(matches!(
        session.handle(Event::IntroSkipped).as_slice(),
        [Effect::RememberDismissal(Preference::Onboarding)]
    ));
    assert!(session.onboarding_dismissed);
    assert!(matches!(
        session.handle(Event::AlignmentHintDismissed).as_slice(),
        [Effect::RememberDismissal(Preference::AlignmentHint)]
    ));
    assert!(session.alignment_hint_dismissed);
    assert_eq!(Preference::Onboarding.storage_key(), "camera-trace:onboarding:v1");
    assert_eq!(
        Preference::AlignmentHint.storage_key(),
        "camera-trace:alignment-hint:v1"
    );
}

#[test]
fn drag_position_saturates_at_the_coordinate_limits() {
    let mut far = photo("far", 1);
    far.x = i64::MAX - 1;
    far.y = i64::MIN + 1;
    let mut session = with_current(vec![far], 0);
    session.handle(Event::DragStarted(Some(Point { x: 0, y: 0 })));
    session.handle(Event::DragMoved(Some(Point { x: 5, y: -5 })));
    let shown = session.current.as_ref().unwrap();
    assert_eq!((shown.x, shown.y), (i64::MAX, i64::MIN));
}

#[test]
fn without_a_photo_a_pointer_starts_no_drag() {
    let mut session = loaded_session(Vec::new());
    assert!(session
        .handle(Event::DragStarted(Some(Point { x: 3, y: 3 })))
        .is_empty());
    assert!(session.drag.is_none());
    assert!(session.handle(Event::DragMoved(Some(Point { x: 9, y: 9 }))).is_empty());
    assert!(session.current.is_none());
}

#[test]
fn moving_saves_nothing_and_release_commits_once() {
    let mut session = with_current(vec![photo("a", 1)], 0);
    session.handle(Event::DragStarted(Some(Point { x: 0, y: 0 })));
    for step in 1..5 {
        let effects = session.handle(Event::DragMoved(Some(Point { x: step, y: step })));
        assert!(matches!(effects.as_slice(), [Effect::ConsumeGesture]));
    }
    assert_eq!(session.history[0].x, 0);
    let effects = session.handle(Event::DragEnded { now: 8 });
    assert_eq!(effects.len(), 1);
    assert!(session.handle(Event::DragEnded { now: 9 }).is_empty());
    assert_eq!(session.history[0].x, 4);
}
