use camera_trace::project::Project;
use camera_trace::session::{Effect, Event, Point, Session};

fn photo(id: &str, updated_at: u64) -> Project {
    Project {
        id: id.to_string(),
        image: String::new(),
        opacity: 50,
        rotation: 10,
        scale: 120,
        x: 3,
        y: 4,
        flipped: false,
        updated_at,
    }
}

fn showing(projects: Vec<Project>) -> Session {
    let mut session = Session::new(None, None);
    session.handle(Event::HistoryLoaded(Some(projects)));
    session.handle(Event::HistorySelected(0));
    session
}

fn every_kind_of_event(now: u64) -> Vec<Event> {
    vec![
        Event::GuideOpened,
        Event::GuideClosed,
        Event::CameraRequested,
        Event::CameraStarted,
        Event::CameraFailed("x".into()),
        Event::PhotoRequested,
        Event::ImportStarted,
        Event::ImportFinished(None),
        Event::DragStarted(Some(Point { x: 1, y: 1 })),
        Event::DragMoved(Some(Point { x: 9, y: 9 })),
        Event::DragEnded { now },
        Event::NumberChanged { field: "opacity".into(), value: 70, now },
        Event::NumberChanged { field: "scale".into(), value: 70, now },
        Event::NumberChanged { field: "rotation".into(), value: 70, now },
        Event::FlipRequested { now },
        Event::ResetRequested { now },
        Event::OverlayToggled,
        Event::IntroSkipped,
        Event::AlignmentHintDismissed,
        Event::HistoryLoaded(None),
    ]
}

#[test]
fn locked_placement_survives_every_other_event() {
    let mut session = showing(vec![photo("a", 1)]);
    session.handle(Event::LockToggled { now: 2 });
    for event in every_kind_of_event(5) {
        session.handle(event);
        let shown = session.current.as_ref().unwrap();
        assert_eq!(
            (shown.x, shown.y, shown.scale, shown.rotation, shown.flipped),
            (3, 4, 120, 10, false)
        );
        assert!(session.position_locked);
    }
}

#[test]
fn dismissals_stay_dismissed() {
    let mut session = showing(vec![photo("a", 1)]);
    session.handle(Event::AlignmentHintDismissed);
    assert!(session.onboarding_dismissed);
    for event in every_kind_of_event(5) {
        session.handle(event);
        assert!(session.onboarding_dismissed && session.alignment_hint_dismissed);
    }
    session.handle(Event::CurrentRemoved);
    assert!(session.onboarding_dismissed && session.alignment_hint_dismissed);
}

#[test]
fn every_save_is_of_the_project_on_screen() {
    let mut session = showing(vec![photo("a", 1), photo("b", 0)]);
    for event in every_kind_of_event(5) {
        let effects = session.handle(event);
        for effect in effects {
            if let Effect::SaveProject(saved) = effect {
                assert_eq!(session.current.as_ref(), Some(&saved));
            }
        }
    }
}

#[test]
fn flipping_twice_in_a_session_restores_the_photo() {
    let mut session = showing(vec![photo("a", 1)]);
    session.handle(Event::FlipRequested { now: 7 });
    session.handle(Event::FlipRequested { now: 8 });
    let mut expected = photo("a", 8);
    expected.flipped = false;
    assert_eq!(session.current, Some(expected));
}

#[test]
fn the_lock_changes_only_through_its_button_or_a_new_photo() {
    let mut session = showing(vec![photo("a", 1), photo("b", 0)]);
    for event in every_kind_of_event(5) {
        session.handle(event);
        assert!(!session.position_locked);
    }
    session.handle(Event::LockToggled { now: 9 });
    assert!(session.position_locked);
    session.handle(Event::HistorySelected(1));
    assert!(!session.position_locked);
}

#[test]
fn projects_created_at_different_times_have_different_ids() {
    let a = Project::new(String::new(), 12);
    let b = Project::new(String::new(), 120);
    let c = Project::new(String::new(), 1);
    assert_ne!(a.id, b.id);
    assert_ne!(a.id, c.id);
    assert_ne!(b.id, c.id);
}

fn recent_list_is_sound(session: &Session) {
    let history = &session.history;
    assert!(history.len() <= 12);
    for i in 0..history.len() {
        for j in i + 1..history.len() {
            assert_ne!(history[i].id, history[j].id);
            assert!(history[i].updated_at >= history[j].updated_at);
        }
    }
}

#[test]
fn with_a_rising_clock_the_recent_list_stays_sound() {
    let mut session = Session::new(None, None);
    session.handle(Event::HistoryLoaded(Some(vec![
        Project::new("a".into(), 5),
        Project::new("b".into(), 3),
    ])));
    let mut clock = 10u64;
    for round in 0..20u64 {
        clock += 1;
        session.handle(Event::ImportFinished(Some(Project::new(format!("img{round}"), clock))));
        recent_list_is_sound(&session);
        clock += 1;
        session.handle(Event::HistorySelected((round % 5) as usize));
        session.handle(Event::FlipRequested { now: clock });
        recent_list_is_sound(&session);
        if round % 7 == 3 {
            session.handle(Event::CurrentRemoved);
            recent_list_is_sound(&session);
        }
    }
}

#[test]
fn loaded_projects_with_other_ids_stay_distinct_from_new_ones() {
    let mut stored = Project::new("a".into(), 5);
    stored.id = "imported-elsewhere".into();
    let mut session = Session::new(None, None);
    session.handle(Event::HistoryLoaded(Some(vec![stored, Project::new("b".into(), 3)])));
    session.handle(Event::ImportFinished(Some(Project::new("c".into(), 6))));
    recent_list_is_sound(&session);
    assert_eq!(session.history[0].id, "project-6");
}
