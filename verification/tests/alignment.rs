use camera_trace::project::{Project, DEFAULT_OPACITY, NEUTRAL_SCALE};

// Opacity and scale are in percent, rotation in degrees, the offset in pixels.
fn project() -> Project {
    Project {
        id: "test".into(),
        image: "data:image/png;base64,test".into(),
        opacity: 50,
        rotation: 24,
        scale: 140,
        x: 18,
        y: -9,
        flipped: true,
        updated_at: 0,
    }
}

#[test]
fn locked_project_rejects_every_alignment_mutation() {
    let mut project = project();
    let original = project.clone();

    assert!(!project.move_to(100, 200, true));
    assert!(!project.set_number("scale", 250, true));
    assert!(!project.set_number("rotation", 90, true));
    assert!(!project.flip(true));
    assert!(!project.reset(true));
    assert_eq!(project, original);
}

#[test]
fn opacity_remains_editable_while_position_is_locked() {
    let mut project = project();
    let transform = (
        project.x,
        project.y,
        project.scale,
        project.rotation,
        project.flipped,
    );

    assert!(project.set_number("opacity", 80, true));
    assert_eq!(project.opacity, 80);
    assert_eq!(
        (
            project.x,
            project.y,
            project.scale,
            project.rotation,
            project.flipped,
        ),
        transform
    );
}

#[test]
fn unlocked_project_accepts_alignment_mutations() {
    let mut project = project();

    assert!(project.move_to(100, 200, false));
    assert!(project.set_number("scale", 250, false));
    assert!(project.set_number("rotation", 90, false));
    assert!(project.flip(false));
    assert_eq!((project.x, project.y), (100, 200));
    assert_eq!((project.scale, project.rotation), (250, 90));
    assert!(!project.flipped);
}

#[test]
fn unknown_number_field_is_refused_either_way() {
    let mut project = project();
    let original = project.clone();
    assert!(!project.set_number("brightness", 10, false));
    assert!(!project.set_number("Opacity", 10, false));
    assert!(!project.set_number("", 10, true));
    assert_eq!(project, original);
}

#[test]
fn unlocked_reset_restores_the_alignment_of_a_new_project() {
    let mut project = project();
    assert!(project.reset(false));
    assert_eq!(project.opacity, DEFAULT_OPACITY);
    assert_eq!(project.opacity, 50);
    assert_eq!(project.scale, NEUTRAL_SCALE);
    assert_eq!(project.scale, 100);
    assert_eq!((project.x, project.y, project.rotation), (0, 0, 0));
    assert!(!project.flipped);
    assert_eq!(project.id, "test");
    assert_eq!(project.image, "data:image/png;base64,test");
}

#[test]
fn flipping_twice_restores_the_mirroring() {
    let mut project = project();
    let original = project.clone();
    assert!(project.flip(false));
    assert!(!project.flipped);
    assert!(project.flip(false));
    assert_eq!(project, original);
}

#[test]
fn new_project_is_named_after_its_creation_time() {
    let project = Project::new("data:image/jpeg;base64,abc".to_string(), 1725029869123);
    assert_eq!(project.id, "project-1725029869123");
    assert_eq!(project.image, "data:image/jpeg;base64,abc");
    assert_eq!(project.opacity, 50);
    assert_eq!(project.rotation, 0);
    assert_eq!(project.scale, 100);
    assert_eq!((project.x, project.y), (0, 0));
    assert!(!project.flipped);
    assert_eq!(project.updated_at, 1725029869123);

    assert_eq!(Project::new(String::new(), 0).id, "project-0");
    assert_eq!(Project::new(String::new(), 9).id, "project-9");
    assert_eq!(Project::new(String::new(), 10).id, "project-10");
    assert_eq!(
        Project::new(String::new(), u64::MAX).id,
        "project-18446744073709551615"
    );
}
