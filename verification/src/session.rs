//! The state of a tracing session and how each user or browser event changes it.
//!
//! The page feeds every event to [`Session::handle`], which updates the state and
//! answers with the effects that the page carries out: saving or deleting a project,
//! remembering a dismissal, opening the file picker, moving the keyboard focus, or
//! taking over a touch or pointer gesture.
use vstd::prelude::*;
use vstd::string::*;

use crate::history::{
    add_new_project, record_change, remove_id, with_changed_project, with_new_project,
    without_id,
};
use crate::onboarding::{ALIGNMENT_HINT_KEY, ONBOARDING_KEY};
use crate::text::text_of;
use crate::project::{
    is_opacity_field, is_rotation_field, is_scale_field, Project, DEFAULT_OPACITY, NEUTRAL_SCALE,
};

verus! {

/// Shown when a chosen photo could not be turned into a reference image.
pub const IMPORT_FAILED_MESSAGE: &'static str = "This image could not be prepared. Try another photo.";

/// A "dismissed" preference that is remembered across visits.
#[derive(Clone, Copy, Debug, PartialEq, Eq, Structural)]
pub enum Preference {
    /// The first-visit introduction.
    Onboarding,
    /// The tip on aligning the overlay.
    AlignmentHint,
}

impl Preference {
    /// The storage key under which the preference is kept.
    pub fn storage_key(&self) -> (key: &'static str)
        ensures
            *self == Preference::Onboarding ==> key@ == ONBOARDING_KEY@,
            *self == Preference::AlignmentHint ==> key@ == ALIGNMENT_HINT_KEY@,
    {
        match self {
            Preference::Onboarding => ONBOARDING_KEY,
            Preference::AlignmentHint => ALIGNMENT_HINT_KEY,
        }
    }
}

/// Work that the page carries out after an event.
#[derive(Debug)]
pub enum Effect {
    /// The gesture belongs to the overlay: suppress the browser's default handling
    /// and keep receiving the pointer.
    ConsumeGesture,
    /// Store the project.
    SaveProject(Project),
    /// Delete the stored project with this identifier.
    DeleteProject(String),
    /// Remember that the preference was dismissed.
    RememberDismissal(Preference),
    /// Open the file picker for a new reference photo.
    OpenFilePicker,
    /// Move the keyboard focus to the close button of the setup guide.
    FocusGuideClose,
    /// Move the keyboard focus back to the button that opens the setup guide.
    FocusGuideTrigger,
}

/// A position on the screen, in CSS pixels.
#[derive(Clone, Copy, Debug, PartialEq, Eq, Structural)]
pub struct Point {
    pub x: i32,
    pub y: i32,
}

/// A drag of the overlay in progress: where it started, where the photo was then,
/// and the photo as moved so far.
#[derive(Debug)]
pub struct Drag {
    pub start: Point,
    pub image_x: i64,
    pub image_y: i64,
    pub project: Project,
}

/// Everything that happens to a session.
#[derive(Debug)]
pub enum Event {
    /// The saved projects were read; `None` when storage could not be read or parsed.
    HistoryLoaded(Option<Vec<Project>>),
    /// The setup guide was opened.
    GuideOpened,
    /// The setup guide was closed.
    GuideClosed,
    /// The user asked to start the camera.
    CameraRequested,
    /// The camera is running.
    CameraStarted,
    /// The camera could not be started, with the message to show.
    CameraFailed(String),
    /// The user asked to choose a reference photo.
    PhotoRequested,
    /// A file was chosen and is being prepared.
    ImportStarted,
    /// The chosen file became this new project, or (`None`) could not be prepared.
    ImportFinished(Option<Project>),
    /// A pointer or the first touch went down on the overlay; `None` for a touch
    /// event without touches.
    DragStarted(Option<Point>),
    /// The pointer or first touch moved.
    DragMoved(Option<Point>),
    /// The pointer or touch was released or cancelled at time `now`.
    DragEnded { now: u64 },
    /// A number control was changed at time `now`.
    NumberChanged { field: String, value: i64, now: u64 },
    /// The user asked to mirror the photo at time `now`.
    FlipRequested { now: u64 },
    /// The user asked to reset the alignment at time `now`.
    ResetRequested { now: u64 },
    /// The user hid or showed the overlay.
    OverlayToggled,
    /// The user locked or unlocked the position at time `now`.
    LockToggled { now: u64 },
    /// The user skipped the introduction.
    IntroSkipped,
    /// The user dismissed the alignment tip.
    AlignmentHintDismissed,
    /// The user deleted the current project.
    CurrentRemoved,
    /// The user picked the recent project at this position.
    HistorySelected(usize),
}

/// The state of a session.
#[derive(Debug)]
pub struct Session {
    /// The project shown over the camera view.
    pub current: Option<Project>,
    /// The recent projects, newest first.
    pub history: Vec<Project>,
    /// The saved projects have been read (or reading them failed).
    pub history_loaded: bool,
    pub camera_on: bool,
    pub camera_error: Option<String>,
    pub import_error: Option<String>,
    /// A chosen photo is being prepared.
    pub busy: bool,
    pub overlay_hidden: bool,
    /// The photo's position on screen is locked for tracing.
    pub position_locked: bool,
    pub onboarding_dismissed: bool,
    pub alignment_hint_dismissed: bool,
    pub guide_open: bool,
    pub drag: Option<Drag>,
}

/// The abstract state of a session.
#[verifier::ext_equal]
pub struct SessionView {
    pub current: Option<Project>,
    pub history: Seq<Project>,
    pub history_loaded: bool,
    pub camera_on: bool,
    pub camera_error: Option<Seq<char>>,
    pub import_error: Option<Seq<char>>,
    pub busy: bool,
    pub overlay_hidden: bool,
    pub position_locked: bool,
    pub onboarding_dismissed: bool,
    pub alignment_hint_dismissed: bool,
    pub guide_open: bool,
    pub drag: Option<Drag>,
}

impl View for Session {
    type V = SessionView;

    open spec fn view(&self) -> SessionView {
        SessionView {
            current: self.current,
            history: self.history@,
            history_loaded: self.history_loaded,
            camera_on: self.camera_on,
            camera_error: text_of(self.camera_error),
            import_error: text_of(self.import_error),
            busy: self.busy,
            overlay_hidden: self.overlay_hidden,
            position_locked: self.position_locked,
            onboarding_dismissed: self.onboarding_dismissed,
            alignment_hint_dismissed: self.alignment_hint_dismissed,
            guide_open: self.guide_open,
            drag: self.drag,
        }
    }
}

/// `v` clamped to the range of `i64`.
pub open spec fn clamp_i64(v: int) -> i64 {
    if v < i64::MIN {
        i64::MIN
    } else if v > i64::MAX {
        i64::MAX
    } else {
        v as i64
    }
}

/// Where the dragged photo goes when the gesture is at `at`: its position when the
/// drag began, moved by the distance the gesture has travelled.
pub open spec fn drag_target(drag: Drag, at: Point) -> (i64, i64) {
    (
        clamp_i64(drag.image_x + (at.x - drag.start.x)),
        clamp_i64(drag.image_y + (at.y - drag.start.y)),
    )
}

/// The project after the number control `field` was set to `value`, or `None` when
/// the change is refused.
pub open spec fn with_number(project: Project, field: Seq<char>, value: i64, locked: bool) -> Option<Project> {
    if is_opacity_field(field) {
        Some(Project { opacity: value, ..project })
    } else if is_rotation_field(field) && !locked {
        Some(Project { rotation: value, ..project })
    } else if is_scale_field(field) && !locked {
        Some(Project { scale: value, ..project })
    } else {
        None
    }
}

/// The project with the alignment of a new project.
pub open spec fn reset_alignment(project: Project) -> Project {
    Project {
        opacity: DEFAULT_OPACITY,
        rotation: 0,
        scale: NEUTRAL_SCALE,
        x: 0,
        y: 0,
        flipped: false,
        ..project
    }
}

/// A change of `project` made at `now` is shown and recorded in the recent projects,
/// and the project is saved.
pub open spec fn committed(s: SessionView, project: Project, now: u64) -> (SessionView, Seq<Effect>) {
    let changed = Project { updated_at: now, ..project };
    (
        SessionView {
            current: Some(changed),
            history: with_changed_project(s.history, changed),
            ..s
        },
        seq![Effect::SaveProject(changed)],
    )
}

/// A change of the current project, when the change is accepted.
pub open spec fn changed_current(s: SessionView, change: Option<Project>, now: u64) -> (SessionView, Seq<Effect>) {
    match change {
        Some(project) => committed(s, project, now),
        None => (s, Seq::empty()),
    }
}

pub open spec fn after_history_loaded(s: SessionView, loaded: Option<Seq<Project>>) -> (SessionView, Seq<Effect>) {
    match loaded {
        Some(projects) => if projects.len() > 0 {
            (
                SessionView {
                    history: projects,
                    history_loaded: true,
                    onboarding_dismissed: true,
                    ..s
                },
                seq![Effect::RememberDismissal(Preference::Onboarding)],
            )
        } else {
            (SessionView { history: projects, history_loaded: true, ..s }, Seq::empty())
        },
        None => (SessionView { history_loaded: true, ..s }, Seq::empty()),
    }
}

pub open spec fn after_import(s: SessionView, imported: Option<Project>) -> (SessionView, Seq<Effect>) {
    match imported {
        Some(project) => (
            SessionView {
                current: Some(project),
                history: with_new_project(s.history, project),
                busy: false,
                import_error: None,
                overlay_hidden: false,
                position_locked: false,
                drag: None,
                onboarding_dismissed: true,
                ..s
            },
            seq![
                Effect::SaveProject(project),
                Effect::RememberDismissal(Preference::Onboarding),
            ],
        ),
        None => (
            SessionView { busy: false, import_error: Some(IMPORT_FAILED_MESSAGE@), ..s },
            Seq::empty(),
        ),
    }
}

pub open spec fn after_drag_started(s: SessionView, at: Option<Point>) -> (SessionView, Seq<Effect>) {
    if s.position_locked {
        (s, Seq::empty())
    } else {
        match (at, s.current) {
            (Some(point), Some(project)) => (
                SessionView {
                    drag: Some(
                        Drag { start: point, image_x: project.x, image_y: project.y, project },
                    ),
                    ..s
                },
                seq![Effect::ConsumeGesture],
            ),
            _ => (s, Seq::empty()),
        }
    }
}

pub open spec fn after_drag_moved(s: SessionView, at: Option<Point>) -> (SessionView, Seq<Effect>) {
    if s.position_locked {
        (SessionView { drag: None, ..s }, Seq::empty())
    } else {
        match (at, s.drag) {
            (Some(point), Some(drag)) => {
                let (x, y) = drag_target(drag, point);
                let moved = Project { x, y, ..drag.project };
                (
                    SessionView {
                        current: Some(moved),
                        drag: Some(Drag { project: moved, ..drag }),
                        ..s
                    },
                    seq![Effect::ConsumeGesture],
                )
            },
            _ => (s, Seq::empty()),
        }
    }
}

pub open spec fn after_drag_ended(s: SessionView, now: u64) -> (SessionView, Seq<Effect>) {
    if s.position_locked {
        (SessionView { drag: None, ..s }, Seq::empty())
    } else {
        match s.drag {
            Some(drag) => committed(SessionView { drag: None, ..s }, drag.project, now),
            None => (s, Seq::empty()),
        }
    }
}

pub open spec fn after_lock_toggled(s: SessionView, now: u64) -> (SessionView, Seq<Effect>) {
    if s.current is None {
        (s, Seq::empty())
    } else {
        let locking = !s.position_locked;
        let released = SessionView { position_locked: locking, drag: None, ..s };
        let (saved, effects) = match s.drag {
            Some(drag) => if locking {
                committed(released, drag.project, now)
            } else {
                (released, Seq::empty())
            },
            None => (released, Seq::empty()),
        };
        if locking {
            (
                SessionView { alignment_hint_dismissed: true, ..saved },
                effects.push(Effect::RememberDismissal(Preference::AlignmentHint)),
            )
        } else {
            (saved, effects)
        }
    }
}

pub open spec fn after_current_removed(s: SessionView) -> (SessionView, Seq<Effect>) {
    match s.current {
        Some(project) => {
            let kept = without_id(s.history, project.id@);
            (
                SessionView {
                    current: if kept.len() > 0 {
                        Some(kept[0])
                    } else {
                        None
                    },
                    history: kept,
                    overlay_hidden: false,
                    position_locked: false,
                    drag: None,
                    ..s
                },
                seq![Effect::DeleteProject(project.id)],
            )
        },
        None => (s, Seq::empty()),
    }
}

/// The recent project at `index` is the one already shown.
pub open spec fn is_selected(s: SessionView, index: int) -> bool {
    &&& 0 <= index < s.history.len()
    &&& s.current matches Some(project)
    &&& project.id@ == s.history[index].id@
}

pub open spec fn after_history_selected(s: SessionView, index: int) -> (SessionView, Seq<Effect>) {
    if 0 <= index < s.history.len() {
        if is_selected(s, index) {
            (SessionView { current: Some(s.history[index]), overlay_hidden: false, ..s }, Seq::empty())
        } else {
            (
                SessionView {
                    current: Some(s.history[index]),
                    overlay_hidden: false,
                    position_locked: false,
                    drag: None,
                    ..s
                },
                Seq::empty(),
            )
        }
    } else {
        (s, Seq::empty())
    }
}

/// The state after `event` and the effects it asks for.
pub open spec fn next(s: SessionView, event: Event) -> (SessionView, Seq<Effect>) {
    match event {
        Event::HistoryLoaded(loaded) => after_history_loaded(
            s,
            match loaded {
                Some(projects) => Some(projects@),
                None => None,
            },
        ),
        Event::GuideOpened => (
            SessionView { guide_open: true, ..s },
            if s.guide_open {
                Seq::empty()
            } else {
                seq![Effect::FocusGuideClose]
            },
        ),
        Event::GuideClosed => (SessionView { guide_open: false, ..s }, seq![Effect::FocusGuideTrigger]),
        Event::CameraRequested => (SessionView { camera_error: None, ..s }, Seq::empty()),
        Event::CameraStarted => (SessionView { camera_on: true, ..s }, Seq::empty()),
        Event::CameraFailed(message) => (
            SessionView { camera_error: Some(message@), ..s },
            Seq::empty(),
        ),
        Event::PhotoRequested => (
            SessionView { import_error: None, ..s },
            seq![Effect::OpenFilePicker],
        ),
        Event::ImportStarted => (SessionView { busy: true, ..s }, Seq::empty()),
        Event::ImportFinished(imported) => after_import(s, imported),
        Event::DragStarted(at) => after_drag_started(s, at),
        Event::DragMoved(at) => after_drag_moved(s, at),
        Event::DragEnded { now } => after_drag_ended(s, now),
        Event::NumberChanged { field, value, now } => changed_current(
            s,
            match s.current {
                Some(project) => with_number(project, field@, value, s.position_locked),
                None => None,
            },
            now,
        ),
        Event::FlipRequested { now } => changed_current(
            s,
            match s.current {
                Some(project) => if s.position_locked {
                    None
                } else {
                    Some(Project { flipped: !project.flipped, ..project })
                },
                None => None,
            },
            now,
        ),
        Event::ResetRequested { now } => changed_current(
            s,
            match s.current {
                Some(project) => if s.position_locked {
                    None
                } else {
                    Some(reset_alignment(project))
                },
                None => None,
            },
            now,
        ),
        Event::OverlayToggled => (
            SessionView { overlay_hidden: !s.overlay_hidden, ..s },
            Seq::empty(),
        ),
        Event::LockToggled { now } => after_lock_toggled(s, now),
        Event::IntroSkipped => (
            SessionView { onboarding_dismissed: true, ..s },
            seq![Effect::RememberDismissal(Preference::Onboarding)],
        ),
        Event::AlignmentHintDismissed => (
            SessionView { alignment_hint_dismissed: true, ..s },
            seq![Effect::RememberDismissal(Preference::AlignmentHint)],
        ),
        Event::CurrentRemoved => after_current_removed(s),
        Event::HistorySelected(index) => after_history_selected(s, index as int),
    }
}

fn clamp_to_i64(v: i128) -> (r: i64)
    ensures
        r == clamp_i64(v as int),
{
    if v < i64::MIN as i128 {
        i64::MIN
    } else if v > i64::MAX as i128 {
        i64::MAX
    } else {
        v as i64
    }
}

fn copy_of(project: &Option<Project>) -> (copy: Option<Project>)
    ensures
        copy == *project,
{
    match project {
        Some(p) => Some(p.clone()),
        None => None,
    }
}

impl Session {
    /// A session at the first render: nothing loaded yet, camera off, nothing open.
    /// `onboarding_stored` and `hint_stored` are the values stored under
    /// `ONBOARDING_KEY` and `ALIGNMENT_HINT_KEY`, if any could be read.
    pub fn new(onboarding_stored: Option<&str>, hint_stored: Option<&str>) -> (session: Session)
        ensures
            session@ == (SessionView {
                current: None,
                history: Seq::empty(),
                history_loaded: false,
                camera_on: false,
                camera_error: None,
                import_error: None,
                busy: false,
                overlay_hidden: false,
                position_locked: false,
                onboarding_dismissed: onboarding_stored is Some && onboarding_stored->0@
                    == crate::onboarding::DISMISSED_VALUE@,
                alignment_hint_dismissed: hint_stored is Some && hint_stored->0@
                    == crate::onboarding::DISMISSED_VALUE@,
                guide_open: false,
                drag: None,
            }),
    {
        Session {
            current: None,
            history: Vec::new(),
            history_loaded: false,
            camera_on: false,
            camera_error: None,
            import_error: None,
            busy: false,
            overlay_hidden: false,
            position_locked: false,
            onboarding_dismissed: crate::onboarding::stored_value_is_dismissed(onboarding_stored),
            alignment_hint_dismissed: crate::onboarding::stored_value_is_dismissed(hint_stored),
            guide_open: false,
            drag: None,
        }
    }

    /// Applies `event`: the state becomes `next(old, event).0` and the returned effects
    /// are `next(old, event).1`.
    pub fn handle(&mut self, event: Event) -> (effects: Vec<Effect>)
        ensures
            final(self)@ == next(old(self)@, event).0,
            effects@ == next(old(self)@, event).1,
    {
        match event {
            Event::HistoryLoaded(loaded) => self.load_history(loaded),
            Event::GuideOpened => {
                let was_open = self.guide_open;
                self.guide_open = true;
                let mut effects = Vec::new();
                if !was_open {
                    effects.push(Effect::FocusGuideClose);
                }
                effects
            },
            Event::GuideClosed => {
                self.guide_open = false;
                let mut effects = Vec::new();
                effects.push(Effect::FocusGuideTrigger);
                effects
            },
            Event::CameraRequested => {
                self.camera_error = None;
                Vec::new()
            },
            Event::CameraStarted => {
                self.camera_on = true;
                Vec::new()
            },
            Event::CameraFailed(message) => {
                self.camera_error = Some(message);
                Vec::new()
            },
            Event::PhotoRequested => {
                self.import_error = None;
                let mut effects = Vec::new();
                effects.push(Effect::OpenFilePicker);
                effects
            },
            Event::ImportStarted => {
                self.busy = true;
                Vec::new()
            },
            Event::ImportFinished(imported) => self.finish_import(imported),
            Event::DragStarted(at) => self.start_drag(at),
            Event::DragMoved(at) => self.move_drag(at),
            Event::DragEnded { now } => self.end_drag(now),
            Event::NumberChanged { field, value, now } => self.change_number(&field, value, now),
            Event::FlipRequested { now } => self.flip_current(now),
            Event::ResetRequested { now } => self.reset_current(now),
            Event::OverlayToggled => {
                self.overlay_hidden = !self.overlay_hidden;
                Vec::new()
            },
            Event::LockToggled { now } => self.toggle_lock(now),
            Event::IntroSkipped => {
                let mut effects = Vec::new();
                if crate::onboarding::should_dismiss_onboarding(false, true) {
                    self.onboarding_dismissed = true;
                    effects.push(Effect::RememberDismissal(Preference::Onboarding));
                }
                effects
            },
            Event::AlignmentHintDismissed => {
                self.alignment_hint_dismissed = true;
                let mut effects = Vec::new();
                effects.push(Effect::RememberDismissal(Preference::AlignmentHint));
                effects
            },
            Event::CurrentRemoved => self.remove_current(),
            Event::HistorySelected(index) => self.select_recent(index),
        }
    }

    fn load_history(&mut self, loaded: Option<Vec<Project>>) -> (effects: Vec<Effect>)
        ensures
            final(self)@ == after_history_loaded(
                old(self)@,
                match loaded {
                    Some(projects) => Some(projects@),
                    None => None,
                },
            ).0,
            effects@ == after_history_loaded(
                old(self)@,
                match loaded {
                    Some(projects) => Some(projects@),
                    None => None,
                },
            ).1,
    {
        self.history_loaded = true;
        let mut effects = Vec::new();
        match loaded {
            Some(projects) => {
                let any = projects.len() > 0;
                self.history = projects;
                if any {
                    self.onboarding_dismissed = true;
                    effects.push(Effect::RememberDismissal(Preference::Onboarding));
                }
            },
            None => {},
        }
        effects
    }

    /// Shows `project` as changed at `now`, records it among the recent projects and
    /// asks for it to be saved.
    fn commit(&mut self, project: Project, now: u64) -> (effects: Vec<Effect>)
        ensures
            final(self)@ == committed(old(self)@, project, now).0,
            effects@ == committed(old(self)@, project, now).1,
    {
        let mut changed = project;
        changed.updated_at = now;
        let saved = changed.clone();
        let shown = changed.clone();
        let mut history = Vec::new();
        std::mem::swap(&mut history, &mut self.history);
        self.history = record_change(history, changed);
        self.current = Some(shown);
        let mut effects = Vec::new();
        effects.push(Effect::SaveProject(saved));
        effects
    }

    fn finish_import(&mut self, imported: Option<Project>) -> (effects: Vec<Effect>)
        ensures
            final(self)@ == after_import(old(self)@, imported).0,
            effects@ == after_import(old(self)@, imported).1,
    {
        self.busy = false;
        let mut effects = Vec::new();
        match imported {
            Some(project) => {
                let saved = project.clone();
                let shown = project.clone();
                let mut history = Vec::new();
                std::mem::swap(&mut history, &mut self.history);
                self.history = add_new_project(history, project);
                self.current = Some(shown);
                self.overlay_hidden = false;
                self.position_locked = false;
                self.drag = None;
                self.import_error = None;
                effects.push(Effect::SaveProject(saved));
                if crate::onboarding::should_dismiss_onboarding(true, false) {
                    self.onboarding_dismissed = true;
                    effects.push(Effect::RememberDismissal(Preference::Onboarding));
                }
            },
            None => {
                self.import_error = Some(String::from_str(IMPORT_FAILED_MESSAGE));
            },
        }
        effects
    }

    fn start_drag(&mut self, at: Option<Point>) -> (effects: Vec<Effect>)
        ensures
            final(self)@ == after_drag_started(old(self)@, at).0,
            effects@ == after_drag_started(old(self)@, at).1,
    {
        let mut effects = Vec::new();
        if self.position_locked {
            return effects;
        }
        if let Some(point) = at {
            if let Some(project) = &self.current {
                let image_x = project.x;
                let image_y = project.y;
                let copy = project.clone();
                self.drag = Some(Drag { start: point, image_x, image_y, project: copy });
                effects.push(Effect::ConsumeGesture);
            }
        }
        effects
    }

    fn move_drag(&mut self, at: Option<Point>) -> (effects: Vec<Effect>)
        ensures
            final(self)@ == after_drag_moved(old(self)@, at).0,
            effects@ == after_drag_moved(old(self)@, at).1,
    {
        let mut effects = Vec::new();
        if self.position_locked {
            self.drag = None;
            return effects;
        }
        let point = match at {
            Some(point) => point,
            None => return effects,
        };
        let mut drag = match self.drag.take() {
            Some(drag) => drag,
            None => return effects,
        };
        effects.push(Effect::ConsumeGesture);
        let x = clamp_to_i64(drag.image_x as i128 + (point.x as i128 - drag.start.x as i128));
        let y = clamp_to_i64(drag.image_y as i128 + (point.y as i128 - drag.start.y as i128));
        if drag.project.move_to(x, y, self.position_locked) {
            self.current = Some(drag.project.clone());
        }
        self.drag = Some(drag);
        effects
    }

    fn end_drag(&mut self, now: u64) -> (effects: Vec<Effect>)
        ensures
            final(self)@ == after_drag_ended(old(self)@, now).0,
            effects@ == after_drag_ended(old(self)@, now).1,
    {
        if self.position_locked {
            self.drag = None;
            return Vec::new();
        }
        match self.drag.take() {
            Some(drag) => self.commit(drag.project, now),
            None => Vec::new(),
        }
    }

    fn change_number(&mut self, field: &String, value: i64, now: u64) -> (effects: Vec<Effect>)
        ensures
            final(self)@ == changed_current(
                old(self)@,
                match old(self).current {
                    Some(project) => with_number(project, field@, value, old(self).position_locked),
                    None => None,
                },
                now,
            ).0,
            effects@ == changed_current(
                old(self)@,
                match old(self).current {
                    Some(project) => with_number(project, field@, value, old(self).position_locked),
                    None => None,
                },
                now,
            ).1,
    {
        match copy_of(&self.current) {
            Some(mut project) => {
                if project.set_number(field.as_str(), value, self.position_locked) {
                    self.commit(project, now)
                } else {
                    Vec::new()
                }
            },
            None => Vec::new(),
        }
    }

    fn flip_current(&mut self, now: u64) -> (effects: Vec<Effect>)
        ensures
            final(self)@ == next(old(self)@, Event::FlipRequested { now }).0,
            effects@ == next(old(self)@, Event::FlipRequested { now }).1,
    {
        match copy_of(&self.current) {
            Some(mut project) => {
                if project.flip(self.position_locked) {
                    self.commit(project, now)
                } else {
                    Vec::new()
                }
            },
            None => Vec::new(),
        }
    }

    fn reset_current(&mut self, now: u64) -> (effects: Vec<Effect>)
        ensures
            final(self)@ == next(old(self)@, Event::ResetRequested { now }).0,
            effects@ == next(old(self)@, Event::ResetRequested { now }).1,
    {
        match copy_of(&self.current) {
            Some(mut project) => {
                if project.reset(self.position_locked) {
                    self.commit(project, now)
                } else {
                    Vec::new()
                }
            },
            None => Vec::new(),
        }
    }

    fn toggle_lock(&mut self, now: u64) -> (effects: Vec<Effect>)
        ensures
            final(self)@ == after_lock_toggled(old(self)@, now).0,
            effects@ == after_lock_toggled(old(self)@, now).1,
    {
        if self.current.is_none() {
            return Vec::new();
        }
        let locking = !self.position_locked;
        self.position_locked = locking;
        let active = self.drag.take();
        let mut effects = match active {
            Some(drag) => if locking {
                self.commit(drag.project, now)
            } else {
                Vec::new()
            },
            None => Vec::new(),
        };
        if locking {
            self.alignment_hint_dismissed = true;
            effects.push(Effect::RememberDismissal(Preference::AlignmentHint));
        }
        effects
    }

    fn remove_current(&mut self) -> (effects: Vec<Effect>)
        ensures
            final(self)@ == after_current_removed(old(self)@).0,
            effects@ == after_current_removed(old(self)@).1,
    {
        let removed_id = match &self.current {
            Some(project) => project.id.clone(),
            None => return Vec::new(),
        };
        let mut history = Vec::new();
        std::mem::swap(&mut history, &mut self.history);
        let kept = remove_id(history, &removed_id);
        self.current = if kept.len() > 0 {
            Some(kept[0].clone())
        } else {
            None
        };
        self.history = kept;
        self.overlay_hidden = false;
        self.position_locked = false;
        self.drag = None;
        let mut effects = Vec::new();
        effects.push(Effect::DeleteProject(removed_id));
        effects
    }

    fn select_recent(&mut self, index: usize) -> (effects: Vec<Effect>)
        ensures
            final(self)@ == after_history_selected(old(self)@, index as int).0,
            effects@ == after_history_selected(old(self)@, index as int).1,
    {
        if index >= self.history.len() {
            return Vec::new();
        }
        let item = self.history[index].clone();
        let selected = match &self.current {
            Some(project) => project.id == item.id,
            None => false,
        };
        self.current = Some(item);
        self.overlay_hidden = false;
        if !selected {
            self.position_locked = false;
            self.drag = None;
        }
        Vec::new()
    }

    /// The recent project at `index` is the one already shown.
    pub fn is_selected(&self, index: usize) -> (selected: bool)
        ensures
            selected == is_selected(self@, index as int),
    {
        if index >= self.history.len() {
            return false;
        }
        match &self.current {
            Some(project) => project.id == self.history[index].id,
            None => false,
        }
    }
}

} // verus!
