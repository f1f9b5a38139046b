//! Properties that hold of every session and every event.
use vstd::prelude::*;

use crate::history::{
    capped, distinct_ids, first_index_of, has_id, lemma_order_by_recency,
    lemma_order_by_recency_members, lemma_without_id, newest_first, order_by_recency,
    replace_or_prepend, with_changed_project, without_id, HISTORY_LIMIT,
};
use crate::project::{project_id, same_placement, Project};
use crate::session::{committed, next, Effect, Event, Point, Preference, SessionView};

verus! {

/// While the position is locked, no event moves, scales, rotates or mirrors the photo
/// on screen, nor swaps it for another, unless the event brings in a different photo
/// (a new import, a deletion, a pick from the recent projects).
pub proof fn lock_keeps_placement(s: SessionView, event: Event)
    requires
        s.position_locked,
        s.current is Some,
        !(event matches Event::ImportFinished(Some(_))),
        !(event is CurrentRemoved),
        !(event is HistorySelected),
    ensures
        next(s, event).0.current matches Some(shown) && same_placement(shown, s.current->0)
            && shown.id == s.current->0.id && shown.image == s.current->0.image,
{
}

/// Only the lock button locks the position.
pub proof fn only_the_lock_button_locks(s: SessionView, event: Event)
    requires
        !s.position_locked,
        next(s, event).0.position_locked,
    ensures
        event is LockToggled,
{
}

/// A locked position is only released by the lock button, or when a different photo
/// is brought in.
pub proof fn lock_released_only_on_purpose(s: SessionView, event: Event)
    requires
        s.position_locked,
        !next(s, event).0.position_locked,
    ensures
        event is LockToggled || event is ImportFinished || event is CurrentRemoved
            || event is HistorySelected,
{
}

/// Once the introduction or the alignment tip has been dismissed it stays dismissed.
pub proof fn dismissals_are_permanent(s: SessionView, event: Event)
    ensures
        s.onboarding_dismissed ==> next(s, event).0.onboarding_dismissed,
        s.alignment_hint_dismissed ==> next(s, event).0.alignment_hint_dismissed,
{
}

/// The introduction is dismissed only by an explicit skip, a successful import, or
/// finding saved projects; the dismissal is then remembered.
pub proof fn onboarding_dismissed_only_on_purpose(s: SessionView, event: Event)
    requires
        !s.onboarding_dismissed,
        next(s, event).0.onboarding_dismissed,
    ensures
        event is IntroSkipped || event matches Event::ImportFinished(Some(_)) || event matches Event::HistoryLoaded(
            Some(_),
        ),
        next(s, event).1.contains(Effect::RememberDismissal(Preference::Onboarding)),
{
    let effects = next(s, event).1;
    match event {
        Event::IntroSkipped => {
            assert(effects[0] == Effect::RememberDismissal(Preference::Onboarding));
        },
        Event::ImportFinished(_) => {
            assert(effects[1] == Effect::RememberDismissal(Preference::Onboarding));
        },
        _ => {
            assert(effects[0] == Effect::RememberDismissal(Preference::Onboarding));
        },
    }
}

/// What is saved is what is shown: every save asks for the project now on screen.
pub proof fn saves_show_the_saved_project(s: SessionView, event: Event, i: int)
    requires
        0 <= i < next(s, event).1.len(),
        next(s, event).1[i] is SaveProject,
    ensures
        next(s, event).0.current == Some(next(s, event).1[i]->SaveProject_0),
{
}

/// No event other than loading the saved projects lets the recent projects grow past
/// a dozen.
pub proof fn history_stays_capped(s: SessionView, event: Event)
    requires
        s.history.len() <= HISTORY_LIMIT,
        !(event is HistoryLoaded),
    ensures
        next(s, event).0.history.len() <= HISTORY_LIMIT,
{
    lemma_capped_keeps(next(s, event).0.history);
    match s.current {
        Some(project) => {
            s.history.lemma_filter_len(crate::history::lacks_id(project.id@));
        },
        None => {},
    }
    match event {
        Event::ImportFinished(Some(project)) => {
            lemma_capped_keeps(seq![project] + s.history);
        },
        _ => {},
    }
}

/// After a change of the shown project has been saved, the recent projects run from
/// the most to the least recently changed.
pub proof fn changes_keep_recent_projects_newest_first(s: SessionView, event: Event, i: int)
    requires
        0 <= i < next(s, event).1.len(),
        next(s, event).1[i] is SaveProject,
        !(event is ImportFinished),
    ensures
        newest_first(next(s, event).0.history),
{
    let saved = next(s, event).1[i]->SaveProject_0;
    let ordered = order_by_recency(replace_or_prepend(s.history, saved));
    lemma_order_by_recency(replace_or_prepend(s.history, saved));
    lemma_capped_keeps(ordered);
}

/// Ordering the recent projects neither loses nor duplicates any of them.
pub proof fn ordering_keeps_every_project(history: Seq<Project>)
    ensures
        order_by_recency(history).to_multiset() =~= history.to_multiset(),
        newest_first(order_by_recency(history)),
{
    lemma_order_by_recency(history);
}

/// Deleting the shown project removes every recent entry with its identifier and asks
/// for the stored copy to be deleted.
pub proof fn removal_forgets_the_project(s: SessionView)
    requires
        s.current is Some,
    ensures
        forall|i: int|
            0 <= i < next(s, Event::CurrentRemoved).0.history.len() ==> #[trigger] next(
                s,
                Event::CurrentRemoved,
            ).0.history[i].id@ != s.current->0.id@,
        next(s, Event::CurrentRemoved).1 == seq![Effect::DeleteProject(s.current->0.id)],
{
    let id = s.current->0.id@;
    let kept = without_id(s.history, id);
    assert forall|i: int| 0 <= i < kept.len() implies #[trigger] kept[i].id@ != id by {
        s.history.lemma_filter_pred(crate::history::lacks_id(id), i);
    }
}

/// Hiding and showing the overlay again restores the session.
pub proof fn overlay_toggle_is_undone_by_a_second_toggle(s: SessionView)
    ensures
        next(next(s, Event::OverlayToggled).0, Event::OverlayToggled).0 == s,
{
}

/// Mirroring the photo twice restores its alignment.
pub proof fn flip_is_undone_by_a_second_flip(s: SessionView, first: u64, second: u64)
    requires
        s.current is Some,
        !s.position_locked,
    ensures
        next(next(s, Event::FlipRequested { now: first }).0, Event::FlipRequested { now: second }).0.current
            == Some(Project { updated_at: second, ..s.current->0 }),
{
}

/// The photo a drag from `from` to `to` shows: moved by the distance travelled,
/// clamped to the range of the coordinates.
pub open spec fn dragged(p: Project, from: Point, to: Point) -> Project {
    Project {
        x: crate::session::clamp_i64(p.x + (to.x - from.x)),
        y: crate::session::clamp_i64(p.y + (to.y - from.y)),
        ..p
    }
}

/// A drag of the unlocked photo from `from` to `to` shows the photo moved by the
/// distance travelled and saves nothing while moving; the release commits that photo
/// once, as changed at `now`, and ends the drag.
pub proof fn drag_follows_the_pointer(s: SessionView, from: Point, to: Point, now: u64)
    requires
        s.current is Some,
        !s.position_locked,
    ensures
        ({
            let (started, on_down) = next(s, Event::DragStarted(Some(from)));
            let (moved, on_move) = next(started, Event::DragMoved(Some(to)));
            let (released, on_up) = next(moved, Event::DragEnded { now });
            let target = dragged(s.current->0, from, to);
            &&& on_down == seq![Effect::ConsumeGesture]
            &&& on_move == seq![Effect::ConsumeGesture]
            &&& moved.current == Some(target)
            &&& moved.history == s.history
            &&& released.current == Some(Project { updated_at: now, ..target })
            &&& on_up == seq![Effect::SaveProject(Project { updated_at: now, ..target })]
            &&& released.drag is None
        }),
{
}

/// Where the sums fit in the coordinates, a drag moves the photo by exactly the
/// distance travelled.
pub proof fn drag_moves_by_the_exact_distance(s: SessionView, from: Point, to: Point)
    requires
        s.current is Some,
        i64::MIN <= s.current->0.x + (to.x - from.x) <= i64::MAX,
        i64::MIN <= s.current->0.y + (to.y - from.y) <= i64::MAX,
    ensures
        dragged(s.current->0, from, to).x == s.current->0.x + (to.x - from.x),
        dragged(s.current->0, from, to).y == s.current->0.y + (to.y - from.y),
{
}

/// Without a photo, a pointer or touch going down starts no drag and is left to the
/// browser.
pub proof fn no_drag_without_a_photo(s: SessionView, at: Option<Point>)
    requires
        s.current is None,
    ensures
        next(s, Event::DragStarted(at)).0 == s,
        next(s, Event::DragStarted(at)).1 == Seq::<Effect>::empty(),
{
}

/// Projects created at different times get different identifiers.
pub proof fn ids_of_new_projects_differ(a: u64, b: u64)
    requires
        a != b,
    ensures
        project_id(a) != project_id(b),
{
    let prefix = "project-"@;
    if project_id(a) == project_id(b) {
        let n = prefix.len() as int;
        assert(project_id(a).subrange(n, project_id(a).len() as int) =~= crate::text::decimal_digits(
            a as nat,
        ));
        assert(project_id(b).subrange(n, project_id(b).len() as int) =~= crate::text::decimal_digits(
            b as nat,
        ));
        crate::text::lemma_decimal_digits_injective(a as nat, b as nat);
    }
}

/// `project` was last changed no later than `clock`, and when its identifier is one
/// that `Project::new` gives (`project-` and a time), that time is no later than `clock`.
pub open spec fn made_by_then(project: Project, clock: u64) -> bool {
    &&& project.updated_at <= clock
    &&& forall|created: u64| #[trigger] project_id(created) == project.id@ ==> created <= clock
}

/// The recent projects as the page promises them, for a clock that reads `clock`: at
/// most a dozen, distinct identifiers, newest first, all made and changed by then.
pub open spec fn sound_recent_list(history: Seq<Project>, clock: u64) -> bool {
    &&& history.len() <= HISTORY_LIMIT
    &&& distinct_ids(history)
    &&& newest_first(history)
    &&& forall|i: int| 0 <= i < history.len() ==> made_by_then(#[trigger] history[i], clock)
}

/// The recent projects are sound, and the shown and dragged projects were made and
/// changed by `clock` too.
pub open spec fn sound_session(s: SessionView, clock: u64) -> bool {
    &&& sound_recent_list(s.history, clock)
    &&& (s.current matches Some(p) ==> made_by_then(p, clock))
    &&& (s.drag matches Some(d) ==> made_by_then(d.project, clock))
}

/// The event comes from a clock that read `clock` before it and only runs forward: a
/// change happens no earlier than `clock`, a new project is made by `Project::new`
/// strictly later, and loaded projects form a sound list: at most a dozen, distinct
/// identifiers, newest first, and the clock already past them (any identifier of them
/// may be used, provided a `project-<time>` one names a time not after `clock`).
pub open spec fn follows_clock(event: Event, clock: u64) -> bool {
    match event {
        Event::HistoryLoaded(Some(projects)) => sound_recent_list(projects@, clock),
        Event::ImportFinished(Some(project)) => project.id@ == project_id(project.updated_at)
            && clock < project.updated_at,
        Event::DragEnded { now } => clock <= now,
        Event::NumberChanged { now, .. } => clock <= now,
        Event::FlipRequested { now } => clock <= now,
        Event::ResetRequested { now } => clock <= now,
        Event::LockToggled { now } => clock <= now,
        _ => true,
    }
}

/// The clock's reading after the event.
pub open spec fn clock_after(event: Event, clock: u64) -> u64 {
    match event {
        Event::ImportFinished(Some(project)) => project.updated_at,
        Event::DragEnded { now } => now,
        Event::NumberChanged { now, .. } => now,
        Event::FlipRequested { now } => now,
        Event::ResetRequested { now } => now,
        Event::LockToggled { now } => now,
        _ => clock,
    }
}

proof fn lemma_made_later(project: Project, clock: u64, later: u64)
    requires
        made_by_then(project, clock),
        clock <= later,
    ensures
        made_by_then(project, later),
{
}

proof fn lemma_made_changed(project: Project, changed: Project, clock: u64, now: u64)
    requires
        made_by_then(project, clock),
        clock <= now,
        changed.id == project.id,
        changed.updated_at == now || changed.updated_at == project.updated_at,
    ensures
        made_by_then(changed, now),
{
}

proof fn lemma_session_later(s: SessionView, clock: u64, later: u64)
    requires
        sound_session(s, clock),
        clock <= later,
    ensures
        sound_session(s, later),
{
    assert forall|i: int| 0 <= i < s.history.len() implies made_by_then(
        #[trigger] s.history[i],
        later,
    ) by {
        lemma_made_later(s.history[i], clock, later);
    }
    if let Some(p) = s.current {
        lemma_made_later(p, clock, later);
    }
    if let Some(d) = s.drag {
        lemma_made_later(d.project, clock, later);
    }
}

proof fn lemma_capped_keeps(history: Seq<Project>)
    ensures
        capped(history).len() <= HISTORY_LIMIT,
        forall|i: int| 0 <= i < capped(history).len() ==> #[trigger] capped(history)[i] == history[i],
        distinct_ids(history) ==> distinct_ids(capped(history)),
        newest_first(history) ==> newest_first(capped(history)),
{
}

proof fn lemma_committed_sound(s: SessionView, project: Project, now: u64, clock: u64)
    requires
        sound_session(s, clock),
        made_by_then(project, clock),
        clock <= now,
    ensures
        sound_session(committed(s, project, now).0, now),
{
    let changed = Project { updated_at: now, ..project };
    lemma_made_changed(project, changed, clock, now);
    lemma_session_later(s, clock, now);
    let h = s.history;
    let replaced = replace_or_prepend(h, changed);
    assert(forall|i: int| 0 <= i < replaced.len() ==> #[trigger] replaced[i] == changed
        || h.contains(replaced[i]));
    assert(distinct_ids(replaced)) by {
        if has_id(h, changed.id@) {
            let k = first_index_of(h, changed.id@);
            let w = choose|i: int| 0 <= i < h.len() && h[i].id@ == changed.id@;
            assert(0 <= k < h.len() && h[k].id@ == changed.id@);
            assert forall|i: int, j: int| 0 <= i < j < replaced.len() implies replaced[i].id@
                != replaced[j].id@ by {
                assert(replaced[i].id@ == h[i].id@);
                assert(replaced[j].id@ == h[j].id@);
            }
        } else {
            assert forall|i: int, j: int| 0 <= i < j < replaced.len() implies replaced[i].id@
                != replaced[j].id@ by {
                assert(replaced[j] == h[j - 1]);
                if i > 0 {
                    assert(replaced[i] == h[i - 1]);
                }
            }
        }
    }
    assert forall|i: int| 0 <= i < replaced.len() implies made_by_then(#[trigger] replaced[i], now) by {
        if replaced[i] != changed {
            let m = choose|m: int| 0 <= m < h.len() && h[m] == replaced[i];
            assert(made_by_then(h[m], now));
        }
    }
    let ordered = order_by_recency(replaced);
    lemma_order_by_recency(replaced);
    lemma_order_by_recency_members(replaced);
    lemma_capped_keeps(ordered);
    let result = capped(ordered);
    assert(result == with_changed_project(h, changed));
    assert forall|i: int| 0 <= i < result.len() implies made_by_then(#[trigger] result[i], now) by {
        assert(result[i] == ordered[i]);
        assert(replaced.contains(ordered[i]));
        let m = choose|m: int| 0 <= m < replaced.len() && replaced[m] == ordered[i];
        assert(made_by_then(replaced[m], now));
    }
}

proof fn lemma_import_sound(s: SessionView, project: Project, clock: u64)
    requires
        sound_session(s, clock),
        project.id@ == project_id(project.updated_at),
        clock < project.updated_at,
    ensures
        sound_session(next(s, Event::ImportFinished(Some(project))).0, project.updated_at),
{
    let now = project.updated_at;
    let h = s.history;
    lemma_session_later(s, clock, now);
    assert(project_id(now) == project.id@);
    assert forall|created: u64| #[trigger] project_id(created) == project.id@ implies created
        <= now by {
        if created != now {
            ids_of_new_projects_differ(created, now);
        }
    }
    assert(made_by_then(project, now));
    let grown = seq![project] + h;
    assert forall|i: int| 0 <= i < h.len() implies #[trigger] h[i].id@ != project.id@
        && h[i].updated_at < now by {
        assert(made_by_then(h[i], clock));
        if h[i].id@ == project.id@ {
            assert(project_id(now) == h[i].id@);
        }
    }
    assert(distinct_ids(grown)) by {
        assert forall|i: int, j: int| 0 <= i < j < grown.len() implies grown[i].id@
            != grown[j].id@ by {
            assert(grown[j] == h[j - 1]);
            if i > 0 {
                assert(grown[i] == h[i - 1]);
            }
        }
    }
    assert(newest_first(grown)) by {
        assert forall|i: int, j: int| 0 <= i < j < grown.len() implies grown[i].updated_at
            >= grown[j].updated_at by {
            assert(grown[j] == h[j - 1]);
            if i > 0 {
                assert(grown[i] == h[i - 1]);
            }
        }
    }
    lemma_capped_keeps(grown);
    let result = capped(grown);
    assert forall|i: int| 0 <= i < result.len() implies made_by_then(#[trigger] result[i], now) by {
        assert(result[i] == grown[i]);
        if i > 0 {
            assert(grown[i] == h[i - 1]);
        }
    }
}

proof fn lemma_removal_sound(s: SessionView, clock: u64)
    requires
        sound_session(s, clock),
    ensures
        sound_session(next(s, Event::CurrentRemoved).0, clock),
{
    if let Some(project) = s.current {
        let h = s.history;
        let kept = without_id(h, project.id@);
        lemma_without_id(h, project.id@);
        h.lemma_filter_len(crate::history::lacks_id(project.id@));
        assert forall|i: int| 0 <= i < kept.len() implies made_by_then(#[trigger] kept[i], clock) by {
            assert(h.contains(kept[i]));
            let m = choose|m: int| 0 <= m < h.len() && h[m] == kept[i];
            assert(made_by_then(h[m], clock));
        }
        if kept.len() > 0 {
            assert(made_by_then(kept[0], clock));
        }
    }
}

/// With a clock that only runs forward (`follows_clock`), every event keeps the
/// recent projects at most a dozen, with distinct identifiers, newest first, and all
/// made and changed by the clock's reading; the shown and dragged projects too.
pub proof fn recent_projects_stay_sound(s: SessionView, event: Event, clock: u64)
    requires
        sound_session(s, clock),
        follows_clock(event, clock),
    ensures
        clock <= clock_after(event, clock),
        sound_session(next(s, event).0, clock_after(event, clock)),
{
    match event {
        Event::HistoryLoaded(loaded) => {},
        Event::ImportFinished(imported) => {
            if let Some(project) = imported {
                lemma_import_sound(s, project, clock);
            }
        },
        Event::DragStarted(at) => {},
        Event::DragMoved(at) => {
            if !s.position_locked {
                if let (Some(point), Some(drag)) = (at, s.drag) {
                    let (x, y) = crate::session::drag_target(drag, point);
                    let moved = Project { x, y, ..drag.project };
                    lemma_made_changed(drag.project, moved, clock, clock);
                }
            }
        },
        Event::DragEnded { now } => {
            lemma_session_later(s, clock, now);
            if !s.position_locked {
                if let Some(drag) = s.drag {
                    let released = SessionView { drag: None, ..s };
                    lemma_committed_sound(released, drag.project, now, clock);
                }
            }
        },
        Event::NumberChanged { field, value, now } => {
            lemma_session_later(s, clock, now);
            if let Some(project) = s.current {
                if let Some(changed) = crate::session::with_number(
                    project,
                    field@,
                    value,
                    s.position_locked,
                ) {
                    lemma_made_changed(project, changed, clock, clock);
                    lemma_committed_sound(s, changed, now, clock);
                }
            }
        },
        Event::FlipRequested { now } => {
            lemma_session_later(s, clock, now);
            if let Some(project) = s.current {
                let changed = Project { flipped: !project.flipped, ..project };
                lemma_made_changed(project, changed, clock, clock);
                lemma_committed_sound(s, changed, now, clock);
            }
        },
        Event::ResetRequested { now } => {
            lemma_session_later(s, clock, now);
            if let Some(project) = s.current {
                let changed = crate::session::reset_alignment(project);
                lemma_made_changed(project, changed, clock, clock);
                lemma_committed_sound(s, changed, now, clock);
            }
        },
        Event::LockToggled { now } => {
            lemma_session_later(s, clock, now);
            if s.current is Some {
                let locking = !s.position_locked;
                let released = SessionView { position_locked: locking, drag: None, ..s };
                if let Some(drag) = s.drag {
                    if locking {
                        lemma_committed_sound(released, drag.project, now, clock);
                        let saved = committed(released, drag.project, now).0;
                        assert(sound_session(SessionView { alignment_hint_dismissed: true, ..saved }, now));
                    }
                }
            }
        },
        Event::CurrentRemoved => {
            lemma_removal_sound(s, clock);
        },
        Event::HistorySelected(index) => {
            if 0 <= index < s.history.len() {
                assert(made_by_then(s.history[index as int], clock));
            }
        },
        _ => {},
    }
}

/// The prompt to start the camera is shown only while the camera is off, and never
/// over the introduction.
pub proof fn camera_prompt_only_while_camera_off(s: SessionView)
    ensures
        crate::screen::layout_of(s).show_camera_prompt ==> !s.camera_on,
        crate::screen::layout_of(s).show_camera_prompt ==> !crate::screen::layout_of(
            s,
        ).intro_visible,
        !s.camera_on && !crate::screen::layout_of(s).intro_visible ==> crate::screen::layout_of(
            s,
        ).show_camera_prompt,
{
}

/// Resetting the unlocked photo centres it again with the alignment of a new project
/// (half opaque, unscaled, unrotated, not mirrored), keeps the photo itself, and saves
/// it as changed at `now`; a locked photo is left alone and nothing is saved.
pub proof fn reset_restores_a_new_alignment(s: SessionView, now: u64)
    requires
        s.current is Some,
    ensures
        ({
            let p = s.current->0;
            let (after, effects) = next(s, Event::ResetRequested { now });
            let centred = Project {
                id: p.id,
                image: p.image,
                opacity: 50,
                rotation: 0,
                scale: 100,
                x: 0,
                y: 0,
                flipped: false,
                updated_at: now,
            };
            &&& !s.position_locked ==> after.current == Some(centred) && effects == seq![
                Effect::SaveProject(centred),
            ]
            &&& s.position_locked ==> after == s && effects.len() == 0
        }),
{
}

/// A number control sets exactly its own number of the shown photo and saves the photo
/// as changed at `now`: opacity always, rotation and scale only while the position is
/// unlocked. Every other number, the placement and the photo itself stay as they were.
pub proof fn number_controls_set_their_number(
    s: SessionView,
    field: String,
    value: i64,
    now: u64,
)
    requires
        s.current is Some,
    ensures
        ({
            let p = s.current->0;
            let (after, effects) = next(s, Event::NumberChanged { field, value, now });
            &&& field@ == "opacity"@ ==> after.current == Some(
                Project { opacity: value, updated_at: now, ..p },
            ) && effects == seq![
                Effect::SaveProject(Project { opacity: value, updated_at: now, ..p }),
            ]
            &&& field@ == "rotation"@ && !s.position_locked ==> after.current == Some(
                Project { rotation: value, updated_at: now, ..p },
            ) && effects == seq![
                Effect::SaveProject(Project { rotation: value, updated_at: now, ..p }),
            ]
            &&& field@ == "scale"@ && !s.position_locked ==> after.current == Some(
                Project { scale: value, updated_at: now, ..p },
            ) && effects == seq![
                Effect::SaveProject(Project { scale: value, updated_at: now, ..p }),
            ]
            &&& (field@ == "rotation"@ || field@ == "scale"@) && s.position_locked ==> after == s
                && effects.len() == 0
        }),
{
    reveal_strlit("opacity");
    reveal_strlit("rotation");
    reveal_strlit("scale");
    assert("rotation"@.len() != "opacity"@.len());
    assert("scale"@.len() != "opacity"@.len());
}

/// A successful import shows the new photo, uncovered and unlocked, first among the
/// recent projects, and saves it.
pub proof fn imported_photo_is_shown(s: SessionView, project: Project)
    ensures
        ({
            let (after, effects) = next(s, Event::ImportFinished(Some(project)));
            &&& after.current == Some(project)
            &&& !after.overlay_hidden
            &&& !after.position_locked
            &&& after.drag is None
            &&& !after.busy
            &&& after.import_error is None
            &&& after.history.len() >= 1 && after.history[0] == project
            &&& crate::screen::layout_of(after).show_photo
            &&& effects.contains(Effect::SaveProject(project))
        }),
{
    let effects = next(s, Event::ImportFinished(Some(project))).1;
    assert(effects[0] == Effect::SaveProject(project));
}

/// Picking a recent project shows that project, uncovered.
pub proof fn picked_project_is_shown(s: SessionView, index: usize)
    requires
        index < s.history.len(),
    ensures
        ({
            let after = next(s, Event::HistorySelected(index)).0;
            &&& after.current == Some(s.history[index as int])
            &&& !after.overlay_hidden
            &&& after.history == s.history
            &&& crate::screen::layout_of(after).show_photo
        }),
{
}

/// Mirroring the unlocked photo flips exactly its mirroring and saves it as changed at
/// `now`; a locked photo is left alone.
pub proof fn flip_mirrors_the_photo(s: SessionView, now: u64)
    requires
        s.current is Some,
    ensures
        ({
            let p = s.current->0;
            let (after, effects) = next(s, Event::FlipRequested { now });
            let mirrored = Project { flipped: !p.flipped, updated_at: now, ..p };
            &&& !s.position_locked ==> after.current == Some(mirrored) && effects == seq![
                Effect::SaveProject(mirrored),
            ]
            &&& s.position_locked ==> after == s && effects.len() == 0
        }),
{
}

/// The overlay button hides a shown overlay and shows a hidden one, changing nothing
/// else.
pub proof fn overlay_button_switches_the_overlay(s: SessionView)
    ensures
        next(s, Event::OverlayToggled).0.overlay_hidden == !s.overlay_hidden,
        next(s, Event::OverlayToggled).0 == (SessionView { overlay_hidden: !s.overlay_hidden, ..s }),
        next(s, Event::OverlayToggled).1.len() == 0,
{
}

/// With a photo shown, the lock button switches the lock; locking dismisses the
/// alignment tip and remembers that. Without a photo it does nothing.
pub proof fn lock_button_switches_the_lock(s: SessionView, now: u64)
    ensures
        s.current is Some ==> next(s, Event::LockToggled { now }).0.position_locked
            == !s.position_locked,
        s.current is Some ==> next(s, Event::LockToggled { now }).0.drag is None,
        s.current is Some && !s.position_locked ==> next(
            s,
            Event::LockToggled { now },
        ).0.alignment_hint_dismissed && next(s, Event::LockToggled { now }).1.contains(
            Effect::RememberDismissal(Preference::AlignmentHint),
        ),
        s.current is None ==> next(s, Event::LockToggled { now }).0 == s && next(
            s,
            Event::LockToggled { now },
        ).1.len() == 0,
{
    if s.current is Some && !s.position_locked {
        let effects = next(s, Event::LockToggled { now }).1;
        assert(effects[effects.len() - 1] == Effect::RememberDismissal(Preference::AlignmentHint));
    }
}

/// The camera events: a request clears the last error, a started camera is on, and a
/// failure shows its message.
pub proof fn camera_events_report_the_camera(s: SessionView, message: String)
    ensures
        next(s, Event::CameraRequested).0.camera_error is None,
        next(s, Event::CameraStarted).0.camera_on,
        next(s, Event::CameraFailed(message)).0.camera_error == Some(message@),
        !s.camera_on ==> !next(s, Event::CameraFailed(message)).0.camera_on,
{
}

/// Asking for a photo clears the last import error and opens the file picker; a failed
/// import shows the import error and ends the wait, leaving the shown photo alone.
pub proof fn photo_requests_and_failed_imports(s: SessionView)
    ensures
        next(s, Event::PhotoRequested).0.import_error is None,
        next(s, Event::PhotoRequested).1 == seq![Effect::OpenFilePicker],
        next(s, Event::ImportStarted).0.busy,
        next(s, Event::ImportFinished(None)).0.import_error == Some(
            crate::session::IMPORT_FAILED_MESSAGE@,
        ),
        !next(s, Event::ImportFinished(None)).0.busy,
        next(s, Event::ImportFinished(None)).0.current == s.current,
        next(s, Event::ImportFinished(None)).0.history == s.history,
{
}

/// Deleting the shown photo shows the first remaining recent project (none when the
/// list becomes empty), uncovered and unlocked.
pub proof fn removal_shows_the_next_project(s: SessionView)
    requires
        s.current is Some,
    ensures
        ({
            let after = next(s, Event::CurrentRemoved).0;
            &&& after.history.len() > 0 ==> after.current == Some(after.history[0])
            &&& after.history.len() == 0 ==> after.current is None
            &&& !after.overlay_hidden
            &&& !after.position_locked
            &&& after.drag is None
        }),
{
}

/// What the page shows: the photo exactly when one is current and not hidden (outside
/// the introduction); drags move it only while unlocked; the lock notice only while
/// locked; the alignment controls only for an unlocked photo.
pub proof fn layout_follows_the_state(s: SessionView)
    ensures
        ({
            let l = crate::screen::layout_of(s);
            &&& l.show_photo == (!l.intro_visible && s.current is Some && !s.overlay_hidden)
            &&& l.show_empty_state == (!l.intro_visible && !l.show_photo)
            &&& l.show_gesture_surface == (s.current is Some && !s.overlay_hidden
                && !s.position_locked)
            &&& l.show_lock_status ==> s.position_locked
            &&& l.alignment_controls_enabled == (s.current is Some && !s.position_locked)
            &&& l.show_alignment_hint ==> s.camera_on && !s.position_locked
                && !s.alignment_hint_dismissed
            &&& l.intro_visible == (s.history_loaded && !s.onboarding_dismissed && s.current is None
                && s.history.len() == 0)
            &&& l.photo_button_enabled == !s.busy
            &&& l.show_history == (!l.intro_visible && s.history.len() > 0)
            &&& l.show_guide == s.guide_open
        }),
{
}

} // verus!
