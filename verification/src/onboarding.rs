//! When the first-visit introduction is shown and how the stored "dismissed"
//! preferences are read.
use vstd::prelude::*;

use crate::text::text_equals;

verus! {

/// Storage key under which the dismissal of the introduction is remembered.
pub const ONBOARDING_KEY: &'static str = "camera-trace:onboarding:v1";

/// Storage key under which the dismissal of the alignment tip is remembered.
pub const ALIGNMENT_HINT_KEY: &'static str = "camera-trace:alignment-hint:v1";

/// The only stored value that counts as "dismissed".
pub const DISMISSED_VALUE: &'static str = "dismissed";

/// A stored preference counts as dismissed exactly when it holds the text `dismissed`;
/// a missing, empty or corrupted entry falls back to "not dismissed".
pub fn stored_value_is_dismissed(value: Option<&str>) -> (dismissed: bool)
    ensures
        dismissed == (value is Some && value->0@ == DISMISSED_VALUE@),
{
    match value {
        Some(text) => text_equals(text, DISMISSED_VALUE),
        None => false,
    }
}

/// The introduction is shown only once the saved projects have been loaded, and only
/// to a visitor who has not dismissed it and has neither an open nor a saved project.
pub fn should_show_intro(
    history_loaded: bool,
    onboarding_dismissed: bool,
    has_current_project: bool,
    has_saved_projects: bool,
) -> (show: bool)
    ensures
        show == (history_loaded && !onboarding_dismissed && !has_current_project
            && !has_saved_projects),
{
    history_loaded && !onboarding_dismissed && !has_current_project && !has_saved_projects
}

/// Only an explicit skip or a successful import dismisses the introduction.
pub fn should_dismiss_onboarding(import_succeeded: bool, explicit_skip: bool) -> (dismiss: bool)
    ensures
        dismiss == (import_succeeded || explicit_skip),
{
    import_succeeded || explicit_skip
}

} // verus!
