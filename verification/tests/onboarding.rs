use camera_trace::onboarding::{
    should_dismiss_onboarding, should_show_intro, stored_value_is_dismissed, ALIGNMENT_HINT_KEY,
    ONBOARDING_KEY,
};

#[test]
fn fresh_visit_shows_intro_only_after_project_storage_has_loaded() {
    assert!(!should_show_intro(false, false, false, false));
    assert!(should_show_intro(true, false, false, false));
}

#[test]
fn returning_or_active_projects_do_not_show_intro() {
    assert!(!should_show_intro(true, true, false, false));
    assert!(!should_show_intro(true, false, true, false));
    assert!(!should_show_intro(true, false, false, true));
}

#[test]
fn only_skip_or_successful_import_dismisses_onboarding() {
    assert!(should_dismiss_onboarding(false, true));
    assert!(should_dismiss_onboarding(true, false));
    assert!(!should_dismiss_onboarding(false, false));
}

#[test]
fn unavailable_or_corrupted_preference_falls_back_to_not_dismissed() {
    assert!(!stored_value_is_dismissed(None));
    assert!(!stored_value_is_dismissed(Some("")));
    assert!(!stored_value_is_dismissed(Some("true")));
    assert!(!stored_value_is_dismissed(Some("{bad json")));
    assert!(stored_value_is_dismissed(Some("dismissed")));
}

#[test]
fn near_misses_of_the_dismissed_value_do_not_count() {
    assert!(!stored_value_is_dismissed(Some("Dismissed")));
    assert!(!stored_value_is_dismissed(Some("dismissed ")));
    assert!(!stored_value_is_dismissed(Some("dismisse")));
    assert!(!stored_value_is_dismissed(Some("dismissedd")));
}

#[test]
fn preference_keys_are_versioned() {
    assert_eq!(ONBOARDING_KEY, "camera-trace:onboarding:v1");
    assert_eq!(ALIGNMENT_HINT_KEY, "camera-trace:alignment-hint:v1");
}
