//! Which parts of the page are shown and usable in a given state, and what the keys
//! do inside the setup guide.
use vstd::prelude::*;

use crate::onboarding::should_show_intro;
use crate::session::{Session, SessionView};
use crate::text::text_equals;

verus! {

/// The caption of the button that picks a reference photo.
#[derive(Clone, Copy, Debug, PartialEq, Eq, Structural)]
pub enum PhotoButton {
    /// A chosen photo is still being prepared.
    Preparing,
    /// A photo is shown and can be replaced.
    Replace,
    /// No photo yet.
    Choose,
}

/// The parts of the page and whether they are shown or usable.
#[derive(Clone, Copy, Debug, PartialEq, Eq, Structural)]
pub struct Layout {
    /// The first-visit introduction covers the page.
    pub intro_visible: bool,
    /// The reference photo is drawn over the camera view.
    pub show_photo: bool,
    /// The invitation to choose a photo is drawn instead of a photo.
    pub show_empty_state: bool,
    /// Drags on the camera view move the photo.
    pub show_gesture_surface: bool,
    /// The prompt to start the camera is shown.
    pub show_camera_prompt: bool,
    /// The notice that the position is locked is shown.
    pub show_lock_status: bool,
    /// The setup guide button and the control dock are shown.
    pub show_controls: bool,
    /// Caption of the photo button in the control dock.
    pub photo_button: PhotoButton,
    /// Caption of the photo button in the introduction.
    pub intro_photo_button: PhotoButton,
    /// A photo can be chosen now.
    pub photo_button_enabled: bool,
    /// The overlay can be hidden or shown.
    pub overlay_toggle_enabled: bool,
    /// Flip, reset, scale and rotation can be used.
    pub alignment_controls_enabled: bool,
    /// The tip on aligning the overlay is shown.
    pub show_alignment_hint: bool,
    /// The lock button and its explanation are shown.
    pub show_lock_row: bool,
    /// The opacity, scale and rotation sliders are shown.
    pub show_sliders: bool,
    /// The strip of recent projects is shown.
    pub show_history: bool,
    /// The current project can be deleted.
    pub delete_enabled: bool,
    /// The setup guide is open.
    pub show_guide: bool,
}

/// The layout of the page in state `s`.
pub open spec fn layout_of(s: SessionView) -> Layout {
    let has_photo = s.current is Some;
    let intro = s.history_loaded && !s.onboarding_dismissed && !has_photo && s.history.len() == 0;
    Layout {
        intro_visible: intro,
        show_photo: !intro && has_photo && !s.overlay_hidden,
        show_empty_state: !intro && !(has_photo && !s.overlay_hidden),
        show_gesture_surface: has_photo && !s.overlay_hidden && !s.position_locked,
        show_camera_prompt: !intro && !s.camera_on,
        show_lock_status: has_photo && !s.overlay_hidden && s.position_locked,
        show_controls: !intro,
        photo_button: if s.busy {
            PhotoButton::Preparing
        } else if has_photo {
            PhotoButton::Replace
        } else {
            PhotoButton::Choose
        },
        intro_photo_button: if s.busy {
            PhotoButton::Preparing
        } else {
            PhotoButton::Choose
        },
        photo_button_enabled: !s.busy,
        overlay_toggle_enabled: has_photo,
        alignment_controls_enabled: has_photo && !s.position_locked,
        show_alignment_hint: !intro && has_photo && s.camera_on && !s.position_locked
            && !s.alignment_hint_dismissed,
        show_lock_row: !intro && has_photo,
        show_sliders: !intro && has_photo,
        show_history: !intro && s.history.len() > 0,
        delete_enabled: has_photo,
        show_guide: s.guide_open,
    }
}

impl Session {
    /// The layout of the page in the current state.
    pub fn layout(&self) -> (layout: Layout)
        ensures
            layout == layout_of(self@),
    {
        let has_photo = self.current.is_some();
        let intro = should_show_intro(
            self.history_loaded,
            self.onboarding_dismissed,
            has_photo,
            self.history.len() > 0,
        );
        let photo_visible = has_photo && !self.overlay_hidden;
        Layout {
            intro_visible: intro,
            show_photo: !intro && photo_visible,
            show_empty_state: !intro && !photo_visible,
            show_gesture_surface: photo_visible && !self.position_locked,
            show_camera_prompt: !intro && !self.camera_on,
            show_lock_status: photo_visible && self.position_locked,
            show_controls: !intro,
            photo_button: if self.busy {
                PhotoButton::Preparing
            } else if has_photo {
                PhotoButton::Replace
            } else {
                PhotoButton::Choose
            },
            intro_photo_button: if self.busy {
                PhotoButton::Preparing
            } else {
                PhotoButton::Choose
            },
            photo_button_enabled: !self.busy,
            overlay_toggle_enabled: has_photo,
            alignment_controls_enabled: has_photo && !self.position_locked,
            show_alignment_hint: !intro && has_photo && self.camera_on && !self.position_locked
                && !self.alignment_hint_dismissed,
            show_lock_row: !intro && has_photo,
            show_sliders: !intro && has_photo,
            show_history: !intro && self.history.len() > 0,
            delete_enabled: has_photo,
            show_guide: self.guide_open,
        }
    }
}

/// What a key press does inside the open setup guide.
#[derive(Clone, Copy, Debug, PartialEq, Eq, Structural)]
pub enum GuideKey {
    /// Escape closes the guide.
    Close,
    /// Tab keeps the focus on the guide's close button.
    HoldFocus,
    /// Any other key is left to the browser.
    Ignore,
}

/// The action for the key named `key` (as in `KeyboardEvent.key`) inside the guide.
pub fn guide_key_action(key: &str) -> (action: GuideKey)
    ensures
        action == (if key@ == "Escape"@ {
            GuideKey::Close
        } else if key@ == "Tab"@ {
            GuideKey::HoldFocus
        } else {
            GuideKey::Ignore
        }),
{
    if text_equals(key, "Escape") {
        GuideKey::Close
    } else if text_equals(key, "Tab") {
        GuideKey::HoldFocus
    } else {
        GuideKey::Ignore
    }
}

} // verus!
