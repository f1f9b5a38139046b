//! A saved reference photo together with the way it is aligned over the camera view.
use vstd::prelude::*;
use vstd::string::*;

use crate::text::{decimal_digits, decimal_text, text_equals};

verus! {

/// Opacity of a freshly imported or reset photo, in percent.
pub const DEFAULT_OPACITY: i64 = 50;

/// Scale of a freshly imported or reset photo, in percent of its own size.
pub const NEUTRAL_SCALE: i64 = 100;

/// A reference photo and its alignment.
///
/// The numbers are kept in the units of the controls that edit them: opacity and
/// scale in percent, rotation in whole degrees, the offset in CSS pixels, and the
/// time of the last change in milliseconds since the Unix epoch.
#[derive(Debug, PartialEq, Eq)]
pub struct Project {
    pub id: String,
    pub image: String,
    pub opacity: i64,
    pub rotation: i64,
    pub scale: i64,
    pub x: i64,
    pub y: i64,
    pub flipped: bool,
    pub updated_at: u64,
}

impl Clone for Project {
    fn clone(&self) -> (copy: Self)
        ensures
            copy == *self,
    {
        Project {
            id: self.id.clone(),
            image: self.image.clone(),
            opacity: self.opacity,
            rotation: self.rotation,
            scale: self.scale,
            x: self.x,
            y: self.y,
            flipped: self.flipped,
            updated_at: self.updated_at,
        }
    }
}

/// The identifier given to a project created at `now`: `project-` followed by the
/// time in decimal.
pub open spec fn project_id(now: u64) -> Seq<char> {
    "project-"@ + decimal_digits(now as nat)
}

/// The two projects are placed identically over the camera view (position, scale,
/// rotation and mirroring; opacity is not part of the placement).
pub open spec fn same_placement(a: Project, b: Project) -> bool {
    &&& a.x == b.x
    &&& a.y == b.y
    &&& a.scale == b.scale
    &&& a.rotation == b.rotation
    &&& a.flipped == b.flipped
}

/// The field names that the number controls edit.
pub open spec fn is_opacity_field(field: Seq<char>) -> bool {
    field == "opacity"@
}

pub open spec fn is_rotation_field(field: Seq<char>) -> bool {
    field == "rotation"@
}

pub open spec fn is_scale_field(field: Seq<char>) -> bool {
    field == "scale"@
}

impl Project {
    /// A new project for `image`, created at `now` (milliseconds since the epoch):
    /// half opaque, unscaled, unrotated, centred and not mirrored.
    pub fn new(image: String, now: u64) -> (project: Project)
        ensures
            project.id@ == project_id(now),
            project.image == image,
            project.opacity == DEFAULT_OPACITY,
            project.rotation == 0,
            project.scale == NEUTRAL_SCALE,
            project.x == 0,
            project.y == 0,
            !project.flipped,
            project.updated_at == now,
    {
        let mut id = String::from_str("project-");
        let digits = decimal_text(now);
        id.append(digits.as_str());
        Project {
            id,
            image,
            opacity: DEFAULT_OPACITY,
            rotation: 0,
            scale: NEUTRAL_SCALE,
            x: 0,
            y: 0,
            flipped: false,
            updated_at: now,
        }
    }

    /// Sets the number edited by the control named `field`. Opacity can always be
    /// changed; rotation and scale only while the position is not locked. Any other
    /// field name, or a locked alignment field, is refused and leaves the project as
    /// it was.
    pub fn set_number(&mut self, field: &str, value: i64, position_locked: bool) -> (accepted: bool)
        ensures
            accepted == (is_opacity_field(field@) || (!position_locked && (is_rotation_field(field@)
                || is_scale_field(field@)))),
            is_opacity_field(field@) ==> *final(self) == (Project { opacity: value, ..*old(self) }),
            !is_opacity_field(field@) && is_rotation_field(field@) && !position_locked
                ==> *final(self) == (Project { rotation: value, ..*old(self) }),
            !is_opacity_field(field@) && is_scale_field(field@) && !position_locked
                ==> *final(self) == (Project { scale: value, ..*old(self) }),
            !accepted ==> *final(self) == *old(self),
    {
        proof {
            reveal_strlit("opacity");
            reveal_strlit("rotation");
            reveal_strlit("scale");
            assert("rotation"@.len() != "scale"@.len());
        }
        if text_equals(field, "opacity") {
            self.opacity = value;
            true
        } else if text_equals(field, "rotation") && !position_locked {
            self.rotation = value;
            true
        } else if text_equals(field, "scale") && !position_locked {
            self.scale = value;
            true
        } else {
            false
        }
    }

    /// Moves the photo to the offset (`x`, `y`), unless the position is locked.
    pub fn move_to(&mut self, x: i64, y: i64, position_locked: bool) -> (accepted: bool)
        ensures
            accepted == !position_locked,
            accepted ==> *final(self) == (Project { x: x, y: y, ..*old(self) }),
            !accepted ==> *final(self) == *old(self),
    {
        if position_locked {
            return false;
        }
        self.x = x;
        self.y = y;
        true
    }

    /// Mirrors the photo horizontally, unless the position is locked.
    pub fn flip(&mut self, position_locked: bool) -> (accepted: bool)
        ensures
            accepted == !position_locked,
            accepted ==> *final(self) == (Project { flipped: !old(self).flipped, ..*old(self) }),
            !accepted ==> *final(self) == *old(self),
    {
        if position_locked {
            return false;
        }
        self.flipped = !self.flipped;
        true
    }

    /// Puts the photo back to the alignment of a new project, unless the position is
    /// locked.
    pub fn reset(&mut self, position_locked: bool) -> (accepted: bool)
        ensures
            accepted == !position_locked,
            accepted ==> *final(self) == (Project {
                opacity: DEFAULT_OPACITY,
                rotation: 0,
                scale: NEUTRAL_SCALE,
                x: 0,
                y: 0,
                flipped: false,
                ..*old(self)
            }),
            !accepted ==> *final(self) == *old(self),
    {
        if position_locked {
            return false;
        }
        self.opacity = DEFAULT_OPACITY;
        self.rotation = 0;
        self.scale = NEUTRAL_SCALE;
        self.x = 0;
        self.y = 0;
        self.flipped = false;
        true
    }
}

} // verus!
