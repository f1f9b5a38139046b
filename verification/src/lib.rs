//! Decision logic of a tracing camera: a reference photo is laid over the live
//! camera view, aligned, locked in place and traced onto paper.
use vstd::prelude::*;

pub mod camera;
pub mod history;
pub mod laws;
pub mod onboarding;
pub mod project;
pub mod screen;
pub mod session;
pub mod text;

verus! {

} // verus!
