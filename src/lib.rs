//! Core of a light and button test window: the messages that a host sends,
//! the light state that the render loop keeps, the frame that each tick draws,
//! and the set-once registry that the host's entry points look up.
use vstd::prelude::*;

pub mod color;
pub mod frame;
pub mod laws;
pub mod message;
pub mod registry;
pub mod render_loop;
pub mod status;

verus! {

/// The fixed label under which the window presents itself.
pub fn window_label() -> (s: &'static str)
    ensures
        s@ == "Light Test Window"@,
{
    "Light Test Window"
}

} // verus!
