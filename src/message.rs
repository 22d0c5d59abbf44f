use vstd::prelude::*;

use crate::color::Rgba;

verus! {

/// One update that a host sends to the render loop.
#[derive(Clone, Copy, Debug, PartialEq, Eq, Structural)]
pub enum UpdateLights {
    /// Replaces the whole button bitfield.
    Buttons(u32),
    /// Sets one slot of the left strip: the color and the slot index.
    Left(Rgba, usize),
    /// Sets one slot of the right strip: the color and the slot index.
    Right(Rgba, usize),
    /// Asks for one draw pass of the current state.
    NextFrame,
    /// Ends the render loop.
    Quit,
}

/// The message that a new button bitfield becomes.
pub fn buttons_update(bitfield: u32) -> (m: UpdateLights)
    ensures
        m == UpdateLights::Buttons(bitfield),
{
    UpdateLights::Buttons(bitfield)
}

/// The side flag that selects the left strip; any other value selects the right one.
pub const LEFT_SIDE: u8 = 1;

/// The message that a light change becomes: an opaque color for slot `pos`
/// of the left strip when `left` is `LEFT_SIDE`, of the right strip otherwise.
pub fn light_update(left: u8, pos: u32, r: u8, g: u8, b: u8) -> (m: UpdateLights)
    ensures
        left == LEFT_SIDE ==> m == UpdateLights::Left(Rgba::opaque_spec(r, g, b), pos as usize),
        left != LEFT_SIDE ==> m == UpdateLights::Right(Rgba::opaque_spec(r, g, b), pos as usize),
{
    let color = Rgba::opaque(r, g, b);
    if left == LEFT_SIDE {
        UpdateLights::Left(color, pos as usize)
    } else {
        UpdateLights::Right(color, pos as usize)
    }
}

/// The message that a tick becomes. The elapsed time is not part of it: frame
/// pacing belongs to the window.
pub fn tick_update() -> (m: UpdateLights)
    ensures
        m == UpdateLights::NextFrame,
{
    UpdateLights::NextFrame
}

/// The message that a close request becomes.
pub fn close_update() -> (m: UpdateLights)
    ensures
        m == UpdateLights::Quit,
{
    UpdateLights::Quit
}

} // verus!
