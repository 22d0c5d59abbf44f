use vstd::prelude::*;

use crate::color::Rgba;
use crate::status::{LightStatus, StatusView};

verus! {

/// Bits of the two auxiliary indicators.
pub const AUX_FIRST_BIT: u32 = 4;

pub const AUX_SECOND_BIT: u32 = 5;

/// Bit of the status indicator.
pub const STATUS_BIT: u32 = 6;

/// Whether bit `i` of a button bitfield is set.
pub open spec fn pressed(bits: u32, i: u32) -> bool {
    bits & (1u32 << i) != 0
}

/// What one draw pass shows: both strips' colors, and which indicators are
/// filled (the four buttons, the two auxiliary indicators, the status one).
/// An indicator that is not filled is drawn as an outline.
#[derive(Clone, Copy, Debug, PartialEq, Eq)]
pub struct Frame {
    pub left: [Rgba; 3],
    pub right: [Rgba; 3],
    pub buttons: [bool; 4],
    pub aux: [bool; 2],
    pub status: bool,
}

/// The mathematical picture of a `Frame`.
pub struct FrameView {
    pub left: Seq<Rgba>,
    pub right: Seq<Rgba>,
    pub buttons: Seq<bool>,
    pub aux: Seq<bool>,
    pub status: bool,
}

impl View for Frame {
    type V = FrameView;

    open spec fn view(&self) -> FrameView {
        FrameView {
            left: self.left@,
            right: self.right@,
            buttons: self.buttons@,
            aux: self.aux@,
            status: self.status,
        }
    }
}

/// The frame that a light state is drawn as.
pub open spec fn frame_spec(s: StatusView) -> FrameView {
    FrameView {
        left: s.left,
        right: s.right,
        buttons: seq![
            pressed(s.buttons, 0),
            pressed(s.buttons, 1),
            pressed(s.buttons, 2),
            pressed(s.buttons, 3),
        ],
        aux: seq![pressed(s.buttons, AUX_FIRST_BIT), pressed(s.buttons, AUX_SECOND_BIT)],
        status: pressed(s.buttons, STATUS_BIT),
    }
}

fn is_pressed(bits: u32, i: u32) -> (r: bool)
    requires
        i < 32,
    ensures
        r == pressed(bits, i),
{
    bits & (1u32 << i) != 0
}

/// Computes the frame that a light state is drawn as.
pub fn frame_of(s: &LightStatus) -> (f: Frame)
    ensures
        f@ == frame_spec(s@),
{
    let bits = s.buttons;
    let f = Frame {
        left: s.left,
        right: s.right,
        buttons: [is_pressed(bits, 0), is_pressed(bits, 1), is_pressed(bits, 2), is_pressed(bits, 3)],
        aux: [is_pressed(bits, AUX_FIRST_BIT), is_pressed(bits, AUX_SECOND_BIT)],
        status: is_pressed(bits, STATUS_BIT),
    };
    assert(f.buttons@ =~= frame_spec(s@).buttons);
    assert(f.aux@ =~= frame_spec(s@).aux);
    f
}

} // verus!
