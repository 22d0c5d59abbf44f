use vstd::prelude::*;

use crate::color::Rgba;
use crate::message::UpdateLights;

verus! {

/// Number of slots in each light strip.
pub const STRIP_LEN: usize = 3;

/// What the render loop knows of the hardware: the button bitfield (bit `i`
/// is button `i`) and the colors of the left and right strips.
#[derive(Clone, Copy, Debug, PartialEq, Eq)]
pub struct LightStatus {
    pub buttons: u32,
    pub left: [Rgba; 3],
    pub right: [Rgba; 3],
}

/// The mathematical picture of a `LightStatus`: each strip as a sequence.
pub struct StatusView {
    pub buttons: u32,
    pub left: Seq<Rgba>,
    pub right: Seq<Rgba>,
}

impl View for LightStatus {
    type V = StatusView;

    open spec fn view(&self) -> StatusView {
        StatusView { buttons: self.buttons, left: self.left@, right: self.right@ }
    }
}

/// Every button released, every slot black.
pub open spec fn initial_view() -> StatusView {
    StatusView {
        buttons: 0,
        left: seq![Rgba::black_spec(), Rgba::black_spec(), Rgba::black_spec()],
        right: seq![Rgba::black_spec(), Rgba::black_spec(), Rgba::black_spec()],
    }
}

/// The state that an update leaves behind. A light update with an index off
/// the strip, a frame request and a quit leave the state as it was.
pub open spec fn apply_spec(s: StatusView, m: UpdateLights) -> StatusView {
    match m {
        UpdateLights::Buttons(b) => StatusView { buttons: b, ..s },
        UpdateLights::Left(c, i) => if i < STRIP_LEN {
            StatusView { left: s.left.update(i as int, c), ..s }
        } else {
            s
        },
        UpdateLights::Right(c, i) => if i < STRIP_LEN {
            StatusView { right: s.right.update(i as int, c), ..s }
        } else {
            s
        },
        UpdateLights::NextFrame => s,
        UpdateLights::Quit => s,
    }
}

/// A light update whose index lies off the strip.
pub open spec fn off_strip(m: UpdateLights) -> bool {
    match m {
        UpdateLights::Left(_, i) => i >= STRIP_LEN,
        UpdateLights::Right(_, i) => i >= STRIP_LEN,
        _ => false,
    }
}

impl LightStatus {
    pub fn new() -> (s: LightStatus)
        ensures
            s@ == initial_view(),
    {
        let b = Rgba::black();
        let s = LightStatus { buttons: 0, left: [b, b, b], right: [b, b, b] };
        assert(s.left@ =~= seq![b, b, b]);
        assert(s.right@ =~= seq![b, b, b]);
        s
    }

    /// Applies one update in place; returns false, with nothing changed, where
    /// a light update names a slot off the strip.
    pub fn apply(&mut self, m: UpdateLights) -> (accepted: bool)
        ensures
            final(self)@ == apply_spec(old(self)@, m),
            accepted == !off_strip(m),
    {
        match m {
            UpdateLights::Buttons(b) => {
                self.buttons = b;
                true
            },
            UpdateLights::Left(c, i) => {
                if i < STRIP_LEN {
                    self.left[i] = c;
                    true
                } else {
                    false
                }
            },
            UpdateLights::Right(c, i) => {
                if i < STRIP_LEN {
                    self.right[i] = c;
                    true
                } else {
                    false
                }
            },
            UpdateLights::NextFrame => true,
            UpdateLights::Quit => true,
        }
    }
}

} // verus!
