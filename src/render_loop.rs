use vstd::prelude::*;

use crate::frame::{frame_of, frame_spec, Frame};
use crate::message::UpdateLights;
use crate::status::{apply_spec, initial_view, off_strip, LightStatus, StatusView};

verus! {

/// What the caller of the loop does after one step.
#[derive(Clone, Copy, Debug, PartialEq, Eq)]
pub enum LoopAction {
    /// The update changed the state, or changed nothing; nothing to show.
    Idle,
    /// Wait for the window's next frame, then draw this one.
    Draw(Frame),
    /// The update named a light slot off the strip and was dropped; report it.
    Rejected(UpdateLights),
    /// The loop has ended; no further message is taken.
    Exit,
}

/// The decisions of the render loop: it owns the light state, takes the
/// messages in order, and says after each one what the window must do.
/// Once it has ended it stays ended.
pub struct LightTester {
    running: bool,
    status: LightStatus,
}

/// The mathematical picture of a `LightTester`.
pub struct LoopView {
    pub running: bool,
    pub status: StatusView,
}

impl View for LightTester {
    type V = LoopView;

    closed spec fn view(&self) -> LoopView {
        LoopView { running: self.running, status: self.status@ }
    }
}

/// The loop after one step on a message, where `None` means that no sender
/// is left. A quit or the end of the messages ends the loop; an ended loop
/// does not change.
pub open spec fn next_view(v: LoopView, m: Option<UpdateLights>) -> LoopView {
    if !v.running {
        v
    } else {
        match m {
            None => LoopView { running: false, ..v },
            Some(UpdateLights::Quit) => LoopView { running: false, ..v },
            Some(u) => LoopView { running: true, status: apply_spec(v.status, u) },
        }
    }
}

/// The action that one step on a message asks for.
pub open spec fn action_for(v: LoopView, m: Option<UpdateLights>, a: LoopAction) -> bool {
    if !v.running {
        a == LoopAction::Exit
    } else {
        match m {
            None => a == LoopAction::Exit,
            Some(UpdateLights::Quit) => a == LoopAction::Exit,
            Some(UpdateLights::NextFrame) => a matches LoopAction::Draw(f) && f@ == frame_spec(
                v.status,
            ),
            Some(u) => if off_strip(u) {
                a == LoopAction::Rejected(u)
            } else {
                a == LoopAction::Idle
            },
        }
    }
}

impl LightTester {
    /// A running loop whose buttons are all released and whose slots are black.
    pub fn new() -> (t: LightTester)
        ensures
            t@ == (LoopView { running: true, status: initial_view() }),
    {
        LightTester { running: true, status: LightStatus::new() }
    }

    pub fn is_running(&self) -> (r: bool)
        ensures
            r == self@.running,
    {
        self.running
    }

    pub fn status(&self) -> (s: &LightStatus)
        ensures
            s@ == self@.status,
    {
        &self.status
    }

    /// Takes one message, or `None` once every sender is gone.
    pub fn step(&mut self, m: Option<UpdateLights>) -> (a: LoopAction)
        ensures
            final(self)@ == next_view(old(self)@, m),
            action_for(old(self)@, m, a),
    {
        if !self.running {
            return LoopAction::Exit;
        }
        match m {
            None => {
                self.running = false;
                LoopAction::Exit
            },
            Some(UpdateLights::Quit) => {
                self.running = false;
                LoopAction::Exit
            },
            Some(UpdateLights::NextFrame) => LoopAction::Draw(frame_of(&self.status)),
            Some(u) => {
                if self.status.apply(u) {
                    LoopAction::Idle
                } else {
                    LoopAction::Rejected(u)
                }
            },
        }
    }
}

} // verus!
