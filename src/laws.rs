use vstd::prelude::*;

use crate::color::Rgba;
use crate::frame::frame_spec;
use crate::message::UpdateLights;
use crate::registry::{init_next, init_outcome, InitError, INIT_OK, INIT_REFUSED};
use crate::render_loop::{action_for, next_view, LoopAction, LoopView};
use crate::status::{apply_spec, StatusView, STRIP_LEN};

verus! {

/// A state whose strips have their full length.
pub open spec fn well_formed(s: StatusView) -> bool {
    s.left.len() == STRIP_LEN && s.right.len() == STRIP_LEN
}

/// The state after a run of updates, taken in order.
pub open spec fn apply_all(s: StatusView, ms: Seq<UpdateLights>) -> StatusView
    decreases ms.len(),
{
    if ms.len() == 0 {
        s
    } else {
        apply_spec(apply_all(s, ms.drop_last()), ms.last())
    }
}

/// The last bitfield that a run of updates sets, or `b` where none does.
pub open spec fn last_buttons(b: u32, ms: Seq<UpdateLights>) -> u32
    decreases ms.len(),
{
    if ms.len() == 0 {
        b
    } else {
        match ms.last() {
            UpdateLights::Buttons(x) => x,
            _ => last_buttons(b, ms.drop_last()),
        }
    }
}

/// The last color that a run of updates gives slot `i` of the left strip
/// (of the right one where `left` is false), or `c` where none does.
pub open spec fn last_slot(c: Rgba, ms: Seq<UpdateLights>, left: bool, i: int) -> Rgba
    decreases ms.len(),
{
    if ms.len() == 0 {
        c
    } else {
        let rest = last_slot(c, ms.drop_last(), left, i);
        match ms.last() {
            UpdateLights::Left(d, j) => if left && j == i {
                d
            } else {
                rest
            },
            UpdateLights::Right(d, j) => if !left && j == i {
                d
            } else {
                rest
            },
            _ => rest,
        }
    }
}

/// The state that holds, field by field, the last value written to it.
pub open spec fn last_writes(s: StatusView, ms: Seq<UpdateLights>) -> StatusView {
    StatusView {
        buttons: last_buttons(s.buttons, ms),
        left: Seq::new(STRIP_LEN as nat, |i: int| last_slot(s.left[i], ms, true, i)),
        right: Seq::new(STRIP_LEN as nat, |i: int| last_slot(s.right[i], ms, false, i)),
    }
}

/// A running loop after a run of messages, none of them a quit.
pub open spec fn run(v: LoopView, ms: Seq<UpdateLights>) -> LoopView
    decreases ms.len(),
{
    if ms.len() == 0 {
        v
    } else {
        next_view(run(v, ms.drop_last()), Some(ms.last()))
    }
}

proof fn lemma_apply_all_is_last_writes(s: StatusView, ms: Seq<UpdateLights>)
    requires
        well_formed(s),
    ensures
        apply_all(s, ms) == last_writes(s, ms),
    decreases ms.len(),
{
    if ms.len() == 0 {
        assert(s.left =~= last_writes(s, ms).left);
        assert(s.right =~= last_writes(s, ms).right);
    } else {
        lemma_apply_all_is_last_writes(s, ms.drop_last());
        let after = apply_all(s, ms);
        let want = last_writes(s, ms);
        assert(after.left =~= want.left);
        assert(after.right =~= want.right);
    }
}

proof fn lemma_run_keeps_running(v: LoopView, ms: Seq<UpdateLights>)
    requires
        v.running,
        forall|k: int| 0 <= k < ms.len() ==> ms[k] != UpdateLights::Quit,
    ensures
        run(v, ms) == (LoopView { running: true, status: apply_all(v.status, ms) }),
    decreases ms.len(),
{
    if ms.len() > 0 {
        let p = ms.drop_last();
        assert forall|k: int| 0 <= k < p.len() implies p[k] != UpdateLights::Quit by {
            assert(p[k] == ms[k]);
        }
        lemma_run_keeps_running(v, p);
        assert(ms.last() == ms[ms.len() - 1]);
    }
}

/// Last write wins: after any run of button and light updates (or any
/// messages but a quit) a running loop draws, on the next frame request, the
/// frame of the state that holds for the bitfield and for each of the six
/// slots the last value written to it, whatever the order of the writes.
pub proof fn lemma_frame_shows_last_writes(v: LoopView, ms: Seq<UpdateLights>, a: LoopAction)
    requires
        v.running,
        well_formed(v.status),
        forall|k: int| 0 <= k < ms.len() ==> ms[k] != UpdateLights::Quit,
        action_for(run(v, ms), Some(UpdateLights::NextFrame), a),
    ensures
        a matches LoopAction::Draw(f) && f@ == frame_spec(last_writes(v.status, ms)),
{
    lemma_run_keeps_running(v, ms);
    lemma_apply_all_is_last_writes(v.status, ms);
}

/// The frame does not depend on how the writes to different fields are
/// interleaved: two runs that leave every field (the bitfield and each of the
/// six slots) with the same last value make a running loop draw the same frame
/// on the next frame request.
pub proof fn lemma_interleaving_irrelevant(
    v: LoopView,
    ms1: Seq<UpdateLights>,
    ms2: Seq<UpdateLights>,
    a1: LoopAction,
    a2: LoopAction,
)
    requires
        v.running,
        well_formed(v.status),
        forall|k: int| 0 <= k < ms1.len() ==> ms1[k] != UpdateLights::Quit,
        forall|k: int| 0 <= k < ms2.len() ==> ms2[k] != UpdateLights::Quit,
        last_writes(v.status, ms1) == last_writes(v.status, ms2),
        action_for(run(v, ms1), Some(UpdateLights::NextFrame), a1),
        action_for(run(v, ms2), Some(UpdateLights::NextFrame), a2),
    ensures
        a1 == a2,
{
    broadcast use vstd::array::axiom_array_ext_equal;

    lemma_frame_shows_last_writes(v, ms1, a1);
    lemma_frame_shows_last_writes(v, ms2, a2);
    let f1 = a1->Draw_0;
    let f2 = a2->Draw_0;
    assert(f1.left =~= f2.left);
    assert(f1.right =~= f2.right);
    assert(f1.buttons =~= f2.buttons);
    assert(f1.aux =~= f2.aux);
}

/// The number of frame requests in a run of messages.
pub open spec fn frame_requests(ms: Seq<UpdateLights>) -> nat
    decreases ms.len(),
{
    if ms.len() == 0 {
        0
    } else {
        frame_requests(ms.drop_last()) + if ms.last() == UpdateLights::NextFrame {
            1nat
        } else {
            0nat
        }
    }
}

/// The number of draw passes that a loop makes over a run of messages: a
/// step draws exactly where the loop is running and the message is a frame
/// request.
pub open spec fn draws(v: LoopView, ms: Seq<UpdateLights>) -> nat
    decreases ms.len(),
{
    if ms.len() == 0 {
        0
    } else {
        draws(v, ms.drop_last()) + if run(v, ms.drop_last()).running && ms.last()
            == UpdateLights::NextFrame {
            1nat
        } else {
            0nat
        }
    }
}

/// A step draws exactly where `draws` counts one.
pub proof fn lemma_step_draws(v: LoopView, m: UpdateLights, a: LoopAction)
    requires
        action_for(v, Some(m), a),
    ensures
        (a is Draw) <==> (v.running && m == UpdateLights::NextFrame),
{
}

proof fn lemma_draws_without_quit(v: LoopView, ms: Seq<UpdateLights>)
    requires
        v.running,
        forall|k: int| 0 <= k < ms.len() ==> ms[k] != UpdateLights::Quit,
    ensures
        draws(v, ms) == frame_requests(ms),
    decreases ms.len(),
{
    if ms.len() > 0 {
        let p = ms.drop_last();
        assert forall|k: int| 0 <= k < p.len() implies p[k] != UpdateLights::Quit by {
            assert(p[k] == ms[k]);
        }
        lemma_draws_without_quit(v, p);
        lemma_run_keeps_running(v, p);
    }
}

/// The loop stops at the first quit: over any run of messages whose first
/// quit stands at `q`, a running loop ends, keeps the state that the messages
/// before the quit left, and draws once for each frame request before the
/// quit and never after it.
pub proof fn lemma_draws_stop_at_quit(v: LoopView, ms: Seq<UpdateLights>, q: int)
    requires
        v.running,
        0 <= q < ms.len(),
        ms[q] == UpdateLights::Quit,
        forall|k: int| 0 <= k < q ==> ms[k] != UpdateLights::Quit,
    ensures
        !run(v, ms).running,
        run(v, ms).status == apply_all(v.status, ms.take(q)),
        draws(v, ms) == frame_requests(ms.take(q)),
    decreases ms.len(),
{
    let p = ms.drop_last();
    if ms.len() == q + 1 {
        assert(p =~= ms.take(q));
        assert forall|k: int| 0 <= k < p.len() implies p[k] != UpdateLights::Quit by {
            assert(p[k] == ms[k]);
        }
        lemma_run_keeps_running(v, p);
        lemma_draws_without_quit(v, p);
        assert(ms.last() == ms[q]);
    } else {
        assert(p[q] == ms[q]);
        assert forall|k: int| 0 <= k < q implies p[k] != UpdateLights::Quit by {
            assert(p[k] == ms[k]);
        }
        lemma_draws_stop_at_quit(v, p, q);
        assert(p.take(q) =~= ms.take(q));
    }
}

/// A light update on a slot of a strip changes that slot only: the other
/// slots of both strips and the bitfield keep their values.
pub proof fn lemma_light_update_touches_one_slot(s: StatusView, c: Rgba, i: usize, left: bool)
    requires
        well_formed(s),
        i < STRIP_LEN,
    ensures
        ({
            let m = if left {
                UpdateLights::Left(c, i)
            } else {
                UpdateLights::Right(c, i)
            };
            let t = apply_spec(s, m);
            let (changed, same) = if left {
                (t.left, s.left)
            } else {
                (t.right, s.right)
            };
            let (other_new, other_old) = if left {
                (t.right, s.right)
            } else {
                (t.left, s.left)
            };
            &&& well_formed(t)
            &&& changed[i as int] == c
            &&& forall|j: int| 0 <= j < STRIP_LEN && j != i ==> changed[j] == same[j]
            &&& other_new == other_old
            &&& t.buttons == s.buttons
        }),
{
}

/// Initialization succeeds once: on an empty registry the first call gives
/// the success code and the second one a different, non-zero code, and the
/// second leaves the first call's logger and sender in place.
pub proof fn lemma_second_init_refused<L>(
    log1: L,
    tx1: std::sync::mpsc::Sender<UpdateLights>,
    log2: L,
    tx2: std::sync::mpsc::Sender<UpdateLights>,
)
    ensures
        init_outcome::<L>(None) == Ok::<(), InitError>(()),
        init_outcome(init_next(None, log1, tx1)) == Err::<(), InitError>(
            InitError::AlreadyInitialized,
        ),
        init_next(init_next(None, log1, tx1), log2, tx2) == Some((log1, tx1)),
        INIT_OK == 0,
        INIT_REFUSED != 0,
        INIT_REFUSED != INIT_OK,
{
}

/// Once a quit, or the end of the messages, has been taken, the loop has
/// ended: every later message leaves it as it is and asks for no drawing.
pub proof fn lemma_quit_is_final(
    v: LoopView,
    end: Option<UpdateLights>,
    m: Option<UpdateLights>,
    a: LoopAction,
)
    requires
        end is None || end == Some(UpdateLights::Quit),
        action_for(next_view(v, end), m, a),
    ensures
        !next_view(v, end).running,
        next_view(v, end).status == v.status,
        next_view(next_view(v, end), m) == next_view(v, end),
        a == LoopAction::Exit,
{
}

/// Frame requests change nothing: a second request with no update between
/// the two draws the same frame as the first.
pub proof fn lemma_redraw_identical(v: LoopView, a1: LoopAction, a2: LoopAction)
    requires
        v.running,
        action_for(v, Some(UpdateLights::NextFrame), a1),
        action_for(next_view(v, Some(UpdateLights::NextFrame)), Some(UpdateLights::NextFrame), a2),
    ensures
        next_view(v, Some(UpdateLights::NextFrame)) == v,
        a1 == a2,
{
    broadcast use vstd::array::axiom_array_ext_equal;

    let f1 = a1->Draw_0;
    let f2 = a2->Draw_0;
    assert(f1.left =~= f2.left);
    assert(f1.right =~= f2.right);
    assert(f1.buttons =~= f2.buttons);
    assert(f1.aux =~= f2.aux);
}

} // verus!
