//! The laws of the dispatcher, proved once and for all over the abstract
//! transition `step_spec`: order-independence of crop rectangles, the repeat
//! mechanism's replay behaviour, strict FIFO delivery of input events, and
//! the full cycle of `show_next`.

use vstd::prelude::*;
use vstd::arithmetic::div_mod::{lemma_small_mod, lemma_add_mod_noop_right, lemma_mod_self_0};
use crate::host::{HostView, step_spec, behead};
use crate::protocol::{HostMsg, RhaiMsg, Input, updates_last};
use crate::geometry::lemma_img_crop_order_independent;

verus! {

/// Rectangle normalization is order-independent: a `crop` given its two
/// corners in either order mutates the store identically, replies
/// identically and raises the same flags; only the repeat snapshot keeps
/// the argument order it was given.
pub proof fn lemma_crop_order_independent(
    pre1: HostView,
    pre2: HostView,
    src: i64,
    dst: i64,
    px: i64,
    py: i64,
    qx: i64,
    qy: i64,
    win_w: u32,
    win_h: u32,
)
    requires
        pre1.pending.len() >= 1,
        pre2.pending.len() >= 1,
        pre1.pending[0] == HostMsg::Crop(src, dst, px, py, qx, qy),
        pre2.pending[0] == HostMsg::Crop(src, dst, qx, qy, px, py),
        behead(pre1.pending) == behead(pre2.pending),
        pre1.images == pre2.images,
        pre1.show == pre2.show,
        pre1.inputs == pre2.inputs,
        pre1.rects_uv == pre2.rects_uv,
        pre1.rects_xy == pre2.rects_xy,
        pre1.last == pre2.last,
        pre1.repeated == pre2.repeated,
    ensures
        ({
            let o1 = step_spec(pre1, win_w, win_h);
            let o2 = step_spec(pre2, win_w, win_h);
            &&& o1.host.images == o2.host.images
            &&& o1.host.show == o2.host.show
            &&& o1.host.pending == o2.host.pending
            &&& o1.host.inputs == o2.host.inputs
            &&& o1.replies == o2.replies
            &&& o1.die == o2.die
            &&& o1.redraw == o2.redraw
            &&& o1.cleared == o2.cleared
            &&& o1.save == o2.save
            &&& o1.apply == o2.apply
        }),
{
    lemma_img_crop_order_independent(px, py, qx, qy);
}

/// `repeat` with no prior qualifying command is a no-op: the request is
/// consumed and nothing else happens.
pub proof fn lemma_repeat_without_snapshot(pre: HostView, win_w: u32, win_h: u32)
    requires
        pre.pending.len() >= 1,
        pre.pending[0] == HostMsg::Repeat,
        pre.last is None,
    ensures
        ({
            let o = step_spec(pre, win_w, win_h);
            &&& o.host == (HostView { pending: behead(pre.pending), ..pre })
            &&& o.replies == Seq::<RhaiMsg>::empty()
            &&& !o.die
            &&& !o.redraw
            &&& !o.cleared
            &&& o.save is None
            &&& o.apply is None
        }),
{
}

/// `repeat` after a qualifying command re-injects that command, verbatim, at
/// the front of the queue, marked as a replay; nothing else happens yet.
pub proof fn lemma_repeat_replays_snapshot(pre: HostView, c: HostMsg, win_w: u32, win_h: u32)
    requires
        pre.pending.len() >= 1,
        pre.pending[0] == HostMsg::Repeat,
        pre.last == Some(c),
    ensures
        ({
            let o = step_spec(pre, win_w, win_h);
            &&& o.host == (HostView {
                pending: seq![c] + behead(pre.pending),
                repeated: true,
                ..pre
            })
            &&& o.replies == Seq::<RhaiMsg>::empty()
            &&& !o.die
            &&& !o.redraw
            &&& !o.cleared
            &&& o.save is None
            &&& o.apply is None
        }),
{
}

/// Executing any qualifying command, replay or not, pops it and makes it the
/// repeat snapshot.
pub proof fn lemma_exec_sets_snapshot(pre: HostView, win_w: u32, win_h: u32)
    requires
        pre.pending.len() >= 1,
        updates_last(pre.pending[0]),
    ensures
        ({
            let o = step_spec(pre, win_w, win_h);
            &&& o.host.last == Some(pre.pending[0])
            &&& o.host.pending == behead(pre.pending)
            &&& !o.host.repeated
        }),
{
}

/// Two consecutive `repeat` calls after command `c` replay `c` twice, never
/// `repeat` itself: each `repeat` queues `c` (not `repeat`) as the next
/// command, and executing the replay restores `c` as the snapshot.
pub proof fn lemma_repeat_twice_replays_twice(pre: HostView, c: HostMsg, win_w: u32, win_h: u32)
    requires
        pre.pending.len() >= 2,
        pre.pending[0] == HostMsg::Repeat,
        pre.pending[1] == HostMsg::Repeat,
        pre.last == Some(c),
        updates_last(c),
    ensures
        ({
            let o1 = step_spec(pre, win_w, win_h);
            let o2 = step_spec(o1.host, win_w, win_h);
            let o3 = step_spec(o2.host, win_w, win_h);
            &&& o1.host.pending[0] == c
            &&& o1.host.pending[0] != HostMsg::Repeat
            &&& o1.host.repeated
            &&& o2.host.last == Some(c)
            &&& o2.host.pending == behead(pre.pending)
            &&& o3.host.pending == seq![c] + behead(behead(pre.pending))
            &&& o3.host.pending[0] == c
            &&& o3.host.pending[0] != HostMsg::Repeat
            &&& o3.host.repeated
        }),
{
    let o1 = step_spec(pre, win_w, win_h);
    lemma_repeat_replays_snapshot(pre, c, win_w, win_h);
    assert(o1.host.pending == seq![c] + behead(pre.pending));
    assert(o1.host.pending[0] == c);
    lemma_exec_sets_snapshot(o1.host, win_w, win_h);
    let o2 = step_spec(o1.host, win_w, win_h);
    assert(o2.host.pending =~= behead(pre.pending));
    assert(o2.host.pending[0] == HostMsg::Repeat);
    lemma_repeat_replays_snapshot(o2.host, c, win_w, win_h);
}

/// A replay answers nothing: the script's `repeat()` call expects no reply,
/// so while the replay marker is set, the re-executed command (any but
/// `kill`, which always acknowledges) sends no reply.
pub proof fn lemma_replay_is_silent(pre: HostView, win_w: u32, win_h: u32)
    requires
        pre.repeated,
        pre.pending.len() >= 1,
        updates_last(pre.pending[0]),
        pre.pending[0] != HostMsg::Kill,
    ensures
        step_spec(pre, win_w, win_h).replies == Seq::<RhaiMsg>::empty(),
{
}

/// Input events enqueued in order are delivered to successive
/// `get_input_event` calls in exactly that order.
pub proof fn lemma_input_events_delivered_in_order(pre: HostView, win_w: u32, win_h: u32)
    requires
        pre.pending.len() >= 3,
        pre.pending[0] == HostMsg::GetInputEvent,
        pre.pending[1] == HostMsg::GetInputEvent,
        pre.pending[2] == HostMsg::GetInputEvent,
        pre.inputs.len() >= 3,
    ensures
        ({
            let o1 = step_spec(pre, win_w, win_h);
            let o2 = step_spec(o1.host, win_w, win_h);
            let o3 = step_spec(o2.host, win_w, win_h);
            &&& o1.replies == seq![RhaiMsg::Input(pre.inputs[0])]
            &&& o2.replies == seq![RhaiMsg::Input(pre.inputs[1])]
            &&& o3.replies == seq![RhaiMsg::Input(pre.inputs[2])]
        }),
{
}

/// A `get_input_event` issued while the input queue is empty stays pending,
/// unanswered, at the head of the queue; as soon as an event arrives, that
/// same call consumes it.
pub proof fn lemma_input_event_waits(pre: HostView, ev: Input, win_w: u32, win_h: u32)
    requires
        pre.pending.len() >= 1,
        pre.pending[0] == HostMsg::GetInputEvent,
        pre.inputs.len() == 0,
    ensures
        ({
            let o = step_spec(pre, win_w, win_h);
            &&& o.host.pending == pre.pending
            &&& o.host.inputs == pre.inputs
            &&& o.replies == Seq::<RhaiMsg>::empty()
        }),
        ({
            let o = step_spec(pre, win_w, win_h);
            let woken = HostView { inputs: o.host.inputs.push(ev), ..o.host };
            let o2 = step_spec(woken, win_w, win_h);
            &&& o2.replies == seq![RhaiMsg::Input(ev)]
            &&& o2.host.pending == behead(pre.pending)
            &&& o2.host.inputs == Seq::<Input>::empty()
        }),
{
    let o = step_spec(pre, win_w, win_h);
    let woken = HostView { inputs: o.host.inputs.push(ev), ..o.host };
    let o2 = step_spec(woken, win_w, win_h);
    assert(behead(woken.inputs) =~= Seq::<Input>::empty());
}

/// The dispatcher state after `k` ticks.
pub open spec fn iterate_steps(pre: HostView, win_w: u32, win_h: u32, k: nat) -> HostView
    decreases k,
{
    if k == 0 {
        pre
    } else {
        iterate_steps(step_spec(pre, win_w, win_h).host, win_w, win_h, (k - 1) as nat)
    }
}

proof fn lemma_show_next_run(pre: HostView, win_w: u32, win_h: u32, k: nat)
    requires
        1 <= pre.images.len(),
        0 <= pre.show < pre.images.len(),
        k <= pre.pending.len(),
        forall|i: int| 0 <= i < k ==> pre.pending[i] == HostMsg::ShowNext,
    ensures
        iterate_steps(pre, win_w, win_h, k).images == pre.images,
        iterate_steps(pre, win_w, win_h, k).show == (pre.show + k) % (pre.images.len() as int),
    decreases k,
{
    let n = pre.images.len() as int;
    if k == 0 {
        lemma_small_mod(pre.show as nat, n as nat);
    } else {
        let h1 = step_spec(pre, win_w, win_h).host;
        assert(h1.show == (pre.show + 1) % n);
        assert(forall|i: int| 0 <= i < k - 1 ==> h1.pending[i] == HostMsg::ShowNext);
        lemma_show_next_run(h1, win_w, win_h, (k - 1) as nat);
        lemma_add_mod_noop_right((k - 1) as int, pre.show + 1, n);
        assert((h1.show + (k - 1)) % n == (pre.show + k) % n);
    }
}

/// `show_next` invoked once per stored buffer walks the whole cycle and
/// returns to the show index it started from, leaving the store unchanged.
pub proof fn lemma_show_next_full_cycle(pre: HostView, win_w: u32, win_h: u32)
    requires
        1 <= pre.images.len(),
        0 <= pre.show < pre.images.len(),
        pre.pending.len() == pre.images.len(),
        forall|i: int| 0 <= i < pre.pending.len() ==> pre.pending[i] == HostMsg::ShowNext,
    ensures
        iterate_steps(pre, win_w, win_h, pre.images.len() as nat).images == pre.images,
        iterate_steps(pre, win_w, win_h, pre.images.len() as nat).show == pre.show,
{
    let n = pre.images.len() as int;
    lemma_show_next_run(pre, win_w, win_h, pre.images.len() as nat);
    lemma_mod_self_0(n);
    lemma_add_mod_noop_right(pre.show, n, n);
    lemma_small_mod(pre.show as nat, n as nat);
    assert((pre.show + n) % n == (pre.show + n % n) % n);
}

} // verus!
