//! The command dispatcher: the host-side event loop state and its per-tick
//! transition.
//!
//! Each tick, the surrounding loop drains UI events into the input queue and
//! script requests into the pending queue, then calls `step`, which inspects
//! only the head of the pending queue. Immediate commands execute now,
//! produce their replies and are popped; `get_input_event` with an empty
//! input queue is left at the head and retried on a later tick; `repeat`
//! re-injects a clone of the last qualifying command at the front of the
//! queue, marked so that its replay neither answers the `repeat` call nor
//! overwrites the snapshot it replays. The whole transition is specified by
//! the function `step_spec` over the dispatcher's abstract state.

use vstd::prelude::*;
use std::collections::VecDeque;
use crate::protocol::{HostMsg, RhaiMsg, Input, RectUV, RectXY, updates_last};
use crate::store::{ImageStore, spec_img_index};
use crate::geometry::{clamp, spec_clamp, img_crop, spec_img_crop};
use crate::image_ops;

verus! {

/// The pixel work of a command with fractional parameters, which the library
/// cannot perform itself: the dispatcher hands it out, the caller applies it
/// with the `image` crate and returns the finished buffer through
/// `finish_apply`. Fractional payloads are f64 bit patterns.
#[derive(Clone, Copy, Debug, PartialEq, Eq)]
pub enum ScalarOp {
    Blur(u64),
    Unsharpen(u64, i32),
    Filter3x3([u64; 9]),
    AdjustContrast(u64),
}

/// A `save` command resolved to a slot; the caller writes the buffer to the
/// path.
#[derive(Debug, PartialEq)]
pub struct SaveAction {
    pub slot: usize,
    pub path: String,
}

/// Pending pixel work handed out by a tick: apply `op` to the buffer in
/// `src_slot`, hand the result to `finish_apply` with destination `dst`, and
/// reply with the returned index only if `reply_wanted`.
#[derive(Clone, Copy, Debug, PartialEq, Eq)]
pub struct PendingApply {
    pub src_slot: usize,
    pub dst: i64,
    pub op: ScalarOp,
    pub reply_wanted: bool,
}

/// What one tick asks of the surrounding loop, in order: send the replies,
/// apply any pending pixel work, perform any save, clear the window's
/// rectangles if asked, redraw if the shown buffer changed, and stop the
/// loop on `die`.
pub struct TickOut {
    pub replies: Vec<RhaiMsg>,
    pub die: bool,
    pub redraw: bool,
    pub cleared: bool,
    pub save: Option<SaveAction>,
    pub apply: Option<PendingApply>,
}

/// The dispatcher's abstract state.
#[verifier::ext_equal]
pub ghost struct HostView {
    pub images: Seq<image::DynamicImage>,
    pub show: int,
    pub inputs: Seq<Input>,
    pub pending: Seq<HostMsg>,
    pub rects_uv: Seq<RectUV>,
    pub rects_xy: Seq<RectXY>,
    pub last: Option<HostMsg>,
    pub repeated: bool,
}

/// The abstract outcome of one tick: the state after it and everything it
/// asked of the surrounding loop.
#[verifier::ext_equal]
pub ghost struct StepOut {
    pub host: HostView,
    pub replies: Seq<RhaiMsg>,
    pub die: bool,
    pub redraw: bool,
    pub cleared: bool,
    pub save: Option<SaveAction>,
    pub apply: Option<PendingApply>,
}

/// A queue without its head.
pub open spec fn behead<T>(s: Seq<T>) -> Seq<T> {
    s.subrange(1, s.len() as int)
}

/// Placing the result of a mutating command in a store `(images, show)`:
/// the new buffers, the replied index, and whether the shown buffer was
/// written. A negative destination appends and replies with the old length;
/// a non-negative one is clamped and overwritten.
pub open spec fn spec_put(
    images: Seq<image::DynamicImage>,
    show: int,
    dst: i64,
    img: image::DynamicImage,
) -> (Seq<image::DynamicImage>, i64, bool)
    recommends
        1 <= images.len() <= i64::MAX,
{
    if dst < 0 {
        (images.push(img), images.len() as i64, false)
    } else {
        let d = spec_img_index(dst, images.len() as int);
        (images.update(d, img), d as i64, d == show)
    }
}

/// The bookkeeping shared by every executed-and-popped command: the repeat
/// snapshot is overwritten by every command but the pure queries, and the
/// replay marker is cleared.
pub open spec fn exec_done(
    pre: HostView,
    cmd: HostMsg,
    h: HostView,
    replies: Seq<RhaiMsg>,
    die: bool,
    redraw: bool,
    cleared: bool,
    save: Option<SaveAction>,
    apply: Option<PendingApply>,
) -> StepOut {
    StepOut {
        host: HostView {
            last: if updates_last(cmd) {
                Some(cmd)
            } else {
                pre.last
            },
            repeated: false,
            ..h
        },
        replies,
        die,
        redraw,
        cleared,
        save,
        apply,
    }
}

/// A command that reads one buffer and places one result: pop it, place the
/// already-computed result, reply with the index unless the reply is
/// suppressed as a replay.
pub open spec fn unary_step(
    pre: HostView,
    cmd: HostMsg,
    send: bool,
    dst: i64,
    result: image::DynamicImage,
) -> StepOut {
    let p = spec_put(pre.images, pre.show, dst, result);
    exec_done(
        pre,
        cmd,
        HostView { images: p.0, pending: behead(pre.pending), ..pre },
        if send {
            seq![RhaiMsg::Int(p.1)]
        } else {
            Seq::empty()
        },
        false,
        p.2,
        false,
        None,
        None,
    )
}

/// A command with fractional parameters: pop it, resolve the source slot,
/// and hand the pixel work out.
pub open spec fn scalar_step(
    pre: HostView,
    cmd: HostMsg,
    send: bool,
    src: i64,
    dst: i64,
    op: ScalarOp,
) -> StepOut {
    exec_done(
        pre,
        cmd,
        HostView { pending: behead(pre.pending), ..pre },
        Seq::empty(),
        false,
        false,
        false,
        None,
        Some(
            PendingApply {
                src_slot: spec_img_index(src, pre.images.len() as int) as usize,
                dst,
                op,
                reply_wanted: send,
            },
        ),
    )
}

/// One tick of the dispatcher on the head of the pending queue, as a
/// function of the abstract state and the current window size. This is the
/// complete specification of `Host::step`.
pub open spec fn step_spec(pre: HostView, win_w: u32, win_h: u32) -> StepOut
    recommends
        1 <= pre.images.len() <= i64::MAX,
{
    if pre.pending.len() == 0 {
        StepOut {
            host: HostView { repeated: false, ..pre },
            replies: Seq::empty(),
            die: false,
            redraw: false,
            cleared: false,
            save: None,
            apply: None,
        }
    } else {
        let cmd = pre.pending[0];
        let send = !pre.repeated;
        let popped = HostView { pending: behead(pre.pending), ..pre };
        let len = pre.images.len() as int;
        match cmd {
            HostMsg::Kill => exec_done(
                pre,
                cmd,
                popped,
                seq![RhaiMsg::Killed],
                true,
                false,
                false,
                None,
                None,
            ),
            HostMsg::GetInputEvent => if pre.inputs.len() > 0 {
                exec_done(
                    pre,
                    cmd,
                    HostView { inputs: behead(pre.inputs), ..popped },
                    seq![RhaiMsg::Input(pre.inputs[0])],
                    false,
                    false,
                    false,
                    None,
                    None,
                )
            } else {
                // Not serviceable: leave the request at the head, to be
                // retried on a later tick.
                StepOut {
                    host: HostView { repeated: false, ..pre },
                    replies: Seq::empty(),
                    die: false,
                    redraw: false,
                    cleared: false,
                    save: None,
                    apply: None,
                }
            },
            HostMsg::GetWH => exec_done(
                pre,
                cmd,
                popped,
                seq![RhaiMsg::Int(win_w as i64), RhaiMsg::Int(win_h as i64)],
                false,
                false,
                false,
                None,
                None,
            ),
            HostMsg::ClearRects => exec_done(
                pre,
                cmd,
                popped,
                Seq::empty(),
                false,
                false,
                true,
                None,
                None,
            ),
            HostMsg::DrawRectUV(r) => exec_done(
                pre,
                cmd,
                HostView { rects_uv: pre.rects_uv.push(r), ..popped },
                Seq::empty(),
                false,
                false,
                false,
                None,
                None,
            ),
            HostMsg::DrawRectXY(r) => exec_done(
                pre,
                cmd,
                HostView { rects_xy: pre.rects_xy.push(r), ..popped },
                Seq::empty(),
                false,
                false,
                false,
                None,
                None,
            ),
            HostMsg::Crop(src, dst, px, py, qx, qy) => {
                let si = spec_img_index(src, len);
                if px == qx || py == qy {
                    // Degenerate selection: no mutation, the unchanged source
                    // index is the reply.
                    exec_done(
                        pre,
                        cmd,
                        popped,
                        if send {
                            seq![RhaiMsg::Int(si as i64)]
                        } else {
                            Seq::empty()
                        },
                        false,
                        false,
                        false,
                        None,
                        None,
                    )
                } else {
                    let r = spec_img_crop(px, py, qx, qy);
                    let img = image_ops::cropped_of(
                        pre.images[si],
                        r.0,
                        r.1,
                        (r.2 - r.0) as u32,
                        (r.3 - r.1) as u32,
                    );
                    unary_step(pre, cmd, send, dst, img)
                }
            },
            HostMsg::Save(src, path) => exec_done(
                pre,
                cmd,
                popped,
                Seq::empty(),
                false,
                false,
                false,
                Some(SaveAction { slot: spec_img_index(src, len) as usize, path }),
                None,
            ),
            HostMsg::FlipH(src, dst) => unary_step(
                pre,
                cmd,
                send,
                dst,
                image_ops::flip_h_of(pre.images[spec_img_index(src, len)]),
            ),
            HostMsg::FlipV(src, dst) => unary_step(
                pre,
                cmd,
                send,
                dst,
                image_ops::flip_v_of(pre.images[spec_img_index(src, len)]),
            ),
            HostMsg::Rot90(src, dst) => unary_step(
                pre,
                cmd,
                send,
                dst,
                image_ops::rot90_of(pre.images[spec_img_index(src, len)]),
            ),
            HostMsg::Rot180(src, dst) => unary_step(
                pre,
                cmd,
                send,
                dst,
                image_ops::rot180_of(pre.images[spec_img_index(src, len)]),
            ),
            HostMsg::Rot270(src, dst) => unary_step(
                pre,
                cmd,
                send,
                dst,
                image_ops::rot270_of(pre.images[spec_img_index(src, len)]),
            ),
            HostMsg::Invert(src, dst) => unary_step(
                pre,
                cmd,
                send,
                dst,
                image_ops::inverted_of(pre.images[spec_img_index(src, len)]),
            ),
            HostMsg::Grayscale(src, dst) => unary_step(
                pre,
                cmd,
                send,
                dst,
                image_ops::grayscale_of(pre.images[spec_img_index(src, len)]),
            ),
            HostMsg::Blur(src, dst, sigma) => scalar_step(
                pre,
                cmd,
                send,
                src,
                dst,
                ScalarOp::Blur(sigma),
            ),
            HostMsg::Unsharpen(src, dst, sigma, t) => scalar_step(
                pre,
                cmd,
                send,
                src,
                dst,
                ScalarOp::Unsharpen(sigma, t),
            ),
            HostMsg::Filter3x3(src, dst, k) => scalar_step(
                pre,
                cmd,
                send,
                src,
                dst,
                ScalarOp::Filter3x3(k),
            ),
            HostMsg::AdjustContrast(src, dst, c) => scalar_step(
                pre,
                cmd,
                send,
                src,
                dst,
                ScalarOp::AdjustContrast(c),
            ),
            HostMsg::Brighten(src, dst, v) => unary_step(
                pre,
                cmd,
                send,
                dst,
                image_ops::brightened_of(pre.images[spec_img_index(src, len)], v),
            ),
            HostMsg::Huerotate(src, dst, v) => unary_step(
                pre,
                cmd,
                send,
                dst,
                image_ops::huerotated_of(pre.images[spec_img_index(src, len)], v),
            ),
            HostMsg::Resize(src, dst, w, h, k) => unary_step(
                pre,
                cmd,
                send,
                dst,
                image_ops::resized_of(
                    pre.images[spec_img_index(src, len)],
                    spec_clamp(w),
                    spec_clamp(h),
                    k,
                ),
            ),
            HostMsg::ResizeExact(src, dst, w, h, k) => unary_step(
                pre,
                cmd,
                send,
                dst,
                image_ops::resize_exact_of(
                    pre.images[spec_img_index(src, len)],
                    spec_clamp(w),
                    spec_clamp(h),
                    k,
                ),
            ),
            HostMsg::ResizeFill(src, dst, w, h, k) => unary_step(
                pre,
                cmd,
                send,
                dst,
                image_ops::resize_fill_of(
                    pre.images[spec_img_index(src, len)],
                    spec_clamp(w),
                    spec_clamp(h),
                    k,
                ),
            ),
            HostMsg::Thumbnail(src, dst, w, h) => unary_step(
                pre,
                cmd,
                send,
                dst,
                image_ops::thumbnail_of(
                    pre.images[spec_img_index(src, len)],
                    spec_clamp(w),
                    spec_clamp(h),
                ),
            ),
            HostMsg::ThumbnailExact(src, dst, w, h) => unary_step(
                pre,
                cmd,
                send,
                dst,
                image_ops::thumbnail_exact_of(
                    pre.images[spec_img_index(src, len)],
                    spec_clamp(w),
                    spec_clamp(h),
                ),
            ),
            HostMsg::Show(i) => {
                let s = spec_img_index(i, len);
                exec_done(
                    pre,
                    cmd,
                    HostView { show: s, ..popped },
                    if send {
                        seq![RhaiMsg::Int(s as i64)]
                    } else {
                        Seq::empty()
                    },
                    false,
                    s != pre.show,
                    false,
                    None,
                    None,
                )
            },
            HostMsg::ShowNext => {
                let s = (pre.show + 1) % len;
                exec_done(
                    pre,
                    cmd,
                    HostView { show: s, ..popped },
                    if send {
                        seq![RhaiMsg::Int(s as i64)]
                    } else {
                        Seq::empty()
                    },
                    false,
                    s != pre.show,
                    false,
                    None,
                    None,
                )
            },
            HostMsg::ShowPrev => {
                let s = if pre.show == 0 {
                    len - 1
                } else {
                    pre.show - 1
                };
                exec_done(
                    pre,
                    cmd,
                    HostView { show: s, ..popped },
                    if send {
                        seq![RhaiMsg::Int(s as i64)]
                    } else {
                        Seq::empty()
                    },
                    false,
                    s != pre.show,
                    false,
                    None,
                    None,
                )
            },
            HostMsg::Shown => exec_done(
                pre,
                cmd,
                popped,
                if send {
                    seq![RhaiMsg::Int(pre.show as i64)]
                } else {
                    Seq::empty()
                },
                false,
                false,
                false,
                None,
                None,
            ),
            HostMsg::Create(w, h) => exec_done(
                pre,
                cmd,
                HostView {
                    images: pre.images.push(image_ops::new_rgb_of(spec_clamp(w), spec_clamp(h))),
                    ..popped
                },
                if send {
                    seq![RhaiMsg::Int(pre.images.len() as i64)]
                } else {
                    Seq::empty()
                },
                false,
                false,
                false,
                None,
                None,
            ),
            HostMsg::Copy(src, dst, x, y) => {
                let si = spec_img_index(src, len);
                let di = spec_img_index(dst, len);
                let from = if si == di {
                    image_ops::new_rgb_of(0, 0)
                } else {
                    pre.images[si]
                };
                let res = image_ops::copy_into_of(
                    pre.images[di],
                    from,
                    spec_clamp(x),
                    spec_clamp(y),
                );
                exec_done(
                    pre,
                    cmd,
                    HostView { images: pre.images.update(di, res.0), ..popped },
                    if send {
                        seq![RhaiMsg::Int(if res.1 { 1i64 } else { 0i64 })]
                    } else {
                        Seq::empty()
                    },
                    false,
                    di == pre.show,
                    false,
                    None,
                    None,
                )
            },
            HostMsg::Repeat => match pre.last {
                Some(l) => StepOut {
                    host: HostView {
                        pending: seq![l] + behead(pre.pending),
                        repeated: true,
                        ..pre
                    },
                    replies: Seq::empty(),
                    die: false,
                    redraw: false,
                    cleared: false,
                    save: None,
                    apply: None,
                },
                None => StepOut {
                    host: HostView { pending: behead(pre.pending), ..pre },
                    replies: Seq::empty(),
                    die: false,
                    redraw: false,
                    cleared: false,
                    save: None,
                    apply: None,
                },
            },
        }
    }
}

/// The dispatcher state: the image store, the FIFO input-event queue, the
/// FIFO pending-request queue, the rectangle buffers drained once per tick,
/// and the repeat mechanism's snapshot and replay marker.
pub struct Host {
    store: ImageStore,
    inputs: VecDeque<Input>,
    pending: VecDeque<HostMsg>,
    rects_uv: Vec<RectUV>,
    rects_xy: Vec<RectXY>,
    last: Option<HostMsg>,
    repeated: bool,
}

impl View for Host {
    type V = HostView;

    closed spec fn view(&self) -> HostView {
        HostView {
            images: self.store.images(),
            show: self.store.shown(),
            inputs: self.inputs@,
            pending: self.pending@,
            rects_uv: self.rects_uv@,
            rects_xy: self.rects_xy@,
            last: self.last,
            repeated: self.repeated,
        }
    }
}

impl Host {
    /// The dispatcher invariant: the store holds at least the startup
    /// buffer and shows a valid slot; the repeat snapshot only ever holds a
    /// qualifying command; and while a replay is marked, the replayed
    /// command stands at the head of the pending queue.
    pub open spec fn wf(&self) -> bool {
        &&& 1 <= self@.images.len() <= i64::MAX
        &&& 0 <= self@.show < self@.images.len()
        &&& (self@.last matches Some(c) ==> updates_last(c))
        &&& (self@.repeated ==> self@.pending.len() >= 1 && self@.last == Some(self@.pending[0]))
    }

    /// A fresh dispatcher holding the startup buffer, which is shown.
    pub fn new(first: image::DynamicImage) -> (h: Host)
        ensures
            h.wf(),
            h@ == (HostView {
                images: seq![first],
                show: 0,
                inputs: Seq::empty(),
                pending: Seq::empty(),
                rects_uv: Seq::empty(),
                rects_xy: Seq::empty(),
                last: None,
                repeated: false,
            }),
    {
        Host {
            store: ImageStore::new(first),
            inputs: VecDeque::new(),
            pending: VecDeque::new(),
            rects_uv: Vec::new(),
            rects_xy: Vec::new(),
            last: None,
            repeated: false,
        }
    }

    /// Enqueue a translated UI input event at the back of the input queue.
    pub fn push_input(&mut self, ev: Input)
        requires
            old(self).wf(),
        ensures
            final(self).wf(),
            final(self)@ == (HostView { inputs: old(self)@.inputs.push(ev), ..old(self)@ }),
    {
        self.inputs.push_back(ev);
    }

    /// Enqueue a script request at the back of the pending queue.
    pub fn push_request(&mut self, msg: HostMsg)
        requires
            old(self).wf(),
        ensures
            final(self).wf(),
            final(self)@ == (HostView { pending: old(self)@.pending.push(msg), ..old(self)@ }),
    {
        self.pending.push_back(msg);
    }

    pub fn store_len(&self) -> (n: usize)
        ensures
            n == self@.images.len(),
    {
        self.store.len()
    }

    pub fn shown_slot(&self) -> (i: usize)
        requires
            self.wf(),
        ensures
            i == self@.show,
    {
        self.store.shown_slot()
    }

    /// A borrow of the buffer in a slot, for rendering, saving and pending
    /// pixel work.
    pub fn image_at(&self, s: usize) -> (r: &image::DynamicImage)
        requires
            s < self@.images.len(),
        ensures
            *r == self@.images[s as int],
    {
        self.store.image_at(s)
    }

    /// Take the rectangles buffered by draw commands since the last drain;
    /// the buffers are left empty.
    pub fn take_rects(&mut self) -> (r: (Vec<RectUV>, Vec<RectXY>))
        requires
            old(self).wf(),
        ensures
            final(self).wf(),
            final(self)@ == (HostView {
                rects_uv: Seq::empty(),
                rects_xy: Seq::empty(),
                ..old(self)@
            }),
            r.0@ == old(self)@.rects_uv,
            r.1@ == old(self)@.rects_xy,
    {
        let mut ruv: Vec<RectUV> = Vec::new();
        let mut rxy: Vec<RectXY> = Vec::new();
        core::mem::swap(&mut ruv, &mut self.rects_uv);
        core::mem::swap(&mut rxy, &mut self.rects_xy);
        (ruv, rxy)
    }

    /// Place the finished buffer of handed-out pixel work, exactly as the
    /// dispatcher places any other mutating command's result: a negative
    /// destination appends and reports the index the buffer got, which
    /// equals the store length before the call; a non-negative destination
    /// is clamped and overwritten, and the store length is unchanged. The
    /// second result reports whether the shown buffer was written.
    pub fn finish_apply(&mut self, dst: i64, img: image::DynamicImage) -> (r: (i64, bool))
        requires
            old(self).wf(),
            old(self)@.images.len() < i64::MAX,
        ensures
            final(self).wf(),
            ({
                let p = spec_put(old(self)@.images, old(self)@.show, dst, img);
                &&& final(self)@ == (HostView { images: p.0, ..old(self)@ })
                &&& r.0 == p.1
                &&& r.1 == p.2
            }),
    {
        self.store.put_img(dst, img)
    }

    /// One tick on the head of the pending queue. The transition and
    /// everything it asks of the surrounding loop are exactly
    /// `step_spec(old(self)@, win_w, win_h)`.
    #[verifier::rlimit(100)]
    pub fn step(&mut self, win_w: u32, win_h: u32) -> (out: TickOut)
        requires
            old(self).wf(),
            old(self)@.images.len() < i64::MAX,
        ensures
            final(self).wf(),
            step_spec(old(self)@, win_w, win_h) == (StepOut {
                host: final(self)@,
                replies: out.replies@,
                die: out.die,
                redraw: out.redraw,
                cleared: out.cleared,
                save: out.save,
                apply: out.apply,
            }),
    {
        let ghost pre: HostView = self@;
        let mut out = TickOut {
            replies: Vec::new(),
            die: false,
            redraw: false,
            cleared: false,
            save: None,
            apply: None,
        };
        let head = self.pending.pop_front();
        let cmd = match head {
            Some(c) => c,
            None => {
                self.repeated = false;
                proof {
                    assert(step_spec(pre, win_w, win_h) =~= (StepOut {
                        host: self@,
                        replies: out.replies@,
                        die: out.die,
                        redraw: out.redraw,
                        cleared: out.cleared,
                        save: out.save,
                        apply: out.apply,
                    }));
                }
                return out;
            },
        };
        let send = !self.repeated;
        let mut not_popped = false;
        let mut is_repeat = false;
        let mut set_last = true;
        match &cmd {
            HostMsg::Kill => {
                out.die = true;
                out.replies.push(RhaiMsg::Killed);
            },
            HostMsg::GetInputEvent => {
                set_last = false;
                match self.inputs.pop_front() {
                    Some(ev) => {
                        out.replies.push(RhaiMsg::Input(ev));
                    },
                    None => {
                        not_popped = true;
                    },
                }
            },
            HostMsg::GetWH => {
                set_last = false;
                out.replies.push(RhaiMsg::Int(win_w as i64));
                out.replies.push(RhaiMsg::Int(win_h as i64));
            },
            HostMsg::ClearRects => {
                out.cleared = true;
            },
            HostMsg::DrawRectUV(r) => {
                self.rects_uv.push(*r);
            },
            HostMsg::DrawRectXY(r) => {
                self.rects_xy.push(*r);
            },
            HostMsg::Crop(src, dst, px, py, qx, qy) => {
                let s = self.store.img_index(*src);
                if *px == *qx || *py == *qy {
                    if send {
                        out.replies.push(RhaiMsg::Int(s as i64));
                    }
                } else {
                    let (lx, ly, hx, hy) = img_crop(*px, *py, *qx, *qy);
                    let img = image_ops::crop_image(
                        self.store.image_at(s),
                        lx,
                        ly,
                        hx - lx,
                        hy - ly,
                    );
                    let (idx, rd) = self.store.put_img(*dst, img);
                    if rd {
                        out.redraw = true;
                    }
                    if send {
                        out.replies.push(RhaiMsg::Int(idx));
                    }
                }
            },
            HostMsg::Save(src, path) => {
                let s = self.store.img_index(*src);
                out.save = Some(SaveAction { slot: s, path: path.clone() });
            },
            HostMsg::FlipH(src, dst) => {
                let s = self.store.img_index(*src);
                let img = image_ops::flip_h_image(self.store.image_at(s));
                let (idx, rd) = self.store.put_img(*dst, img);
                if rd {
                    out.redraw = true;
                }
                if send {
                    out.replies.push(RhaiMsg::Int(idx));
                }
            },
            HostMsg::FlipV(src, dst) => {
                let s = self.store.img_index(*src);
                let img = image_ops::flip_v_image(self.store.image_at(s));
                let (idx, rd) = self.store.put_img(*dst, img);
                if rd {
                    out.redraw = true;
                }
                if send {
                    out.replies.push(RhaiMsg::Int(idx));
                }
            },
            HostMsg::Rot90(src, dst) => {
                let s = self.store.img_index(*src);
                let img = image_ops::rot90_image(self.store.image_at(s));
                let (idx, rd) = self.store.put_img(*dst, img);
                if rd {
                    out.redraw = true;
                }
                if send {
                    out.replies.push(RhaiMsg::Int(idx));
                }
            },
            HostMsg::Rot180(src, dst) => {
                let s = self.store.img_index(*src);
                let img = image_ops::rot180_image(self.store.image_at(s));
                let (idx, rd) = self.store.put_img(*dst, img);
                if rd {
                    out.redraw = true;
                }
                if send {
                    out.replies.push(RhaiMsg::Int(idx));
                }
            },
            HostMsg::Rot270(src, dst) => {
                let s = self.store.img_index(*src);
                let img = image_ops::rot270_image(self.store.image_at(s));
                let (idx, rd) = self.store.put_img(*dst, img);
                if rd {
                    out.redraw = true;
                }
                if send {
                    out.replies.push(RhaiMsg::Int(idx));
                }
            },
            HostMsg::Invert(src, dst) => {
                let s = self.store.img_index(*src);
                let img = image_ops::invert_image(self.store.image_at(s));
                let (idx, rd) = self.store.put_img(*dst, img);
                if rd {
                    out.redraw = true;
                }
                if send {
                    out.replies.push(RhaiMsg::Int(idx));
                }
            },
            HostMsg::Grayscale(src, dst) => {
                let s = self.store.img_index(*src);
                let img = image_ops::grayscale_image(self.store.image_at(s));
                let (idx, rd) = self.store.put_img(*dst, img);
                if rd {
                    out.redraw = true;
                }
                if send {
                    out.replies.push(RhaiMsg::Int(idx));
                }
            },
            HostMsg::Blur(src, dst, sigma) => {
                let s = self.store.img_index(*src);
                out.apply = Some(
                    PendingApply {
                        src_slot: s,
                        dst: *dst,
                        op: ScalarOp::Blur(*sigma),
                        reply_wanted: send,
                    },
                );
            },
            HostMsg::Unsharpen(src, dst, sigma, t) => {
                let s = self.store.img_index(*src);
                out.apply = Some(
                    PendingApply {
                        src_slot: s,
                        dst: *dst,
                        op: ScalarOp::Unsharpen(*sigma, *t),
                        reply_wanted: send,
                    },
                );
            },
            HostMsg::Filter3x3(src, dst, k) => {
                let s = self.store.img_index(*src);
                out.apply = Some(
                    PendingApply {
                        src_slot: s,
                        dst: *dst,
                        op: ScalarOp::Filter3x3(*k),
                        reply_wanted: send,
                    },
                );
            },
            HostMsg::AdjustContrast(src, dst, c) => {
                let s = self.store.img_index(*src);
                out.apply = Some(
                    PendingApply {
                        src_slot: s,
                        dst: *dst,
                        op: ScalarOp::AdjustContrast(*c),
                        reply_wanted: send,
                    },
                );
            },
            HostMsg::Brighten(src, dst, v) => {
                let s = self.store.img_index(*src);
                let img = image_ops::brighten_image(self.store.image_at(s), *v);
                let (idx, rd) = self.store.put_img(*dst, img);
                if rd {
                    out.redraw = true;
                }
                if send {
                    out.replies.push(RhaiMsg::Int(idx));
                }
            },
            HostMsg::Huerotate(src, dst, v) => {
                let s = self.store.img_index(*src);
                let img = image_ops::huerotate_image(self.store.image_at(s), *v);
                let (idx, rd) = self.store.put_img(*dst, img);
                if rd {
                    out.redraw = true;
                }
                if send {
                    out.replies.push(RhaiMsg::Int(idx));
                }
            },
            HostMsg::Resize(src, dst, w, h, k) => {
                let s = self.store.img_index(*src);
                let img = image_ops::resize_image(
                    self.store.image_at(s),
                    clamp(*w),
                    clamp(*h),
                    *k,
                );
                let (idx, rd) = self.store.put_img(*dst, img);
                if rd {
                    out.redraw = true;
                }
                if send {
                    out.replies.push(RhaiMsg::Int(idx));
                }
            },
            HostMsg::ResizeExact(src, dst, w, h, k) => {
                let s = self.store.img_index(*src);
                let img = image_ops::resize_exact_image(
                    self.store.image_at(s),
                    clamp(*w),
                    clamp(*h),
                    *k,
                );
                let (idx, rd) = self.store.put_img(*dst, img);
                if rd {
                    out.redraw = true;
                }
                if send {
                    out.replies.push(RhaiMsg::Int(idx));
                }
            },
            HostMsg::ResizeFill(src, dst, w, h, k) => {
                let s = self.store.img_index(*src);
                let img = image_ops::resize_fill_image(
                    self.store.image_at(s),
                    clamp(*w),
                    clamp(*h),
                    *k,
                );
                let (idx, rd) = self.store.put_img(*dst, img);
                if rd {
                    out.redraw = true;
                }
                if send {
                    out.replies.push(RhaiMsg::Int(idx));
                }
            },
            HostMsg::Thumbnail(src, dst, w, h) => {
                let s = self.store.img_index(*src);
                let img = image_ops::thumbnail_image(self.store.image_at(s), clamp(*w), clamp(*h));
                let (idx, rd) = self.store.put_img(*dst, img);
                if rd {
                    out.redraw = true;
                }
                if send {
                    out.replies.push(RhaiMsg::Int(idx));
                }
            },
            HostMsg::ThumbnailExact(src, dst, w, h) => {
                let s = self.store.img_index(*src);
                let img = image_ops::thumbnail_exact_image(
                    self.store.image_at(s),
                    clamp(*w),
                    clamp(*h),
                );
                let (idx, rd) = self.store.put_img(*dst, img);
                if rd {
                    out.redraw = true;
                }
                if send {
                    out.replies.push(RhaiMsg::Int(idx));
                }
            },
            HostMsg::Show(i) => {
                let (idx, rd) = self.store.show_to(*i);
                if rd {
                    out.redraw = true;
                }
                if send {
                    out.replies.push(RhaiMsg::Int(idx));
                }
            },
            HostMsg::ShowNext => {
                let (idx, rd) = self.store.show_next();
                if rd {
                    out.redraw = true;
                }
                if send {
                    out.replies.push(RhaiMsg::Int(idx));
                }
            },
            HostMsg::ShowPrev => {
                let (idx, rd) = self.store.show_prev();
                if rd {
                    out.redraw = true;
                }
                if send {
                    out.replies.push(RhaiMsg::Int(idx));
                }
            },
            HostMsg::Shown => {
                set_last = false;
                if send {
                    let sh = self.store.shown_slot();
                    out.replies.push(RhaiMsg::Int(sh as i64));
                }
            },
            HostMsg::Create(w, h) => {
                let img = image_ops::new_rgb_image(clamp(*w), clamp(*h));
                let idx = self.store.append_img(img);
                if send {
                    out.replies.push(RhaiMsg::Int(idx));
                }
            },
            HostMsg::Copy(src, dst, x, y) => {
                let (ok, rd) = self.store.copy_between(*src, *dst, clamp(*x), clamp(*y));
                if rd {
                    out.redraw = true;
                }
                if send {
                    out.replies.push(RhaiMsg::Int(if ok { 1 } else { 0 }));
                }
            },
            HostMsg::Repeat => {
                is_repeat = true;
            },
        }
        if not_popped {
            self.pending.push_front(cmd);
            self.repeated = false;
        } else if is_repeat {
            let snapshot = match &self.last {
                Some(l) => Some(l.clone()),
                None => None,
            };
            match snapshot {
                Some(m) => {
                    self.pending.push_front(m);
                    self.repeated = true;
                },
                None => {},
            }
        } else {
            self.repeated = false;
            if set_last {
                self.last = Some(cmd);
            }
        }
        proof {
            assert(step_spec(pre, win_w, win_h) =~= (StepOut {
                host: self@,
                replies: out.replies@,
                die: out.die,
                redraw: out.redraw,
                cleared: out.cleared,
                save: out.save,
                apply: out.apply,
            }));
        }
        out
    }
}

} // verus!
