//! The image store: an ordered, append-only collection of image buffers,
//! together with the index of the buffer currently shown.
//!
//! Buffers are identified only by their slot index. A source index is
//! resolved by clamping into the valid range; a negative destination always
//! means "append a new buffer", a non-negative one is clamped and
//! overwritten. The store never removes a buffer, so every index a command
//! ever returned stays valid for the rest of the session.

use vstd::prelude::*;

verus! {

/// The slot a buffer index resolves to: clamped to `[0, len - 1]`.
pub open spec fn spec_img_index(i: i64, len: int) -> int
    recommends
        len >= 1,
{
    if i <= 0 {
        0
    } else if i >= len {
        len - 1
    } else {
        i as int
    }
}

pub struct ImageStore {
    images: Vec<image::DynamicImage>,
    show: usize,
}

impl ImageStore {
    /// The buffers, in slot order.
    pub closed spec fn images(&self) -> Seq<image::DynamicImage> {
        self.images@
    }

    /// The slot currently shown.
    pub closed spec fn shown(&self) -> int {
        self.show as int
    }

    /// A store always holds at least the startup buffer, and always shows a
    /// valid slot.
    pub open spec fn wf(&self) -> bool {
        &&& self.images().len() >= 1
        &&& self.images().len() <= i64::MAX
        &&& 0 <= self.shown() < self.images().len()
    }

    /// A fresh store holding the startup buffer, which is shown.
    pub fn new(first: image::DynamicImage) -> (s: Self)
        ensures
            s.wf(),
            s.images() == seq![first],
            s.shown() == 0,
    {
        let mut images: Vec<image::DynamicImage> = Vec::new();
        images.push(first);
        proof {
            assert(images@ =~= seq![first]);
        }
        ImageStore { images, show: 0 }
    }

    pub fn len(&self) -> (n: usize)
        ensures
            n == self.images().len(),
    {
        self.images.len()
    }

    pub fn shown_slot(&self) -> (i: usize)
        ensures
            i == self.shown(),
    {
        self.show
    }

    /// Resolve a buffer index, clamping it into the valid range.
    pub fn img_index(&self, i: i64) -> (s: usize)
        requires
            self.wf(),
        ensures
            s == spec_img_index(i, self.images().len() as int),
    {
        if i <= 0 {
            0
        } else {
            let last = self.images.len() - 1;
            if i as u64 >= last as u64 {
                last
            } else {
                i as usize
            }
        }
    }

    /// A borrow of the buffer in a slot.
    pub fn image_at(&self, s: usize) -> (r: &image::DynamicImage)
        requires
            s < self.images().len(),
        ensures
            *r == self.images()[s as int],
    {
        &self.images[s]
    }

    /// Place the result of a mutating command. A negative destination
    /// appends a new buffer and reports the index it got, which equals the
    /// store length before the call; a non-negative destination is clamped
    /// and that slot is overwritten. The second result reports whether the
    /// shown buffer was written.
    pub fn put_img(&mut self, dst: i64, img: image::DynamicImage) -> (r: (i64, bool))
        requires
            old(self).wf(),
            old(self).images().len() < i64::MAX,
        ensures
            final(self).wf(),
            final(self).shown() == old(self).shown(),
            dst < 0 ==> {
                &&& final(self).images() == old(self).images().push(img)
                &&& r.0 == old(self).images().len() as i64
                &&& r.1 == false
            },
            dst >= 0 ==> {
                let d = spec_img_index(dst, old(self).images().len() as int);
                &&& final(self).images() == old(self).images().update(d, img)
                &&& r.0 == d as i64
                &&& r.1 == (d == old(self).shown())
            },
    {
        if dst < 0 {
            self.images.push(img);
            ((self.images.len() - 1) as i64, false)
        } else {
            let d = self.img_index(dst);
            let slot = vstd::std_specs::vec::vec_index_mut(&mut self.images, d);
            *slot = img;
            (d as i64, d == self.show)
        }
    }

    /// Append a freshly created buffer; its index equals the store length
    /// before the call.
    pub fn append_img(&mut self, img: image::DynamicImage) -> (r: i64)
        requires
            old(self).wf(),
            old(self).images().len() < i64::MAX,
        ensures
            final(self).wf(),
            final(self).shown() == old(self).shown(),
            final(self).images() == old(self).images().push(img),
            r == old(self).images().len() as i64,
    {
        self.images.push(img);
        (self.images.len() - 1) as i64
    }

    /// Copy one buffer into another at the given offset: the pixel work of
    /// the `Copy` command. Both indices are clamped. When source and
    /// destination resolve to the same slot the source acts as an empty
    /// buffer, so the slot is left as it was and only the offset bounds are
    /// checked. The first result reports whether the source fit, the second
    /// whether the shown buffer was written.
    pub fn copy_between(&mut self, src: i64, dst: i64, x: u32, y: u32) -> (r: (bool, bool))
        requires
            old(self).wf(),
        ensures
            final(self).wf(),
            final(self).shown() == old(self).shown(),
            ({
                let si = spec_img_index(src, old(self).images().len() as int);
                let di = spec_img_index(dst, old(self).images().len() as int);
                let from = if si == di {
                    crate::image_ops::new_rgb_of(0, 0)
                } else {
                    old(self).images()[si]
                };
                let res = crate::image_ops::copy_into_of(old(self).images()[di], from, x, y);
                &&& final(self).images() == old(self).images().update(di, res.0)
                &&& r.0 == res.1
                &&& r.1 == (di == old(self).shown())
            }),
    {
        let si = self.img_index(src);
        let di = self.img_index(dst);
        let ok = if si == di {
            let empty_img = crate::image_ops::new_rgb_image(0, 0);
            let slot = vstd::std_specs::vec::vec_index_mut(&mut self.images, di);
            crate::image_ops::copy_into(slot, &empty_img, x, y)
        } else {
            let s_img = crate::image_ops::clone_image(&self.images[si]);
            let slot = vstd::std_specs::vec::vec_index_mut(&mut self.images, di);
            crate::image_ops::copy_into(slot, &s_img, x, y)
        };
        (ok, di == self.show)
    }

    /// Show the buffer an index resolves to; reports the resolved index and
    /// whether the shown slot changed.
    pub fn show_to(&mut self, i: i64) -> (r: (i64, bool))
        requires
            old(self).wf(),
        ensures
            final(self).wf(),
            final(self).images() == old(self).images(),
            final(self).shown() == spec_img_index(i, old(self).images().len() as int),
            r.0 == final(self).shown() as i64,
            r.1 == (final(self).shown() != old(self).shown()),
    {
        let s = self.img_index(i);
        let changed = s != self.show;
        self.show = s;
        (s as i64, changed)
    }

    /// Show the next buffer, wrapping modulo the store length.
    pub fn show_next(&mut self) -> (r: (i64, bool))
        requires
            old(self).wf(),
        ensures
            final(self).wf(),
            final(self).images() == old(self).images(),
            final(self).shown() == (old(self).shown() + 1) % (old(self).images().len() as int),
            r.0 == final(self).shown() as i64,
            r.1 == (final(self).shown() != old(self).shown()),
    {
        let n = self.images.len();
        let s = (self.show + 1) % n;
        let changed = s != self.show;
        self.show = s;
        (s as i64, changed)
    }

    /// Show the previous buffer, wrapping modulo the store length.
    pub fn show_prev(&mut self) -> (r: (i64, bool))
        requires
            old(self).wf(),
        ensures
            final(self).wf(),
            final(self).images() == old(self).images(),
            final(self).shown() == if old(self).shown() == 0 {
                old(self).images().len() - 1
            } else {
                old(self).shown() - 1
            },
            r.0 == final(self).shown() as i64,
            r.1 == (final(self).shown() != old(self).shown()),
    {
        let s = if self.show == 0 {
            self.images.len() - 1
        } else {
            self.show - 1
        };
        let changed = s != self.show;
        self.show = s;
        (s as i64, changed)
    }
}

} // verus!
