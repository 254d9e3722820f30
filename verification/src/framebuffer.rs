//! The render target: a color buffer and a depth buffer of equal size.
//! The only compositing rule is nearest-wins depth testing: a write lands
//! iff its depth is strictly smaller than the stored one.
use vstd::prelude::*;

verus! {

/// The depth stored where nothing has been drawn yet: larger than every
/// real depth, so the first write at a pixel always lands.
pub const DEPTH_SENTINEL: i64 = i64::MAX;

pub struct Framebuffer {
    pub width: usize,
    pub height: usize,
    pub buffer: Vec<u32>,
    pub zbuffer: Vec<i64>,
    pub background_color: u32,
    pub current_color: u32,
}

/// `x < w`, `y < h` pin the row-major index under `w * h`.
proof fn lemma_idx_bound(x: int, y: int, w: int, h: int)
    requires
        0 <= x < w,
        0 <= y < h,
    ensures
        0 <= y * w + x < w * h,
{
    assert(0 <= y * w + x < w * h) by (nonlinear_arith)
        requires
            0 <= x < w,
            0 <= y < h,
    ;
}

impl Framebuffer {
    /// Both buffers always hold exactly one entry per pixel.
    pub open spec fn wf(self) -> bool {
        &&& self.buffer@.len() == (self.width as int) * (self.height as int)
        &&& self.zbuffer@.len() == (self.width as int) * (self.height as int)
    }

    /// The row-major index of pixel `(x, y)`.
    pub open spec fn idx(self, x: int, y: int) -> int {
        y * (self.width as int) + x
    }

    /// The stored color at a pixel.
    pub open spec fn color_at(self, x: int, y: int) -> u32 {
        self.buffer@[self.idx(x, y)]
    }

    /// The stored depth at a pixel.
    pub open spec fn depth_at(self, x: int, y: int) -> i64 {
        self.zbuffer@[self.idx(x, y)]
    }

    /// A freshly allocated target: both buffers zero-initialized.
    pub fn new(width: usize, height: usize) -> (fb: Framebuffer)
        requires
            (width as int) * (height as int) <= usize::MAX as int,
        ensures
            fb.wf(),
            fb.width == width,
            fb.height == height,
            fb.background_color == 0,
            fb.current_color == 0,
            fb.buffer@ == Seq::new(((width as int) * (height as int)) as nat, |i: int| 0u32),
            fb.zbuffer@ == Seq::new(((width as int) * (height as int)) as nat, |i: int| 0i64),
    {
        let n: usize = width * height;
        let mut buffer: Vec<u32> = Vec::new();
        let mut zbuffer: Vec<i64> = Vec::new();
        let mut i: usize = 0;
        while i < n
            invariant
                i <= n,
                buffer@ == Seq::new(i as nat, |j: int| 0u32),
                zbuffer@ == Seq::new(i as nat, |j: int| 0i64),
            decreases n - i,
        {
            buffer.push(0);
            zbuffer.push(0);
            proof {
                assert(buffer@ =~= Seq::new((i + 1) as nat, |j: int| 0u32));
                assert(zbuffer@ =~= Seq::new((i + 1) as nat, |j: int| 0i64));
            }
            i += 1;
        }
        Framebuffer { width, height, buffer, zbuffer, background_color: 0, current_color: 0 }
    }

    /// Set the color that `clear` floods the color buffer with.
    pub fn set_background_color(&mut self, c: u32)
        ensures
            *final(self) == (Framebuffer { background_color: c, ..*old(self) }),
    {
        self.background_color = c;
    }

    /// Set the color that subsequent `point` calls draw with.
    pub fn set_current_color(&mut self, c: u32)
        ensures
            *final(self) == (Framebuffer { current_color: c, ..*old(self) }),
    {
        self.current_color = c;
    }

    /// What `clear` leaves behind: every pixel holds the background color
    /// and every depth entry the sentinel; nothing else changes.
    pub open spec fn is_clear_of(self, pre: Framebuffer) -> bool {
        &&& self.width == pre.width
        &&& self.height == pre.height
        &&& self.background_color == pre.background_color
        &&& self.current_color == pre.current_color
        &&& self.buffer@ == Seq::new(
            ((pre.width as int) * (pre.height as int)) as nat,
            |i: int| pre.background_color,
        )
        &&& self.zbuffer@ == Seq::new(
            ((pre.width as int) * (pre.height as int)) as nat,
            |i: int| DEPTH_SENTINEL,
        )
    }

    /// Flood the color buffer with the background color and reset every
    /// depth entry to the sentinel.
    pub fn clear(&mut self)
        requires
            old(self).wf(),
        ensures
            final(self).wf(),
            final(self).is_clear_of(*old(self)),
    {
        let n: usize = self.buffer.len();
        let mut i: usize = 0;
        while i < n
            invariant
                i <= n,
                n == self.buffer@.len(),
                n == self.zbuffer@.len(),
                self.width == old(self).width,
                self.height == old(self).height,
                self.background_color == old(self).background_color,
                self.current_color == old(self).current_color,
                forall|j: int| 0 <= j < i ==> self.buffer@[j] == self.background_color,
                forall|j: int| 0 <= j < i ==> self.zbuffer@[j] == DEPTH_SENTINEL,
            decreases n - i,
        {
            let bg = self.background_color;
            self.buffer.set(i, bg);
            self.zbuffer.set(i, DEPTH_SENTINEL);
            i += 1;
        }
        proof {
            assert(self.buffer@ =~= Seq::new(
                ((old(self).width as int) * (old(self).height as int)) as nat,
                |i: int| old(self).background_color,
            ));
            assert(self.zbuffer@ =~= Seq::new(
                ((old(self).width as int) * (old(self).height as int)) as nat,
                |i: int| DEPTH_SENTINEL,
            ));
        }
    }

    /// Depth-tested plot of one pixel in the current color. Out-of-bounds
    /// coordinates are dropped; an in-bounds write lands iff `depth` is
    /// strictly smaller than the stored depth, and then updates the color
    /// and depth entries of that pixel alone.
    pub fn point(&mut self, x: usize, y: usize, depth: i64)
        requires
            old(self).wf(),
        ensures
            final(self).wf(),
            final(self).width == old(self).width,
            final(self).height == old(self).height,
            final(self).background_color == old(self).background_color,
            final(self).current_color == old(self).current_color,
            if x < old(self).width && y < old(self).height && depth < old(self).depth_at(
                x as int,
                y as int,
            ) {
                &&& final(self).buffer@ == old(self).buffer@.update(
                    old(self).idx(x as int, y as int),
                    old(self).current_color,
                )
                &&& final(self).zbuffer@ == old(self).zbuffer@.update(
                    old(self).idx(x as int, y as int),
                    depth,
                )
            } else {
                *final(self) == *old(self)
            },
            depth_monotonic(*old(self), *final(self)),
    {
        if x < self.width && y < self.height {
            // Materialize the buffer length so the index bound below is
            // known to fit the address space.
            let _len: usize = self.buffer.len();
            proof {
                lemma_idx_bound(x as int, y as int, self.width as int, self.height as int);
            }
            let i: usize = y * self.width + x;
            if depth < self.zbuffer[i] {
                let c = self.current_color;
                self.buffer.set(i, c);
                self.zbuffer.set(i, depth);
            }
        }
    }
}

/// One depth-tested write seen abstractly at a single pixel: the sample
/// `call` (depth, color) lands only if it is strictly nearer.
pub open spec fn plot_step(d: i64, c: u32, call: (i64, u32)) -> (i64, u32) {
    if call.0 < d {
        call
    } else {
        (d, c)
    }
}

/// A whole sequence of depth-tested writes at one pixel, applied in order
/// to the starting depth `d0` and color `c0`.
pub open spec fn plot_seq(d0: i64, c0: u32, calls: Seq<(i64, u32)>) -> (i64, u32)
    decreases calls.len(),
{
    if calls.len() == 0 {
        (d0, c0)
    } else {
        let prev = plot_seq(d0, c0, calls.drop_last());
        plot_step(prev.0, prev.1, calls.last())
    }
}

/// The least depth seen so far, counting the starting depth.
pub open spec fn min_depth(d0: i64, calls: Seq<(i64, u32)>) -> i64
    decreases calls.len(),
{
    if calls.len() == 0 {
        d0
    } else {
        let prev = min_depth(d0, calls.drop_last());
        if calls.last().0 < prev {
            calls.last().0
        } else {
            prev
        }
    }
}

/// The buffer contents and current draw color of a framebuffer, as one
/// abstract state: what a sequence of draw calls folds over.
pub open spec fn fb_state(fb: Framebuffer) -> (Seq<u32>, Seq<i64>, u32) {
    (fb.buffer@, fb.zbuffer@, fb.current_color)
}

/// One drawing command `(x, y, depth, color)` applied to an abstract state
/// on a `w` by `h` raster: set the draw color, then depth-test the pixel —
/// exactly `set_current_color(color)` followed by `point(x, y, depth)`.
pub open spec fn spec_write_step(
    w: int,
    h: int,
    s: (Seq<u32>, Seq<i64>, u32),
    wr: (int, int, i64, u32),
) -> (Seq<u32>, Seq<i64>, u32) {
    let idx = wr.1 * w + wr.0;
    if 0 <= wr.0 < w && 0 <= wr.1 < h && wr.2 < s.1[idx] {
        (s.0.update(idx, wr.3), s.1.update(idx, wr.2), wr.3)
    } else {
        (s.0, s.1, wr.3)
    }
}

/// A whole sequence of drawing commands applied in order.
pub open spec fn spec_apply_writes(
    w: int,
    h: int,
    s: (Seq<u32>, Seq<i64>, u32),
    writes: Seq<(int, int, i64, u32)>,
) -> (Seq<u32>, Seq<i64>, u32)
    decreases writes.len(),
{
    if writes.len() == 0 {
        s
    } else {
        spec_write_step(w, h, spec_apply_writes(w, h, s, writes.drop_last()), writes.last())
    }
}

/// A drawing step reads only the buffers of its source state, never the
/// current color (each command carries its own).
pub proof fn lemma_step_ignores_current(
    w: int,
    h: int,
    s1: (Seq<u32>, Seq<i64>, u32),
    s2: (Seq<u32>, Seq<i64>, u32),
    wr: (int, int, i64, u32),
)
    requires
        s1.0 == s2.0,
        s1.1 == s2.1,
    ensures
        spec_write_step(w, h, s1, wr) == spec_write_step(w, h, s2, wr),
{
}

/// A nonempty command list erases the starting current color entirely.
pub proof fn lemma_apply_ignores_current(
    w: int,
    h: int,
    s1: (Seq<u32>, Seq<i64>, u32),
    s2: (Seq<u32>, Seq<i64>, u32),
    ws: Seq<(int, int, i64, u32)>,
)
    requires
        s1.0 == s2.0,
        s1.1 == s2.1,
        ws.len() > 0,
    ensures
        spec_apply_writes(w, h, s1, ws) == spec_apply_writes(w, h, s2, ws),
    decreases ws.len(),
{
    if ws.len() == 1 {
        lemma_step_ignores_current(w, h, s1, s2, ws.last());
        assert(spec_apply_writes(w, h, s1, ws.drop_last()) == s1);
        assert(spec_apply_writes(w, h, s2, ws.drop_last()) == s2);
    } else {
        lemma_apply_ignores_current(w, h, s1, s2, ws.drop_last());
        assert(spec_apply_writes(w, h, s1, ws) == spec_write_step(
            w,
            h,
            spec_apply_writes(w, h, s1, ws.drop_last()),
            ws.last(),
        ));
        assert(spec_apply_writes(w, h, s2, ws) == spec_write_step(
            w,
            h,
            spec_apply_writes(w, h, s2, ws.drop_last()),
            ws.last(),
        ));
    }
}

/// Appending one command applies one more step.
pub proof fn lemma_apply_push(
    w: int,
    h: int,
    s: (Seq<u32>, Seq<i64>, u32),
    ws: Seq<(int, int, i64, u32)>,
    wr: (int, int, i64, u32),
)
    ensures
        spec_apply_writes(w, h, s, ws.push(wr)) == spec_write_step(
            w,
            h,
            spec_apply_writes(w, h, s, ws),
            wr,
        ),
{
    assert(ws.push(wr).drop_last() =~= ws);
    assert(ws.push(wr).last() == wr);
}

/// Applying concatenated command lists is applying them one after the
/// other.
pub proof fn lemma_apply_append(
    w: int,
    h: int,
    s: (Seq<u32>, Seq<i64>, u32),
    a: Seq<(int, int, i64, u32)>,
    b: Seq<(int, int, i64, u32)>,
)
    ensures
        spec_apply_writes(w, h, s, a + b) == spec_apply_writes(
            w,
            h,
            spec_apply_writes(w, h, s, a),
            b,
        ),
    decreases b.len(),
{
    if b.len() == 0 {
        assert(a + b =~= a);
    } else {
        lemma_apply_append(w, h, s, a, b.drop_last());
        assert((a + b).drop_last() =~= a + b.drop_last());
        assert((a + b).last() == b.last());
    }
}

/// The compositing direction of depth-tested drawing: stored depths only
/// ever decrease, and a pixel's color changes only where its depth
/// strictly improved.
pub open spec fn depth_monotonic(pre: Framebuffer, post: Framebuffer) -> bool {
    &&& post.buffer@.len() == pre.buffer@.len()
    &&& post.zbuffer@.len() == pre.zbuffer@.len()
    &&& forall|i: int| 0 <= i < pre.zbuffer@.len() ==> post.zbuffer@[i] <= pre.zbuffer@[i]
    &&& forall|i: int|
        0 <= i < pre.buffer@.len() && i < pre.zbuffer@.len() && post.buffer@[i]
            != pre.buffer@[i] ==> post.zbuffer@[i] < pre.zbuffer@[i]
}

/// `depth_monotonic` composes across successive drawing steps.
pub proof fn lemma_depth_monotonic_trans(a: Framebuffer, b: Framebuffer, c: Framebuffer)
    requires
        depth_monotonic(a, b),
        depth_monotonic(b, c),
    ensures
        depth_monotonic(a, c),
{
    assert forall|i: int|
        0 <= i < a.buffer@.len() && i < a.zbuffer@.len() && c.buffer@[i]
            != a.buffer@[i] implies c.zbuffer@[i] < a.zbuffer@[i] by {
        if c.buffer@[i] != b.buffer@[i] {
        } else {
        }
    }
}

/// One `point` call at an in-bounds pixel is exactly one `plot_step` on
/// that pixel's stored depth and color, with the current draw color as
/// the sample; `post` is any state that `point`'s contract admits.
pub proof fn lemma_point_is_plot_step(
    pre: Framebuffer,
    post: Framebuffer,
    x: int,
    y: int,
    depth: i64,
)
    requires
        pre.wf(),
        0 <= x < pre.width,
        0 <= y < pre.height,
        post.width == pre.width,
        if depth < pre.depth_at(x, y) {
            &&& post.buffer@ == pre.buffer@.update(pre.idx(x, y), pre.current_color)
            &&& post.zbuffer@ == pre.zbuffer@.update(pre.idx(x, y), depth)
        } else {
            post.buffer@ == pre.buffer@ && post.zbuffer@ == pre.zbuffer@
        },
    ensures
        (post.depth_at(x, y), post.color_at(x, y)) == plot_step(
            pre.depth_at(x, y),
            pre.color_at(x, y),
            (depth, pre.current_color),
        ),
{
    lemma_idx_bound(x, y, pre.width as int, pre.height as int);
}

/// A later call whose depth is not strictly smaller than the stored depth
/// changes nothing.
pub proof fn lemma_point_larger_depth_no_change(d: i64, c: u32, call: (i64, u32))
    requires
        call.0 >= d,
    ensures
        plot_step(d, c, call) == (d, c),
{
}

/// Depth-test law: after any sequence of `point` calls at one pixel, the
/// stored depth is the least depth seen so far, and the stored color is
/// the one of the first call that reached that depth — or the starting
/// color, if no call came strictly nearer than the start.
pub proof fn lemma_depth_test(d0: i64, c0: u32, calls: Seq<(i64, u32)>)
    ensures
        plot_seq(d0, c0, calls).0 == min_depth(d0, calls),
        min_depth(d0, calls) <= d0,
        forall|j: int| 0 <= j < calls.len() ==> min_depth(d0, calls) <= calls[j].0,
        plot_seq(d0, c0, calls).0 == d0 ==> plot_seq(d0, c0, calls).1 == c0,
        plot_seq(d0, c0, calls).0 < d0 ==> exists|i: int|
            {
                &&& 0 <= i < calls.len()
                &&& calls[i] == plot_seq(d0, c0, calls)
                &&& forall|j: int| 0 <= j < i ==> calls[j].0 > plot_seq(d0, c0, calls).0
            },
    decreases calls.len(),
{
    if calls.len() == 0 {
    } else {
        let head = calls.drop_last();
        lemma_depth_test(d0, c0, head);
        let prev = plot_seq(d0, c0, head);
        let last = calls.last();
        let fin = plot_seq(d0, c0, calls);
        assert(forall|j: int| 0 <= j < head.len() ==> head[j] == calls[j]);
        if last.0 < prev.0 {
            assert(fin == last);
            assert(forall|j: int| 0 <= j < calls.len() - 1 ==> min_depth(d0, head) <= calls[j].0);
            let i = calls.len() - 1;
            assert(calls[i] == fin && forall|j: int| 0 <= j < i ==> calls[j].0 > fin.0);
        } else {
            assert(fin == prev);
            if fin.0 < d0 {
                let i0 = choose|i: int|
                    {
                        &&& 0 <= i < head.len()
                        &&& head[i] == prev
                        &&& forall|j: int| 0 <= j < i ==> head[j].0 > prev.0
                    };
                assert(calls[i0] == fin && forall|j: int| 0 <= j < i0 ==> calls[j].0 > fin.0);
            }
        }
    }
}

/// Clearing twice in a row leaves exactly the buffer contents that one
/// clear leaves.
pub proof fn lemma_clear_idempotent(a: Framebuffer, b: Framebuffer, c: Framebuffer)
    requires
        b.is_clear_of(a),
        c.is_clear_of(b),
    ensures
        c.buffer@ == b.buffer@,
        c.zbuffer@ == b.zbuffer@,
{
    assert(c.buffer@ =~= b.buffer@);
    assert(c.zbuffer@ =~= b.zbuffer@);
}

} // verus!
