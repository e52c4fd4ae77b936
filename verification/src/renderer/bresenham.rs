//! Traversal of the pixels of a clipped segment, after Bresenham.
//!
//! The segment is first clipped against a rectangle; the coordinates of its
//! two ends are then rounded toward zero.  The traversal visits one pixel for
//! every value of the major axis, from the first end to the last, both
//! included, and moves along the minor axis whenever the accumulated error
//! is no longer negative.
use crate::math::vector::Vec2;
use crate::renderer::clip::{cohen_sutherland_line_clip, spec_clip};
use crate::fixed::trunc_raw;
use vstd::prelude::*;

verus! {

/// The state of a traversal.  `x` runs along the major axis and `y` along
/// the minor one; for a steep segment the two are exchanged when a pixel is
/// handed out.
#[derive(Clone, Copy, Debug)]
pub struct Bresenham {
    final_x: i32,
    final_y: i32,
    x: i32,
    y: i32,
    steep: i32,
    step: i32,
    e: i32,
    sy: i32,
    sx: i32,
    desc: i32,
    done: bool,
}

/// Distance from `from` to `to` in the direction `s`, which is 1 or -1.
pub open spec fn directed(from: int, to: int, s: int) -> int {
    if s == 1 {
        to - from
    } else {
        from - to
    }
}

/// Absolute value.
pub open spec fn magnitude(v: int) -> int {
    if v < 0 {
        -v
    } else {
        v
    }
}

impl Bresenham {
    /// The pixel that is handed out next.
    pub closed spec fn spec_current(self) -> (int, int) {
        if self.steep > 0 {
            (self.y as int, self.x as int)
        } else {
            (self.x as int, self.y as int)
        }
    }

    /// The pixel that is handed out last.
    pub closed spec fn spec_last(self) -> (int, int) {
        if self.steep > 0 {
            (self.final_y as int, self.final_x as int)
        } else {
            (self.final_x as int, self.final_y as int)
        }
    }

    /// Whether every pixel was handed out.
    pub closed spec fn spec_done(self) -> bool {
        self.done
    }

    /// Whether the segment is steep: the major axis, along which every step
    /// moves, is then `y`, and else `x`.
    pub closed spec fn spec_steep(self) -> bool {
        self.steep > 0
    }

    /// Number of pixels that are still to come.
    pub closed spec fn remaining(self) -> nat {
        if self.done {
            0
        } else {
            (directed(self.x as int, self.final_x as int, self.sx as int) + 1) as nat
        }
    }

    /// The invariant of a traversal: the current pixel lies before the last
    /// one along both axes, and the error term accounts exactly for the
    /// steps that are left on either axis.
    pub closed spec fn wf(self) -> bool {
        let rem = directed(self.x as int, self.final_x as int, self.sx as int);
        let remy = directed(self.y as int, self.final_y as int, self.sy as int);
        &&& (self.sx == 1 || self.sx == -1)
        &&& (self.sy == 1 || self.sy == -1)
        &&& (self.steep == 1 || self.steep == -1)
        &&& -32768 <= self.x <= 32767
        &&& -32768 <= self.y <= 32767
        &&& -32768 <= self.final_x <= 32767
        &&& -32768 <= self.final_y <= 32767
        &&& -131072 <= self.desc <= 0
        &&& 0 <= self.step <= -self.desc
        &&& (!self.done ==> {
            &&& rem >= 0
            &&& remy >= 0
            &&& if self.desc == 0 {
                rem == 0 && remy == 0
            } else {
                &&& self.desc <= self.e < 0
                &&& 2 * self.e - self.desc + 2 * (rem * self.step) == -2 * (remy * self.desc)
            }
        })
    }

    /// Whether `p` lies in the box between the current and the last pixel.
    pub open spec fn in_span(self, p: (int, int)) -> bool {
        let c = self.spec_current();
        let l = self.spec_last();
        &&& (c.0 <= p.0 <= l.0 || l.0 <= p.0 <= c.0)
        &&& (c.1 <= p.1 <= l.1 || l.1 <= p.1 <= c.1)
    }

    /// The traversal at its start, from the pixel `(x0, y0)` to `(x1, y1)`.
    pub closed spec fn spec_start(x0: int, y0: int, x1: int, y1: int) -> Bresenham {
        let dx = magnitude(x1 - x0);
        let dy = magnitude(y1 - y0);
        let sx: i32 = if x1 >= x0 { 1i32 } else { -1i32 };
        let sy: i32 = if y1 >= y0 { 1i32 } else { -1i32 };
        if dx < dy {
            Bresenham {
                final_x: y1 as i32,
                final_y: x1 as i32,
                x: y0 as i32,
                y: x0 as i32,
                steep: 1i32,
                step: (2 * dx) as i32,
                e: (-dy) as i32,
                sy: sx,
                sx: sy,
                desc: (-2 * dy) as i32,
                done: false,
            }
        } else {
            Bresenham {
                final_x: x1 as i32,
                final_y: y1 as i32,
                x: x0 as i32,
                y: y0 as i32,
                steep: -1i32,
                step: (2 * dy) as i32,
                e: (-dx) as i32,
                sy,
                sx,
                desc: (-2 * dx) as i32,
                done: false,
            }
        }
    }

    /// The state after the current pixel was handed out.
    pub closed spec fn spec_advance(self) -> Bresenham {
        if self.done {
            self
        } else if self.x == self.final_x {
            Bresenham { done: true, ..self }
        } else if self.e + self.step >= 0 {
            Bresenham {
                e: (self.e + self.step + self.desc) as i32,
                y: (self.y + self.sy) as i32,
                x: (self.x + self.sx) as i32,
                ..self
            }
        } else {
            Bresenham { e: (self.e + self.step) as i32, x: (self.x + self.sx) as i32, ..self }
        }
    }

    /// The pixels that are still to come, in their order.
    pub open spec fn spec_pixels(self) -> Seq<(int, int)>
        decreases self.remaining(),
        when self.wf()
    {
        if self.spec_done() {
            Seq::empty()
        } else {
            proof {
                self.lemma_advance();
            }
            seq![self.spec_current()] + self.spec_advance().spec_pixels()
        }
    }

    /// Handing out a pixel keeps the invariant, leaves one pixel less to
    /// come, and keeps what is to come in the box between the pixel handed
    /// out and the last one.
    pub proof fn lemma_advance(self)
        requires
            self.wf(),
            !self.spec_done(),
        ensures
            self.spec_advance().wf(),
            self.spec_advance().remaining() == self.remaining() - 1,
            self.spec_advance().spec_last() == self.spec_last(),
            self.in_span(self.spec_current()),
            self.in_span(self.spec_last()),
            !self.spec_advance().spec_done() ==> self.in_span(self.spec_advance().spec_current()),
            self.spec_advance().spec_done() <==> self.spec_current() == self.spec_last(),
    {
        let rem = directed(self.x as int, self.final_x as int, self.sx as int);
        let remy = directed(self.y as int, self.final_y as int, self.sy as int);
        let next = self.spec_advance();
        if self.x == self.final_x {
            assert(rem == 0);
            if self.desc != 0 {
                assert(rem * self.step == 0) by (nonlinear_arith)
                    requires
                        rem == 0,
                ;
                assert(remy == 0) by (nonlinear_arith)
                    requires
                        2 * self.e - self.desc == -2 * (remy * self.desc),
                        self.desc <= self.e < 0,
                        remy >= 0,
                ;
            }
        } else {
            assert(rem >= 1);
            assert(self.desc != 0);
            assert((rem - 1) * self.step == rem * self.step - self.step) by (nonlinear_arith);
            if self.e + self.step >= 0 {
                assert(remy >= 1) by (nonlinear_arith)
                    requires
                        2 * self.e - self.desc + 2 * (rem * self.step) == -2 * (remy * self.desc),
                        self.e + self.step >= 0,
                        rem >= 1,
                        self.desc < 0,
                        self.step >= 0,
                        remy >= 0,
                ;
                assert((remy - 1) * self.desc == remy * self.desc - self.desc) by (nonlinear_arith);
                assert(next.x == self.x + self.sx);
                assert(next.y == self.y + self.sy);
                assert(directed(next.x as int, next.final_x as int, next.sx as int) == rem - 1);
                assert(directed(next.y as int, next.final_y as int, next.sy as int) == remy - 1);
            } else {
                assert(next.x == self.x + self.sx);
                assert(directed(next.x as int, next.final_x as int, next.sx as int) == rem - 1);
            }
        }
    }

    /// Every pixel that is still to come lies in the box between the current
    /// and the last pixel, and there are `remaining()` of them.
    pub proof fn lemma_pixels_in_span(self)
        requires
            self.wf(),
        ensures
            self.spec_pixels().len() == self.remaining(),
            forall|i: int|
                0 <= i < self.spec_pixels().len() ==> self.in_span(#[trigger] self.spec_pixels()[i]),
            !self.spec_done() ==> self.spec_pixels().first() == self.spec_current()
                && self.spec_pixels().last() == self.spec_last(),
        decreases self.remaining(),
    {
        if !self.spec_done() {
            self.lemma_advance();
            let next = self.spec_advance();
            next.lemma_pixels_in_span();
            let rest = next.spec_pixels();
            let all = self.spec_pixels();
            assert(all == seq![self.spec_current()] + rest);
            assert forall|i: int| 0 <= i < all.len() implies self.in_span(#[trigger] all[i]) by {
                if i > 0 {
                    assert(all[i] == rest[i - 1]);
                    assert(next.in_span(rest[i - 1]));
                }
            }
            if next.spec_done() {
                assert(rest.len() == 0);
                assert(all.last() == self.spec_current());
            } else {
                assert(all.last() == rest.last());
            }
        }
    }

    /// A traversal and the traversal between the same pixels the other way
    /// round hand out equally many pixels, and each starts where the other
    /// ends.
    pub proof fn lemma_reversed(x0: int, y0: int, x1: int, y1: int)
        requires
            -32768 <= x0 <= 32767,
            -32768 <= y0 <= 32767,
            -32768 <= x1 <= 32767,
            -32768 <= y1 <= 32767,
        ensures
            ({
                let forward = Bresenham::spec_start(x0, y0, x1, y1);
                let backward = Bresenham::spec_start(x1, y1, x0, y0);
                &&& forward.wf()
                &&& backward.wf()
                &&& forward.remaining() == backward.remaining()
                &&& forward.spec_pixels().len() == backward.spec_pixels().len()
                &&& forward.spec_pixels().first() == (x0, y0)
                &&& forward.spec_pixels().last() == (x1, y1)
                &&& backward.spec_pixels().first() == (x1, y1)
                &&& backward.spec_pixels().last() == (x0, y0)
            }),
    {
        let forward = Bresenham::spec_start(x0, y0, x1, y1);
        let backward = Bresenham::spec_start(x1, y1, x0, y0);
        Self::lemma_start(x0, y0, x1, y1);
        Self::lemma_start(x1, y1, x0, y0);
        forward.lemma_pixels_in_span();
        backward.lemma_pixels_in_span();
    }

    /// The coordinate of the pixel along the major axis of the traversal.
    pub open spec fn major_of(self, p: (int, int)) -> int {
        if self.spec_steep() {
            p.1
        } else {
            p.0
        }
    }

    /// The coordinate of the pixel along the minor axis of the traversal.
    pub open spec fn minor_of(self, p: (int, int)) -> int {
        if self.spec_steep() {
            p.0
        } else {
            p.1
        }
    }

    /// From one pixel of a traversal to the next: the next pixel lies exactly
    /// one further along the major axis, toward the last pixel, and on the
    /// same place or one further along the minor axis, toward the last pixel.
    /// The steepness and the last pixel stay.
    pub proof fn lemma_step(self)
        requires
            self.wf(),
            !self.spec_done(),
            !self.spec_advance().spec_done(),
        ensures
            self.spec_advance().spec_steep() == self.spec_steep(),
            self.spec_advance().spec_last() == self.spec_last(),
            ({
                let from = self.spec_current();
                let to = self.spec_advance().spec_current();
                let last = self.spec_last();
                let along = self.major_of(to) - self.major_of(from);
                let across = self.minor_of(to) - self.minor_of(from);
                &&& self.major_of(from) != self.major_of(last)
                &&& along == (if self.major_of(last) > self.major_of(from) {
                    1int
                } else {
                    -1int
                })
                &&& across == 0 || (across == 1 && self.minor_of(last) > self.minor_of(from)) || (
                across == -1 && self.minor_of(last) < self.minor_of(from))
            }),
    {
        self.lemma_advance();
    }

    /// When every pixel was handed out, nothing changes any more.
    pub proof fn lemma_done_stays(self)
        requires
            self.spec_done(),
        ensures
            self.spec_advance() == self,
            self.spec_advance().spec_done(),
            self.remaining() == 0,
    {
    }

    /// A traversal starts steep exactly where the segment is higher than wide.
    pub proof fn lemma_start_steep(x0: int, y0: int, x1: int, y1: int)
        ensures
            Bresenham::spec_start(x0, y0, x1, y1).spec_steep() == (magnitude(x1 - x0) < magnitude(
                y1 - y0,
            )),
    {
    }

    /// The state after `k` pixels were handed out.
    pub open spec fn after(self, k: nat) -> Bresenham
        decreases k,
    {
        if k == 0 {
            self
        } else {
            self.spec_advance().after((k - 1) as nat)
        }
    }

    /// Whether the two states belong to traversals of one segment in the
    /// same direction.
    pub closed spec fn same_line(self, other: Bresenham) -> bool {
        &&& self.final_x == other.final_x
        &&& self.final_y == other.final_y
        &&& self.steep == other.steep
        &&& self.step == other.step
        &&& self.desc == other.desc
        &&& self.sx == other.sx
        &&& self.sy == other.sy
    }

    /// The state after `k` pixels stands on pixel `k` of the traversal and
    /// has `k` pixels less to come.
    pub proof fn lemma_after(self, k: nat)
        requires
            self.wf(),
            k < self.remaining(),
        ensures
            self.after(k).wf(),
            !self.after(k).spec_done(),
            self.after(k).same_line(self),
            self.after(k).remaining() == self.remaining() - k,
            self.spec_pixels().len() == self.remaining(),
            self.spec_pixels()[k as int] == self.after(k).spec_current(),
        decreases k,
    {
        self.lemma_pixels_in_span();
        if k > 0 {
            self.lemma_advance();
            let next = self.spec_advance();
            next.lemma_after((k - 1) as nat);
            assert(self.spec_pixels() == seq![self.spec_current()] + next.spec_pixels());
            assert(self.spec_pixels()[k as int] == next.spec_pixels()[k - 1]);
        }
    }

    /// Two states of traversals of one segment in opposite directions that
    /// stand at the same place along the major axis stand at most one pixel
    /// apart along the minor axis.
    proof fn lemma_opposite_states(f: Bresenham, b: Bresenham, dx: int, dy: int)
        requires
            f.wf(),
            b.wf(),
            !f.done,
            !b.done,
            dx > 0,
            0 <= dy <= dx,
            f.desc == -2 * dx,
            b.desc == -2 * dx,
            f.step == 2 * dy,
            b.step == 2 * dy,
            f.steep == b.steep,
            directed(f.x as int, f.final_x as int, f.sx as int) + directed(
                b.x as int,
                b.final_x as int,
                b.sx as int,
            ) == dx,
            b.sx == -f.sx,
            dy > 0 ==> b.sy == -f.sy,
            directed(b.final_x as int, f.final_x as int, f.sx as int) == dx,
            dy > 0 ==> directed(b.final_y as int, f.final_y as int, f.sy as int) == dy,
            dy == 0 ==> b.final_y == f.final_y,
        ensures
            f.x == b.x,
            -1 <= f.y - b.y <= 1,
    {
        let rem_f = directed(f.x as int, f.final_x as int, f.sx as int);
        let rem_b = directed(b.x as int, b.final_x as int, b.sx as int);
        let remy_f = directed(f.y as int, f.final_y as int, f.sy as int);
        let remy_b = directed(b.y as int, b.final_y as int, b.sy as int);
        let ef = f.e as int;
        let eb = b.e as int;
        assert(2 * ef + 2 * dx + 2 * (rem_f * (2 * dy)) == -2 * (remy_f * (-2 * dx)));
        assert(2 * eb + 2 * dx + 2 * (rem_b * (2 * dy)) == -2 * (remy_b * (-2 * dx)));
        let t = remy_f + remy_b - dy;
        assert(4 * (dx * t) == 2 * (ef + eb) + 4 * dx) by (nonlinear_arith)
            requires
                2 * ef + 2 * dx + 2 * (rem_f * (2 * dy)) == -2 * (remy_f * (-2 * dx)),
                2 * eb + 2 * dx + 2 * (rem_b * (2 * dy)) == -2 * (remy_b * (-2 * dx)),
                rem_f + rem_b == dx,
                t == remy_f + remy_b - dy,
        ;
        assert(-1 <= t <= 0) by (nonlinear_arith)
            requires
                4 * (dx * t) == 2 * (ef + eb) + 4 * dx,
                -2 * dx <= ef < 0,
                -2 * dx <= eb < 0,
                dx > 0,
        ;
        if dy == 0 {
            assert(remy_f == 0 && remy_b == 0) by (nonlinear_arith)
                requires
                    2 * ef + 2 * dx + 2 * (rem_f * (2 * dy)) == -2 * (remy_f * (-2 * dx)),
                    2 * eb + 2 * dx + 2 * (rem_b * (2 * dy)) == -2 * (remy_b * (-2 * dx)),
                    dy == 0,
                    -2 * dx <= ef < 0,
                    -2 * dx <= eb < 0,
                    dx > 0,
                    remy_f >= 0,
                    remy_b >= 0,
            ;
        }
    }

    /// The two traversals of one segment, one from each end, pass every
    /// place along the major axis at most one pixel apart along the minor
    /// axis: pixel `i` of the one and pixel `i` from the end of the other
    /// agree along one axis and differ by one at most along the other.
    pub proof fn lemma_mirrored(x0: int, y0: int, x1: int, y1: int, i: int)
        requires
            -32768 <= x0 <= 32767,
            -32768 <= y0 <= 32767,
            -32768 <= x1 <= 32767,
            -32768 <= y1 <= 32767,
            0 <= i < Bresenham::spec_start(x0, y0, x1, y1).spec_pixels().len(),
        ensures
            ({
                let forward = Bresenham::spec_start(x0, y0, x1, y1).spec_pixels();
                let backward = Bresenham::spec_start(x1, y1, x0, y0).spec_pixels();
                let p = forward[i];
                let q = backward[backward.len() - 1 - i];
                &&& forward.len() == backward.len()
                &&& (p.0 == q.0 || p.1 == q.1)
                &&& -1 <= p.0 - q.0 <= 1
                &&& -1 <= p.1 - q.1 <= 1
            }),
    {
        let forward = Bresenham::spec_start(x0, y0, x1, y1);
        let backward = Bresenham::spec_start(x1, y1, x0, y0);
        Self::lemma_reversed(x0, y0, x1, y1);
        Self::lemma_start(x0, y0, x1, y1);
        Self::lemma_start(x1, y1, x0, y0);
        let dx = magnitude(x1 - x0);
        let dy = magnitude(y1 - y0);
        let major = if dx < dy { dy } else { dx };
        let minor = if dx < dy { dx } else { dy };
        forward.lemma_pixels_in_span();
        backward.lemma_pixels_in_span();
        let n = forward.spec_pixels().len() as int;
        assert(n == major + 1);
        let j = n - 1 - i;
        forward.lemma_after(i as nat);
        backward.lemma_after(j as nat);
        let f = forward.after(i as nat);
        let b = backward.after(j as nat);
        if major == 0 {
            assert(forward.spec_pixels()[0] == (x0, y0));
            assert(backward.spec_pixels()[0] == (x1, y1));
        } else {
            Self::lemma_opposite_states(f, b, major, minor);
        }
    }

    /// A traversal at its start keeps the invariant, stands on its first
    /// pixel, and has one pixel to hand out for every step along the longer
    /// axis, and one more.
    pub proof fn lemma_start(x0: int, y0: int, x1: int, y1: int)
        requires
            -32768 <= x0 <= 32767,
            -32768 <= y0 <= 32767,
            -32768 <= x1 <= 32767,
            -32768 <= y1 <= 32767,
        ensures
            ({
                let start = Bresenham::spec_start(x0, y0, x1, y1);
                let dx = magnitude(x1 - x0);
                let dy = magnitude(y1 - y0);
                &&& start.wf()
                &&& !start.spec_done()
                &&& start.spec_current() == (x0, y0)
                &&& start.spec_last() == (x1, y1)
                &&& start.remaining() == 1 + (if dx < dy {
                    dy
                } else {
                    dx
                })
            }),
    {
        let dx = magnitude(x1 - x0);
        let dy = magnitude(y1 - y0);
        let major = if dx < dy { dy } else { dx };
        let minor = if dx < dy { dx } else { dy };
        assert(major * (2 * minor) == 2 * (major * minor)) by (nonlinear_arith);
        assert(minor * (-2 * major) == -2 * (major * minor)) by (nonlinear_arith);
    }

    /// Every pixel of a traversal between two pixels of a rectangle lies in
    /// the rectangle.
    pub proof fn lemma_pixels_in_rectangle(
        self,
        left: int,
        top: int,
        right: int,
        bottom: int,
    )
        requires
            self.wf(),
            !self.spec_done(),
            left <= self.spec_current().0 <= right,
            left <= self.spec_last().0 <= right,
            top <= self.spec_current().1 <= bottom,
            top <= self.spec_last().1 <= bottom,
        ensures
            forall|i: int|
                0 <= i < self.spec_pixels().len() ==> {
                    let p = #[trigger] self.spec_pixels()[i];
                    left <= p.0 <= right && top <= p.1 <= bottom
                },
    {
        self.lemma_pixels_in_span();
        assert forall|i: int| 0 <= i < self.spec_pixels().len() implies {
            let p = #[trigger] self.spec_pixels()[i];
            left <= p.0 <= right && top <= p.1 <= bottom
        } by {
            assert(self.in_span(self.spec_pixels()[i]));
        }
    }

    /// The traversal of the segment from `p1` to `p2`, clipped against the
    /// rectangle from `min` to `max`; `None` where nothing of the segment is
    /// kept.  It runs from the first end of the kept part to its second end,
    /// each rounded toward zero.
    pub fn new(p1: &Vec2, p2: &Vec2, min: &Vec2, max: &Vec2) -> (r: Option<Bresenham>)
        ensures
            r is Some <==> spec_clip(*p1, *p2, *min, *max) is Some,
            r is Some ==> {
                let (v1, v2) = spec_clip(*p1, *p2, *min, *max)->Some_0;
                &&& r->Some_0 == Bresenham::spec_start(
                    trunc_raw(v1.x@),
                    trunc_raw(v1.y@),
                    trunc_raw(v2.x@),
                    trunc_raw(v2.y@),
                )
                &&& r->Some_0.wf()
                &&& !r->Some_0.spec_done()
                &&& r->Some_0.spec_current() == (trunc_raw(v1.x@), trunc_raw(v1.y@))
                &&& r->Some_0.spec_last() == (trunc_raw(v2.x@), trunc_raw(v2.y@))
                &&& r->Some_0.remaining() == 1 + (if magnitude(trunc_raw(v2.x@) - trunc_raw(v1.x@))
                    < magnitude(trunc_raw(v2.y@) - trunc_raw(v1.y@)) {
                    magnitude(trunc_raw(v2.y@) - trunc_raw(v1.y@))
                } else {
                    magnitude(trunc_raw(v2.x@) - trunc_raw(v1.x@))
                })
            },
    {
        let clip_result = cohen_sutherland_line_clip(p1, p2, min, max);
        match clip_result {
            Some((v1, v2)) => {
                let x0: i32 = v1.x.trunc();
                let y0: i32 = v1.y.trunc();
                let x1: i32 = v2.x.trunc();
                let y1: i32 = v2.y.trunc();
                let dx: i32 = if x1 >= x0 { x1 - x0 } else { x0 - x1 };
                let dy: i32 = if y1 >= y0 { y1 - y0 } else { y0 - y1 };
                let sx: i32 = if x1 >= x0 { 1 } else { -1 };
                let sy: i32 = if y1 >= y0 { 1 } else { -1 };
                let b = if dx < dy {
                    Bresenham {
                        final_x: y1,
                        final_y: x1,
                        x: y0,
                        y: x0,
                        steep: 1,
                        step: 2 * dx,
                        e: -dy,
                        sy: sx,
                        sx: sy,
                        desc: -(2 * dy),
                        done: false,
                    }
                } else {
                    Bresenham {
                        final_x: x1,
                        final_y: y1,
                        x: x0,
                        y: y0,
                        steep: -1,
                        step: 2 * dy,
                        e: -dx,
                        sy,
                        sx,
                        desc: -(2 * dx),
                        done: false,
                    }
                };
                proof {
                    Self::lemma_start(x0 as int, y0 as int, x1 as int, y1 as int);
                }
                Some(b)
            },
            None => None,
        }
    }

    /// The next pixel of the traversal, or `None` when the last one was handed out.
    pub fn next(&mut self) -> (r: Option<(i32, i32)>)
        requires
            old(self).wf(),
        ensures
            final(self).wf(),
            *final(self) == old(self).spec_advance(),
            old(self).spec_done() ==> r is None,
            !old(self).spec_done() ==> {
                &&& r is Some
                &&& (r->Some_0.0 as int, r->Some_0.1 as int) == old(self).spec_current()
                &&& final(self).remaining() == old(self).remaining() - 1
            },
    {
        if self.done {
            return None;
        }
        proof {
            self.lemma_advance();
        }
        let result = if self.steep > 0 {
            (self.y, self.x)
        } else {
            (self.x, self.y)
        };
        if self.x == self.final_x {
            self.done = true;
            return Some(result);
        }
        self.e += self.step;
        if self.e >= 0 {
            self.y += self.sy;
            self.e += self.desc;
        }
        self.x += self.sx;
        Some(result)
    }
}

} // verus!
