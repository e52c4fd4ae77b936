//! Two-dimensional grids: the colour attachment of packed RGB bytes and the
//! depth attachment of fixed-point depths.
use crate::fixed::{trunc_div, trunc_div_i64, Fixed};
use crate::math::vector::Vec4;
use vstd::prelude::*;

verus! {

/// A grid of `w * h` pixels, row by row from the top left.
pub struct PureElemImage<T> {
    data: Vec<T>,
    w: u32,
    h: u32,
}

impl<T> View for PureElemImage<T> {
    type V = Seq<T>;

    closed spec fn view(&self) -> Seq<T> {
        self.data@
    }
}

impl<T> PureElemImage<T> {
    /// Number of columns.
    pub closed spec fn spec_width(&self) -> u32 {
        self.w
    }

    /// Number of rows.
    pub closed spec fn spec_height(&self) -> u32 {
        self.h
    }

    /// Whether the grid holds `channels` elements for each of its pixels.
    pub open spec fn holds(&self, channels: nat) -> bool {
        self@.len() == self.spec_width() * self.spec_height() * channels
    }

    pub fn width(&self) -> (r: u32)
        ensures
            r == self.spec_width(),
    {
        self.w
    }

    pub fn height(&self) -> (r: u32)
        ensures
            r == self.spec_height(),
    {
        self.h
    }

    /// Whether `(x, y)` names a pixel of the grid.
    pub fn in_box(&self, x: i32, y: i32) -> (r: bool)
        ensures
            r == (0 <= x < self.spec_width() && 0 <= y < self.spec_height()),
    {
        x >= 0 && (x as i64) < (self.w as i64) && y >= 0 && (y as i64) < (self.h as i64)
    }

    pub fn data(&self) -> (r: &Vec<T>)
        ensures
            r@ == self@,
    {
        &self.data
    }
}

/// The byte of a colour channel: `c * 255` rounded toward zero, clamped to a byte.
pub open spec fn quantize_raw(c: int) -> int {
    let v = trunc_div(c * 255, 65536);
    if v < 0 {
        0
    } else if v > 255 {
        255
    } else {
        v
    }
}

/// The byte of a colour channel.
pub fn quantize(c: Fixed) -> (r: u8)
    ensures
        r == quantize_raw(c@),
{
    let v: i64 = trunc_div_i64(c.raw as i64 * 255, 65536);
    if v < 0 {
        0
    } else if v > 255 {
        255
    } else {
        v as u8
    }
}

/// Index of the first byte of pixel `(x, y)` in a grid `w` pixels wide.
pub open spec fn byte_index(w: int, x: int, y: int) -> int {
    (x + y * w) * 3
}

/// Index of cell `(x, y)` in a grid `w` cells wide.
pub open spec fn cell_index(w: int, x: int, y: int) -> int {
    x + y * w
}

/// The index of a pixel of a grid is below the number of its pixels.
pub proof fn lemma_index_in_range(w: int, h: int, x: int, y: int)
    requires
        0 <= x < w,
        0 <= y < h,
    ensures
        0 <= x + y * w < w * h,
        0 <= y * w,
        (x + y * w) * 3 + 3 <= w * h * 3,
{
    assert(0 <= y * w <= (h - 1) * w) by (nonlinear_arith)
        requires
            0 <= y <= h - 1,
            0 <= w,
    ;
    assert((h - 1) * w + w == w * h) by (nonlinear_arith);
}

impl PureElemImage<u8> {
    /// The grid holds three bytes for each pixel.
    pub open spec fn wf(&self) -> bool {
        self.holds(3)
    }

    /// The three bytes of pixel `(x, y)`.
    pub open spec fn pixel(&self, x: int, y: int) -> (u8, u8, u8) {
        let i = byte_index(self.spec_width() as int, x, y);
        (self@[i], self@[i + 1], self@[i + 2])
    }

    /// The three bytes that stand for `color`; its fourth component is not stored.
    pub open spec fn bytes_of(color: Vec4) -> (u8, u8, u8) {
        (quantize_raw(color.x@) as u8, quantize_raw(color.y@) as u8, quantize_raw(color.z@) as u8)
    }

    /// A black grid.
    pub fn new(w: u32, h: u32) -> (r: Self)
        requires
            w * h * 3 <= usize::MAX,
        ensures
            r.wf(),
            r.spec_width() == w,
            r.spec_height() == h,
            forall|i: int| 0 <= i < r@.len() ==> r@[i] == 0u8,
    {
        assert(w * h <= w * h * 3) by (nonlinear_arith);
        let n: usize = w as usize * h as usize * 3;
        let mut data: Vec<u8> = Vec::new();
        let mut i: usize = 0;
        while i < n
            invariant
                i <= n,
                data@.len() == i,
                forall|k: int| 0 <= k < i ==> data@[k] == 0u8,
            decreases n - i,
        {
            data.push(0);
            i += 1;
        }
        Self { data, w, h }
    }

    /// The bytes `data` of a grid `w` pixels wide, with `color` written to
    /// pixel `(x, y)`.
    pub open spec fn spec_set(data: Seq<u8>, w: int, x: int, y: int, color: Vec4) -> Seq<u8> {
        let i = byte_index(w, x, y);
        let (r, g, b) = Self::bytes_of(color);
        data.update(i, r).update(i + 1, g).update(i + 2, b)
    }

    /// Writes `color` to pixel `(x, y)` and leaves every other pixel as it was.
    pub fn set(&mut self, x: u32, y: u32, color: &Vec4)
        requires
            old(self).wf(),
            x < old(self).spec_width(),
            y < old(self).spec_height(),
        ensures
            final(self).wf(),
            final(self).spec_width() == old(self).spec_width(),
            final(self).spec_height() == old(self).spec_height(),
            final(self)@ == Self::spec_set(
                old(self)@,
                old(self).spec_width() as int,
                x as int,
                y as int,
                *color,
            ),
            final(self).pixel(x as int, y as int) == Self::bytes_of(*color),
    {
        proof {
            lemma_index_in_range(self.w as int, self.h as int, x as int, y as int);
            assert(self.data.len() == self.data@.len() == self.w * self.h * 3);
        }
        let i: usize = (x as usize + y as usize * self.w as usize) * 3;
        self.data[i] = quantize(color.x);
        self.data[i + 1] = quantize(color.y);
        self.data[i + 2] = quantize(color.z);
    }

    /// Writes `color` to every pixel.
    pub fn clear(&mut self, color: &Vec4)
        requires
            old(self).wf(),
        ensures
            final(self).wf(),
            final(self).spec_width() == old(self).spec_width(),
            final(self).spec_height() == old(self).spec_height(),
            forall|x: int, y: int|
                0 <= x < final(self).spec_width() && 0 <= y < final(self).spec_height()
                    ==> #[trigger] final(self).pixel(x, y) == Self::bytes_of(*color),
    {
        let n: usize = self.data.len() / 3;
        let r = quantize(color.x);
        let g = quantize(color.y);
        let b = quantize(color.z);
        let mut k: usize = 0;
        while k < n
            invariant
                k <= n,
                n * 3 == self.data@.len() == self.data.len(),
                self.w == old(self).w,
                self.h == old(self).h,
                forall|i: int|
                    0 <= i < k * 3 ==> self.data@[i] == (if i % 3 == 0 {
                        r
                    } else if i % 3 == 1 {
                        g
                    } else {
                        b
                    }),
            decreases n - k,
        {
            self.data[k * 3] = r;
            self.data[k * 3 + 1] = g;
            self.data[k * 3 + 2] = b;
            k += 1;
        }
        assert forall|x: int, y: int|
            0 <= x < self.spec_width() && 0 <= y < self.spec_height() implies #[trigger] self.pixel(
            x,
            y,
        ) == Self::bytes_of(*color) by {
            lemma_index_in_range(self.w as int, self.h as int, x, y);
            let j = x + y * self.w;
            assert(0 <= j * 3 && j * 3 + 2 < n * 3);
        }
    }
}

impl PureElemImage<Fixed> {
    /// The grid holds one depth for each pixel.
    pub open spec fn wf(&self) -> bool {
        self.holds(1)
    }

    /// The depth of cell `(x, y)`.
    pub open spec fn cell(&self, x: int, y: int) -> Fixed {
        self@[cell_index(self.spec_width() as int, x, y)]
    }

    /// A grid that holds the largest depth in every cell.
    pub fn new(w: u32, h: u32) -> (r: Self)
        requires
            w * h <= usize::MAX,
        ensures
            r.wf(),
            r.spec_width() == w,
            r.spec_height() == h,
            forall|i: int| 0 <= i < r@.len() ==> r@[i]@ == 2147483647,
    {
        let n: usize = w as usize * h as usize;
        let mut data: Vec<Fixed> = Vec::new();
        let mut i: usize = 0;
        while i < n
            invariant
                i <= n,
                data@.len() == i,
                forall|k: int| 0 <= k < i ==> data@[k]@ == 2147483647,
            decreases n - i,
        {
            data.push(Fixed::max_value());
            i += 1;
        }
        Self { data, w, h }
    }

    /// Writes `value` to every cell.
    pub fn clear(&mut self, value: Fixed)
        requires
            old(self).wf(),
        ensures
            final(self).wf(),
            final(self).spec_width() == old(self).spec_width(),
            final(self).spec_height() == old(self).spec_height(),
            forall|i: int| 0 <= i < final(self)@.len() ==> final(self)@[i] == value,
    {
        let n: usize = self.data.len();
        let mut k: usize = 0;
        while k < n
            invariant
                k <= n,
                n == self.data@.len(),
                self.w == old(self).w,
                self.h == old(self).h,
                forall|j: int| 0 <= j < k ==> self.data@[j] == value,
            decreases n - k,
        {
            self.data[k] = value;
            k += 1;
        }
    }

    /// Writes `value` to cell `(x, y)` and leaves every other cell as it was.
    pub fn set(&mut self, x: u32, y: u32, value: Fixed)
        requires
            old(self).wf(),
            x < old(self).spec_width(),
            y < old(self).spec_height(),
        ensures
            final(self).wf(),
            final(self).spec_width() == old(self).spec_width(),
            final(self).spec_height() == old(self).spec_height(),
            final(self)@ == old(self)@.update(
                cell_index(old(self).spec_width() as int, x as int, y as int),
                value,
            ),
    {
        proof {
            lemma_index_in_range(self.w as int, self.h as int, x as int, y as int);
            assert(self.data.len() == self.data@.len() == self.w * self.h * 1);
        }
        let i: usize = x as usize + y as usize * self.w as usize;
        self.data[i] = value;
    }

    /// The depth of cell `(x, y)`.
    pub fn get(&self, x: u32, y: u32) -> (r: Fixed)
        requires
            self.wf(),
            x < self.spec_width(),
            y < self.spec_height(),
        ensures
            r == self.cell(x as int, y as int),
    {
        proof {
            lemma_index_in_range(self.w as int, self.h as int, x as int, y as int);
            assert(self.data.len() == self.data@.len() == self.w * self.h * 1);
        }
        self.data[x as usize + y as usize * self.w as usize]
    }
}

/// The colour buffer: three bytes, red, green and blue, for each pixel.
pub type ColorAttachment = PureElemImage<u8>;

/// The depth buffer: one depth for each pixel.
pub type DepthAttachment = PureElemImage<Fixed>;

} // verus!
