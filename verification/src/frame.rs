//! Surface geometry and the depth frame.

use vstd::prelude::*;
use vstd::arithmetic::div_mod::{
    lemma_fundamental_div_mod,
    lemma_fundamental_div_mod_converse,
    lemma_mod_pos_bound,
};
use vstd::arithmetic::mul::{lemma_mul_inequality, lemma_mul_is_commutative};

verus! {

/// Number of pixels of a surface.
pub open spec fn pixel_count(width: u32, height: u32) -> nat {
    (width as nat) * (height as nat)
}

/// `depths` is a depth frame of a `width` by `height` surface: one byte per
/// pixel, row after row, none above `budget`.
pub open spec fn is_valid_frame(width: u32, height: u32, budget: u8, depths: Seq<u8>) -> bool {
    &&& depths.len() == pixel_count(width, height)
    &&& forall|i: int| 0 <= i < depths.len() ==> #[trigger] depths[i] <= budget
}

/// Linear index of pixel `(x, y)` on a surface `width` pixels wide.
pub open spec fn row_major(x: u32, y: u32, width: u32) -> int {
    y * width + x
}

/// Column of the pixel with linear index `idx`.
pub open spec fn column_of(idx: int, width: u32) -> u32 {
    (idx % (width as int)) as u32
}

/// Row of the pixel with linear index `idx`.
pub open spec fn row_of(idx: int, width: u32) -> u32 {
    (idx / (width as int)) as u32
}

/// An index below `width * height` splits into a column below `width` and a
/// row below `height`.
pub proof fn index_splits(idx: int, width: int, height: int)
    requires
        0 < width,
        0 <= idx < width * height,
    ensures
        0 <= idx % width < width,
        0 <= idx / width < height,
        idx == (idx / width) * width + idx % width,
{
    lemma_fundamental_div_mod(idx, width);
    lemma_mod_pos_bound(idx, width);
    lemma_mul_is_commutative(width, idx / width);
    let q = idx / width;
    assert(0 <= q) by (nonlinear_arith)
        requires
            0 < width,
            0 <= idx,
            q == idx / width,
    ;
    if q >= height {
        lemma_mul_inequality(height, q, width);
        lemma_mul_is_commutative(width, height);
    }
}

/// A column below `width` and a row below `height` join into an index below
/// `width * height`, which splits into the same column and row again.
pub proof fn pixel_joins(x: int, y: int, width: int, height: int)
    requires
        0 <= x < width,
        0 <= y < height,
    ensures
        0 <= y * width + x < width * height,
        (y * width + x) % width == x,
        (y * width + x) / width == y,
{
    lemma_fundamental_div_mod_converse(y * width + x, width, y, x);
    assert(y * width + x < width * height) by (nonlinear_arith)
        requires
            0 <= x < width,
            0 <= y < height,
    ;
    assert(0 <= y * width) by (nonlinear_arith)
        requires
            0 <= y,
            0 < width,
    ;
}

/// The number of pixels of a surface, if a `usize` can hold it.
pub fn frame_len(width: u32, height: u32) -> (len: Option<usize>)
    ensures
        len.is_some() <==> pixel_count(width, height) <= usize::MAX,
        len matches Some(n) ==> n == pixel_count(width, height),
{
    assert(pixel_count(width, height) <= 0xffff_ffff * 0xffff_ffff) by (nonlinear_arith)
        requires
            pixel_count(width, height) == (width as nat) * (height as nat),
            width <= 0xffff_ffff,
            height <= 0xffff_ffff,
    ;
    let n: u64 = (width as u64) * (height as u64);
    if n <= usize::MAX as u64 {
        Some(n as usize)
    } else {
        None
    }
}

/// The pixel that a linear index stands for: column `idx % width`, row
/// `idx / width`. `None` when the index lies outside the surface.
pub fn pixel_at(idx: usize, width: u32, height: u32) -> (pixel: Option<(u32, u32)>)
    ensures
        pixel.is_some() <==> idx < pixel_count(width, height),
        pixel matches Some((x, y)) ==> x == idx % (width as usize) && y == idx / (width as usize)
            && x < width && y < height,
{
    if width == 0 {
        assert(pixel_count(width, height) == 0) by (nonlinear_arith)
            requires
                pixel_count(width, height) == (width as nat) * (height as nat),
                width == 0,
        ;
        return None;
    }
    let row: usize = idx / (width as usize);
    let col: usize = idx % (width as usize);
    proof {
        lemma_fundamental_div_mod(idx as int, width as int);
        lemma_mod_pos_bound(idx as int, width as int);
        if idx < pixel_count(width, height) {
            index_splits(idx as int, width as int, height as int);
        }
        if row < height {
            pixel_joins(col as int, row as int, width as int, height as int);
            lemma_mul_is_commutative(width as int, row as int);
        }
    }
    if row < height as usize {
        Some((col as u32, row as u32))
    } else {
        None
    }
}

/// The linear index of pixel `(x, y)`: `y * width + x`. `None` when the
/// pixel lies outside the surface or the index does not fit a `usize`.
pub fn linear_index(x: u32, y: u32, width: u32, height: u32) -> (idx: Option<usize>)
    ensures
        idx.is_some() <==> x < width && y < height && y * width + x <= usize::MAX,
        idx matches Some(i) ==> i == y * width + x,
{
    if x >= width || y >= height {
        return None;
    }
    assert(y * width + x <= 0xffff_ffff * 0xffff_ffff) by (nonlinear_arith)
        requires
            x < width <= 0xffff_ffff,
            y < height <= 0xffff_ffff,
    ;
    let i: u64 = (y as u64) * (width as u64) + (x as u64);
    if i <= usize::MAX as u64 {
        Some(i as usize)
    } else {
        None
    }
}

/// One depth byte per pixel of a surface, row after row: the step at which
/// the pixel's ray first hit, or the step budget for a ray that hit nothing.
pub struct DepthFrame {
    width: u32,
    height: u32,
    budget: u8,
    depths: Vec<u8>,
}

impl View for DepthFrame {
    type V = Seq<u8>;

    closed spec fn view(&self) -> Seq<u8> {
        self.depths@
    }
}

impl DepthFrame {
    /// A frame holds one byte per pixel of its surface, none above its
    /// budget.
    #[verifier::type_invariant]
    spec fn inv(&self) -> bool {
        is_valid_frame(self.width, self.height, self.budget, self.depths@)
    }

    /// Width of the surface in pixels.
    pub closed spec fn spec_width(&self) -> u32 {
        self.width
    }

    /// Height of the surface in pixels.
    pub closed spec fn spec_height(&self) -> u32 {
        self.height
    }

    /// The step budget of the marches that filled the frame.
    pub closed spec fn spec_budget(&self) -> u8 {
        self.budget
    }

    /// Width of the surface in pixels.
    #[verifier::when_used_as_spec(spec_width)]
    pub fn width(&self) -> (w: u32)
        ensures
            w == self.width(),
    {
        self.width
    }

    /// Height of the surface in pixels.
    #[verifier::when_used_as_spec(spec_height)]
    pub fn height(&self) -> (h: u32)
        ensures
            h == self.height(),
    {
        self.height
    }

    /// The step budget of the marches that filled the frame: the depth of a miss.
    #[verifier::when_used_as_spec(spec_budget)]
    pub fn budget(&self) -> (b: u8)
        ensures
            b == self.budget(),
    {
        self.budget
    }

    /// The depth bytes, row after row.
    pub fn depths(&self) -> (bytes: &Vec<u8>)
        ensures
            bytes@ == self@,
            is_valid_frame(self.width(), self.height(), self.budget(), bytes@),
    {
        proof {
            use_type_invariant(self);
        }
        &self.depths
    }

    /// The depth of pixel `(x, y)`, or `None` for a pixel outside the surface.
    pub fn get(&self, x: u32, y: u32) -> (depth: Option<u8>)
        ensures
            depth.is_some() <==> x < self.width() && y < self.height(),
            depth matches Some(d) ==> d == self@[y * self.width() + x] && d <= self.budget(),
    {
        proof {
            use_type_invariant(self);
            assert(self.depths@.len() == self.depths.len());
            if x < self.width && y < self.height {
                pixel_joins(x as int, y as int, self.width as int, self.height as int);
            }
        }
        match linear_index(x, y, self.width, self.height) {
            Some(i) => Some(self.depths[i]),
            None => None,
        }
    }

    /// Takes over depth bytes that are known to form a frame.
    pub(crate) fn from_depths(width: u32, height: u32, budget: u8, depths: Vec<u8>) -> (frame:
        Self)
        requires
            is_valid_frame(width, height, budget, depths@),
        ensures
            frame@ == depths@,
            frame.width() == width,
            frame.height() == height,
            frame.budget() == budget,
    {
        DepthFrame { width, height, budget, depths }
    }

    /// Builds a frame from bytes read back from a compute device. The buffer
    /// may be longer than the frame; its first `width * height` bytes are
    /// taken. `None` when the buffer is too short or holds a byte above
    /// `budget` among them.
    pub fn from_readback(width: u32, height: u32, budget: u8, bytes: &Vec<u8>) -> (frame: Option<
        Self,
    >)
        ensures
            frame.is_some() <==> pixel_count(width, height) <= bytes@.len() && forall|i: int|
                0 <= i < pixel_count(width, height) ==> #[trigger] bytes@[i] <= budget,
            frame matches Some(f) ==> f@ == bytes@.take(pixel_count(width, height) as int)
                && f.width() == width && f.height() == height && f.budget() == budget,
    {
        let available = bytes.len();
        let n = match frame_len(width, height) {
            Some(n) => n,
            None => {
                return None;
            },
        };
        if n > available {
            return None;
        }
        let mut depths: Vec<u8> = Vec::new();
        let mut i: usize = 0;
        while i < n
            invariant
                i <= n <= bytes@.len(),
                n == pixel_count(width, height),
                depths@ == bytes@.take(i as int),
                forall|j: int| 0 <= j < i ==> #[trigger] bytes@[j] <= budget,
            decreases n - i,
        {
            let d = bytes[i];
            if d > budget {
                return None;
            }
            depths.push(d);
            i += 1;
        }
        Some(DepthFrame::from_depths(width, height, budget, depths))
    }
}

} // verus!
