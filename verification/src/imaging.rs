//! Image utilities: the size of the aspect-preserving downscale that every
//! input passes through.

use vstd::prelude::*;

use crate::error::FaceError;

verus! {

/// The largest width or height, in pixels, that an image keeps on its way
/// into detection and into a rendered preview.
pub const MAX_DIMENSION: u32 = 1270;

/// Width and height of a pixel buffer.
#[derive(Clone, Copy, Debug, PartialEq, Eq, Structural)]
pub struct FrameSize {
    pub width: u32,
    pub height: u32,
}

impl FrameSize {
    /// The larger of width and height.
    pub open spec fn max_dimension(self) -> int {
        if self.width >= self.height {
            self.width as int
        } else {
            self.height as int
        }
    }

    /// A buffer of this size holds no pixel.
    pub open spec fn is_empty(self) -> bool {
        self.width == 0 || self.height == 0
    }
}

/// The size after downscaling to `max_dim`: the size itself where it already
/// fits, otherwise both sides multiplied by `max_dim / max_dimension` and
/// rounded down.
pub open spec fn scaled(size: FrameSize, max_dim: u32) -> FrameSize {
    let m = size.max_dimension();
    if m <= max_dim {
        size
    } else {
        FrameSize {
            width: (size.width * max_dim / m) as u32,
            height: (size.height * max_dim / m) as u32,
        }
    }
}

/// Flooring both sides by the same ratio keeps the proportions up to
/// rounding: the cross products of old and new sides differ by less than
/// the largest old side.
pub proof fn lemma_scaled_keeps_aspect(size: FrameSize, max_dim: u32)
    requires
        size.max_dimension() > max_dim,
    ensures
        scaled(size, max_dim).max_dimension() == max_dim,
        scaled(size, max_dim).width == size.width * max_dim / size.max_dimension(),
        scaled(size, max_dim).height == size.height * max_dim / size.max_dimension(),
        -size.max_dimension() < scaled(size, max_dim).width * size.height - scaled(
            size,
            max_dim,
        ).height * size.width < size.max_dimension(),
{
    let m = size.max_dimension();
    let w = size.width as int;
    let h = size.height as int;
    let b = max_dim as int;
    let sw = w * b / m;
    let sh = h * b / m;
    lemma_floor_scale(w, b, m);
    lemma_floor_scale(h, b, m);
    lemma_floor_scale(m, b, m);
    assert(m * b / m == b) by (nonlinear_arith)
        requires
            (m * b / m) * m <= m * b < (m * b / m + 1) * m,
            m > 0,
    ;
    let rw = w * b - sw * m;
    let rh = h * b - sh * m;
    let d = sw * h - sh * w;
    assert(d * m == rh * w - rw * h) by (nonlinear_arith)
        requires
            rw == w * b - sw * m,
            rh == h * b - sh * m,
            d == sw * h - sh * w,
    ;
    assert(0 <= rh * w < m * m && 0 <= rw * h < m * m) by (nonlinear_arith)
        requires
            0 <= rw < m,
            0 <= rh < m,
            0 <= w <= m,
            0 <= h <= m,
    ;
    assert(-m < d < m) by (nonlinear_arith)
        requires
            -(m * m) < d * m < m * m,
            m > 0,
    ;
}

/// What rounding down `x * b / m` means, for a side `x` of at most `m`.
proof fn lemma_floor_scale(x: int, b: int, m: int)
    requires
        0 <= x <= m,
        0 <= b < m,
    ensures
        0 <= x * b / m <= b,
        0 <= x * b - (x * b / m) * m < m,
        (x * b / m) * m <= x * b < (x * b / m + 1) * m,
{
    assert(0 <= x * b <= m * b) by (nonlinear_arith)
        requires
            0 <= x <= m,
            0 <= b,
    ;
    vstd::arithmetic::div_mod::lemma_fundamental_div_mod(x * b, m);
    vstd::arithmetic::div_mod::lemma_mod_bound(x * b, m);
    let q = x * b / m;
    assert(q * m == m * q && (q + 1) * m == q * m + m) by (nonlinear_arith);
    assert(0 <= q <= b) by (nonlinear_arith)
        requires
            q * m <= x * b < q * m + m,
            0 <= x * b <= m * b,
            m > 0,
    ;
}

/// Computes the size to which an image of `size` is reduced so that neither
/// side exceeds `max_dim`. An image that fits is left as it is, never
/// enlarged.
pub fn scaled_size(size: FrameSize, max_dim: u32) -> (r: FrameSize)
    ensures
        r == scaled(size, max_dim),
        size.max_dimension() <= max_dim ==> r == size,
        size.max_dimension() > max_dim ==> {
            &&& r.max_dimension() == max_dim
            &&& r.width == size.width * max_dim / size.max_dimension()
            &&& r.height == size.height * max_dim / size.max_dimension()
            &&& -size.max_dimension() < r.width * size.height - r.height * size.width
                < size.max_dimension()
        },
{
    let longest: u32 = if size.width >= size.height {
        size.width
    } else {
        size.height
    };
    if longest <= max_dim {
        return size;
    }
    proof {
        lemma_scaled_keeps_aspect(size, max_dim);
        lemma_floor_scale(size.width as int, max_dim as int, longest as int);
        lemma_floor_scale(size.height as int, max_dim as int, longest as int);
        assert(size.width * max_dim <= u32::MAX * u32::MAX) by (nonlinear_arith);
        assert(size.height * max_dim <= u32::MAX * u32::MAX) by (nonlinear_arith);
    }
    let width: u64 = (size.width as u64 * max_dim as u64) / (longest as u64);
    let height: u64 = (size.height as u64 * max_dim as u64) / (longest as u64);
    FrameSize { width: width as u32, height: height as u32 }
}

/// The size to which an image is to be reduced before it is used: the
/// scaled size, as [`scaled_size`] gives it. An image that would be left
/// without pixels, because it has none or because it is so flat that its
/// short side vanishes, is refused with `Io`; no empty image is ever asked
/// for.
pub fn downscale_target(size: FrameSize, max_dim: u32) -> (r: Result<FrameSize, FaceError>)
    ensures
        match r {
            Ok(target) => target == scaled(size, max_dim) && !target.is_empty(),
            Err(e) => e == FaceError::Io && scaled(size, max_dim).is_empty(),
        },
{
    let target = scaled_size(size, max_dim);
    if target.width == 0 || target.height == 0 {
        Err(FaceError::Io)
    } else {
        Ok(target)
    }
}

} // verus!
