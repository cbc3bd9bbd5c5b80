//! Pixel formats and the per-plane fixed-point scale table.
use vstd::prelude::*;

verus! {

/// Mask that selects the pixel format out of a colorspace code.
pub const X264_CSP_MASK: usize = 0x00ff;

pub const X264_CSP_I420: usize = 0x0002;

pub const X264_CSP_YV12: usize = 0x0003;

pub const X264_CSP_NV12: usize = 0x0004;

pub const X264_CSP_NV21: usize = 0x0005;

pub const X264_CSP_I422: usize = 0x0006;

pub const X264_CSP_YV16: usize = 0x0007;

pub const X264_CSP_NV16: usize = 0x0008;

pub const X264_CSP_I444: usize = 0x000c;

pub const X264_CSP_YV24: usize = 0x000d;

pub const X264_CSP_BGR: usize = 0x000e;

pub const X264_CSP_BGRA: usize = 0x000f;

pub const X264_CSP_RGB: usize = 0x0010;

/// Flag bit: two bytes per sample instead of one.
pub const X264_CSP_HIGH_DEPTH: usize = 0x2000;

/// Denominator of every scale factor.
pub const SCALE_ONE: usize = 256;

/// The pixel format of a colorspace code (the low byte, `csp & X264_CSP_MASK`).
pub open spec fn csp_base(csp: usize) -> usize {
    csp % 256
}

/// Whether the high-bit-depth flag bit is set in a colorspace code.
pub open spec fn csp_high_depth(csp: usize) -> bool {
    (csp / X264_CSP_HIGH_DEPTH) % 2 == 1
}

pub open spec fn bytes_per_sample(csp: usize) -> nat {
    if csp_high_depth(csp) {
        2
    } else {
        1
    }
}

pub open spec fn is_supported_base(base: usize) -> bool {
    base == X264_CSP_I420 || base == X264_CSP_YV12 || base == X264_CSP_NV12 || base
        == X264_CSP_NV21 || base == X264_CSP_I422 || base == X264_CSP_YV16 || base
        == X264_CSP_NV16 || base == X264_CSP_I444 || base == X264_CSP_YV24 || base
        == X264_CSP_BGR || base == X264_CSP_BGRA || base == X264_CSP_RGB
}

pub open spec fn csp_supported(csp: usize) -> bool {
    is_supported_base(csp_base(csp))
}

/// Width scale of each of the three planes, over 256.
pub open spec fn scale_w(base: usize) -> Seq<usize> {
    if base == X264_CSP_I420 || base == X264_CSP_YV12 || base == X264_CSP_I422 || base
        == X264_CSP_YV16 {
        seq![256, 128, 128]
    } else if base == X264_CSP_NV12 || base == X264_CSP_NV21 || base == X264_CSP_NV16 {
        seq![256, 256, 0]
    } else if base == X264_CSP_I444 || base == X264_CSP_YV24 {
        seq![256, 256, 256]
    } else if base == X264_CSP_BGR || base == X264_CSP_RGB {
        seq![768, 0, 0]
    } else if base == X264_CSP_BGRA {
        seq![1024, 0, 0]
    } else {
        seq![0, 0, 0]
    }
}

/// Height scale of each of the three planes, over 256.
pub open spec fn scale_h(base: usize) -> Seq<usize> {
    if base == X264_CSP_I420 || base == X264_CSP_YV12 {
        seq![256, 128, 128]
    } else if base == X264_CSP_NV12 || base == X264_CSP_NV21 {
        seq![256, 128, 0]
    } else if base == X264_CSP_I422 || base == X264_CSP_YV16 || base == X264_CSP_I444 || base
        == X264_CSP_YV24 {
        seq![256, 256, 256]
    } else if base == X264_CSP_NV16 {
        seq![256, 256, 0]
    } else if base == X264_CSP_BGR || base == X264_CSP_RGB || base == X264_CSP_BGRA {
        seq![256, 0, 0]
    } else {
        seq![0, 0, 0]
    }
}

/// Number of planes a pixel format is stored in.
pub open spec fn plane_count(base: usize) -> nat {
    if base == X264_CSP_BGR || base == X264_CSP_RGB || base == X264_CSP_BGRA {
        1
    } else if base == X264_CSP_NV12 || base == X264_CSP_NV21 || base == X264_CSP_NV16 {
        2
    } else {
        3
    }
}

/// Width of plane `i` in samples, `width * scale_w / 256`.
pub open spec fn plane_width(csp: usize, width: nat, i: int) -> nat {
    width * (scale_w(csp_base(csp))[i] as nat) / 256
}

/// Samples in plane `i`, `plane_width * height * scale_h / 256`, taken left
/// to right in integer arithmetic.
pub open spec fn plane_samples(csp: usize, width: nat, height: nat, i: int) -> nat {
    plane_width(csp, width, i) * height * (scale_h(csp_base(csp))[i] as nat) / 256
}

/// Byte size of plane `i` of a `width` x `height` picture in format `csp`,
/// `width * scale_w / 256 * height * scale_h / 256 * bytes_per_sample`;
/// zero for a plane the format does not have.
pub open spec fn plane_bytes(csp: usize, width: nat, height: nat, i: int) -> nat {
    if 0 <= i < plane_count(csp_base(csp)) {
        plane_samples(csp, width, height, i) * bytes_per_sample(csp)
    } else {
        0
    }
}

/// Whether every intermediate product of `plane_bytes` fits in a `usize`.
pub open spec fn plane_bytes_fit(csp: usize, width: nat, height: nat, i: int) -> bool {
    &&& width * (scale_w(csp_base(csp))[i] as nat) <= usize::MAX
    &&& plane_width(csp, width, i) * height <= usize::MAX
    &&& plane_width(csp, width, i) * height * (scale_h(csp_base(csp))[i] as nat) <= usize::MAX
    &&& plane_samples(csp, width, height, i) * bytes_per_sample(csp) <= usize::MAX
}

/// Per-plane width and height scale factors of a pixel format, over 256.
pub struct ColorspaceScale {
    pub w: [usize; 3],
    pub h: [usize; 3],
}

/// The scale table of a supported pixel format.
pub fn scale_from_csp(base: usize) -> (r: ColorspaceScale)
    requires
        is_supported_base(base),
    ensures
        r.w@ == scale_w(base),
        r.h@ == scale_h(base),
{
    let r = if base == X264_CSP_I420 || base == X264_CSP_YV12 {
        ColorspaceScale { w: [256, 128, 128], h: [256, 128, 128] }
    } else if base == X264_CSP_NV12 || base == X264_CSP_NV21 {
        ColorspaceScale { w: [256, 256, 0], h: [256, 128, 0] }
    } else if base == X264_CSP_I422 || base == X264_CSP_YV16 {
        ColorspaceScale { w: [256, 128, 128], h: [256, 256, 256] }
    } else if base == X264_CSP_NV16 {
        ColorspaceScale { w: [256, 256, 0], h: [256, 256, 0] }
    } else if base == X264_CSP_I444 || base == X264_CSP_YV24 {
        ColorspaceScale { w: [256, 256, 256], h: [256, 256, 256] }
    } else if base == X264_CSP_BGRA {
        ColorspaceScale { w: [1024, 0, 0], h: [256, 0, 0] }
    } else {
        ColorspaceScale { w: [768, 0, 0], h: [256, 0, 0] }
    };
    assert(r.w@ =~= scale_w(base));
    assert(r.h@ =~= scale_h(base));
    r
}


/// Whether a colorspace code names a supported pixel format.
pub fn is_supported(csp: usize) -> (r: bool)
    ensures
        r == csp_supported(csp),
{
    is_supported_base_exec(csp % 256)
}

/// Whether a pixel format (without flags) is one of the supported ones.
pub fn is_supported_base_exec(base: usize) -> (r: bool)
    ensures
        r == is_supported_base(base),
{
    base == X264_CSP_I420 || base == X264_CSP_YV12 || base == X264_CSP_NV12 || base
        == X264_CSP_NV21 || base == X264_CSP_I422 || base == X264_CSP_YV16 || base
        == X264_CSP_NV16 || base == X264_CSP_I444 || base == X264_CSP_YV24 || base
        == X264_CSP_BGR || base == X264_CSP_BGRA || base == X264_CSP_RGB
}

/// Number of planes of a supported pixel format.
pub fn planes_of(base: usize) -> (r: usize)
    requires
        is_supported_base(base),
    ensures
        r == plane_count(base),
        1 <= r <= 3,
{
    if base == X264_CSP_BGR || base == X264_CSP_RGB || base == X264_CSP_BGRA {
        1
    } else if base == X264_CSP_NV12 || base == X264_CSP_NV21 || base == X264_CSP_NV16 {
        2
    } else {
        3
    }
}

/// Byte size of plane `plane` of a `width` x `height` picture in format `csp`,
/// computed left to right in integer arithmetic as
/// `width * scale_w / 256 * height * scale_h / 256 * bytes_per_sample`;
/// `None` when an intermediate product does not fit in a `usize`.
pub fn plane_size_of(csp: usize, width: usize, height: usize, plane: usize) -> (r: Option<usize>)
    requires
        csp_supported(csp),
        plane < 3,
    ensures
        r.is_some() <==> plane_bytes_fit(csp, width as nat, height as nat, plane as int),
        r.is_some() ==> r.unwrap() == plane_bytes(csp, width as nat, height as nat, plane as int),
{
    let base = csp % 256;
    let scale = scale_from_csp(base);
    let n = planes_of(base);
    let bytes: usize = if (csp / X264_CSP_HIGH_DEPTH) % 2 == 1 { 2 } else { 1 };
    let sw = scale.w[plane];
    let sh = scale.h[plane];
    let pw = match width.checked_mul(sw) {
        Some(x) => x / SCALE_ONE,
        None => return None,
    };
    let rows = match pw.checked_mul(height) {
        Some(x) => x,
        None => return None,
    };
    let samples = match rows.checked_mul(sh) {
        Some(x) => x / SCALE_ONE,
        None => return None,
    };
    let size = match samples.checked_mul(bytes) {
        Some(x) => x,
        None => return None,
    };
    if plane < n {
        Some(size)
    } else {
        Some(0)
    }
}

/// Bytes per row of plane `plane` of a picture `width` samples wide in format
/// `csp`, `width * scale_w / 256 * bytes_per_sample`; `None` when it does not
/// fit in a `usize`.
pub fn plane_stride_of(csp: usize, width: usize, plane: usize) -> (r: Option<usize>)
    requires
        csp_supported(csp),
        plane < 3,
    ensures
        r.is_some() <==> width * (scale_w(csp_base(csp))[plane as int] as nat) <= usize::MAX
            && plane_width(csp, width as nat, plane as int) * bytes_per_sample(csp) <= usize::MAX,
        r.is_some() ==> r.unwrap() == plane_width(csp, width as nat, plane as int)
            * bytes_per_sample(csp),
{
    let scale = scale_from_csp(csp % 256);
    let bytes: usize = if (csp / X264_CSP_HIGH_DEPTH) % 2 == 1 { 2 } else { 1 };
    let pw = match width.checked_mul(scale.w[plane]) {
        Some(x) => x / SCALE_ONE,
        None => return None,
    };
    pw.checked_mul(bytes)
}

/// Plane byte size never decreases when the width or the height grows.
pub proof fn lemma_plane_bytes_monotonic(
    csp: usize,
    w1: nat,
    w2: nat,
    h1: nat,
    h2: nat,
    i: int,
)
    requires
        w1 <= w2,
        h1 <= h2,
    ensures
        plane_bytes(csp, w1, h1, i) <= plane_bytes(csp, w2, h2, i),
{
    if 0 <= i < plane_count(csp_base(csp)) {
        let sw = scale_w(csp_base(csp))[i] as nat;
        let sh = scale_h(csp_base(csp))[i] as nat;
        assert(w1 * sw <= w2 * sw) by (nonlinear_arith)
            requires
                w1 <= w2,
        ;
        vstd::arithmetic::div_mod::lemma_div_is_ordered((w1 * sw) as int, (w2 * sw) as int, 256);
        let a1 = plane_width(csp, w1, i);
        let a2 = plane_width(csp, w2, i);
        assert(a1 * h1 * sh <= a2 * h2 * sh) by (nonlinear_arith)
            requires
                a1 <= a2,
                h1 <= h2,
        ;
        vstd::arithmetic::div_mod::lemma_div_is_ordered(
            (a1 * h1 * sh) as int,
            (a2 * h2 * sh) as int,
            256,
        );
        let k = bytes_per_sample(csp);
        let b1 = plane_samples(csp, w1, h1, i);
        let b2 = plane_samples(csp, w2, h2, i);
        assert(b1 * k <= b2 * k) by (nonlinear_arith)
            requires
                b1 <= b2,
        ;
    }
}

/// Setting the high-bit-depth flag on a format doubles every plane's byte size.
pub proof fn lemma_high_depth_doubles(csp: usize, width: nat, height: nat, i: int)
    requires
        !csp_high_depth(csp),
        csp + X264_CSP_HIGH_DEPTH <= usize::MAX,
    ensures
        plane_bytes((csp + X264_CSP_HIGH_DEPTH) as usize, width, height, i) == 2 * plane_bytes(
            csp,
            width,
            height,
            i,
        ),
{
    let hi = (csp + X264_CSP_HIGH_DEPTH) as usize;
    assert(csp_base(hi) == csp_base(csp));
    assert(csp_high_depth(hi));
    let a = plane_samples(csp, width, height, i);
    assert(a * 2 == 2 * (a * 1)) by (nonlinear_arith);
}

} // verus!
