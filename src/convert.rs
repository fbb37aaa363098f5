use vstd::prelude::*;

verus! {

/// Fixed-point scale of the conversion coefficients (five decimal places).
pub const COEFF_SCALE: i64 = 100000;

/// Integer quotient rounded toward zero, as a cast from a real number does.
pub open spec fn trunc_div(n: int, d: int) -> int {
    if n >= 0 {
        n / d
    } else {
        -((-n) / d)
    }
}

/// The low eight bits of `v`: out-of-range values wrap instead of clamping.
pub open spec fn wrap_u8(v: int) -> u8 {
    (v % 256) as u8
}

/// First output byte of a pixel: `Y + 1.77200 * (Cb - 128)`, truncated.
pub open spec fn cb_term(y: u8, cb: u8) -> u8 {
    wrap_u8(trunc_div(100000 * y + 177200 * (cb - 128), 100000))
}

/// Second output byte of a pixel:
/// `Y - 0.34414 * (Cb - 128) - 0.71414 * (Cr - 128)`, truncated.
pub open spec fn g_term(y: u8, cb: u8, cr: u8) -> u8 {
    wrap_u8(trunc_div(100000 * y - 34414 * (cb - 128) - 71414 * (cr - 128), 100000))
}

/// Third output byte of a pixel: `Y + 1.40200 * (Cr - 128)`, truncated.
pub open spec fn cr_term(y: u8, cr: u8) -> u8 {
    wrap_u8(trunc_div(100000 * y + 140200 * (cr - 128), 100000))
}

/// The six output bytes of one packed group `Y0 Cb Y1 Cr`: two pixels that
/// share one chroma pair.
pub open spec fn rgb_group(y0: u8, cb: u8, y1: u8, cr: u8) -> Seq<u8> {
    seq![
        cb_term(y0, cb),
        g_term(y0, cb, cr),
        cr_term(y0, cr),
        cb_term(y1, cb),
        g_term(y1, cb, cr),
        cr_term(y1, cr),
    ]
}

/// The converted form of the first `n` groups of `src`.
pub open spec fn frame_rgb(src: Seq<u8>, n: nat) -> Seq<u8>
    decreases n,
{
    if n == 0 {
        seq![]
    } else {
        let g = 4 * (n - 1);
        frame_rgb(src, (n - 1) as nat) + rgb_group(src[g], src[g + 1], src[g + 2], src[g + 3])
    }
}

/// Number of 4:2:2 groups in a `width` x `height` frame.
pub open spec fn group_count(width: u32, height: u32) -> nat {
    (width * height / 2) as nat
}

proof fn lemma_frame_rgb_len(src: Seq<u8>, n: nat)
    ensures
        frame_rgb(src, n).len() == 6 * n,
    decreases n,
{
    if n > 0 {
        lemma_frame_rgb_len(src, (n - 1) as nat);
    }
}

proof fn lemma_frame_geometry(width: u32, height: u32, len: int)
    requires
        width % 2 == 0,
        2 * (width as int) * (height as int) <= len,
        3 * (width as int) * (height as int) <= usize::MAX,
    ensures
        0 <= (width as int) * (height as int),
        3 * (width as int) * (height as int) == 3 * ((width as int) * (height as int)),
        3 * ((width as int) * (height as int)) <= usize::MAX,
        4 * (((width as int) * (height as int)) / 2) <= len,
        ((width as int) * (height as int)) % 2 == 0,
        group_count(width, height) == ((width as int) * (height as int)) / 2,
{
    let p = (width as int) * (height as int);
    let hw = (width / 2) as int;
    assert(0 <= p && 3 * p <= usize::MAX && 2 * p <= len) by (nonlinear_arith)
        requires
            p == (width as int) * (height as int),
            2 * (width as int) * (height as int) <= len,
            3 * (width as int) * (height as int) <= usize::MAX,
    ;
    assert(p == 2 * (hw * height)) by (nonlinear_arith)
        requires
            width % 2 == 0,
            hw == width / 2,
            p == (width as int) * (height as int),
    ;
    assert(3 * (width as int) * (height as int) == 3 * p) by (nonlinear_arith)
        requires
            p == (width as int) * (height as int),
    ;
}

/// `trunc_div(n, COEFF_SCALE)` followed by `wrap_u8`, for numerators whose
/// quotient lies in `-256..512`.
fn scaled_to_u8(n: i64) -> (r: u8)
    requires
        -25600000 < n < 51200000,
    ensures
        r == wrap_u8(trunc_div(n as int, 100000)),
{
    let t: i64 = if n >= 0 {
        n / COEFF_SCALE
    } else {
        -((-n) / COEFF_SCALE)
    };
    assert(-256 <= t < 512);
    if t < 0 {
        assert((t as int) % 256 == t + 256);
        (t + 256) as u8
    } else if t >= 256 {
        assert((t as int) % 256 == t - 256);
        (t - 256) as u8
    } else {
        assert((t as int) % 256 == t);
        t as u8
    }
}

/// Appends to `dest` the two pixels of the packed group `Y0 Cb Y1 Cr`.
pub fn yuv422_to_rgb(dest: &mut Vec<u8>, y0: u8, cb: u8, y1: u8, cr: u8)
    ensures
        final(dest)@ == old(dest)@ + rgb_group(y0, cb, y1, cr),
{
    let db: i64 = 177200 * (cb as i64 - 128);
    let dg: i64 = -34414 * (cb as i64 - 128) - 71414 * (cr as i64 - 128);
    let dr: i64 = 140200 * (cr as i64 - 128);
    let s0: i64 = COEFF_SCALE * y0 as i64;
    let s1: i64 = COEFF_SCALE * y1 as i64;
    dest.push(scaled_to_u8(s0 + db));
    dest.push(scaled_to_u8(s0 + dg));
    dest.push(scaled_to_u8(s0 + dr));
    dest.push(scaled_to_u8(s1 + db));
    dest.push(scaled_to_u8(s1 + dg));
    dest.push(scaled_to_u8(s1 + dr));
    assert(final(dest)@ =~= old(dest)@ + rgb_group(y0, cb, y1, cr));
}

/// Converts a packed 4:2:2 frame of `width` x `height` pixels into three
/// bytes per pixel, row by row. `src` may be longer than the frame (a driver
/// buffer is often padded); the extra bytes are not read.
pub fn convert_frame(src: &[u8], width: u32, height: u32) -> (r: Vec<u8>)
    requires
        width % 2 == 0,
        2 * (width as int) * (height as int) <= src@.len(),
        3 * (width as int) * (height as int) <= usize::MAX,
    ensures
        r@ == frame_rgb(src@, group_count(width, height)),
        r@.len() == 3 * (width as int) * (height as int),
{
    proof {
        lemma_frame_geometry(width, height, src@.len() as int);
    }
    let pixels: usize = (width as usize) * (height as usize);
    let n: usize = pixels / 2;
    let mut out: Vec<u8> = Vec::with_capacity(3 * pixels);
    let len: usize = src.len();
    let mut k: usize = 0;
    while k < n
        invariant
            len == src@.len(),
            4 * n <= src@.len(),
            k <= n,
            out@ == frame_rgb(src@, k as nat),
        decreases n - k,
    {
        let g = 4 * k;
        yuv422_to_rgb(&mut out, src[g], src[g + 1], src[g + 2], src[g + 3]);
        k = k + 1;
    }
    proof {
        lemma_frame_rgb_len(src@, n as nat);
    }
    out
}

} // verus!
