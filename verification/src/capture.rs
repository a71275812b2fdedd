//! Sizes, bitrates, timestamps and names that the capture engine computes.

use vstd::prelude::*;
use crate::digits::{decimal, decimal_chars};
use crate::settings::{Codec, Quality};
use crate::text::{chars_of, is_lit, push_chars, push_str, string_of};

verus! {

/// `value` raised to at least 2 and rounded down to an even number, as the
/// encoder needs even frame sizes.
pub open spec fn even_dim(value: nat) -> nat {
    let v = if value < 2 { 2 } else { value };
    (v - v % 2) as nat
}

/// An even frame dimension of at least 2 near `value`.
pub fn even_dimension(value: u32) -> (r: u32)
    ensures
        r == even_dim(value as nat),
        r >= 2,
        r % 2 == 0,
{
    let v = if value < 2 { 2 } else { value };
    v - (v % 2)
}

/// `p / q` rounded to the nearest integer, halves away from zero.
pub open spec fn round_div(p: nat, q: nat) -> nat {
    (2 * p + q) / (2 * q)
}

/// The largest frame of a resolution name, if it limits the size.
pub open spec fn max_size_of(resolution: Seq<char>) -> Option<(nat, nat)> {
    if resolution == "720p"@ {
        Some((1280, 720))
    } else if resolution == "1080p"@ {
        Some((1920, 1080))
    } else if resolution == "2k"@ {
        Some((2560, 1440))
    } else if resolution == "4k"@ {
        Some((3840, 2160))
    } else {
        None
    }
}

/// The encoded frame size: the native size scaled down, keeping its aspect,
/// to fit in the resolution's largest frame (never scaled up), rounded to
/// the nearest pixel and then made even.
pub open spec fn encoder_size_spec(w: nat, h: nat, resolution: Seq<char>) -> (nat, nat) {
    match max_size_of(resolution) {
        None => (even_dim(w), even_dim(h)),
        Some((mw, mh)) => {
            if w > 0 && mw < w && (h == 0 || mw * h <= mh * w) {
                (even_dim(mw), even_dim(round_div(h * mw, w)))
            } else if h > 0 && mh < h {
                (even_dim(round_div(w * mh, h)), even_dim(mh))
            } else {
                (even_dim(w), even_dim(h))
            }
        },
    }
}

/// The encoded frame size for a native size and a resolution name.
#[verifier::spinoff_prover]
pub fn encoder_size(native_width: u32, native_height: u32, resolution: &str) -> (r: (u32, u32))
    ensures
        (r.0 as nat, r.1 as nat) == encoder_size_spec(native_width as nat, native_height as nat, resolution@),
{
    let res = chars_of(resolution);
    let (mw, mh): (u64, u64) = if is_lit(&res, "720p") {
        (1280, 720)
    } else if is_lit(&res, "1080p") {
        (1920, 1080)
    } else if is_lit(&res, "2k") {
        (2560, 1440)
    } else if is_lit(&res, "4k") {
        (3840, 2160)
    } else {
        return (even_dimension(native_width), even_dimension(native_height));
    };
    let w = native_width as u64;
    let h = native_height as u64;
    assert(mw * h <= 3840 * 4294967295) by (nonlinear_arith) requires mw <= 3840, h <= 4294967295;
    assert(mh * w <= 2160 * 4294967295) by (nonlinear_arith) requires mh <= 2160, w <= 4294967295;
    assert(h * mw <= 3840 * 4294967295) by (nonlinear_arith) requires mw <= 3840, h <= 4294967295;
    assert(w * mh <= 2160 * 4294967295) by (nonlinear_arith) requires mh <= 2160, w <= 4294967295;
    if w > 0 && mw < w && (h == 0 || mw * h <= mh * w) {
        let q = (2 * (h * mw) + w) / (2 * w);
        assert(q <= h) by (nonlinear_arith) requires q == (2 * (h * mw) + w) / (2 * w), w > 0, mw < w;
        (even_dimension(mw as u32), even_dimension(q as u32))
    } else if h > 0 && mh < h {
        assert(w * mh == mh * w) by (nonlinear_arith);
        let q = (2 * (w * mh) + h) / (2 * h);
        assert(q <= w) by (nonlinear_arith) requires q == (2 * (w * mh) + h) / (2 * h), h > 0, mh < h;
        (even_dimension(q as u32), even_dimension(mh as u32))
    } else {
        (even_dimension(native_width), even_dimension(native_height))
    }
}

/// An encoded frame never exceeds the largest frame of its resolution:
/// a native frame that fits is kept (made even), a larger one is scaled
/// down along the side that limits it.
pub proof fn encoded_frames_fit_the_resolution(w: nat, h: nat, resolution: Seq<char>, mw: nat, mh: nat)
    requires
        max_size_of(resolution) == Some((mw, mh)),
    ensures
        encoder_size_spec(w, h, resolution).0 <= mw,
        encoder_size_spec(w, h, resolution).1 <= mh,
{
    let r = encoder_size_spec(w, h, resolution);
    assert(mw >= 1280 && mh >= 720 && mw % 2 == 0 && mh % 2 == 0);
    if w > 0 && mw < w && (h == 0 || mw * h <= mh * w) {
        let q = round_div(h * mw, w);
        assert(r == (even_dim(mw), even_dim(q)));
        if h > 0 {
            assert(q <= mh) by (nonlinear_arith)
                requires q == (2 * (h * mw) + w) / (2 * w), w > 0, mw * h <= mh * w;
        } else {
            assert(q == 0) by (nonlinear_arith) requires q == (2 * (h * mw) + w) / (2 * w), w > 0, h == 0;
        }
    } else if h > 0 && mh < h {
        let q = round_div(w * mh, h);
        assert(r == (even_dim(q), even_dim(mh)));
        if mw < w {
            assert(w > 0 && mw * h > mh * w);
            assert(q <= mw) by (nonlinear_arith)
                requires q == (2 * (w * mh) + h) / (2 * h), h > 0, mw * h > mh * w;
        } else {
            assert(q <= mw) by (nonlinear_arith)
                requires q == (2 * (w * mh) + h) / (2 * h), h > 0, mh < h, w <= mw;
        }
    } else {
        assert(r == (even_dim(w), even_dim(h)));
        if mw < w {
            assert(h > 0 && mw * h > mh * w);
            assert(h > mh) by (nonlinear_arith) requires mw * h > mh * w, mw < w, mh >= 0;
        }
    }
}

/// Bits per pixel of a quality name, in thousandths.
pub open spec fn bits_per_pixel_milli(quality: Seq<char>) -> nat {
    if quality == "efficient"@ { 45 } else if quality == "high"@ { 105 } else { 70 }
}

/// Codec factor of a codec name, in hundredths.
pub open spec fn codec_scale_centi(codec: Seq<char>) -> nat {
    if codec == "h264"@ { 135 } else { 100 }
}

/// `x` held between `lo` and `hi`.
pub open spec fn clamp(x: nat, lo: nat, hi: nat) -> nat {
    if x < lo { lo } else if x > hi { hi } else { x }
}

/// Target bitrate: pixels per second times bits per pixel of the quality
/// times the codec factor, rounded to the nearest bit per second and held
/// between 1.5 Mbps and `u32::MAX`.
pub open spec fn target_bitrate_spec(w: nat, h: nat, fps: nat, quality: Seq<char>, codec: Seq<char>) -> nat {
    clamp(
        round_div(w * h * fps * bits_per_pixel_milli(quality) * codec_scale_centi(codec), 100_000),
        1_500_000,
        u32::MAX as nat,
    )
}

/// For the same frame size, rate and codec, the efficient preset never asks
/// for more bits than the balanced one, nor the balanced one more than the
/// high one.
pub proof fn bitrate_grows_with_quality(w: nat, h: nat, fps: nat, codec: Seq<char>)
    ensures
        target_bitrate_spec(w, h, fps, "efficient"@, codec) <= target_bitrate_spec(w, h, fps, "balanced"@, codec),
        target_bitrate_spec(w, h, fps, "balanced"@, codec) <= target_bitrate_spec(w, h, fps, "high"@, codec),
{
    reveal_strlit("efficient");
    reveal_strlit("balanced");
    reveal_strlit("high");
    assert("balanced"@.len() == 8 && "efficient"@.len() == 9 && "high"@.len() == 4);
    assert("balanced"@ != "efficient"@ && "balanced"@ != "high"@);
    let p = w * h * fps;
    let c = codec_scale_centi(codec);
    assert(p * 45 * c <= p * 70 * c && p * 70 * c <= p * 105 * c) by (nonlinear_arith);
    assert(w * h * fps * 45 * c == p * 45 * c && w * h * fps * 70 * c == p * 70 * c && w * h * fps * 105 * c == p * 105 * c);
    let a = p * 45 * c;
    let b = p * 70 * c;
    let d = p * 105 * c;
    assert(round_div(a, 100_000) <= round_div(b, 100_000)) by (nonlinear_arith) requires a <= b;
    assert(round_div(b, 100_000) <= round_div(d, 100_000)) by (nonlinear_arith) requires b <= d;
}

/// The encoder's target bitrate for a frame size, frame rate, quality name
/// and codec name.
pub fn target_bitrate(width: u32, height: u32, fps: u32, quality: &str, codec: &str) -> (r: u32)
    ensures
        r as nat == target_bitrate_spec(width as nat, height as nat, fps as nat, quality@, codec@),
{
    let q = chars_of(quality);
    let c = chars_of(codec);
    let bpp: u128 = if is_lit(&q, "efficient") { 45 } else if is_lit(&q, "high") { 105 } else { 70 };
    let scale: u128 = if is_lit(&c, "h264") { 135 } else { 100 };
    let w = width as u128;
    let h = height as u128;
    let f = fps as u128;
    assert(w * h <= 4294967295 * 4294967295) by (nonlinear_arith) requires w <= 4294967295, h <= 4294967295;
    let wh = w * h;
    assert(wh * f <= 4294967295 * 4294967295 * 4294967295) by (nonlinear_arith)
        requires wh <= 4294967295 * 4294967295, f <= 4294967295;
    let p = wh * f;
    assert(p * bpp <= 4294967295 * 4294967295 * 4294967295 * 105) by (nonlinear_arith)
        requires p <= 4294967295 * 4294967295 * 4294967295, bpp <= 105;
    let pb = p * bpp;
    assert(pb * scale <= 4294967295 * 4294967295 * 4294967295 * 105 * 135) by (nonlinear_arith)
        requires pb <= 4294967295 * 4294967295 * 4294967295 * 105, scale <= 135;
    let num = pb * scale;
    let rounded = (2 * num + 100_000) / 200_000;
    if rounded < 1_500_000 {
        1_500_000
    } else if rounded > 4294967295 {
        4294967295
    } else {
        rounded as u32
    }
}

/// Bits per pixel of a quality preset, in thousandths.
pub open spec fn preset_bpp_milli(q: Quality) -> nat {
    match q {
        Quality::Efficient => 45,
        Quality::Balanced => 70,
        Quality::High => 105,
    }
}

/// Codec factor, in hundredths.
pub open spec fn codec_centi(c: Codec) -> nat {
    match c {
        Codec::Hevc => 100,
        Codec::H264 => 135,
    }
}

/// The Media Foundation encoder's bitrate: pixels per second times bits per
/// pixel times the codec factor, truncated to whole bits per second and
/// held between 1.5 Mbps and `u32::MAX`.
pub open spec fn encoder_bitrate_spec(w: nat, h: nat, fps: nat, q: Quality, c: Codec) -> nat {
    clamp((w * h * fps * preset_bpp_milli(q) * codec_centi(c)) / 100_000, 1_500_000, u32::MAX as nat)
}

/// The source pixel that target pixel (`ty`, `tx`) takes when a `sw` by
/// `sh` frame is scaled to `tw` by `th` by nearest neighbour.
pub open spec fn nearest_pixel(ty: int, tx: int, sw: int, sh: int, tw: int, th: int) -> int {
    (ty * sh / th) * sw + tx * sw / tw
}

/// The source byte that lands at byte `i` of the scaled BGRA frame.
pub open spec fn nearest_source_index(i: int, sw: int, sh: int, tw: int, th: int) -> int {
    let pixel = i / 4;
    nearest_pixel(pixel / tw, pixel % tw, sw, sh, tw, th) * 4 + i % 4
}

/// A BGRA frame of `sw` by `sh` pixels scaled to `tw` by `th` pixels by
/// nearest neighbour: each target pixel copies the four bytes of the source
/// pixel at the same fraction of the width and height, rounded down.
pub open spec fn scaled_bgra(source: Seq<u8>, sw: nat, sh: nat, tw: nat, th: nat) -> Seq<u8> {
    Seq::new(tw * th * 4, |i: int| source[nearest_source_index(i, sw as int, sh as int, tw as int, th as int)])
}

/// Every source pixel that the scaling reads lies inside the source.
pub open spec fn nearest_in_bounds(len: nat, sw: nat, sh: nat, tw: nat, th: nat) -> bool {
    forall|ty: int, tx: int|
        0 <= ty < th && 0 <= tx < tw ==> #[trigger] nearest_pixel(ty, tx, sw as int, sh as int, tw as int, th as int) * 4 + 4 <= len
}

proof fn lemma_nearest_index(ty: int, tx: int, k: int, sw: int, sh: int, tw: int, th: int)
    requires
        0 <= ty,
        0 <= tx < tw,
        0 <= k < 4,
    ensures
        nearest_source_index((ty * tw + tx) * 4 + k, sw, sh, tw, th) == nearest_pixel(ty, tx, sw, sh, tw, th) * 4 + k,
{
    let pixel = ty * tw + tx;
    vstd::arithmetic::div_mod::lemma_fundamental_div_mod_converse(pixel * 4 + k, 4, pixel, k);
    vstd::arithmetic::div_mod::lemma_fundamental_div_mod_converse(pixel, tw, ty, tx);
}

/// Scales a BGRA frame of `source_width` by `source_height` pixels to
/// `target_width` by `target_height` pixels by nearest neighbour, into
/// `output`.
pub fn scale_bgra_nearest(
    source: &[u8],
    source_width: u32,
    source_height: u32,
    target_width: u32,
    target_height: u32,
    output: &mut Vec<u8>,
)
    requires
        target_width as nat * target_height as nat * 4 <= usize::MAX,
        nearest_in_bounds(source@.len(), source_width as nat, source_height as nat, target_width as nat, target_height as nat),
    ensures
        final(output)@ == scaled_bgra(source@, source_width as nat, source_height as nat, target_width as nat, target_height as nat),
{
    let ghost want = scaled_bgra(source@, source_width as nat, source_height as nat, target_width as nat, target_height as nat);
    let sw = source_width as u64;
    let sh = source_height as u64;
    let tw = target_width as u64;
    let th = target_height as u64;
    let mut out: Vec<u8> = Vec::new();
    let mut ty: u64 = 0;
    while ty < th
        invariant
            sw == source_width, sh == source_height, tw == target_width, th == target_height,
            ty <= th,
            tw * th * 4 <= usize::MAX,
            want == scaled_bgra(source@, sw as nat, sh as nat, tw as nat, th as nat),
            nearest_in_bounds(source@.len(), sw as nat, sh as nat, tw as nat, th as nat),
            out@.len() == ty * tw * 4,
            out@ == want.take(out@.len() as int),
        decreases th - ty,
    {
        assert(ty * sh <= 18446744073709551615) by (nonlinear_arith)
            requires ty <= 4294967295, sh <= 4294967295;
        let sy = ty * sh / th;
        let mut tx: u64 = 0;
        while tx < tw
            invariant
                sw == source_width, sh == source_height, tw == target_width, th == target_height,
                ty < th, tx <= tw,
                sy as int == (ty as int * sh as int) / th as int,
                tw * th * 4 <= usize::MAX,
                want == scaled_bgra(source@, sw as nat, sh as nat, tw as nat, th as nat),
                nearest_in_bounds(source@.len(), sw as nat, sh as nat, tw as nat, th as nat),
                out@.len() == (ty * tw + tx) * 4,
                out@ == want.take(out@.len() as int),
            decreases tw - tx,
        {
            assert(tx * sw <= 18446744073709551615) by (nonlinear_arith)
                requires tx <= 4294967295, sw <= 4294967295;
            let sx = tx * sw / tw;
            let ghost pix = nearest_pixel(ty as int, tx as int, sw as int, sh as int, tw as int, th as int);
            assert(pix * 4 + 4 <= source@.len());
            assert(pix == sy * sw + sx);
            assert(sy * sw + sx <= pix);
            assert((sy * sw + sx) * 4 <= source@.len());
            let n_src = source.len();
            assert(n_src == source@.len());
            assert(sy * sw + sx <= 4611686018427387903);
            assert(sy * sw <= 4611686018427387903);
            let base = ((sy * sw + sx) * 4) as usize;
            assert(ty * tw + tx < tw * th) by (nonlinear_arith)
                requires ty < th, tx < tw;
            let ghost at = out@.len() as int;
            assert(want.len() == tw * th * 4);
            proof {
                lemma_nearest_index(ty as int, tx as int, 0, sw as int, sh as int, tw as int, th as int);
                lemma_nearest_index(ty as int, tx as int, 1, sw as int, sh as int, tw as int, th as int);
                lemma_nearest_index(ty as int, tx as int, 2, sw as int, sh as int, tw as int, th as int);
                lemma_nearest_index(ty as int, tx as int, 3, sw as int, sh as int, tw as int, th as int);
            }
            out.push(source[base]);
            out.push(source[base + 1]);
            out.push(source[base + 2]);
            out.push(source[base + 3]);
            assert(out@ =~= want.take(at + 4));
            tx = tx + 1;
        }
        assert((ty * tw + tw) * 4 == (ty + 1) * tw * 4) by (nonlinear_arith);
        ty = ty + 1;
    }
    assert(ty * tw * 4 == tw * th * 4) by (nonlinear_arith) requires ty == th;
    assert(want.take(out@.len() as int) =~= want);
    *output = out;
}

/// `v` held to a byte.
pub open spec fn to_byte(v: int) -> u8 {
    if v < 0 { 0 } else if v > 255 { 255 } else { v as u8 }
}

/// BT.601 video-range luma of a pixel.
pub open spec fn luma(r: int, g: int, b: int) -> u8 {
    to_byte((66 * r + 129 * g + 25 * b + 128) / 256 + 16)
}

/// BT.601 blue-difference chroma of a pixel.
pub open spec fn chroma_u(r: int, g: int, b: int) -> u8 {
    to_byte((-38 * r - 74 * g + 112 * b + 128) / 256 + 128)
}

/// BT.601 red-difference chroma of a pixel.
pub open spec fn chroma_v(r: int, g: int, b: int) -> u8 {
    to_byte((112 * r - 94 * g - 18 * b + 128) / 256 + 128)
}

/// Bytes of the chroma plane of a `w` by `h` NV12 frame.
pub open spec fn uv_plane_len(w: nat, h: nat) -> nat {
    (w / 2) * (h / 2) * 2
}

/// Bytes of a `w` by `h` NV12 frame: a luma byte per pixel, then a chroma
/// pair per two by two block.
pub open spec fn nv12_len(w: nat, h: nat) -> nat {
    w * h + uv_plane_len(w, h)
}

/// The luma of pixel `i` of a BGRA frame, or zero where the frame is too
/// short to hold that pixel.
pub open spec fn luma_at(bgra: Seq<u8>, i: int) -> u8 {
    if i * 4 + 3 < bgra.len() {
        luma(bgra[i * 4 + 2] as int, bgra[i * 4 + 1] as int, bgra[i * 4] as int)
    } else {
        0
    }
}

/// What converting pixel (`y`, `x`) writes into the NV12 buffer `s`: its luma
/// byte, and, for the top left pixel of a two by two block whose chroma pair
/// fits in the plane, that pair. A pixel past the end of `bgra` writes
/// nothing.
pub open spec fn nv12_step(s: Seq<u8>, bgra: Seq<u8>, w: nat, h: nat, y: nat, x: nat) -> Seq<u8> {
    let p = y * w + x;
    if p * 4 + 3 >= bgra.len() {
        s
    } else {
        let b = bgra[(p * 4) as int] as int;
        let g = bgra[(p * 4 + 1) as int] as int;
        let r = bgra[(p * 4 + 2) as int] as int;
        let s1 = s.update(p as int, luma(r, g, b));
        let uv = (y / 2) * (w / 2) * 2 + (x / 2) * 2;
        if y % 2 == 0 && x % 2 == 0 && uv + 1 < uv_plane_len(w, h) {
            s1.update((w * h + uv) as int, chroma_u(r, g, b)).update((w * h + uv + 1) as int, chroma_v(r, g, b))
        } else {
            s1
        }
    }
}

/// The NV12 buffer once the pixels before (`y`, `x`) have been converted,
/// row by row; it starts all zero.
pub open spec fn nv12_prefix(bgra: Seq<u8>, w: nat, h: nat, y: nat, x: nat) -> Seq<u8>
    decreases y, x,
{
    if x > 0 {
        nv12_step(nv12_prefix(bgra, w, h, y, (x - 1) as nat), bgra, w, h, y, (x - 1) as nat)
    } else if y > 0 {
        nv12_prefix(bgra, w, h, (y - 1) as nat, w)
    } else {
        Seq::new(nv12_len(w, h), |i: int| 0u8)
    }
}

/// A `w` by `h` BGRA frame converted to NV12.
pub open spec fn nv12_of(bgra: Seq<u8>, w: nat, h: nat) -> Seq<u8> {
    nv12_prefix(bgra, w, h, h, 0)
}

/// The luma plane of a converted frame holds each pixel's luma, or zero
/// for pixels that the source is too short to hold.
#[verifier::spinoff_prover]
#[verifier::rlimit(40)]
proof fn lemma_nv12_luma(bgra: Seq<u8>, w: nat, h: nat, y: nat, x: nat)
    requires
        y <= h,
        x <= w,
        x > 0 ==> y < h,
    ensures
        nv12_prefix(bgra, w, h, y, x).len() == nv12_len(w, h),
        forall|i: int|
            0 <= i < w * h ==> #[trigger] nv12_prefix(bgra, w, h, y, x)[i] == (if i < y * w + x { luma_at(bgra, i) } else { 0u8 }),
    decreases y, x,
{
    if x > 0 {
        lemma_nv12_luma(bgra, w, h, y, (x - 1) as nat);
        let j = y * w + (x - 1);
        assert(j < w * h) by (nonlinear_arith) requires y < h, x - 1 < w, j == y * w + (x - 1);
        let prev = nv12_prefix(bgra, w, h, y, (x - 1) as nat);
        let cur = nv12_prefix(bgra, w, h, y, x);
        assert(cur == nv12_step(prev, bgra, w, h, y, (x - 1) as nat));
        assert forall|i: int| 0 <= i < w * h implies #[trigger] cur[i] == (if i < y * w + x { luma_at(bgra, i) } else { 0u8 }) by {
            if i == j {
            } else {
                assert(cur[i] == prev[i]);
            }
        }
    } else if y > 0 {
        lemma_nv12_luma(bgra, w, h, (y - 1) as nat, w);
        assert((y - 1) * w + w == y * w) by (nonlinear_arith) requires y > 0;
    } else {
    }
}

/// A pixel `y * w + x` with `x < w` is at row `y` and column `x`.
proof fn lemma_pixel_position(w: nat, y: nat, x: nat, y2: nat, x2: nat)
    requires
        x < w,
        x2 < w,
        y * w + x == y2 * w + x2,
    ensures
        y == y2,
        x == x2,
{
    vstd::arithmetic::div_mod::lemma_fundamental_div_mod_converse((y * w + x) as int, w as int, y as int, x as int);
    vstd::arithmetic::div_mod::lemma_fundamental_div_mod_converse((y2 * w + x2) as int, w as int, y2 as int, x2 as int);
}

/// A top left pixel of a block converted after the block (`row`, `col`)
/// writes its chroma pair into another slot.
proof fn lemma_later_slot_differs(w: nat, row: nat, col: nat, y: nat, x: nat)
    requires
        2 * col + 1 < w,
        y % 2 == 0,
        x % 2 == 0,
        x < w,
        y * w + x > 2 * row * w + 2 * col,
    ensures
        (y / 2) * (w / 2) * 2 + (x / 2) * 2 != row * (w / 2) * 2 + col * 2,
{
    let yy = y / 2;
    let xx = x / 2;
    let ww = w / 2;
    assert(y == 2 * yy && x == 2 * xx);
    assert(col < ww);
    assert(xx <= ww);
    if yy < row {
        assert(y * w + x < 2 * row * w) by (nonlinear_arith)
            requires y == 2 * yy, yy + 1 <= row, x < w;
    } else if yy == row {
        assert(xx > col) by (nonlinear_arith)
            requires y == 2 * yy, yy == row, x == 2 * xx, y * w + x > 2 * row * w + 2 * col;
    } else {
        assert(yy * ww + xx >= (row + 1) * ww) by (nonlinear_arith) requires yy >= row + 1;
        assert((row + 1) * ww == row * ww + ww) by (nonlinear_arith);
    }
}

/// Converting the top left pixel of block (`row`, `col`) writes its chroma
/// pair into the block's slot.
#[verifier::spinoff_prover]
proof fn lemma_step_sets_slot(s: Seq<u8>, bgra: Seq<u8>, w: nat, h: nat, row: nat, col: nat)
    requires
        s.len() == nv12_len(w, h),
        2 * row + 1 < h,
        2 * col + 1 < w,
        (2 * row * w + 2 * col) * 4 + 3 < bgra.len(),
    ensures
        ({
            let p = (2 * row * w + 2 * col) as int;
            let uv = (row * (w / 2) * 2 + col * 2) as int;
            let t = nv12_step(s, bgra, w, h, 2 * row, 2 * col);
            &&& t.len() == s.len()
            &&& t[w * h + uv] == chroma_u(bgra[p * 4 + 2] as int, bgra[p * 4 + 1] as int, bgra[p * 4] as int)
            &&& t[w * h + uv + 1] == chroma_v(bgra[p * 4 + 2] as int, bgra[p * 4 + 1] as int, bgra[p * 4] as int)
        }),
{
    let y = 2 * row;
    let x = 2 * col;
    let uv = row * (w / 2) * 2 + col * 2;
    assert(y / 2 == row && x / 2 == col && y % 2 == 0 && x % 2 == 0);
    assert(uv + 1 < uv_plane_len(w, h)) by (nonlinear_arith)
        requires uv == row * (w / 2) * 2 + col * 2, 2 * row + 1 < h, 2 * col + 1 < w, uv_plane_len(w, h) == (w / 2) * (h / 2) * 2;
    assert(y * w + x < w * h) by (nonlinear_arith) requires y < h, x < w;
}

/// Converting a pixel after the top left pixel of block (`row`, `col`)
/// leaves the block's chroma slot as it was.
#[verifier::spinoff_prover]
proof fn lemma_step_keeps_slot(s: Seq<u8>, bgra: Seq<u8>, w: nat, h: nat, row: nat, col: nat, y: nat, x: nat)
    requires
        s.len() == nv12_len(w, h),
        2 * row + 1 < h,
        2 * col + 1 < w,
        y < h,
        x < w,
        y * w + x > 2 * row * w + 2 * col,
    ensures
        ({
            let uv = (row * (w / 2) * 2 + col * 2) as int;
            let t = nv12_step(s, bgra, w, h, y, x);
            &&& t.len() == s.len()
            &&& t[w * h + uv] == s[w * h + uv]
            &&& t[w * h + uv + 1] == s[w * h + uv + 1]
        }),
{
    let q = y * w + x;
    let n = w * h;
    let ww = w / 2;
    let uv = row * ww * 2 + col * 2;
    assert(q < n) by (nonlinear_arith) requires y < h, x < w, q == y * w + x, n == w * h;
    assert(uv + 1 < uv_plane_len(w, h)) by (nonlinear_arith)
        requires uv == row * ww * 2 + col * 2, ww == w / 2, 2 * row + 1 < h, 2 * col + 1 < w, uv_plane_len(w, h) == ww * (h / 2) * 2;
    if q * 4 + 3 < bgra.len() && y % 2 == 0 && x % 2 == 0 {
        let u2 = (y / 2) * ww * 2 + (x / 2) * 2;
        lemma_later_slot_differs(w, row, col, y, x);
        assert(u2 == 2 * ((y / 2) * ww + x / 2)) by (nonlinear_arith) requires u2 == (y / 2) * ww * 2 + (x / 2) * 2;
        assert(uv == 2 * (row * ww + col)) by (nonlinear_arith) requires uv == row * ww * 2 + col * 2;
        assert(u2 + 1 != uv && u2 != uv + 1);
    }
}

/// Once the top left pixel of block (`row`, `col`) has been converted, the
/// block's chroma slot holds that pixel's chroma pair, and no later pixel
/// changes it.
#[verifier::spinoff_prover]
proof fn lemma_nv12_chroma(bgra: Seq<u8>, w: nat, h: nat, row: nat, col: nat, y: nat, x: nat)
    requires
        2 * row + 1 < h,
        2 * col + 1 < w,
        (2 * row * w + 2 * col) * 4 + 3 < bgra.len(),
        y <= h,
        x <= w,
        x > 0 ==> y < h,
        y * w + x > 2 * row * w + 2 * col,
    ensures
        ({
            let p = (2 * row * w + 2 * col) as int;
            let uv = (row * (w / 2) * 2 + col * 2) as int;
            let s = nv12_prefix(bgra, w, h, y, x);
            &&& s[w * h + uv] == chroma_u(bgra[p * 4 + 2] as int, bgra[p * 4 + 1] as int, bgra[p * 4] as int)
            &&& s[w * h + uv + 1] == chroma_v(bgra[p * 4 + 2] as int, bgra[p * 4 + 1] as int, bgra[p * 4] as int)
        }),
    decreases y, x,
{
    if x > 0 {
        let x1 = (x - 1) as nat;
        let prev = nv12_prefix(bgra, w, h, y, x1);
        assert(nv12_prefix(bgra, w, h, y, x) == nv12_step(prev, bgra, w, h, y, x1));
        lemma_nv12_luma(bgra, w, h, y, x1);
        if y * w + x1 == 2 * row * w + 2 * col {
            lemma_pixel_position(w, y, x1, 2 * row, 2 * col);
            lemma_step_sets_slot(prev, bgra, w, h, row, col);
        } else {
            lemma_nv12_chroma(bgra, w, h, row, col, y, x1);
            lemma_step_keeps_slot(prev, bgra, w, h, row, col, y, x1);
        }
    } else if y > 0 {
        assert((y - 1) * w + w == y * w) by (nonlinear_arith) requires y > 0;
        lemma_nv12_chroma(bgra, w, h, row, col, (y - 1) as nat, w);
    }
}

/// Each two by two block of a converted frame carries, in this order, the
/// blue-difference and then the red-difference chroma of its top left
/// pixel (whose blue, green and red are its bytes 0, 1 and 2), in pair
/// `row * (w / 2) + col` of the chroma plane after the luma plane.
pub proof fn each_block_carries_the_chroma_of_its_top_left_pixel(bgra: Seq<u8>, w: nat, h: nat, row: nat, col: nat)
    requires
        2 * row + 1 < h,
        2 * col + 1 < w,
        (2 * row * w + 2 * col) * 4 + 3 < bgra.len(),
    ensures
        ({
            let p = (2 * row * w + 2 * col) as int;
            let uv = (row * (w / 2) * 2 + col * 2) as int;
            let s = nv12_of(bgra, w, h);
            &&& w * h + uv + 1 < s.len()
            &&& s[w * h + uv] == chroma_u(bgra[p * 4 + 2] as int, bgra[p * 4 + 1] as int, bgra[p * 4] as int)
            &&& s[w * h + uv + 1] == chroma_v(bgra[p * 4 + 2] as int, bgra[p * 4 + 1] as int, bgra[p * 4] as int)
        }),
{
    assert(h * w + 0 > 2 * row * w + 2 * col) by (nonlinear_arith)
        requires 2 * row + 1 < h, 2 * col + 1 < w;
    lemma_nv12_chroma(bgra, w, h, row, col, h, 0);
    lemma_nv12_luma(bgra, w, h, h, 0);
    let uv = row * (w / 2) * 2 + col * 2;
    assert(uv + 1 < uv_plane_len(w, h)) by (nonlinear_arith)
        requires uv == row * (w / 2) * 2 + col * 2, 2 * row + 1 < h, 2 * col + 1 < w, uv_plane_len(w, h) == (w / 2) * (h / 2) * 2;
}

/// Each pixel of a converted frame that the source holds carries its luma
/// (from its bytes 2, 1 and 0: red, green, blue) at its own index of the
/// luma plane; the frame is `nv12_len` bytes long.
pub proof fn each_pixel_carries_its_luma(bgra: Seq<u8>, w: nat, h: nat, i: int)
    requires
        0 <= i < w * h,
        i * 4 + 3 < bgra.len(),
    ensures
        nv12_of(bgra, w, h).len() == w * h + (w / 2) * (h / 2) * 2,
        nv12_of(bgra, w, h)[i] == luma(bgra[i * 4 + 2] as int, bgra[i * 4 + 1] as int, bgra[i * 4] as int),
{
    lemma_nv12_luma(bgra, w, h, h, 0);
    assert(h * w + 0 == w * h) by (nonlinear_arith);
}

proof fn lemma_shifted_div(m: int)
    requires
        m >= 0,
    ensures
        (m - 65536) / 256 == m / 256 - 256,
{
    vstd::arithmetic::div_mod::lemma_fundamental_div_mod_converse(m - 65536, 256, m / 256 - 256, m % 256);
}

/// Converts a `width` by `height` BGRA frame to NV12 (BT.601, video range):
/// a luma plane, then interleaved blue and red chroma, one pair per two by
/// two block taken from its top left pixel. Pixels past the end of `bgra`
/// are left zero.
pub fn bgra_to_nv12(bgra: &[u8], width: u32, height: u32, _pitch: u32) -> (r: Vec<u8>)
    requires
        width as nat * height as nat * 4 <= u32::MAX,
    ensures
        r@ == nv12_of(bgra@, width as nat, height as nat),
        r@.len() == nv12_len(width as nat, height as nat),
        forall|i: int| 0 <= i < width * height ==> #[trigger] r@[i] == luma_at(bgra@, i),
{
    let ghost w = width as nat;
    let ghost h = height as nat;
    assert((width / 2) * (height / 2) * 2 <= width * height) by (nonlinear_arith);
    let y_plane_size = width * height;
    let uv_plane_size = (width / 2) * (height / 2) * 2;
    let total = y_plane_size as usize + uv_plane_size as usize;
    let mut nv12: Vec<u8> = Vec::new();
    while nv12.len() < total
        invariant
            total == nv12_len(w, h),
            nv12@ == Seq::new(nv12@.len(), |i: int| 0u8),
            nv12@.len() <= total,
        decreases total - nv12.len(),
    {
        nv12.push(0u8);
    }
    assert(nv12@ == nv12_prefix(bgra@, w, h, 0, 0));
    let mut y: u32 = 0;
    while y < height
        invariant
            w == width, h == height,
            width * height * 4 <= u32::MAX,
            y_plane_size == width * height,
            uv_plane_size == uv_plane_len(w, h),
            y <= height,
            nv12@ == nv12_prefix(bgra@, w, h, y as nat, 0),
            nv12@.len() == nv12_len(w, h),
        decreases height - y,
    {
        let mut x: u32 = 0;
        while x < width
            invariant
                w == width, h == height,
                width * height * 4 <= u32::MAX,
                y_plane_size == width * height,
                uv_plane_size == uv_plane_len(w, h),
                y < height,
                x <= width,
                nv12@ == nv12_prefix(bgra@, w, h, y as nat, x as nat),
                nv12@.len() == nv12_len(w, h),
            decreases width - x,
        {
            let ghost before = nv12@;
            assert(y * width + x < width * height) by (nonlinear_arith) requires y < height, x < width;
            let p = y * width + x;
            let src_idx = (p * 4) as usize;
            if src_idx + 3 < bgra.len() {
                let b = bgra[src_idx] as u32;
                let g = bgra[src_idx + 1] as u32;
                let r = bgra[src_idx + 2] as u32;
                let y_val = (66 * r + 129 * g + 25 * b + 128) / 256 + 16;
                assert(y_val <= 255) by (nonlinear_arith)
                    requires y_val == (66 * r + 129 * g + 25 * b + 128) / 256 + 16, r <= 255, g <= 255, b <= 255;
                nv12.set(p as usize, y_val as u8);
                if y % 2 == 0 && x % 2 == 0 {
                    assert((y / 2) * (width / 2) <= width * height) by (nonlinear_arith)
                        requires y < height, x < width;
                    assert((y / 2) * (width / 2) * 2 + (x / 2) * 2 <= 2 * width * height) by (nonlinear_arith)
                        requires y < height, x < width;
                    let uv_idx = (y / 2) * (width / 2) * 2 + (x / 2) * 2;
                    if uv_idx + 1 < uv_plane_size {
                        let um = 112 * b + 128 + 65536 - 38 * r - 74 * g;
                        let vm = 112 * r + 128 + 65536 - 94 * g - 18 * b;
                        proof {
                            lemma_shifted_div(um as int);
                            lemma_shifted_div(vm as int);
                        }
                        assert(144 <= um / 256 <= 368) by (nonlinear_arith)
                            requires um == 112 * b + 128 + 65536 - 38 * r - 74 * g, r <= 255, g <= 255, b <= 255;
                        assert(144 <= vm / 256 <= 368) by (nonlinear_arith)
                            requires vm == 112 * r + 128 + 65536 - 94 * g - 18 * b, r <= 255, g <= 255, b <= 255;
                        let u_val = um / 256 - 128;
                        let v_val = vm / 256 - 128;
                        nv12.set((y_plane_size + uv_idx) as usize, u_val as u8);
                        nv12.set((y_plane_size + uv_idx + 1) as usize, v_val as u8);
                    }
                }
            }
            assert(nv12@ == nv12_step(before, bgra@, w, h, y as nat, x as nat));
            x = x + 1;
        }
        proof {
            assert(nv12_prefix(bgra@, w, h, (y + 1) as nat, 0) == nv12_prefix(bgra@, w, h, y as nat, w));
        }
        y = y + 1;
    }
    proof {
        lemma_nv12_luma(bgra@, w, h, h, 0);
    }
    nv12
}


/// Media Foundation time units (100 ns) in one second.
pub const REFTIMES_PER_SEC: i64 = 10_000_000;

/// The duration of `frames` audio frames, in 100 ns units, truncated; zero
/// for a sample rate of zero.
pub fn hns_from_frames(frames: u32, sample_rate: u32) -> (r: i64)
    ensures
        r == (if sample_rate == 0 { 0 } else { (frames as int * 10_000_000) / sample_rate as int }),
{
    if sample_rate == 0 {
        return 0;
    }
    (frames as i64 * REFTIMES_PER_SEC) / sample_rate as i64
}

/// The audio frames in `hns` 100 ns units, truncated and kept to the low 32
/// bits; zero for a sample rate of zero or a time that is not positive.
pub fn frames_from_hns(hns: i64, sample_rate: u32) -> (r: u32)
    requires
        hns as int * sample_rate as int <= i64::MAX,
    ensures
        r == (if sample_rate == 0 || hns <= 0 { 0u32 } else { ((hns as int * sample_rate as int) / 10_000_000) as u32 }),
{
    if sample_rate == 0 || hns <= 0 {
        return 0;
    }
    let product = hns * sample_rate as i64;
    (product / REFTIMES_PER_SEC) as u32
}

/// The audio frames of one silence chunk, 20 ms at the sample rate and at
/// least one.
pub open spec fn silence_chunk_frames(sample_rate: nat) -> nat {
    let f = sample_rate * 20 / 1000;
    if f < 1 { 1 } else { f }
}

/// The duration of `frames` audio frames in 100 ns units, truncated; zero
/// for a sample rate of zero.
pub open spec fn frames_hns(frames: nat, sample_rate: nat) -> int {
    if sample_rate == 0 { 0 } else { (frames * 10_000_000) as int / sample_rate as int }
}

/// The next silence write from `next` towards `target`: a whole chunk
/// while one fits, then the frames of the rest (at least one).
pub open spec fn silence_step(next: int, target: int, sample_rate: nat) -> (nat, int) {
    let chunk = silence_chunk_frames(sample_rate);
    let chunk_hns = frames_hns(chunk, sample_rate);
    if target - next >= chunk_hns {
        (chunk, chunk_hns)
    } else {
        let f = ((target - next) * sample_rate as int / 10_000_000) as nat;
        let frames: nat = if f < 1 { 1 } else { f };
        (frames, frames_hns(frames, sample_rate))
    }
}

/// The silence writes that fill the audio timeline from `next` up to
/// `target`: for each, its time, its duration and its bytes of 16-bit
/// samples for `channels` channels.
pub open spec fn silence_steps(next: int, target: int, sample_rate: nat, channels: nat) -> Seq<(int, int, nat)>
    decreases (if target > next { target - next } else { 0 }),
{
    let step = silence_step(next, target, sample_rate);
    if target <= next || step.1 < 1 {
        Seq::empty()
    } else {
        seq![(next, step.1, step.0 * channels * 2)] + silence_steps(next + step.1, target, sample_rate, channels)
    }
}

/// One write of silence into the audio stream.
#[derive(Clone, Copy, Debug, PartialEq, Eq, Structural)]
pub struct SilenceWrite {
    pub timestamp: i64,
    pub duration: i64,
    pub bytes: u64,
}

/// The writes as tuples.
pub open spec fn silence_view(ws: Seq<SilenceWrite>) -> Seq<(int, int, nat)> {
    ws.map_values(|w: SilenceWrite| (w.timestamp as int, w.duration as int, w.bytes as nat))
}

/// Whether the silence writes from `next` up to `target` come to an end:
/// none of them lasts less than one 100 ns unit. One frame lasts less than
/// that above ten million frames a second, and nothing lasts at a rate of
/// zero.
pub open spec fn silence_finishes(next: int, target: int, sample_rate: nat) -> bool
    decreases (if target > next { target - next } else { 0 }),
{
    let step = silence_step(next, target, sample_rate);
    target <= next || (step.1 >= 1 && silence_finishes(next + step.1, target, sample_rate))
}

/// Where the audio timeline stands after the silence writes from `next`
/// up to `target`: at `target`, or a little past it.
pub open spec fn silence_reach(next: int, target: int, sample_rate: nat) -> int
    decreases (if target > next { target - next } else { 0 }),
{
    let step = silence_step(next, target, sample_rate);
    if target <= next || step.1 < 1 {
        next
    } else {
        silence_reach(next + step.1, target, sample_rate)
    }
}

proof fn lemma_silence_reach_ahead(next: int, target: int, sample_rate: nat)
    ensures
        next <= silence_reach(next, target, sample_rate),
    decreases (if target > next { target - next } else { 0 }),
{
    let step = silence_step(next, target, sample_rate);
    if !(target <= next || step.1 < 1) {
        lemma_silence_reach_ahead(next + step.1, target, sample_rate);
    }
}

proof fn lemma_quotient_at_most(x: int, d: int, q: int)
    requires
        0 < d,
        0 <= q,
        x <= d * q,
    ensures
        x / d <= q,
{
    vstd::arithmetic::div_mod::lemma_div_is_ordered(x, d * q, d);
    vstd::arithmetic::mul::lemma_mul_is_commutative(d, q);
    vstd::arithmetic::div_mod::lemma_div_by_multiple(q, d);
}

proof fn lemma_quotient_at_least_one(x: int, d: int)
    requires
        0 < d <= x,
    ensures
        1 <= x / d,
{
    vstd::arithmetic::div_mod::lemma_div_is_ordered(d, x, d);
    vstd::arithmetic::div_mod::lemma_div_by_self(d);
}

#[verifier::spinoff_prover]
proof fn lemma_silence_step(next: int, target: int, sample_rate: nat)
    requires
        0 < sample_rate <= u32::MAX,
        next < target,
    ensures
        1 <= silence_chunk_frames(sample_rate) <= 85_899_345,
        0 <= frames_hns(silence_chunk_frames(sample_rate), sample_rate) <= 10_000_000,
        1 <= silence_step(next, target, sample_rate).0 <= silence_chunk_frames(sample_rate),
        0 <= silence_step(next, target, sample_rate).1,
        target - next < frames_hns(silence_chunk_frames(sample_rate), sample_rate)
            ==> (target - next) * sample_rate as int / 10_000_000 < silence_chunk_frames(sample_rate),
{
    let chunk = silence_chunk_frames(sample_rate);
    assert(1 <= chunk <= sample_rate) by (nonlinear_arith)
        requires chunk == (if sample_rate * 20 / 1000 < 1 { 1 } else { sample_rate * 20 / 1000 }), sample_rate >= 1;
    assert(chunk <= 85_899_345) by (nonlinear_arith)
        requires chunk == (if sample_rate * 20 / 1000 < 1 { 1 } else { sample_rate * 20 / 1000 }), sample_rate <= u32::MAX;
    let chunk_hns = frames_hns(chunk, sample_rate);
    assert(chunk * 10_000_000 <= sample_rate * 10_000_000) by (nonlinear_arith)
        requires chunk <= sample_rate;
    lemma_quotient_at_most((chunk * 10_000_000) as int, sample_rate as int, 10_000_000);
    if target - next < chunk_hns {
        let f = ((target - next) * sample_rate as int / 10_000_000) as nat;
        assert((target - next) * sample_rate as int / 10_000_000 < chunk) by (nonlinear_arith)
            requires
                target - next < chunk_hns,
                chunk_hns == (chunk * 10_000_000) as int / sample_rate as int,
                sample_rate > 0,
                target - next > 0;
        let frames: nat = if f < 1 { 1 } else { f };
        assert(frames * 10_000_000 >= 0) by (nonlinear_arith)
            requires frames >= 1;
        assert(frames_hns(frames, sample_rate) >= 0) by (nonlinear_arith)
            requires frames >= 1, sample_rate > 0, frames_hns(frames, sample_rate) == (frames * 10_000_000) as int / sample_rate as int;
    }
}

/// At the usual sample rates, up to ten million frames a second, the
/// silence writes always come to an end, at most one second past the
/// target.
pub proof fn silence_finishes_at_usual_rates(next: int, target: int, sample_rate: nat)
    requires
        0 < sample_rate <= 10_000_000,
    ensures
        silence_finishes(next, target, sample_rate),
        silence_reach(next, target, sample_rate) <= (if next < target { target + 10_000_000 } else { next }),
    decreases (if target > next { target - next } else { 0 }),
{
    if next < target {
        lemma_silence_step(next, target, sample_rate);
        let step = silence_step(next, target, sample_rate);
        let frames = step.0;
        assert(frames * 10_000_000 >= sample_rate) by (nonlinear_arith)
            requires frames >= 1, sample_rate <= 10_000_000;
        lemma_quotient_at_least_one((frames * 10_000_000) as int, sample_rate as int);
        assert(step.1 == frames_hns(frames, sample_rate));
        assert(frames * 10_000_000 <= sample_rate * 10_000_000) by (nonlinear_arith)
            requires frames <= silence_chunk_frames(sample_rate), silence_chunk_frames(sample_rate) <= sample_rate;
        lemma_quotient_at_most((frames * 10_000_000) as int, sample_rate as int, 10_000_000);
        silence_finishes_at_usual_rates(next + step.1, target, sample_rate);
    }
}

/// The silence writes that fill the audio timeline from `next_hns` up to
/// `target_hns`, for a stream of `sample_rate` frames of `channels` 16-bit
/// samples per second. The last write may reach a little past the target.
/// The writes must come to an end, and the gap and the point the writes
/// reach must fit in an `i64`.
#[verifier::spinoff_prover]
pub fn silence_plan(next_hns: i64, target_hns: i64, sample_rate: u32, channels: u16) -> (r: Vec<SilenceWrite>)
    requires
        next_hns < target_hns ==> target_hns as int - next_hns as int <= i64::MAX,
        silence_finishes(next_hns as int, target_hns as int, sample_rate as nat),
        silence_reach(next_hns as int, target_hns as int, sample_rate as nat) <= i64::MAX,
    ensures
        silence_view(r@) == silence_steps(next_hns as int, target_hns as int, sample_rate as nat, channels as nat),
{
    let mut out: Vec<SilenceWrite> = Vec::new();
    if target_hns <= next_hns {
        return out;
    }
    assert(sample_rate > 0) by {
        if sample_rate == 0 {
            assert(silence_step(next_hns as int, target_hns as int, 0).1 == 0);
        }
    }
    let sr = sample_rate as u64;
    let chunk_frames: u64 = if sr * 20 / 1000 < 1 { 1 } else { sr * 20 / 1000 };
    proof {
        lemma_silence_step(next_hns as int, target_hns as int, sample_rate as nat);
    }
    let chunk_hns: i64 = hns_from_frames(chunk_frames as u32, sample_rate);
    let mut next = next_hns;
    let ghost start = next_hns as int;
    while next < target_hns
        invariant
            0 < sample_rate,
            next_hns < target_hns,
            next_hns <= next,
            chunk_frames as nat == silence_chunk_frames(sample_rate as nat),
            chunk_hns as int == frames_hns(chunk_frames as nat, sample_rate as nat),
            chunk_frames <= 85_899_345,
            target_hns as int - next_hns as int <= i64::MAX,
            silence_reach(next as int, target_hns as int, sample_rate as nat)
                == silence_reach(start, target_hns as int, sample_rate as nat),
            silence_reach(start, target_hns as int, sample_rate as nat) <= i64::MAX,
            silence_finishes(next as int, target_hns as int, sample_rate as nat),
            silence_view(out@) + silence_steps(next as int, target_hns as int, sample_rate as nat, channels as nat)
                == silence_steps(start, target_hns as int, sample_rate as nat, channels as nat),
        decreases (if target_hns > next { target_hns - next } else { 0 }),
    {
        proof {
            lemma_silence_step(next as int, target_hns as int, sample_rate as nat);
        }
        let remaining = target_hns - next;
        let (frames, duration): (u64, i64) = if remaining >= chunk_hns {
            (chunk_frames, chunk_hns)
        } else {
            let f = frames_from_hns(remaining, sample_rate) as u64;
            let frames: u64 = if f < 1 { 1 } else { f };
            (frames, hns_from_frames(frames as u32, sample_rate))
        };
        assert((frames as nat, duration as int) == silence_step(next as int, target_hns as int, sample_rate as nat));
        proof {
            lemma_silence_reach_ahead(next + duration, target_hns as int, sample_rate as nat);
        }
        assert(frames * channels as u64 * 2 <= 85_899_345 * 65535 * 2) by (nonlinear_arith)
            requires frames <= 85_899_345, channels <= 65535;
        let bytes: u64 = frames * channels as u64 * 2;
        let ghost before = out@;
        out.push(SilenceWrite { timestamp: next, duration, bytes });
        assert(silence_view(out@) =~= silence_view(before).push((next as int, duration as int, bytes as nat)));
        next = next + duration;
    }
    assert(silence_steps(next as int, target_hns as int, sample_rate as nat, channels as nat) =~= Seq::empty());
    assert(silence_view(out@) =~= silence_view(out@) + Seq::<(int, int, nat)>::empty());
    out
}

/// `name` with tabs, carriage returns and line feeds replaced by spaces, so
/// that it fits on one line of the target list.
pub open spec fn sanitized(name: Seq<char>) -> Seq<char> {
    name.map_values(|c: char| if c == '\t' || c == '\r' || c == '\n' { ' ' } else { c })
}

/// A target name on one line.
pub fn sanitize_target_name(name: &str) -> (r: String)
    ensures
        r@ == sanitized(name@),
{
    let cs = chars_of(name);
    let mut out: Vec<char> = Vec::new();
    let mut i: usize = 0;
    while i < cs.len()
        invariant
            i <= cs.len(),
            out@ == sanitized(cs@.take(i as int)),
        decreases cs.len() - i,
    {
        let c = cs[i];
        out.push(if c == '\t' || c == '\r' || c == '\n' { ' ' } else { c });
        assert(sanitized(cs@.take(i + 1)) =~= sanitized(cs@.take(i as int)).push(
            if c == '\t' || c == '\r' || c == '\n' { ' ' } else { c },
        ));
        i = i + 1;
    }
    assert(cs@.take(cs.len() as int) == cs@);
    string_of(&out)
}

/// The file name of session `id`'s recording.
pub open spec fn recording_file_name_spec(id: u64) -> Seq<char> {
    "wrec-"@ + decimal(id as nat) + ".mp4"@
}

/// The file name of a session's recording, `wrec-<id>.mp4`.
pub fn recording_file_name(session_id: u64) -> (r: String)
    ensures
        r@ == recording_file_name_spec(session_id),
{
    let mut m: Vec<char> = Vec::new();
    push_str(&mut m, "wrec-");
    push_chars(&mut m, &decimal_chars(session_id));
    push_str(&mut m, ".mp4");
    assert(Seq::<char>::empty() + "wrec-"@ == "wrec-"@);
    string_of(&m)
}

/// Two sessions never share a recording file: distinct ids give distinct
/// file names.
pub proof fn recording_file_names_are_unique(a: u64, b: u64)
    requires
        a != b,
    ensures
        recording_file_name_spec(a) != recording_file_name_spec(b),
{
    if recording_file_name_spec(a) == recording_file_name_spec(b) {
        let sa = recording_file_name_spec(a);
        let sb = recording_file_name_spec(b);
        let da = decimal(a as nat);
        let db = decimal(b as nat);
        let p = "wrec-"@;
        let s = ".mp4"@;
        assert(sa.len() == sb.len());
        assert(da.len() == db.len());
        assert forall|i: int| 0 <= i < da.len() implies da[i] == db[i] by {
            assert(sa[p.len() + i] == da[i]);
            assert(sb[p.len() + i] == db[i]);
        }
        assert(da =~= db);
        crate::digits::lemma_decimal_injective(a as nat, b as nat);
    }
}

/// The id of the next session: later than the last one and no earlier than
/// the clock (in microseconds); it stays at `u64::MAX` once there.
pub open spec fn next_session_id_spec(now_micros: u64, last: u64) -> u64 {
    let bumped: u64 = if last == u64::MAX { u64::MAX } else { (last + 1) as u64 };
    if now_micros >= bumped { now_micros } else { bumped }
}

/// The id of the next session, given the clock in microseconds and the
/// last id handed out.
pub fn next_session_id_after(now_micros: u64, last: u64) -> (r: u64)
    ensures
        r == next_session_id_spec(now_micros, last),
        r >= now_micros,
        last < u64::MAX ==> r > last,
{
    let bumped = last.saturating_add(1);
    if now_micros >= bumped { now_micros } else { bumped }
}

/// The frame format the encoder takes.
#[derive(Clone, Copy, Debug, PartialEq, Eq, Structural)]
pub struct VideoMediaType {
    pub width: u32,
    pub height: u32,
    pub frame_rate_numerator: u32,
    pub frame_rate_denominator: u32,
}

/// The audio format the encoder takes.
#[derive(Clone, Copy, Debug, PartialEq, Eq, Structural)]
pub struct AudioMediaType {
    pub sample_rate: u32,
    pub channels: u16,
    pub bits_per_sample: u16,
    pub block_align: u16,
    pub avg_bytes_per_sec: u32,
    pub is_float: bool,
}

/// The Media Foundation encoder's own bookkeeping: its streams, frame size
/// and rate, whether it has been finalized, the video samples written and
/// where the audio stream has got to, in 100 ns units.
pub struct MfEncoder {
    pub video_stream_index: u32,
    pub audio_stream_index: Option<u32>,
    pub width: u32,
    pub height: u32,
    pub fps: u32,
    pub started: bool,
    pub finalized: bool,
    pub video_sample_count: u64,
    pub audio_time: i64,
}

/// A frame size or rate packed as a Media Foundation attribute: the first
/// value in the high 32 bits, the second in the low.
pub fn pack_pair(high: u32, low: u32) -> (r: u64)
    ensures
        r == high as int * 0x1_0000_0000 + low as int,
{
    let h = high as u64;
    let l = low as u64;
    assert((h << 32u64) | l == h * 0x1_0000_0000 + l) by (bit_vector)
        requires h <= 0xffff_ffff, l <= 0xffff_ffff;
    (h << 32u64) | l
}

impl MfEncoder {
    /// An encoder that has begun writing.
    pub fn new(video_stream_index: u32, audio_stream_index: Option<u32>, width: u32, height: u32, fps: u32) -> (r: MfEncoder)
        ensures
            r.video_stream_index == video_stream_index,
            r.audio_stream_index == audio_stream_index,
            r.width == width && r.height == height && r.fps == fps,
            r.started && !r.finalized,
            r.video_sample_count == 0,
            r.audio_time == 0,
    {
        MfEncoder {
            video_stream_index,
            audio_stream_index,
            width,
            height,
            fps,
            started: true,
            finalized: false,
            video_sample_count: 0,
            audio_time: 0,
        }
    }

    /// The target bitrate of the encoder.
    pub fn target_bitrate(width: u32, height: u32, fps: u32, quality: Quality, codec: Codec) -> (r: u32)
        requires
            width as nat * height as nat * fps as nat <= u64::MAX,
        ensures
            r as nat == encoder_bitrate_spec(width as nat, height as nat, fps as nat, quality, codec),
    {
        let bpp: u128 = match quality {
            Quality::Efficient => 45,
            Quality::Balanced => 70,
            Quality::High => 105,
        };
        let scale: u128 = match codec {
            Codec::Hevc => 100,
            Codec::H264 => 135,
        };
        let w = width as u128;
        let h = height as u128;
        let f = fps as u128;
        assert(w * h <= 18446744073709551615u128 * 18446744073709551615u128) by (nonlinear_arith)
            requires w <= 4294967295u128, h <= 4294967295u128;
        let wh = w * h;
        assert(wh * f <= 18446744073709551615) by (nonlinear_arith)
            requires wh == w * h, w * h * f <= 18446744073709551615;
        let p = wh * f;
        assert(p * bpp * scale <= 18446744073709551615 * 105 * 135) by (nonlinear_arith)
            requires p <= 18446744073709551615, bpp <= 105, scale <= 135;
        let value = (p * bpp * scale) / 100_000;
        if value < 1_500_000 {
            1_500_000
        } else if value > 4294967295 {
            4294967295
        } else {
            value as u32
        }
    }

    /// The time and duration of a video sample taken `elapsed_secs` seconds
    /// and `elapsed_nanos` nanoseconds after the first, in 100 ns units.
    pub fn video_timing(&self, elapsed_secs: u64, elapsed_nanos: u32) -> (r: (i64, i64))
        requires
            self.fps > 0,
            elapsed_secs as int * 10_000_000 + elapsed_nanos as int / 100 <= i64::MAX,
        ensures
            r.0 == elapsed_secs as int * 10_000_000 + elapsed_nanos as int / 100,
            r.1 == 10_000_000int / self.fps as int,
    {
        let time = (elapsed_secs as i64) * 10_000_000 + (elapsed_nanos as i64) / 100;
        let duration = 10_000_000i64 / self.fps as i64;
        (time, duration)
    }

    /// A video sample has been written.
    pub fn video_written(&mut self)
        requires
            old(self).video_sample_count < u64::MAX,
        ensures
            final(self).video_sample_count == old(self).video_sample_count + 1,
            final(self).audio_time == old(self).audio_time,
            final(self).finalized == old(self).finalized,
    {
        self.video_sample_count = self.video_sample_count + 1;
    }

    /// An audio sample of `duration` has been written at the current audio
    /// time; the next one follows it.
    pub fn audio_written(&mut self, duration: i64)
        requires
            i64::MIN <= old(self).audio_time + duration <= i64::MAX,
        ensures
            final(self).audio_time == old(self).audio_time + duration,
            final(self).video_sample_count == old(self).video_sample_count,
            final(self).finalized == old(self).finalized,
    {
        self.audio_time = self.audio_time + duration;
    }

    /// Marks the encoder finalized; says whether it still had to be.
    pub fn finalize(&mut self) -> (r: bool)
        ensures
            r == !old(self).finalized,
            final(self).finalized,
    {
        if self.finalized {
            return false;
        }
        self.finalized = true;
        true
    }
}

/// The duration of `data_len` bytes of audio, in 100 ns units, truncated;
/// zero where a frame has no bytes or the rate is zero.
pub fn audio_sample_duration(data_len: usize, bits_per_sample: u16, channels: u16, sample_rate: u32) -> (r: i64)
    requires
        data_len as int * 10_000_000 <= i64::MAX,
    ensures
        ({
            let frame_size = (bits_per_sample as int / 8) * channels as int;
            r == if frame_size > 0 && sample_rate > 0 {
                (data_len as int * 10_000_000) / (frame_size * sample_rate as int)
            } else {
                0
            }
        }),
{
    let bytes = bits_per_sample as u64 / 8;
    assert(bytes * channels as u64 <= 8191 * 65535) by (nonlinear_arith)
        requires bytes <= 8191, channels <= 65535;
    let frame_size = bytes * channels as u64;
    if frame_size > 0 && sample_rate > 0 {
        assert(frame_size * sample_rate as u64 <= 0xffff_ffff_ffff_ffff) by (nonlinear_arith)
            requires frame_size <= 8191 * 65535, sample_rate <= 0xffff_ffff;
        assert(frame_size * sample_rate as u64 > 0) by (nonlinear_arith)
            requires frame_size > 0, sample_rate > 0;
        let denominator = frame_size * sample_rate as u64;
        let numerator = data_len as u64 * 10_000_000;
        (numerator / denominator) as i64
    } else {
        0
    }
}

/// The pointer as the duplication last reported it, with the frame
/// position of its hot spot.
pub struct CursorInfo {
    pub visible: bool,
    pub x: i32,
    pub y: i32,
    pub bitmap: Vec<u8>,
    pub bitmap_width: u32,
    pub bitmap_height: u32,
    pub bitmap_pitch: u32,
    pub hotspot_x: i32,
    pub hotspot_y: i32,
    pub cursor_type: u32,
}

/// A captured frame: BGRA rows `pitch` bytes apart, and the pointer.
pub struct FrameData {
    pub data: Vec<u8>,
    pub width: u32,
    pub height: u32,
    pub pitch: u32,
    pub cursor: Option<CursorInfo>,
}

/// A pointer shape that the duplication reported with a frame.
pub struct CursorShape {
    pub bitmap: Vec<u8>,
    pub width: u32,
    pub height: u32,
    pub pitch: u32,
    pub hotspot_x: i32,
    pub hotspot_y: i32,
    pub cursor_type: u32,
}

/// The desktop duplication's own bookkeeping: the frame size and the
/// last pointer shape, which the duplication reports only when it changes.
pub struct DxgiCapture {
    pub width: u32,
    pub height: u32,
    pub cursor_bitmap: Vec<u8>,
    pub cursor_width: u32,
    pub cursor_height: u32,
    pub cursor_pitch: u32,
    pub cursor_hotspot_x: i32,
    pub cursor_hotspot_y: i32,
    pub cursor_type: u32,
}

fn copy_bytes(v: &Vec<u8>) -> (r: Vec<u8>)
    ensures
        r@ == v@,
{
    let mut out: Vec<u8> = Vec::new();
    let mut i: usize = 0;
    while i < v.len()
        invariant
            i <= v.len(),
            out@ == v@.take(i as int),
        decreases v.len() - i,
    {
        out.push(v[i]);
        assert(v@.take(i + 1) =~= v@.take(i as int).push(v@[i as int]));
        i = i + 1;
    }
    assert(v@.take(v@.len() as int) =~= v@);
    out
}

impl DxgiCapture {
    /// A duplication of a `width` by `height` output, with no pointer shape
    /// yet.
    pub fn new(width: u32, height: u32) -> (r: DxgiCapture)
        ensures
            r.width == width && r.height == height,
            r.cursor_bitmap@.len() == 0,
            r.cursor_width == 0 && r.cursor_height == 0 && r.cursor_pitch == 0,
            r.cursor_hotspot_x == 0 && r.cursor_hotspot_y == 0 && r.cursor_type == 0,
    {
        DxgiCapture {
            width,
            height,
            cursor_bitmap: Vec::new(),
            cursor_width: 0,
            cursor_height: 0,
            cursor_pitch: 0,
            cursor_hotspot_x: 0,
            cursor_hotspot_y: 0,
            cursor_type: 0,
        }
    }

    /// The frame width.
    pub fn width(&self) -> (r: u32)
        ensures
            r == self.width,
    {
        self.width
    }

    /// The frame height.
    pub fn height(&self) -> (r: u32)
        ensures
            r == self.height,
    {
        self.height
    }

    /// The frame format handed to the encoder: the frame size at 30 frames
    /// a second.
    pub fn media_type(&self) -> (r: VideoMediaType)
        ensures
            r == (VideoMediaType { width: self.width, height: self.height, frame_rate_numerator: 30, frame_rate_denominator: 1 }),
    {
        VideoMediaType { width: self.width, height: self.height, frame_rate_numerator: 30, frame_rate_denominator: 1 }
    }

    /// A frame is handed back to the duplication once it has been copied;
    /// nothing is left to do here.
    pub fn release_frame(&self) {
    }

    /// Whether an acquisition error only means that no new frame came.
    pub fn is_timeout(&self, message: &String) -> (r: bool)
        ensures
            r == (message@ == "timeout"@),
    {
        crate::text::is_lit(&chars_of(message.as_str()), "timeout")
    }

    /// The output changed size: later frames have the new size.
    pub fn resize(&mut self, width: u32, height: u32)
        ensures
            final(self).width == width && final(self).height == height,
            final(self).cursor_bitmap@ == old(self).cursor_bitmap@,
    {
        self.width = width;
        self.height = height;
    }

    /// The pointer for a frame: none when it is hidden; otherwise at
    /// (`x`, `y`) with the shape reported now, or with the last one when
    /// none is reported.
    pub fn update_cursor(&mut self, visible: bool, x: i32, y: i32, shape: Option<CursorShape>) -> (r: Option<CursorInfo>)
        ensures
            !visible ==> r is None && final(self).cursor_bitmap@ == old(self).cursor_bitmap@,
            visible ==> (r matches Some(c) && c.visible && c.x == x && c.y == y
                && c.bitmap@ == final(self).cursor_bitmap@ && c.bitmap_width == final(self).cursor_width
                && c.bitmap_height == final(self).cursor_height && c.bitmap_pitch == final(self).cursor_pitch
                && c.hotspot_x == final(self).cursor_hotspot_x && c.hotspot_y == final(self).cursor_hotspot_y
                && c.cursor_type == final(self).cursor_type),
            visible ==> match shape {
                Some(sh) => final(self).cursor_bitmap@ == sh.bitmap@ && final(self).cursor_width == sh.width
                    && final(self).cursor_height == sh.height && final(self).cursor_pitch == sh.pitch
                    && final(self).cursor_hotspot_x == sh.hotspot_x && final(self).cursor_hotspot_y == sh.hotspot_y
                    && final(self).cursor_type == sh.cursor_type,
                None => final(self).cursor_bitmap@ == old(self).cursor_bitmap@ && final(self).cursor_width == old(self).cursor_width
                    && final(self).cursor_height == old(self).cursor_height && final(self).cursor_pitch == old(self).cursor_pitch
                    && final(self).cursor_hotspot_x == old(self).cursor_hotspot_x
                    && final(self).cursor_hotspot_y == old(self).cursor_hotspot_y
                    && final(self).cursor_type == old(self).cursor_type,
            },
            final(self).width == old(self).width && final(self).height == old(self).height,
    {
        if !visible {
            return None;
        }
        if let Some(sh) = shape {
            self.cursor_bitmap = sh.bitmap;
            self.cursor_width = sh.width;
            self.cursor_height = sh.height;
            self.cursor_pitch = sh.pitch;
            self.cursor_hotspot_x = sh.hotspot_x;
            self.cursor_hotspot_y = sh.hotspot_y;
            self.cursor_type = sh.cursor_type;
        }
        Some(CursorInfo {
            visible: true,
            x,
            y,
            bitmap: copy_bytes(&self.cursor_bitmap),
            bitmap_width: self.cursor_width,
            bitmap_height: self.cursor_height,
            bitmap_pitch: self.cursor_pitch,
            hotspot_x: self.cursor_hotspot_x,
            hotspot_y: self.cursor_hotspot_y,
            cursor_type: self.cursor_type,
        })
    }
}

/// A frame's rows from the bottom up, each `w * 4` bytes long, as the
/// encoder takes them.
pub open spec fn bottom_up_spec(data: Seq<u8>, w: nat, h: nat, pitch: nat) -> Seq<u8> {
    Seq::new(h * (w * 4), |i: int| data[(h - 1 - i / (w * 4 as int)) * pitch + i % (w * 4 as int)])
}

proof fn lemma_row_index(r: int, c: int, w4: int)
    requires
        0 <= r,
        0 <= c < w4,
    ensures
        (r * w4 + c) / w4 == r,
        (r * w4 + c) % w4 == c,
{
    vstd::arithmetic::div_mod::lemma_fundamental_div_mod_converse(r * w4 + c, w4, r, c);
}

/// The frame's rows from the bottom up, without the padding after each row.
pub fn bottom_up_rows(frame: &FrameData) -> (r: Vec<u8>)
    requires
        frame.width as nat * 4 <= u32::MAX,
        frame.height > 0 ==> (frame.height - 1) as nat * frame.pitch as nat + frame.width as nat * 4 <= frame.data@.len(),
    ensures
        r@ == bottom_up_spec(frame.data@, frame.width as nat, frame.height as nat, frame.pitch as nat),
{
    let ghost want = bottom_up_spec(frame.data@, frame.width as nat, frame.height as nat, frame.pitch as nat);
    let row_bytes = (frame.width * 4) as usize;
    let h = frame.height as usize;
    let len = frame.data.len();
    let mut out: Vec<u8> = Vec::new();
    let mut r: usize = 0;
    while r < h
        invariant
            row_bytes == frame.width * 4,
            h == frame.height,
            len == frame.data@.len(),
            frame.height > 0 ==> (frame.height - 1) as nat * frame.pitch as nat + row_bytes <= len,
            r <= h,
            want == bottom_up_spec(frame.data@, frame.width as nat, frame.height as nat, frame.pitch as nat),
            out@.len() == r * row_bytes,
            forall|i: int| 0 <= i < out@.len() ==> out@[i] == want[i],
        decreases h - r,
    {
        let y = h - 1 - r;
        assert(y * frame.pitch as nat + row_bytes <= len) by (nonlinear_arith)
            requires y <= frame.height - 1, (frame.height - 1) as nat * frame.pitch as nat + row_bytes <= len;
        let off = y * frame.pitch as usize;
        let mut c: usize = 0;
        while c < row_bytes
            invariant
                row_bytes == frame.width * 4,
                h == frame.height,
                r < h,
                y == h - 1 - r,
                off == y * frame.pitch,
                off + row_bytes <= len,
                len == frame.data@.len(),
                want == bottom_up_spec(frame.data@, frame.width as nat, frame.height as nat, frame.pitch as nat),
                c <= row_bytes,
                out@.len() == r * row_bytes + c,
                forall|i: int| 0 <= i < out@.len() ==> out@[i] == want[i],
            decreases row_bytes - c,
        {
            proof {
                lemma_row_index(r as int, c as int, row_bytes as int);
                assert(r * row_bytes + c < h * row_bytes) by (nonlinear_arith)
                    requires r < h, c < row_bytes;
            }
            out.push(frame.data[off + c]);
            c = c + 1;
        }
        assert((r + 1) * row_bytes == r * row_bytes + row_bytes) by (nonlinear_arith);
        r = r + 1;
    }
    assert(out@.len() == want.len()) by (nonlinear_arith)
        requires out@.len() == h * row_bytes, want.len() == h * row_bytes;
    assert(out@ =~= want);
    out
}

} // verus!
