//! The degradation pipeline: one raw image in, one (truth, degraded) pair of
//! 224 x 224 patches out.
//!
//! The truth patch is the unmodified center crop. The degraded patch runs
//! through hue rotation, per-channel brightness scaling, desaturation toward
//! the pixel's own luma average, contrast adjustment around 128, and an
//! isotropic blur. Factors are fixed-point per-mille values: 1000 stands for
//! 1.0, so a brightness of 1000, a desaturation of 0, a contrast of 1000, a
//! hue angle of 0 and a blur sigma of 0 leave the crop untouched.

use crate::img::{copy_bytes, RgbaBuf};
use vstd::prelude::*;

verus! {

/// The knobs of one degradation run, per-mille fixed point where a factor is
/// meant.
pub struct DegradeParams {
    pub hue_angle: i32,
    pub brightness_pm: u32,
    pub desat_pm: u32,
    pub contrast_pm: u32,
    pub blur_sigma: u16,
}

impl DegradeParams {
    pub open spec fn wf(&self) -> bool {
        &&& self.brightness_pm <= 4000
        &&& self.desat_pm <= 1000
        &&& self.contrast_pm <= 1000
    }

    /// The neutral setting: every stage is the identity.
    pub fn baseline() -> (p: DegradeParams)
        ensures
            p.wf(),
            p.hue_angle == 0,
            p.brightness_pm == 1000,
            p.desat_pm == 0,
            p.contrast_pm == 1000,
            p.blur_sigma == 0,
    {
        DegradeParams {
            hue_angle: 0,
            brightness_pm: 1000,
            desat_pm: 0,
            contrast_pm: 1000,
            blur_sigma: 0,
        }
    }
}

/// What the hue-rotation of the outside image library returns on a raw
/// row-major RGBA buffer; a function of the buffer, its dimensions and the
/// angle alone.
pub uninterp spec fn hue_rotated(pixels: Seq<u8>, width: int, height: int, angle: i32) -> Seq<u8>;

/// What the Gaussian blur of the outside image library returns on a raw
/// row-major RGBA buffer; a function of the buffer, its dimensions and the
/// sigma alone.
pub uninterp spec fn blurred(pixels: Seq<u8>, width: int, height: int, sigma: u16) -> Seq<u8>;

/// Relies on image::imageops::huerotate: the result has the same dimensions
/// as the input, and depends only on the input pixels and the angle.
#[verifier::external_body]
fn huerotate_raw(width: u32, height: u32, pixels: Vec<u8>, angle: i32) -> (r: Vec<u8>)
    requires
        pixels@.len() == 4 * (width as int) * (height as int),
    ensures
        r@ == hue_rotated(pixels@, width as int, height as int, angle),
        r@.len() == pixels@.len(),
{
    let img: image::RgbaImage = image::ImageBuffer::from_raw(width, height, pixels).unwrap();
    image::imageops::huerotate(&img, angle).into_raw()
}

/// Relies on image::imageops::blur: the result has the same dimensions as
/// the input, and depends only on the input pixels and the sigma. A sigma of
/// zero is excluded because the library treats it as 1.0.
#[verifier::external_body]
fn blur_raw(width: u32, height: u32, pixels: Vec<u8>, sigma: u16) -> (r: Vec<u8>)
    requires
        pixels@.len() == 4 * (width as int) * (height as int),
        sigma >= 1,
    ensures
        r@ == blurred(pixels@, width as int, height as int, sigma),
        r@.len() == pixels@.len(),
{
    let img: image::RgbaImage = image::ImageBuffer::from_raw(width, height, pixels).unwrap();
    image::imageops::blur(&img, sigma.into()).into_raw()
}

/// Relies on rand::Rng::gen_range on the thread generator: a value drawn
/// from the half-open range. Nothing more is promised of the draw.
#[verifier::external_body]
fn draw_in_range(lo: i64, hi: i64) -> (r: i64)
    requires
        lo < hi,
    ensures
        lo <= r < hi,
{
    rand::Rng::gen_range(&mut rand::thread_rng(), lo..hi)
}

/// Draw the stochastic knobs the generator uses: a hue angle uniform in
/// [-50, 50) degrees and a brightness factor uniform in [0.5, 2.0), with the
/// fixed desaturation blend 0.5, contrast factor 0.8 and blur sigma 1.
pub fn sample_params() -> (p: DegradeParams)
    ensures
        p.wf(),
        -50 <= p.hue_angle < 50,
        500 <= p.brightness_pm < 2000,
        p.desat_pm == 500,
        p.contrast_pm == 800,
        p.blur_sigma == 1,
{
    let hue = draw_in_range(-50, 50);
    let bright = draw_in_range(500, 2000);
    DegradeParams {
        hue_angle: hue as i32,
        brightness_pm: bright as u32,
        desat_pm: 500,
        contrast_pm: 800,
        blur_sigma: 1,
    }
}

/// Clamp to the top of the channel range.
pub open spec fn clamp255(v: int) -> int {
    if v > 255 {
        255
    } else {
        v
    }
}

/// Brightness: scale by the per-mille factor and clamp.
pub open spec fn bright_channel(v: int, f: int) -> int {
    clamp255((v * f) / 1000)
}

/// The pixel's own luma average.
pub open spec fn luma_avg(r: int, g: int, b: int) -> int {
    (r + g + b) / 3
}

/// Desaturation: blend the channel toward the luma average by the per-mille
/// amount `d`.
pub open spec fn desat_channel(v: int, avg: int, d: int) -> int {
    (v * (1000 - d) + avg * d) / 1000
}

/// Contrast around the midpoint 128 with the per-mille factor `f`.
pub open spec fn contrast_channel(v: int, f: int) -> int {
    (v * f + 128 * (1000 - f)) / 1000
}

/// Byte `i` of the pointwise stages (brightness, desaturation, contrast):
/// alpha passes through, a color channel runs the three stages with the luma
/// average taken over its own brightened pixel.
pub open spec fn adjusted_byte(p: Seq<u8>, i: int, prm: DegradeParams) -> int {
    if i % 4 == 3 {
        p[i] as int
    } else {
        let base = 4 * (i / 4);
        let f = prm.brightness_pm as int;
        let r1 = bright_channel(p[base] as int, f);
        let g1 = bright_channel(p[base + 1] as int, f);
        let b1 = bright_channel(p[base + 2] as int, f);
        let avg = luma_avg(r1, g1, b1);
        let v1 = bright_channel(p[i] as int, f);
        let v2 = desat_channel(v1, avg, prm.desat_pm as int);
        contrast_channel(v2, prm.contrast_pm as int)
    }
}

/// The degraded counterpart of a 224 x 224 crop: hue rotation, then the
/// pointwise stages, then the blur; the hue and blur stages drop out at
/// their neutral settings.
pub open spec fn degraded_pixels(p: Seq<u8>, prm: DegradeParams) -> Seq<u8> {
    let hued = if prm.hue_angle == 0 {
        p
    } else {
        hue_rotated(p, 224, 224, prm.hue_angle)
    };
    let adjusted = Seq::new(hued.len(), |i: int| adjusted_byte(hued, i, prm) as u8);
    if prm.blur_sigma == 0 {
        adjusted
    } else {
        blurred(adjusted, 224, 224, prm.blur_sigma)
    }
}

fn bright_exec(v: u8, f: u32) -> (r: u8)
    requires
        f <= 4000,
    ensures
        r as int == bright_channel(v as int, f as int),
{
    proof {
        assert((v as int) * (f as int) <= 255 * 4000) by (nonlinear_arith)
            requires
                0 <= v as int <= 255,
                0 <= f as int <= 4000,
        ;
    }
    let scaled: u32 = (v as u32) * f / 1000;
    if scaled > 255 {
        255
    } else {
        scaled as u8
    }
}

fn desat_exec(v: u8, avg: u32, d: u32) -> (r: u8)
    requires
        d <= 1000,
        avg <= 255,
    ensures
        r as int == desat_channel(v as int, avg as int, d as int),
{
    proof {
        assert((v as int) * (1000 - d as int) + (avg as int) * (d as int) <= 255000)
            by (nonlinear_arith)
            requires
                0 <= v as int <= 255,
                0 <= avg as int <= 255,
                0 <= d as int <= 1000,
        ;
    }
    let num: u32 = (v as u32) * (1000 - d) + avg * d;
    (num / 1000) as u8
}

fn contrast_exec(v: u8, f: u32) -> (r: u8)
    requires
        f <= 1000,
    ensures
        r as int == contrast_channel(v as int, f as int),
{
    proof {
        assert((v as int) * (f as int) + 128 * (1000 - f as int) <= 255000) by (nonlinear_arith)
            requires
                0 <= v as int <= 255,
                0 <= f as int <= 1000,
        ;
    }
    let num: u32 = (v as u32) * f + 128 * (1000 - f);
    (num / 1000) as u8
}

/// Run the pointwise stages over a whole RGBA buffer.
fn adjust_bytes(p: &Vec<u8>, prm: &DegradeParams) -> (out: Vec<u8>)
    requires
        prm.wf(),
        p@.len() % 4 == 0,
    ensures
        out@.len() == p@.len(),
        forall|i: int|
            0 <= i < p@.len() ==> (#[trigger] out@[i]) as int == adjusted_byte(p@, i, *prm),
{
    let n = p.len();
    let count = n / 4;
    let mut out: Vec<u8> = Vec::new();
    let mut px: usize = 0;
    while px < count
        invariant
            px <= count,
            n == p@.len(),
            count == p@.len() / 4,
            p@.len() % 4 == 0,
            prm.wf(),
            out@.len() == 4 * px,
            forall|i: int|
                0 <= i < 4 * px ==> (#[trigger] out@[i]) as int == adjusted_byte(p@, i, *prm),
        decreases count - px,
    {
        let base = 4 * px;
        let r = p[base];
        let g = p[base + 1];
        let b = p[base + 2];
        let a = p[base + 3];
        let f = prm.brightness_pm;
        let r1 = bright_exec(r, f);
        let g1 = bright_exec(g, f);
        let b1 = bright_exec(b, f);
        let avg: u32 = ((r1 as u32) + (g1 as u32) + (b1 as u32)) / 3;
        let r2 = desat_exec(r1, avg, prm.desat_pm);
        let g2 = desat_exec(g1, avg, prm.desat_pm);
        let b2 = desat_exec(b1, avg, prm.desat_pm);
        let r3 = contrast_exec(r2, prm.contrast_pm);
        let g3 = contrast_exec(g2, prm.contrast_pm);
        let b3 = contrast_exec(b2, prm.contrast_pm);
        out.push(r3);
        out.push(g3);
        out.push(b3);
        out.push(a);
        proof {
            assert forall|i: int| 0 <= i < 4 * (px + 1) implies (#[trigger] out@[i]) as int
                == adjusted_byte(p@, i, *prm) by {
                if i >= 4 * px {
                    assert(i / 4 == px as int);
                    assert(4 * (i / 4) == 4 * (px as int));
                }
            }
        }
        px = px + 1;
    }
    out
}

/// Cut the 224 x 224 patch around the image center.
fn crop_224(img: &RgbaBuf) -> (r: RgbaBuf)
    requires
        img.wf(),
        img.width >= 448,
        img.height >= 448,
    ensures
        r.wf(),
        r.width == 224,
        r.height == 224,
        forall|x: int, y: int, c: int|
            0 <= x < 224 && 0 <= y < 224 && 0 <= c < 4 ==> r.chan(x, y, c) == img.chan(
                img.width as int / 2 - 112 + x,
                img.height as int / 2 - 112 + y,
                c,
            ),
{
    let x0 = img.width / 2 - 112;
    let y0 = img.height / 2 - 112;
    let mut pixels: Vec<u8> = Vec::new();
    let mut idx: usize = 0;
    while idx < 200704
        invariant
            idx <= 200704,
            pixels@.len() == idx,
            img.wf(),
            img.width >= 448,
            img.height >= 448,
            x0 == img.width / 2 - 112,
            y0 == img.height / 2 - 112,
            forall|i: int|
                0 <= i < idx ==> (#[trigger] pixels@[i]) == img.chan(
                    x0 + (i / 4) % 224,
                    y0 + i / 896,
                    i % 4,
                ),
        decreases 200704 - idx,
    {
        let x = (idx / 4) % 224;
        let y = idx / 896;
        let c = idx % 4;
        let v = img.get(x0 + x, y0 + y, c);
        pixels.push(v);
        idx = idx + 1;
    }
    let r = RgbaBuf { width: 224, height: 224, pixels };
    proof {
        assert forall|x: int, y: int, c: int|
            0 <= x < 224 && 0 <= y < 224 && 0 <= c < 4 implies r.chan(x, y, c) == img.chan(
            img.width as int / 2 - 112 + x,
            img.height as int / 2 - 112 + y,
            c,
        ) by {
            let i = 4 * (y * 224 + x) + c;
            assert(i / 896 == y);
            assert((i / 4) % 224 == x);
            assert(i % 4 == c);
        }
    }
    r
}

/// Turn one raw image into a training pair. An image with either dimension
/// under 448 is rejected with no output; otherwise the truth patch is the
/// unmodified 224 x 224 center crop and the degraded patch is the crop run
/// through the degradation stages.
pub fn transform(img: &RgbaBuf, prm: &DegradeParams) -> (out: Option<(RgbaBuf, RgbaBuf)>)
    requires
        img.wf(),
        prm.wf(),
    ensures
        (out is Some) <==> (img.width >= 448 && img.height >= 448),
        out matches Some(pair) ==> {
            &&& pair.0.wf()
            &&& pair.0.width == 224
            &&& pair.0.height == 224
            &&& pair.1.wf()
            &&& pair.1.width == 224
            &&& pair.1.height == 224
            &&& forall|x: int, y: int, c: int|
                0 <= x < 224 && 0 <= y < 224 && 0 <= c < 4 ==> pair.0.chan(x, y, c) == img.chan(
                    img.width as int / 2 - 112 + x,
                    img.height as int / 2 - 112 + y,
                    c,
                )
            &&& pair.1.pixels@ == degraded_pixels(pair.0.pixels@, *prm)
        },
{
    if img.width < 448 || img.height < 448 {
        return None;
    }
    let truth = crop_224(img);
    let base = copy_bytes(&truth.pixels);
    let hued: Vec<u8> = if prm.hue_angle != 0 {
        huerotate_raw(224, 224, base, prm.hue_angle)
    } else {
        base
    };
    let adjusted = adjust_bytes(&hued, prm);
    proof {
        let hued_spec = if prm.hue_angle == 0 {
            truth.pixels@
        } else {
            hue_rotated(truth.pixels@, 224, 224, prm.hue_angle)
        };
        assert(adjusted@ =~= Seq::new(
            hued_spec.len(),
            |i: int| adjusted_byte(hued_spec, i, *prm) as u8,
        ));
    }
    let final_px: Vec<u8> = if prm.blur_sigma >= 1 {
        blur_raw(224, 224, adjusted, prm.blur_sigma)
    } else {
        adjusted
    };
    let degraded = RgbaBuf { width: 224, height: 224, pixels: final_px };
    Some((truth, degraded))
}

/// At the neutral setting (hue angle 0, brightness 1.0, desaturation 0,
/// contrast 1.0, blur sigma 0) the degradation is the identity: the degraded
/// patch equals the truth patch byte for byte.
pub proof fn lemma_neutral_degrade_identity(p: Seq<u8>, prm: DegradeParams)
    requires
        p.len() % 4 == 0,
        prm.hue_angle == 0,
        prm.brightness_pm == 1000,
        prm.desat_pm == 0,
        prm.contrast_pm == 1000,
        prm.blur_sigma == 0,
    ensures
        degraded_pixels(p, prm) == p,
{
    assert forall|i: int| 0 <= i < p.len() implies adjusted_byte(p, i, prm) == p[i] as int by {
        if i % 4 != 3 {
            let base = 4 * (i / 4);
            assert(0 <= base && base + 2 < p.len());
            let v = p[i] as int;
            assert(bright_channel(v, 1000) == v);
            let r1 = bright_channel(p[base] as int, 1000);
            let g1 = bright_channel(p[base + 1] as int, 1000);
            let b1 = bright_channel(p[base + 2] as int, 1000);
            let avg = luma_avg(r1, g1, b1);
            assert(desat_channel(v, avg, 0) == v);
            assert(contrast_channel(v, 1000) == v);
        }
    }
    assert(degraded_pixels(p, prm) =~= p);
}

} // verus!
