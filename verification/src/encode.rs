//! Perceptual-color encoding: an RGB image becomes three planes of CIELAB
//! components.
//!
//! Planes are channel-major and indexed `[x][y]` inside a plane. Stored
//! values are the integer parts of the L, a and b components; consumers read
//! them as fixed-point numerators over the denominator 128, which puts the
//! normalized planes approximately in [-1, 1] without clamping — extremes
//! may mildly exceed that range by design.

use crate::img::RgbBuf;
use vstd::arithmetic::div_mod::lemma_fundamental_div_mod_converse;
use vstd::prelude::*;

verus! {

/// What the outside CIELAB conversion returns for one sRGB pixel, truncated
/// toward zero to integers; a function of the three channel values alone.
pub uninterp spec fn lab_of_rgb(r: u8, g: u8, b: u8) -> (int, int, int);

/// What the outside CIELAB-to-sRGB conversion returns for one integer Lab
/// triple; a function of the three components alone.
pub uninterp spec fn rgb_of_lab(l: i16, a: i16, b: i16) -> (int, int, int);

/// Relies on lab::Lab::from_rgb: the CIELAB components of an sRGB triple,
/// depending on the three channel values alone; the components are cast
/// toward zero to integers.
#[verifier::external_body]
fn lab_from_rgb(r: u8, g: u8, b: u8) -> (out: (i16, i16, i16))
    ensures
        (out.0 as int, out.1 as int, out.2 as int) == lab_of_rgb(r, g, b),
{
    let lab = lab::Lab::from_rgb(&[r, g, b]);
    (lab.l as i16, lab.a as i16, lab.b as i16)
}

/// Relies on lab::Lab::to_rgb: the sRGB triple of a CIELAB color, depending
/// on the three components alone.
#[verifier::external_body]
fn lab_to_rgb(l: i16, a: i16, b: i16) -> (out: (u8, u8, u8))
    ensures
        (out.0 as int, out.1 as int, out.2 as int) == rgb_of_lab(l, a, b),
{
    let lab = lab::Lab { l: l.into(), a: a.into(), b: b.into() };
    let rgb = lab.to_rgb();
    (rgb[0], rgb[1], rgb[2])
}

/// Map an integer Lab triple back to the sRGB pixel it most closely stands
/// for: the inverse direction of the encoder, used to check round-trip
/// fidelity.
pub fn decode_pixel(l: i16, a: i16, b: i16) -> (out: (u8, u8, u8))
    ensures
        (out.0 as int, out.1 as int, out.2 as int) == rgb_of_lab(l, a, b),
{
    lab_to_rgb(l, a, b)
}

/// Component `c` (0 = L, 1 = a, 2 = b) of the encoded pixel at `(x, y)`.
pub open spec fn encoded_value(img: RgbBuf, c: int, x: int, y: int) -> int {
    let t = lab_of_rgb(img.chan(x, y, 0), img.chan(x, y, 1), img.chan(x, y, 2));
    if c == 0 {
        t.0
    } else if c == 1 {
        t.1
    } else {
        t.2
    }
}

/// The full encoding of a 224 x 224 image as one flat channel-major buffer:
/// plane `c`, column `x`, row `y` sit at `c * 50176 + x * 224 + y`.
pub open spec fn encoded_seq_224(img: RgbBuf) -> Seq<i16> {
    Seq::new(
        150528,
        |k: int| encoded_value(img, k / 50176, (k % 50176) / 224, (k % 50176) % 224) as i16,
    )
}

/// Three channel-major planes of Lab components for one image.
pub struct EncodedPlanes {
    pub width: usize,
    pub height: usize,
    pub data: Vec<i16>,
}

impl EncodedPlanes {
    pub open spec fn wf(&self) -> bool {
        self.data@.len() == 3 * (self.width as int) * (self.height as int)
    }

    /// Component `c` of the encoded pixel at `(x, y)`: channel-major layout,
    /// `[x][y]` inside a plane.
    pub open spec fn at(&self, c: int, x: int, y: int) -> i16 {
        self.data@[c * ((self.width as int) * (self.height as int)) + x * (self.height as int)
            + y]
    }
}

/// Encode every pixel of an RGB image into the three Lab planes.
pub fn encode_image(img: &RgbBuf) -> (e: EncodedPlanes)
    requires
        img.wf(),
    ensures
        e.wf(),
        e.width == img.width,
        e.height == img.height,
        forall|c: int, x: int, y: int|
            0 <= c < 3 && 0 <= x < img.width && 0 <= y < img.height ==> (#[trigger] e.at(
                c,
                x,
                y,
            )) as int == encoded_value(*img, c, x, y),
        img.width == 224 && img.height == 224 ==> e.data@ == encoded_seq_224(*img),
{
    let w = img.width;
    let h = img.height;
    let mut lp: Vec<i16> = Vec::new();
    let mut ap: Vec<i16> = Vec::new();
    let mut bp: Vec<i16> = Vec::new();
    let mut x: usize = 0;
    while x < w
        invariant
            x <= w,
            w == img.width,
            h == img.height,
            img.wf(),
            lp@.len() == x * (h as int),
            ap@.len() == lp@.len(),
            bp@.len() == lp@.len(),
            forall|k: int|
                0 <= k < lp@.len() ==> (#[trigger] lp@[k]) as int == encoded_value(
                    *img,
                    0,
                    k / (h as int),
                    k % (h as int),
                ),
            forall|k: int|
                0 <= k < lp@.len() ==> (#[trigger] ap@[k]) as int == encoded_value(
                    *img,
                    1,
                    k / (h as int),
                    k % (h as int),
                ),
            forall|k: int|
                0 <= k < lp@.len() ==> (#[trigger] bp@[k]) as int == encoded_value(
                    *img,
                    2,
                    k / (h as int),
                    k % (h as int),
                ),
        decreases w - x,
    {
        let mut y: usize = 0;
        while y < h
            invariant
                y <= h,
                x < w,
                w == img.width,
                h == img.height,
                img.wf(),
                lp@.len() == x * (h as int) + y,
                ap@.len() == lp@.len(),
                bp@.len() == lp@.len(),
                forall|k: int|
                    0 <= k < lp@.len() ==> (#[trigger] lp@[k]) as int == encoded_value(
                        *img,
                        0,
                        k / (h as int),
                        k % (h as int),
                    ),
                forall|k: int|
                    0 <= k < lp@.len() ==> (#[trigger] ap@[k]) as int == encoded_value(
                        *img,
                        1,
                        k / (h as int),
                        k % (h as int),
                    ),
                forall|k: int|
                    0 <= k < lp@.len() ==> (#[trigger] bp@[k]) as int == encoded_value(
                        *img,
                        2,
                        k / (h as int),
                        k % (h as int),
                    ),
            decreases h - y,
        {
            let r = img.get(x, y, 0);
            let g = img.get(x, y, 1);
            let b = img.get(x, y, 2);
            let lab = lab_from_rgb(r, g, b);
            proof {
                lemma_fundamental_div_mod_converse(
                    x as int * (h as int) + y as int,
                    h as int,
                    x as int,
                    y as int,
                );
            }
            lp.push(lab.0);
            ap.push(lab.1);
            bp.push(lab.2);
            y = y + 1;
        }
        proof {
            assert((x as int + 1) * (h as int) == x as int * (h as int) + (h as int))
                by (nonlinear_arith);
        }
        x = x + 1;
    }
    let ghost lps = lp@;
    let ghost aps = ap@;
    let ghost bps = bp@;
    let mut data = lp;
    data.append(&mut ap);
    data.append(&mut bp);
    proof {
        assert(data@ == (lps + aps) + bps);
    }
    let e = EncodedPlanes { width: w, height: h, data };
    proof {
        assert(e.data@.len() == 3 * (w as int) * (h as int)) by (nonlinear_arith)
            requires
                e.data@.len() == (w as int) * (h as int) + ((w as int) * (h as int) + (w as int)
                    * (h as int)),
        ;
        assert forall|c: int, x: int, y: int|
            0 <= c < 3 && 0 <= x < img.width && 0 <= y < img.height implies (#[trigger] e.at(
            c,
            x,
            y,
        )) as int == encoded_value(*img, c, x, y) by {
            let wh = (w as int) * (h as int);
            let k = x * (h as int) + y;
            assert(0 <= k < wh) by (nonlinear_arith)
                requires
                    k == x * (h as int) + y,
                    wh == (w as int) * (h as int),
                    0 <= x < w as int,
                    0 <= y < h as int,
            ;
            lemma_fundamental_div_mod_converse(k, h as int, x, y);
            if c == 0 {
                assert(e.data@[c * wh + k] == (lps + aps)[k]);
                assert((lps + aps)[k] == lps[k]);
            } else if c == 1 {
                assert(c * wh + k == wh + k);
                assert(e.data@[wh + k] == (lps + aps)[wh + k]);
                assert((lps + aps)[wh + k] == aps[k]);
            } else {
                assert(c * wh + k == 2 * wh + k);
                assert(e.data@[2 * wh + k] == bps[k]);
            }
        }
        if img.width == 224 && img.height == 224 {
            assert forall|k: int| 0 <= k < 150528 implies e.data@[k] == (encoded_value(
                *img,
                k / 50176,
                (k % 50176) / 224,
                (k % 50176) % 224,
            ) as i16) by {
                let c = k / 50176;
                let rem = k % 50176;
                let xx = rem / 224;
                let yy = rem % 224;
                assert(e.at(c, xx, yy) as int == encoded_value(*img, c, xx, yy));
                vstd::arithmetic::div_mod::lemma_fundamental_div_mod(k, 50176);
                vstd::arithmetic::div_mod::lemma_fundamental_div_mod(rem, 224);
                assert(c * ((224) * (224)) + xx * 224 + yy == k) by (nonlinear_arith)
                    requires
                        k == 50176 * c + rem,
                        rem == 224 * xx + yy,
                ;
            }
            assert(e.data@ =~= encoded_seq_224(*img));
        }
    }
    e
}

} // verus!
