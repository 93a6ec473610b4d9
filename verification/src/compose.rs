use vstd::prelude::*;
use vstd::arithmetic::div_mod::lemma_div_multiples_vanish;
use vstd::arithmetic::div_mod::lemma_fundamental_div_mod;
use vstd::arithmetic::div_mod::lemma_mod_division_less_than_divisor;
use vstd::arithmetic::mul::lemma_mul_inequality;
use vstd::arithmetic::mul::lemma_mul_is_distributive_sub_other_way;
use vstd::arithmetic::div_mod::lemma_fundamental_div_mod_converse;
use crate::types::AlphaImage;
use crate::types::Error;
use crate::types::Image;

verus! {

/// Bit-replication widening of an 8-bit channel into 16-bit space,
/// `(v << 8) | v`, which equals `257 * v` and preserves
/// proportionality (a plain left shift would leave the low byte zero).
pub open spec fn spec_widen(v: u8) -> int {
    257 * (v as int)
}

/// Widens an 8-bit sample to the full 16-bit range by bit replication.
pub fn widen(v: u8) -> (r: u16)
    ensures
        r as int == spec_widen(v),
        r == ((v as u16) << 8u16) | (v as u16),
{
    let w: u16 = v as u16;
    assert((w << 8u16) | w == 257 * w) by (bit_vector)
        requires
            w <= 255,
    ;
    (w << 8u16) | w
}

/// Reversal of premultiplied alpha for one channel value `c` at alpha
/// `a`: `clamp(round(c * max / a), 0, max)`, and `c` itself when the
/// alpha is zero (that division is undefined and the channel unused).
pub open spec fn unprem(c: int, a: int, max: int) -> int {
    if a == 0 {
        c
    } else {
        let q = (c * max + a / 2) / a;
        if q > max {
            max
        } else {
            q
        }
    }
}

fn unprem8(c: u8, a: u8) -> (r: u8)
    ensures
        r as int == unprem(c as int, a as int, 255),
{
    if a == 0 {
        return c;
    }
    let q: u32 = ((c as u32) * 255 + (a as u32) / 2) / (a as u32);
    if q > 255 {
        255
    } else {
        q as u8
    }
}

fn unprem16(c: u16, a: u16) -> (r: u16)
    ensures
        r as int == unprem(c as int, a as int, 65535),
{
    if a == 0 {
        return c;
    }
    let q: u64 = ((c as u64) * 65535 + (a as u64) / 2) / (a as u64);
    if q > 65535 {
        65535
    } else {
        q as u16
    }
}

proof fn lemma_quad(i: int, k: int)
    requires
        0 <= k < 4,
        0 <= i,
    ensures
        (4 * i + k) / 4 == i,
        (4 * i + k) % 4 == k,
{
    lemma_fundamental_div_mod_converse(4 * i + k, 4, i, k);
}

/// One RGB triple per pixel, read off a flat interleaved buffer.
fn triples_from_rgb<T: Copy>(c: &Vec<T>, n: usize) -> (r: Vec<(T, T, T)>)
    requires
        c@.len() == 3 * n,
    ensures
        r@.len() == n,
        forall|i: int| 0 <= i < n ==> #[trigger] r@[i] == (c@[3 * i], c@[3 * i + 1], c@[3 * i + 2]),
{
    let cn: usize = c.len();
    let mut out: Vec<(T, T, T)> = Vec::new();
    let mut i: usize = 0;
    while i < n
        invariant
            i <= n,
            cn == c@.len(),
            c@.len() == 3 * n,
            out@.len() == i,
            forall|k: int|
                0 <= k < i ==> #[trigger] out@[k] == (c@[3 * k], c@[3 * k + 1], c@[3 * k + 2]),
        decreases n - i,
    {
        let t: (T, T, T) = (c[3 * i], c[3 * i + 1], c[3 * i + 2]);
        out.push(t);
        i = i + 1;
    }
    out
}

/// One RGB triple per pixel of a flat RGBA buffer, the alpha dropped.
fn triples_from_rgba<T: Copy>(c: &Vec<T>, n: usize) -> (r: Vec<(T, T, T)>)
    requires
        c@.len() == 4 * n,
    ensures
        r@.len() == n,
        forall|i: int| 0 <= i < n ==> #[trigger] r@[i] == (c@[4 * i], c@[4 * i + 1], c@[4 * i + 2]),
{
    let cn: usize = c.len();
    let mut out: Vec<(T, T, T)> = Vec::new();
    let mut i: usize = 0;
    while i < n
        invariant
            i <= n,
            cn == c@.len(),
            c@.len() == 4 * n,
            out@.len() == i,
            forall|k: int|
                0 <= k < i ==> #[trigger] out@[k] == (c@[4 * k], c@[4 * k + 1], c@[4 * k + 2]),
        decreases n - i,
    {
        let t: (T, T, T) = (c[4 * i], c[4 * i + 1], c[4 * i + 2]);
        out.push(t);
        i = i + 1;
    }
    out
}

/// Each gray sample replicated into the three color channels.
fn triples_from_gray<T: Copy>(c: &Vec<T>) -> (r: Vec<(T, T, T)>)
    ensures
        r@.len() == c@.len(),
        forall|i: int| 0 <= i < c@.len() ==> #[trigger] r@[i] == (c@[i], c@[i], c@[i]),
{
    let mut out: Vec<(T, T, T)> = Vec::new();
    let mut i: usize = 0;
    while i < c.len()
        invariant
            i <= c@.len(),
            out@.len() == i,
            forall|k: int| 0 <= k < i ==> #[trigger] out@[k] == (c@[k], c@[k], c@[k]),
        decreases c@.len() - i,
    {
        let t: (T, T, T) = (c[i], c[i], c[i]);
        out.push(t);
        i = i + 1;
    }
    out
}

/// Every triple's channels widened by bit replication.
fn widen_triples(c: &Vec<(u8, u8, u8)>) -> (r: Vec<(u16, u16, u16)>)
    ensures
        r@.len() == c@.len(),
        forall|i: int|
            0 <= i < c@.len() ==> {
                &&& (#[trigger] r@[i]).0 as int == spec_widen(c@[i].0)
                &&& r@[i].1 as int == spec_widen(c@[i].1)
                &&& r@[i].2 as int == spec_widen(c@[i].2)
            },
{
    let mut out: Vec<(u16, u16, u16)> = Vec::new();
    let mut i: usize = 0;
    while i < c.len()
        invariant
            i <= c@.len(),
            out@.len() == i,
            forall|k: int|
                0 <= k < i ==> {
                    &&& (#[trigger] out@[k]).0 as int == spec_widen(c@[k].0)
                    &&& out@[k].1 as int == spec_widen(c@[k].1)
                    &&& out@[k].2 as int == spec_widen(c@[k].2)
                },
        decreases c@.len() - i,
    {
        let p: (u8, u8, u8) = c[i];
        let t: (u16, u16, u16) = (widen(p.0), widen(p.1), widen(p.2));
        out.push(t);
        i = i + 1;
    }
    out
}

/// Every sample widened by bit replication.
fn widen_plane(c: &Vec<u8>) -> (r: Vec<u16>)
    ensures
        r@.len() == c@.len(),
        forall|i: int| 0 <= i < c@.len() ==> (#[trigger] r@[i]) as int == spec_widen(c@[i]),
{
    let mut out: Vec<u16> = Vec::new();
    let mut i: usize = 0;
    while i < c.len()
        invariant
            i <= c@.len(),
            out@.len() == i,
            forall|k: int| 0 <= k < i ==> (#[trigger] out@[k]) as int == spec_widen(c@[k]),
        decreases c@.len() - i,
    {
        let w: u16 = widen(c[i]);
        out.push(w);
        i = i + 1;
    }
    out
}

/// What interleaving triples with an alpha plane yields, at flat
/// index `j` of the RGBA buffer.
pub open spec fn interleaved<T>(t: Seq<(T, T, T)>, a: Seq<T>, j: int) -> T {
    if j % 4 == 0 {
        t[j / 4].0
    } else if j % 4 == 1 {
        t[j / 4].1
    } else if j % 4 == 2 {
        t[j / 4].2
    } else {
        a[j / 4]
    }
}

/// Interleaves one triple and one alpha sample per pixel into a flat
/// RGBA buffer.
fn interleave4<T: Copy>(t: &Vec<(T, T, T)>, a: &Vec<T>) -> (r: Vec<T>)
    requires
        t@.len() == a@.len(),
    ensures
        r@.len() == 4 * t@.len(),
        forall|j: int| 0 <= j < r@.len() ==> #[trigger] r@[j] == interleaved(t@, a@, j),
{
    let mut out: Vec<T> = Vec::new();
    let mut i: usize = 0;
    while i < t.len()
        invariant
            i <= t@.len(),
            t@.len() == a@.len(),
            out@.len() == 4 * i,
            forall|j: int| 0 <= j < out@.len() ==> #[trigger] out@[j] == interleaved(t@, a@, j),
        decreases t@.len() - i,
    {
        let p: (T, T, T) = t[i];
        out.push(p.0);
        out.push(p.1);
        out.push(p.2);
        out.push(a[i]);
        proof {
            lemma_quad(i as int, 0);
            lemma_quad(i as int, 1);
            lemma_quad(i as int, 2);
            lemma_quad(i as int, 3);
        }
        i = i + 1;
    }
    out
}

/// Color and alpha cover the same pixel grid.
pub open spec fn same_dims(color: &Image, alpha: &AlphaImage) -> bool {
    &&& color.spec_width() == alpha.spec_width()
    &&& color.spec_height() == alpha.spec_height()
}

/// A color image that already carries alpha may only be combined with
/// an alpha plane of its own channel depth; every other pairing is
/// legal.
pub open spec fn legal_combination(color: &Image, alpha: &AlphaImage) -> bool {
    match (color, alpha) {
        (Image::Rgba8 { .. }, AlphaImage::Gray16 { .. }) => false,
        (Image::Rgba16 { .. }, _) => false,
        _ => true,
    }
}

/// What compositing yields, pinned down per flat index `j` of the
/// output buffer: the color channels copied (widened where the depths
/// differ, replicated from gray), the alpha channel from the alpha
/// image (widened where needed), and for a color image that already
/// carried alpha, its alpha overwritten.
pub open spec fn composited(color: &Image, alpha: &AlphaImage, out: &Image) -> bool {
    match (color, alpha) {
        (Image::Rgb8 { buf: c, width: w, height: h }, AlphaImage::Gray8 { buf: a, .. }) => match out {
            Image::Rgba8 { buf: o, width: ow, height: oh } => {
                &&& *ow == *w
                &&& *oh == *h
                &&& o@.len() == 4 * ((*w as nat) * (*h as nat))
                &&& forall|j: int|
                    0 <= j < o@.len() ==> #[trigger] o@[j] == (if j % 4 == 3 {
                        a@[j / 4]
                    } else {
                        c@[3 * (j / 4) + j % 4]
                    })
            },
            _ => false,
        },
        (Image::Rgb8 { buf: c, width: w, height: h }, AlphaImage::Gray16 { buf: a, .. }) => match out {
            Image::Rgba16 { buf: o, width: ow, height: oh } => {
                &&& *ow == *w
                &&& *oh == *h
                &&& o@.len() == 4 * ((*w as nat) * (*h as nat))
                &&& forall|j: int|
                    0 <= j < o@.len() ==> (#[trigger] o@[j]) as int == (if j % 4 == 3 {
                        a@[j / 4] as int
                    } else {
                        spec_widen(c@[3 * (j / 4) + j % 4])
                    })
            },
            _ => false,
        },
        (Image::Rgb16 { buf: c, width: w, height: h }, AlphaImage::Gray8 { buf: a, .. }) => match out {
            Image::Rgba16 { buf: o, width: ow, height: oh } => {
                &&& *ow == *w
                &&& *oh == *h
                &&& o@.len() == 4 * ((*w as nat) * (*h as nat))
                &&& forall|j: int|
                    0 <= j < o@.len() ==> (#[trigger] o@[j]) as int == (if j % 4 == 3 {
                        spec_widen(a@[j / 4])
                    } else {
                        c@[3 * (j / 4) + j % 4] as int
                    })
            },
            _ => false,
        },
        (Image::Rgb16 { buf: c, width: w, height: h }, AlphaImage::Gray16 { buf: a, .. }) => match out {
            Image::Rgba16 { buf: o, width: ow, height: oh } => {
                &&& *ow == *w
                &&& *oh == *h
                &&& o@.len() == 4 * ((*w as nat) * (*h as nat))
                &&& forall|j: int|
                    0 <= j < o@.len() ==> #[trigger] o@[j] == (if j % 4 == 3 {
                        a@[j / 4]
                    } else {
                        c@[3 * (j / 4) + j % 4]
                    })
            },
            _ => false,
        },
        (Image::Rgba8 { buf: c, width: w, height: h }, AlphaImage::Gray8 { buf: a, .. }) => match out {
            Image::Rgba8 { buf: o, width: ow, height: oh } => {
                &&& *ow == *w
                &&& *oh == *h
                &&& o@.len() == 4 * ((*w as nat) * (*h as nat))
                &&& forall|j: int|
                    0 <= j < o@.len() ==> #[trigger] o@[j] == (if j % 4 == 3 {
                        a@[j / 4]
                    } else {
                        c@[4 * (j / 4) + j % 4]
                    })
            },
            _ => false,
        },
        (Image::Gray8 { buf: c, width: w, height: h }, AlphaImage::Gray8 { buf: a, .. }) => match out {
            Image::Rgba8 { buf: o, width: ow, height: oh } => {
                &&& *ow == *w
                &&& *oh == *h
                &&& o@.len() == 4 * ((*w as nat) * (*h as nat))
                &&& forall|j: int|
                    0 <= j < o@.len() ==> #[trigger] o@[j] == (if j % 4 == 3 {
                        a@[j / 4]
                    } else {
                        c@[j / 4]
                    })
            },
            _ => false,
        },
        (Image::Gray8 { buf: c, width: w, height: h }, AlphaImage::Gray16 { buf: a, .. }) => match out {
            Image::Rgba16 { buf: o, width: ow, height: oh } => {
                &&& *ow == *w
                &&& *oh == *h
                &&& o@.len() == 4 * ((*w as nat) * (*h as nat))
                &&& forall|j: int|
                    0 <= j < o@.len() ==> (#[trigger] o@[j]) as int == (if j % 4 == 3 {
                        a@[j / 4] as int
                    } else {
                        spec_widen(c@[j / 4])
                    })
            },
            _ => false,
        },
        (Image::Gray16 { buf: c, width: w, height: h }, AlphaImage::Gray8 { buf: a, .. }) => match out {
            Image::Rgba16 { buf: o, width: ow, height: oh } => {
                &&& *ow == *w
                &&& *oh == *h
                &&& o@.len() == 4 * ((*w as nat) * (*h as nat))
                &&& forall|j: int|
                    0 <= j < o@.len() ==> (#[trigger] o@[j]) as int == (if j % 4 == 3 {
                        spec_widen(a@[j / 4])
                    } else {
                        c@[j / 4] as int
                    })
            },
            _ => false,
        },
        (Image::Gray16 { buf: c, width: w, height: h }, AlphaImage::Gray16 { buf: a, .. }) => match out {
            Image::Rgba16 { buf: o, width: ow, height: oh } => {
                &&& *ow == *w
                &&& *oh == *h
                &&& o@.len() == 4 * ((*w as nat) * (*h as nat))
                &&& forall|j: int|
                    0 <= j < o@.len() ==> #[trigger] o@[j] == (if j % 4 == 3 {
                        a@[j / 4]
                    } else {
                        c@[j / 4]
                    })
            },
            _ => false,
        },
        _ => false,
    }
}

/// Merges a color image and an alpha image of the same dimensions into
/// an RGBA image, reconciling differing channel depths by
/// bit-replication widening. Dimension mismatch and an illegal pairing
/// of an alpha-carrying color image with a deeper alpha plane are
/// rejected; nothing else fails.
pub fn composite(color: Image, alpha: AlphaImage) -> (r: Result<Image, Error>)
    requires
        color.wf(),
        alpha.wf(),
    ensures
        r is Ok <==> same_dims(&color, &alpha) && legal_combination(&color, &alpha),
        (r is Err && r->Err_0 == Error::DimensionMismatch) <==> !same_dims(&color, &alpha),
        (r is Err && r->Err_0 == Error::InvalidAlphaCombination) <==> (same_dims(&color, &alpha)
            && !legal_combination(&color, &alpha)),
        r is Ok ==> composited(&color, &alpha, &r->Ok_0) && r->Ok_0.wf(),
{
    if color.width() != alpha.width() || color.height() != alpha.height() {
        return Err(Error::DimensionMismatch);
    }
    match (color, alpha) {
        (Image::Rgb8 { buf: c, width, height }, AlphaImage::Gray8 { buf: a, .. }) => {
            let cl: usize = c.len();
            let n: usize = cl / 3;
            proof {
                lemma_div_multiples_vanish((width as int) * (height as int), 3);
            }
            let t = triples_from_rgb(&c, n);
            let o = interleave4(&t, &a);
            Ok(Image::Rgba8 { buf: o, width, height })
        },
        (Image::Rgb8 { buf: c, width, height }, AlphaImage::Gray16 { buf: a, .. }) => {
            let cl: usize = c.len();
            let n: usize = cl / 3;
            proof {
                lemma_div_multiples_vanish((width as int) * (height as int), 3);
            }
            let t = widen_triples(&triples_from_rgb(&c, n));
            let o = interleave4(&t, &a);
            Ok(Image::Rgba16 { buf: o, width, height })
        },
        (Image::Rgb16 { buf: c, width, height }, AlphaImage::Gray8 { buf: a, .. }) => {
            let cl: usize = c.len();
            let n: usize = cl / 3;
            proof {
                lemma_div_multiples_vanish((width as int) * (height as int), 3);
            }
            let t = triples_from_rgb(&c, n);
            let o = interleave4(&t, &widen_plane(&a));
            Ok(Image::Rgba16 { buf: o, width, height })
        },
        (Image::Rgb16 { buf: c, width, height }, AlphaImage::Gray16 { buf: a, .. }) => {
            let cl: usize = c.len();
            let n: usize = cl / 3;
            proof {
                lemma_div_multiples_vanish((width as int) * (height as int), 3);
            }
            let t = triples_from_rgb(&c, n);
            let o = interleave4(&t, &a);
            Ok(Image::Rgba16 { buf: o, width, height })
        },
        (Image::Rgba8 { buf: c, width, height }, AlphaImage::Gray8 { buf: a, .. }) => {
            let cl: usize = c.len();
            let n: usize = cl / 4;
            proof {
                lemma_div_multiples_vanish((width as int) * (height as int), 4);
            }
            let t = triples_from_rgba(&c, n);
            let o = interleave4(&t, &a);
            Ok(Image::Rgba8 { buf: o, width, height })
        },
        (Image::Gray8 { buf: c, width, height }, AlphaImage::Gray8 { buf: a, .. }) => {
            let t = triples_from_gray(&c);
            let o = interleave4(&t, &a);
            Ok(Image::Rgba8 { buf: o, width, height })
        },
        (Image::Gray8 { buf: c, width, height }, AlphaImage::Gray16 { buf: a, .. }) => {
            let t = widen_triples(&triples_from_gray(&c));
            let o = interleave4(&t, &a);
            Ok(Image::Rgba16 { buf: o, width, height })
        },
        (Image::Gray16 { buf: c, width, height }, AlphaImage::Gray8 { buf: a, .. }) => {
            let t = triples_from_gray(&c);
            let o = interleave4(&t, &widen_plane(&a));
            Ok(Image::Rgba16 { buf: o, width, height })
        },
        (Image::Gray16 { buf: c, width, height }, AlphaImage::Gray16 { buf: a, .. }) => {
            let t = triples_from_gray(&c);
            let o = interleave4(&t, &a);
            Ok(Image::Rgba16 { buf: o, width, height })
        },
        (c, _) => Err(Error::InvalidAlphaCombination),
    }
}

/// How reversing premultiplied alpha relates the image after to the
/// image before: RGBA buffers get each color channel divided back out
/// by its pixel's alpha (saturating, and left untouched at zero
/// alpha), the alpha channel and every other image shape stay as they
/// were.
pub open spec fn unpremultiplied(before: &Image, after: &Image) -> bool {
    match (before, after) {
        (
            Image::Rgba8 { buf: b, width: w, height: h },
            Image::Rgba8 { buf: o, width: ow, height: oh },
        ) => {
            &&& *ow == *w
            &&& *oh == *h
            &&& o@.len() == b@.len()
            &&& forall|j: int|
                0 <= j < b@.len() ==> (#[trigger] o@[j]) as int == (if j % 4 == 3 {
                    b@[j] as int
                } else {
                    unprem(b@[j] as int, b@[4 * (j / 4) + 3] as int, 255)
                })
        },
        (
            Image::Rgba16 { buf: b, width: w, height: h },
            Image::Rgba16 { buf: o, width: ow, height: oh },
        ) => {
            &&& *ow == *w
            &&& *oh == *h
            &&& o@.len() == b@.len()
            &&& forall|j: int|
                0 <= j < b@.len() ==> (#[trigger] o@[j]) as int == (if j % 4 == 3 {
                    b@[j] as int
                } else {
                    unprem(b@[j] as int, b@[4 * (j / 4) + 3] as int, 65535)
                })
        },
        _ => before == after,
    }
}

/// Reverses premultiplied alpha encoding on an RGBA image; any other
/// image shape passes through unchanged.
pub fn unpremultiply(img: Image) -> (r: Image)
    requires
        img.wf(),
    ensures
        r.wf(),
        unpremultiplied(&img, &r),
{
    match img {
        Image::Rgba8 { buf, width, height } => {
            let bl: usize = buf.len();
            let n: usize = bl / 4;
            proof {
                lemma_div_multiples_vanish((width as int) * (height as int), 4);
            }
            let mut out: Vec<u8> = Vec::new();
            let mut i: usize = 0;
            while i < n
                invariant
                    i <= n,
                    bl == buf@.len(),
                    buf@.len() == 4 * n,
                    out@.len() == 4 * i,
                    forall|j: int|
                        0 <= j < out@.len() ==> (#[trigger] out@[j]) as int == (if j % 4 == 3 {
                            buf@[j] as int
                        } else {
                            unprem(buf@[j] as int, buf@[4 * (j / 4) + 3] as int, 255)
                        }),
                decreases n - i,
            {
                let a: u8 = buf[4 * i + 3];
                out.push(unprem8(buf[4 * i], a));
                out.push(unprem8(buf[4 * i + 1], a));
                out.push(unprem8(buf[4 * i + 2], a));
                out.push(a);
                proof {
                    lemma_quad(i as int, 0);
                    lemma_quad(i as int, 1);
                    lemma_quad(i as int, 2);
                    lemma_quad(i as int, 3);
                }
                i = i + 1;
            }
            Image::Rgba8 { buf: out, width, height }
        },
        Image::Rgba16 { buf, width, height } => {
            let bl: usize = buf.len();
            let n: usize = bl / 4;
            proof {
                lemma_div_multiples_vanish((width as int) * (height as int), 4);
            }
            let mut out: Vec<u16> = Vec::new();
            let mut i: usize = 0;
            while i < n
                invariant
                    i <= n,
                    bl == buf@.len(),
                    buf@.len() == 4 * n,
                    out@.len() == 4 * i,
                    forall|j: int|
                        0 <= j < out@.len() ==> (#[trigger] out@[j]) as int == (if j % 4 == 3 {
                            buf@[j] as int
                        } else {
                            unprem(buf@[j] as int, buf@[4 * (j / 4) + 3] as int, 65535)
                        }),
                decreases n - i,
            {
                let a: u16 = buf[4 * i + 3];
                out.push(unprem16(buf[4 * i], a));
                out.push(unprem16(buf[4 * i + 1], a));
                out.push(unprem16(buf[4 * i + 2], a));
                out.push(a);
                proof {
                    lemma_quad(i as int, 0);
                    lemma_quad(i as int, 1);
                    lemma_quad(i as int, 2);
                    lemma_quad(i as int, 3);
                }
                i = i + 1;
            }
            Image::Rgba16 { buf: out, width, height }
        },
        other => other,
    }
}

/// Reversing premultiplication recovers the original channel value to
/// within one unit: for an original value `c` and alpha `a`, the
/// premultiplied value is `round(c * a / max)`, and dividing the alpha
/// back out lands within 1 of `c`. This holds for alphas of at least
/// half the channel maximum; below that, premultiplication discards
/// more than one unit of the channel and no divider can recover it.
pub proof fn lemma_unprem_inverse(c: int, a: int, max: int)
    requires
        0 <= c <= max,
        0 < a <= max,
        2 * a >= max,
    ensures
        -1 <= unprem((c * a + max / 2) / max, a, max) - c <= 1,
{
    let p = (c * a + max / 2) / max;
    let r1 = (c * a + max / 2) % max;
    lemma_fundamental_div_mod(c * a + max / 2, max);
    lemma_mod_division_less_than_divisor(c * a + max / 2, max);
    let q = (p * max + a / 2) / a;
    let r2 = (p * max + a / 2) % a;
    lemma_fundamental_div_mod(p * max + a / 2, a);
    lemma_mod_division_less_than_divisor(p * max + a / 2, a);
    lemma_fundamental_div_mod(max, 2);
    lemma_mod_division_less_than_divisor(max, 2);
    lemma_fundamental_div_mod(a, 2);
    lemma_mod_division_less_than_divisor(a, 2);
    // the two divisions displace the exact product by less than half a
    // step each, so q*a sits within one and a half alpha steps of c*a
    assert(q * a == c * a + (max / 2 - r1) + (a / 2 - r2));
    lemma_mul_is_distributive_sub_other_way(a, q, c);
    assert((q - c) * a == (max / 2 - r1) + (a / 2 - r2));
    if q - c >= 2 {
        lemma_mul_inequality(2, q - c, a);
        assert(false);
    }
    if q - c <= -2 {
        lemma_mul_inequality(q - c, -2, a);
        assert(false);
    }
    if q <= max {
        assert(unprem(p, a, max) == q);
    } else {
        assert(q == max + 1 && c == max);
        assert(unprem(p, a, max) == max);
    }
}

} // verus!
