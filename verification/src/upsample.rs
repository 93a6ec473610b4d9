use vstd::prelude::*;
use vstd::arithmetic::div_mod::lemma_div_basics;
use vstd::arithmetic::div_mod::lemma_div_is_ordered;
use vstd::arithmetic::div_mod::lemma_div_nonincreasing;
use vstd::arithmetic::div_mod::lemma_fundamental_div_mod;
use vstd::arithmetic::div_mod::lemma_fundamental_div_mod_converse;
use vstd::arithmetic::mul::lemma_mul_basics;
use vstd::arithmetic::mul::lemma_mul_inequality;
use vstd::arithmetic::mul::lemma_mul_is_commutative;
use vstd::arithmetic::mul::lemma_mul_is_distributive_add_other_way;
use crate::types::ChromaSampling;
use crate::types::Error;
use crate::types::chroma_cols;
use crate::types::chroma_index;
use crate::types::chroma_len;
use crate::types::chroma_rows;

verus! {

/// What chroma upsampling yields: one triple per luma sample, each
/// luma sample joined with the two chroma samples that cover its
/// position, nearest-neighbor, no interpolation.
pub open spec fn upsampled<T>(
    y: Seq<T>,
    u: Seq<T>,
    v: Seq<T>,
    w: int,
    s: ChromaSampling,
    out: Seq<(T, T, T)>,
) -> bool {
    &&& out.len() == y.len()
    &&& forall|i: int|
        0 <= i < y.len() ==> #[trigger] out[i] == (
            y[i],
            u[chroma_index(s, w, i)],
            v[chroma_index(s, w, i)],
        )
}

proof fn lemma_half_round_up(w: int)
    requires
        w >= 1,
    ensures
        (w - 1) / 2 + 1 == (w + 1) / 2,
{
    let q = (w - 1) / 2;
    let m = (w - 1) % 2;
    lemma_fundamental_div_mod(w - 1, 2);
    assert(w + 1 == (q + 1) * 2 + m) by (nonlinear_arith)
        requires
            w - 1 == 2 * q + m,
    ;
    lemma_fundamental_div_mod_converse(w + 1, 2, q + 1, m);
}

/// Expands the subsampled chroma planes to one YUV triple per luma
/// sample, in row-major order. Requesting this for a monochrome plane
/// set is refused with `InvalidChromaFormat`; such planes belong on
/// the gray-only path.
pub fn upsample<T: Copy>(
    y: &Vec<T>,
    u: &Vec<T>,
    v: &Vec<T>,
    width: usize,
    height: usize,
    sampling: ChromaSampling,
) -> (r: Result<Vec<(T, T, T)>, Error>)
    requires
        y@.len() == (width as nat) * (height as nat),
        u@.len() == chroma_len(sampling, width as nat, height as nat),
        v@.len() == chroma_len(sampling, width as nat, height as nat),
    ensures
        r is Ok <==> sampling != ChromaSampling::Monochrome,
        r is Err ==> r->Err_0 == Error::InvalidChromaFormat,
        r is Ok ==> upsampled(y@, u@, v@, width as int, sampling, r->Ok_0@),
{
    let mut half: usize = 0;
    if width > 0 {
        proof {
            lemma_div_nonincreasing(width as int - 1, 2);
            lemma_half_round_up(width as int);
        }
        half = (width - 1) / 2 + 1;
    }
    let (hstep, vstep, cw): (usize, usize, usize) = match sampling {
        ChromaSampling::Cs444 => (1, 1, width),
        ChromaSampling::Cs422 => (2, 1, half),
        ChromaSampling::Cs420 => (2, 2, half),
        ChromaSampling::Monochrome => return Err(Error::InvalidChromaFormat),
    };
    proof {
        assert(cw == chroma_cols(sampling, width as nat));
    }
    let ghost ch: nat = chroma_rows(sampling, height as nat);
    let yn: usize = y.len();
    let un: usize = u.len();
    let mut out: Vec<(T, T, T)> = Vec::new();
    let mut i: usize = 0;
    let mut r: usize = 0;
    while r < height
        invariant
            r <= height,
            i == r * width,
            yn == y@.len(),
            un == u@.len(),
            y@.len() == (width as nat) * (height as nat),
            u@.len() == (cw as nat) * ch,
            v@.len() == (cw as nat) * ch,
            cw == chroma_cols(sampling, width as nat),
            ch == chroma_rows(sampling, height as nat),
            sampling != ChromaSampling::Monochrome,
            hstep == (if sampling is Cs444 { 1int } else { 2int }),
            vstep == (if sampling is Cs420 { 2int } else { 1int }),
            out@.len() == i,
            forall|k: int|
                0 <= k < i ==> #[trigger] out@[k] == (
                    y@[k],
                    u@[chroma_index(sampling, width as int, k)],
                    v@[chroma_index(sampling, width as int, k)],
                ),
        decreases height - r,
    {
        proof {
            lemma_mul_is_distributive_add_other_way(width as int, r as int, 1);
            lemma_mul_basics(width as int);
            lemma_mul_inequality(r as int + 1, height as int, width as int);
            lemma_mul_is_commutative(height as int, width as int);
            assert(i + width <= y@.len());
            lemma_div_basics(r as int);
            if sampling is Cs420 {
                lemma_div_is_ordered(r as int, height as int - 1, 2);
                lemma_half_round_up(height as int);
            }
            assert((r as int) / (vstep as int) < ch);
        }
        let crow: usize = r / vstep;
        proof {
            lemma_mul_inequality(crow as int, ch as int - 1, cw as int);
            lemma_mul_is_distributive_add_other_way(cw as int, ch as int - 1, 1);
            lemma_mul_basics(cw as int);
            lemma_mul_is_commutative(cw as int, ch as int);
            assert((crow as int) * (cw as int) + (cw as int) <= u@.len());
        }
        let cbase: usize = crow * cw;
        let mut c: usize = 0;
        while c < width
            invariant
                c <= width,
                r < height,
                yn == y@.len(),
                un == u@.len(),
                i == r * width + c,
                i + (width - c) <= y@.len(),
                y@.len() == (width as nat) * (height as nat),
                u@.len() == (cw as nat) * ch,
                v@.len() == (cw as nat) * ch,
                cw == chroma_cols(sampling, width as nat),
                ch == chroma_rows(sampling, height as nat),
                sampling != ChromaSampling::Monochrome,
                hstep == (if sampling is Cs444 { 1int } else { 2int }),
                vstep == (if sampling is Cs420 { 2int } else { 1int }),
                crow == (r as int) / (vstep as int),
                cbase == crow * cw,
                cbase + cw <= u@.len(),
                out@.len() == i,
                forall|k: int|
                    0 <= k < i ==> #[trigger] out@[k] == (
                        y@[k],
                        u@[chroma_index(sampling, width as int, k)],
                        v@[chroma_index(sampling, width as int, k)],
                    ),
            decreases width - c,
        {
            proof {
                assert(i < y@.len());
                lemma_fundamental_div_mod_converse(i as int, width as int, r as int, c as int);
                lemma_div_basics(c as int);
                if !(sampling is Cs444) {
                    lemma_div_is_ordered(c as int, width as int - 1, 2);
                    lemma_half_round_up(width as int);
                    assert((c as int) / 2 < cw);
                }
                assert(cbase + (c as int) / (hstep as int) == chroma_index(
                    sampling,
                    width as int,
                    i as int,
                ));
                assert(cbase + (c as int) / (hstep as int) < u@.len());
            }
            let ci: usize = cbase + c / hstep;
            let triple: (T, T, T) = (y[i], u[ci], v[ci]);
            out.push(triple);
            i = i + 1;
            c = c + 1;
        }
        proof {
            lemma_mul_is_distributive_add_other_way(width as int, r as int, 1);
            lemma_mul_basics(width as int);
        }
        r = r + 1;
    }
    proof {
        lemma_mul_is_commutative(height as int, width as int);
    }
    Ok(out)
}

/// For a 4:2:0 frame of even width and height, the four triples of
/// every 2x2 luma block carry identical chroma: the block at
/// (2*bi, 2*bj) reads all four of its pixels' chroma from the one
/// chroma sample at (bi, bj).
pub proof fn lemma_cs420_block_shares_chroma<T>(
    y: Seq<T>,
    u: Seq<T>,
    v: Seq<T>,
    w: int,
    h: int,
    out: Seq<(T, T, T)>,
    bi: int,
    bj: int,
    di: int,
    dj: int,
)
    requires
        w % 2 == 0,
        h % 2 == 0,
        y.len() == w * h,
        upsampled(y, u, v, w, ChromaSampling::Cs420, out),
        0 <= di < 2,
        0 <= dj < 2,
        0 <= 2 * bi + di < w,
        0 <= 2 * bj + dj < h,
    ensures
        out[(2 * bj + dj) * w + (2 * bi + di)].1 == out[(2 * bj) * w + 2 * bi].1,
        out[(2 * bj + dj) * w + (2 * bi + di)].2 == out[(2 * bj) * w + 2 * bi].2,
{
    let row1 = 2 * bj + dj;
    let col1 = 2 * bi + di;
    let row0 = 2 * bj;
    let col0 = 2 * bi;
    let p1 = row1 * w + col1;
    let p0 = row0 * w + col0;
    assert(bi >= 0 && bj >= 0);
    lemma_fundamental_div_mod_converse(p1, w, row1, col1);
    lemma_fundamental_div_mod_converse(p0, w, row0, col0);
    lemma_fundamental_div_mod_converse(row1, 2, bj, dj);
    lemma_fundamental_div_mod_converse(row0, 2, bj, 0);
    lemma_fundamental_div_mod_converse(col1, 2, bi, di);
    lemma_fundamental_div_mod_converse(col0, 2, bi, 0);
    lemma_mul_inequality(row1 + 1, h, w);
    lemma_mul_is_distributive_add_other_way(w, row1, 1);
    lemma_mul_basics(w);
    lemma_mul_is_commutative(h, w);
    assert(p1 < y.len());
    lemma_mul_inequality(row0 + 1, h, w);
    lemma_mul_is_distributive_add_other_way(w, row0, 1);
    assert(p0 < y.len());
    assert(chroma_index(ChromaSampling::Cs420, w, p1) == bj * ((w + 1) / 2) + bi);
    assert(chroma_index(ChromaSampling::Cs420, w, p0) == bj * ((w + 1) / 2) + bi);
    assert(out[p1].1 == out[p0].1);
    assert(out[p1].2 == out[p0].2);
}

} // verus!
