//! Conversion of rendered pixels from RGBA byte order to the BGRA byte order
//! of `wl_shm` ARGB8888 buffers (little-endian).
use vstd::prelude::*;

verus! {

/// Number of whole pixels that both buffers hold.
pub open spec fn whole_pixels(dst_len: int, src_len: int) -> int {
    if dst_len / 4 <= src_len / 4 {
        dst_len / 4
    } else {
        src_len / 4
    }
}

/// Byte `i` of a pixel row with red and blue exchanged in every pixel.
pub open spec fn swapped_byte(src: Seq<u8>, i: int) -> u8 {
    if i % 4 == 0 {
        src[i + 2]
    } else if i % 4 == 2 {
        src[i - 2]
    } else {
        src[i]
    }
}

/// `dst` after converting the whole pixels of `src` into it: bytes of the
/// whole pixels are `src` with red and blue exchanged; the rest of `dst`
/// is kept.
pub open spec fn converted(dst: Seq<u8>, src: Seq<u8>) -> Seq<u8> {
    let k = whole_pixels(dst.len() as int, src.len() as int);
    Seq::new(dst.len(), |i: int| if i < 4 * k { swapped_byte(src, i) } else { dst[i] })
}

proof fn lemma_mod4(i: int, p: int)
    requires
        4 * p <= i < 4 * p + 4,
    ensures
        i % 4 == i - 4 * p,
{
    vstd::arithmetic::div_mod::lemma_fundamental_div_mod_converse(i, 4, p, i - 4 * p);
}

/// Write the whole pixels of `src` (RGBA) into `dst` as BGRA, pixel by
/// pixel, for as many whole pixels as both slices hold.
pub fn rgba_to_bgra(dst: &mut [u8], src: &[u8])
    ensures
        final(dst)@ == converted(old(dst)@, src@),
{
    let dl = dst.len();
    let sl = src.len();
    let k: usize = if dl / 4 <= sl / 4 {
        dl / 4
    } else {
        sl / 4
    };
    let ghost d0 = dst@;
    let mut p: usize = 0;
    while p < k
        invariant
            k == whole_pixels(d0.len() as int, src@.len() as int),
            dl == d0.len(),
            sl == src@.len(),
            4 * k <= dl,
            4 * k <= sl,
            p <= k,
            dst@.len() == d0.len(),
            forall|i: int| 0 <= i < 4 * p ==> #[trigger] dst@[i] == swapped_byte(src@, i),
            forall|i: int| 4 * p <= i < dl ==> #[trigger] dst@[i] == d0[i],
        decreases k - p,
    {
        let b = 4 * p;
        dst[b] = src[b + 2];
        dst[b + 1] = src[b + 1];
        dst[b + 2] = src[b];
        dst[b + 3] = src[b + 3];
        proof {
            assert forall|i: int| 4 * p <= i < 4 * p + 4 implies #[trigger] dst@[i] == swapped_byte(
                src@,
                i,
            ) by {
                lemma_mod4(i, p as int);
            }
        }
        p = p + 1;
    }
    assert(dst@ =~= converted(d0, src@));
}

} // verus!
