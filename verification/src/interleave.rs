use vstd::prelude::*;

verus! {

/// The interleaving of two equal-length buffers of 4-byte RGBA pixels:
/// byte `i` comes from `a` when `i % 8 < 4` (an even pixel, counting
/// from flat offset 0) and from `b` otherwise (an odd pixel). The
/// pattern is a function of the flat byte offset alone, not of 2-D
/// pixel coordinates.
pub open spec fn interleaved(a: Seq<u8>, b: Seq<u8>) -> Seq<u8> {
    Seq::new(a.len(), |i: int| if i % 8 < 4 { a[i] } else { b[i] })
}

/// Copies the inclusive byte range `start ..= end` out of `vec`; an
/// empty range (`start > end`) yields an empty buffer.
pub fn replace_rgba(vec: &Vec<u8>, start: usize, end: usize) -> (r: Vec<u8>)
    requires
        start <= end ==> end < vec@.len(),
    ensures
        start > end ==> r@ == Seq::<u8>::empty(),
        start <= end ==> r@ == vec@.subrange(start as int, end + 1),
{
    let mut rgba: Vec<u8> = Vec::new();

    let mut i: usize = start;
    while i <= end
        invariant
            start <= i,
            start <= end ==> i <= end + 1 && end < vec.len() && rgba@ == vec@.subrange(
                start as int,
                i as int,
            ),
            start > end ==> i == start && rgba@ == Seq::<u8>::empty(),
        decreases end + 1 - i,
    {
        rgba.push(vec[i]);
        proof {
            assert(rgba@ =~= vec@.subrange(start as int, i + 1));
        }
        i = i + 1;
    }

    rgba
}

/// Bytes of the same 4-byte pixel block share their source: for a block
/// start `i` (a multiple of 4) and a byte offset `j` inside the block,
/// the block is even (`i % 8 == 0`) exactly when `j % 8 < 4`.
proof fn lemma_block_parity(i: int, j: int)
    requires
        i % 4 == 0,
        0 <= i,
        i <= j < i + 4,
    ensures
        i % 8 == 0 || i % 8 == 4,
        i % 8 == 0 ==> j % 8 == j - i,
        i % 8 == 4 ==> j % 8 == 4 + (j - i),
{
    assert((i % 8) % 4 == i % 4) by (nonlinear_arith);
    assert(i % 8 == 0 ==> j % 8 == j - i) by (nonlinear_arith)
        requires
            0 <= i,
            i <= j < i + 4,
    ;
    assert(i % 8 == 4 ==> j % 8 == 4 + (j - i)) by (nonlinear_arith)
        requires
            0 <= i,
            i <= j < i + 4,
    ;
}

/// Interleaves two equal-length pixel buffers along the flat byte
/// offset: the 4-byte block at each even pixel position is copied from
/// `vec_1`, the block at each odd position from `vec_2`. The result has
/// the common input length.
pub fn swap_pixels(vec_1: Vec<u8>, vec_2: Vec<u8>) -> (r: Vec<u8>)
    requires
        vec_1@.len() == vec_2@.len(),
        vec_1@.len() % 4 == 0,
    ensures
        r@ == interleaved(vec_1@, vec_2@),
        r@.len() == vec_1@.len(),
{
    let mut combined_data: Vec<u8> = Vec::new();

    let mut i: usize = 0;
    while i < vec_1.len()
        invariant
            vec_1@.len() == vec_2@.len(),
            vec_1@.len() % 4 == 0,
            i % 4 == 0,
            i <= vec_1.len(),
            combined_data@ == interleaved(vec_1@, vec_2@).subrange(0, i as int),
        decreases vec_1@.len() - i,
    {
        proof {
            assert(vec_1@.len() - i >= 4) by (nonlinear_arith)
                requires
                    i % 4 == 0,
                    vec_1@.len() % 4 == 0,
                    i < vec_1@.len(),
            ;
        }
        let mut block = if i % 8 == 0 {
            replace_rgba(&vec_1, i, i + 3)
        } else {
            replace_rgba(&vec_2, i, i + 3)
        };
        proof {
            assert forall|j: int| i <= j < i + 4 implies interleaved(vec_1@, vec_2@)[j]
                == block@[j - i] by {
                lemma_block_parity(i as int, j);
                if i % 8 == 0 {
                    assert(block@[j - i] == vec_1@.subrange(i as int, i + 4)[j - i]);
                } else {
                    assert(block@[j - i] == vec_2@.subrange(i as int, i + 4)[j - i]);
                }
            }
            assert(interleaved(vec_1@, vec_2@).subrange(0, i + 4) =~= combined_data@ + block@);
        }
        combined_data.append(&mut block);
        i = i + 4;
    }

    combined_data
}

} // verus!
