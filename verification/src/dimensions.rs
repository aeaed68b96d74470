use vstd::prelude::*;

verus! {

/// The pixel area of a `(width, height)` pair.
pub open spec fn area(dim: (u32, u32)) -> int {
    dim.0 * dim.1
}

/// The reconciled target: whichever pair has the strictly smaller pixel
/// area; a tie goes to the second pair.
pub open spec fn smallest_dimension(dim1: (u32, u32), dim2: (u32, u32)) -> (u32, u32) {
    if area(dim1) < area(dim2) {
        dim1
    } else {
        dim2
    }
}

/// The pixel area of any `(u32, u32)` pair fits in a `u64`.
proof fn lemma_area_fits_u64(dim: (u32, u32))
    ensures
        area(dim) <= u64::MAX,
{
    assert(dim.0 * dim.1 <= u32::MAX * u32::MAX) by (nonlinear_arith)
        requires
            dim.0 <= u32::MAX,
            dim.1 <= u32::MAX,
    ;
}

/// Picks whichever `(width, height)` pair has the strictly smaller pixel
/// area; when the areas are equal, the second pair wins.
pub fn get_smallest_dimension(dimension1: (u32, u32), dimension2: (u32, u32)) -> (r: (u32, u32))
    ensures
        r == smallest_dimension(dimension1, dimension2),
{
    proof {
        lemma_area_fits_u64(dimension1);
        lemma_area_fits_u64(dimension2);
    }
    let pixel1: u64 = (dimension1.0 as u64) * (dimension1.1 as u64);
    let pixel2: u64 = (dimension2.0 as u64) * (dimension2.1 as u64);

    if pixel1 < pixel2 {
        dimension1
    } else {
        dimension2
    }
}

/// Reconciliation commutes except on ties: when the two areas differ,
/// both argument orders pick the same pair; when the areas are equal,
/// the second argument wins either way.
pub proof fn lemma_smallest_dimension_tie_rule(dim1: (u32, u32), dim2: (u32, u32))
    ensures
        area(dim1) != area(dim2) ==> smallest_dimension(dim1, dim2) == smallest_dimension(
            dim2,
            dim1,
        ),
        area(dim1) == area(dim2) ==> smallest_dimension(dim1, dim2) == dim2
            && smallest_dimension(dim2, dim1) == dim1,
{
}

} // verus!
