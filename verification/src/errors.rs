use vstd::prelude::*;

verus! {

/// The failures the pipeline can report: input images whose declared
/// container formats differ, and interleaved data too large for the
/// output artifact's reserved capacity.
#[derive(Debug, PartialEq, Eq, Structural)]
pub enum ImageErrors {
    DifferentImageFormat,
    BufferOverflow,
}

} // verus!
