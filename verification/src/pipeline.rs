use vstd::prelude::*;
use vstd::arithmetic::div_mod::lemma_mod_multiples_basic;
use image::ImageFormat;
use crate::artifact::FloatingImage;
use crate::dimensions::smallest_dimension;
use crate::errors::ImageErrors;
use crate::interleave::swap_pixels;
use crate::raster::check_formats;
use crate::raster::rgba_bytes;
use crate::raster::standardize_image;
use crate::raster::RasterImage;

verus! {

/// Flattens both images to RGBA bytes and interleaves them pixel by
/// pixel along the flat byte offset. The byte-level alternation itself
/// is the contract of `swap_pixels`; here only the length of the
/// combined buffer can be pinned down, since the pixel contents live
/// behind the opaque image handles.
pub fn combine_images(image_1: RasterImage, image_2: RasterImage) -> (r: Vec<u8>)
    requires
        image_1.spec_dimensions() == image_2.spec_dimensions(),
        image_1.spec_width() * image_1.spec_height() * 4 <= usize::MAX,
    ensures
        r@.len() == image_1.spec_width() * image_1.spec_height() * 4,
{
    let pixel_area: usize = (image_1.width() as usize) * (image_1.height() as usize);
    let byte_count: usize = pixel_area * 4;
    proof {
        lemma_mod_multiples_basic(pixel_area as int, 4);
    }

    let mut vector_1 = rgba_bytes(&image_1);
    let mut vector_2 = rgba_bytes(&image_2);
    vector_1.truncate(byte_count);
    vector_2.truncate(byte_count);

    swap_pixels(vector_1, vector_2)
}

/// Runs the whole pipeline over two decoded images: the format gate,
/// then dimension reconciliation, then pixel interleaving, then
/// assembly of the output artifact. A format mismatch halts everything
/// before any resampling; on matching formats the artifact carries the
/// reconciled dimensions, the given name, and a buffer of exactly one
/// RGBA pixel per cell.
pub fn combine_pipeline(
    image_1: RasterImage,
    image_2: RasterImage,
    format_1: &ImageFormat,
    format_2: &ImageFormat,
    name: String,
) -> (r: Result<FloatingImage, ImageErrors>)
    requires
        image_1.spec_width() >= 1,
        image_1.spec_height() >= 1,
        image_2.spec_width() >= 1,
        image_2.spec_height() >= 1,
        image_1.spec_width() * image_1.spec_height() * 4 <= usize::MAX,
        image_2.spec_width() * image_2.spec_height() * 4 <= usize::MAX,
    ensures
        *format_1 != *format_2 ==> r == Err::<FloatingImage, ImageErrors>(
            ImageErrors::DifferentImageFormat,
        ),
        *format_1 == *format_2 ==> r is Ok && ({
            let out = r->Ok_0;
            &&& out.spec_dimensions() == smallest_dimension(
                image_1.spec_dimensions(),
                image_2.spec_dimensions(),
            )
            &&& out.spec_data().len() == out.spec_width() * out.spec_height() * 4
            &&& out.spec_name() == name@
            &&& out.well_formed()
        }),
{
    match check_formats(format_1, format_2) {
        Err(e) => {
            return Err(e);
        },
        Ok(()) => {},
    }

    let (image_1, image_2) = standardize_image(image_1, image_2);

    let mut output = FloatingImage::new(image_1.width(), image_1.height(), name);

    let combined = combine_images(image_1, image_2);

    match output.set_data(combined) {
        Err(e) => {
            return Err(e);
        },
        Ok(()) => {},
    }

    Ok(output)
}

} // verus!
