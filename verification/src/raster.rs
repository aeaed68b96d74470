use vstd::prelude::*;
use image::DynamicImage;
use image::GenericImageView;
use image::ImageFormat;
use crate::dimensions::get_smallest_dimension;
use crate::dimensions::smallest_dimension;
use crate::errors::ImageErrors;

verus! {

#[verifier::external_type_specification]
#[verifier::external_body]
pub struct ExDynamicImage(DynamicImage);

#[verifier::external_type_specification]
#[verifier::external_body]
pub struct ExImageFormat(ImageFormat);

/// A decoded raster image: its dimensions as plain values, beside the
/// decoded pixel data they describe.
///
/// Invariant, established by every constructor and relied on by the
/// trusted wrappers below: `handle` holds exactly `width` by `height`
/// pixels.
pub struct RasterImage {
    width: u32,
    height: u32,
    handle: DynamicImage,
}

impl RasterImage {
    pub closed spec fn spec_width(&self) -> u32 {
        self.width
    }

    pub closed spec fn spec_height(&self) -> u32 {
        self.height
    }

    /// The `(width, height)` pair.
    pub open spec fn spec_dimensions(&self) -> (u32, u32) {
        (self.spec_width(), self.spec_height())
    }

    /// Wraps a decoded image, reading the dimensions off the handle so
    /// that the recorded pair matches the pixel data.
    pub fn from_dynamic(handle: DynamicImage) -> RasterImage {
        let (width, height) = dimensions_of(&handle);
        RasterImage { width, height, handle }
    }

    pub fn width(&self) -> (w: u32)
        ensures
            w == self.spec_width(),
    {
        self.width
    }

    pub fn height(&self) -> (h: u32)
        ensures
            h == self.spec_height(),
    {
        self.height
    }

    pub fn dimensions(&self) -> (d: (u32, u32))
        ensures
            d == self.spec_dimensions(),
    {
        (self.width, self.height)
    }
}

/// Relies on `GenericImageView::dimensions` as `image::DynamicImage`
/// implements it: the `(width, height)` of the decoded pixel data.
#[verifier::external_body]
fn dimensions_of(handle: &DynamicImage) -> (u32, u32) {
    handle.dimensions()
}

/// Relies on `image::DynamicImage::resize_exact`: it resamples with the
/// triangular (bilinear) filter to exactly the requested dimensions,
/// ignoring aspect ratio.
#[verifier::external_body]
fn resize_to(image: &RasterImage, width: u32, height: u32) -> (r: RasterImage)
    requires
        width >= 1,
        height >= 1,
    ensures
        r.spec_width() == width,
        r.spec_height() == height,
{
    RasterImage {
        width,
        height,
        handle: image.handle.resize_exact(width, height, image::imageops::FilterType::Triangle),
    }
}

/// Relies on `image::DynamicImage::to_rgba8`: the returned buffer keeps
/// the image's own dimensions with 4 bytes per pixel, so it holds at
/// least `width * height * 4` bytes (and exactly that many for any
/// image the codec decodes).
#[verifier::external_body]
pub(crate) fn rgba_bytes(image: &RasterImage) -> (r: Vec<u8>)
    requires
        image.spec_width() * image.spec_height() * 4 <= usize::MAX,
    ensures
        r@.len() >= image.spec_width() * image.spec_height() * 4,
{
    image.handle.to_rgba8().into_raw()
}

/// Relies on `image::ImageFormat`'s derived `PartialEq`: for this
/// fieldless enum, `==` holds exactly when the two declared formats are
/// the same.
#[verifier::external_body]
fn formats_equal(format_1: &ImageFormat, format_2: &ImageFormat) -> (r: bool)
    ensures
        r == (*format_1 == *format_2),
{
    format_1 == format_2
}

/// The format gate: both inputs must carry the same declared container
/// format; a mismatch is refused with `DifferentImageFormat` before any
/// pixel work happens.
pub fn check_formats(format_1: &ImageFormat, format_2: &ImageFormat) -> (r: Result<
    (),
    ImageErrors,
>)
    ensures
        r == Ok::<(), ImageErrors>(()) <==> *format_1 == *format_2,
        *format_1 != *format_2 ==> r == Err::<(), ImageErrors>(ImageErrors::DifferentImageFormat),
{
    if formats_equal(format_1, format_2) {
        Ok(())
    } else {
        Err(ImageErrors::DifferentImageFormat)
    }
}

/// Reconciles the two images to the smaller-area dimensions: whichever
/// image does not already match the target is resampled exactly to it;
/// an image that matches the target passes through untouched.
pub fn standardize_image(image_1: RasterImage, image_2: RasterImage) -> (r: (
    RasterImage,
    RasterImage,
))
    requires
        image_1.spec_width() >= 1,
        image_1.spec_height() >= 1,
        image_2.spec_width() >= 1,
        image_2.spec_height() >= 1,
    ensures
        r.0.spec_dimensions() == smallest_dimension(
            image_1.spec_dimensions(),
            image_2.spec_dimensions(),
        ),
        r.1.spec_dimensions() == r.0.spec_dimensions(),
        image_1.spec_dimensions() == smallest_dimension(
            image_1.spec_dimensions(),
            image_2.spec_dimensions(),
        ) ==> r.0 == image_1,
        image_1.spec_dimensions() != smallest_dimension(
            image_1.spec_dimensions(),
            image_2.spec_dimensions(),
        ) ==> r.1 == image_2,
        image_1.spec_dimensions() == image_2.spec_dimensions() ==> r == (image_1, image_2),
{
    let (width, height) = get_smallest_dimension(image_1.dimensions(), image_2.dimensions());

    let dim_1 = image_1.dimensions();
    if dim_1.0 == width && dim_1.1 == height {
        let dim_2 = image_2.dimensions();
        if dim_2.0 == width && dim_2.1 == height {
            (image_1, image_2)
        } else {
            let resized = resize_to(&image_2, width, height);
            (image_1, resized)
        }
    } else {
        let resized = resize_to(&image_1, width, height);
        (resized, image_2)
    }
}

} // verus!
