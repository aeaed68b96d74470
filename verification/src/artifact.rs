use vstd::prelude::*;
use crate::errors::ImageErrors;

verus! {

/// The output artifact: the target dimensions, a name for the encoder,
/// and the pixel buffer. The backing store is reserved up front for
/// `width * height * 4` bytes, and that reservation is recorded in
/// `capacity` so that an oversized buffer can be refused.
pub struct FloatingImage {
    width: u32,
    height: u32,
    data: Vec<u8>,
    name: String,
    capacity: usize,
}

impl FloatingImage {
    pub closed spec fn spec_width(&self) -> u32 {
        self.width
    }

    pub closed spec fn spec_height(&self) -> u32 {
        self.height
    }

    /// The `(width, height)` pair.
    pub open spec fn spec_dimensions(&self) -> (u32, u32) {
        (self.spec_width(), self.spec_height())
    }

    pub closed spec fn spec_name(&self) -> Seq<char> {
        self.name@
    }

    pub closed spec fn spec_data(&self) -> Seq<u8> {
        self.data@
    }

    pub closed spec fn spec_capacity(&self) -> usize {
        self.capacity
    }

    /// The reserved capacity is exactly one RGBA pixel per cell of the
    /// `width` by `height` grid.
    pub open spec fn well_formed(&self) -> bool {
        self.spec_capacity() == self.spec_width() * self.spec_height() * 4
    }

    /// Makes an empty artifact whose buffer has `width * height * 4`
    /// bytes reserved but no content written.
    pub fn new(width: u32, height: u32, name: String) -> (r: FloatingImage)
        requires
            width * height * 4 <= usize::MAX,
        ensures
            r.spec_width() == width,
            r.spec_height() == height,
            r.spec_name() == name@,
            r.spec_data() == Seq::<u8>::empty(),
            r.well_formed(),
    {
        let buffer_capacity: usize = (width as usize) * (height as usize) * 4;
        let buffer: Vec<u8> = Vec::with_capacity(buffer_capacity);
        FloatingImage { width, height, data: buffer, name, capacity: buffer_capacity }
    }

    /// Accepts `data` only when it fits within the reserved capacity: a
    /// larger buffer is refused with `BufferOverflow` and the artifact
    /// is left unchanged; anything that fits (an under-sized buffer
    /// included) replaces the artifact's buffer.
    pub fn set_data(&mut self, data: Vec<u8>) -> (r: Result<(), ImageErrors>)
        ensures
            data@.len() > old(self).spec_capacity() ==> ({
                &&& r == Err::<(), ImageErrors>(ImageErrors::BufferOverflow)
                &&& *final(self) == *old(self)
            }),
            data@.len() <= old(self).spec_capacity() ==> ({
                &&& r == Ok::<(), ImageErrors>(())
                &&& final(self).spec_data() == data@
                &&& final(self).spec_width() == old(self).spec_width()
                &&& final(self).spec_height() == old(self).spec_height()
                &&& final(self).spec_name() == old(self).spec_name()
                &&& final(self).spec_capacity() == old(self).spec_capacity()
            }),
    {
        if data.len() > self.capacity {
            return Err(ImageErrors::BufferOverflow);
        }
        self.data = data;

        Ok(())
    }

    /// The target width, for the encoder at the boundary.
    pub fn width(&self) -> (w: u32)
        ensures
            w == self.spec_width(),
    {
        self.width
    }

    /// The target height, for the encoder at the boundary.
    pub fn height(&self) -> (h: u32)
        ensures
            h == self.spec_height(),
    {
        self.height
    }

    /// The output name, for the encoder at the boundary.
    pub fn name(&self) -> (n: &String)
        ensures
            n@ == self.spec_name(),
    {
        &self.name
    }

    /// The assembled pixel buffer.
    pub fn data(&self) -> (d: &Vec<u8>)
        ensures
            d@ == self.spec_data(),
    {
        &self.data
    }
}

} // verus!
