use vstd::prelude::*;

use crate::vector::Vector;

verus! {

/// An 8-bit RGB pixel.
pub type Pixel = Vector<3, u8>;

/// A byte encoding of a row-major pixel buffer.
pub trait ImageFormat {
    /// The bytes that encode `data`, a `width` by `height` row-major buffer.
    spec fn encoding(data: Seq<Pixel>, width: nat, height: nat) -> Seq<u8>;

    fn serialize_to_bytes(data: &[Pixel], width: usize, height: usize) -> (r: Vec<u8>)
        requires
            data@.len() == width * height,
        ensures
            r@ == Self::encoding(data@, width as nat, height as nat),
    ;
}

/// A finished render: `width * height` pixels in row-major order.
pub struct Image {
    pub width: usize,
    pub height: usize,
    pub pixels: Vec<Pixel>,
}

impl Image {
    /// The pixel buffer holds exactly one pixel per image position.
    pub open spec fn wf(&self) -> bool {
        self.pixels@.len() == self.width * self.height
    }

    /// Encodes the image with the format `Format`.
    pub fn serialize_to_bytes<Format: ImageFormat>(&self) -> (r: Vec<u8>)
        requires
            self.wf(),
        ensures
            r@ == Format::encoding(self.pixels@, self.width as nat, self.height as nat),
    {
        Format::serialize_to_bytes(self.pixels.as_slice(), self.width, self.height)
    }
}

} // verus!
