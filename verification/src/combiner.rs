//! Combining two images into one by alternating their pixels.
//!
//! The pixel arithmetic is verified over plain byte buffers; decoding,
//! resizing, and re-encoding go through the image crate behind trusted
//! wrappers, since a decoded image is opaque here.

use vstd::prelude::*;
use image::DynamicImage;
use image::GenericImageView;

verus! {

/// The two command-line image paths and the output path.
#[derive(Debug)]
pub struct Args {
    pub image_1: String,
    pub image_2: String,
    pub output: String,
}

impl Args {
    /// Bundles the three paths.
    pub fn new(image_1: String, image_2: String, output: String) -> (a: Self)
        ensures
            a.image_1 == image_1,
            a.image_2 == image_2,
            a.output == output,
    {
        Args { image_1, image_2, output }
    }
}

/// What can go wrong while combining.
#[derive(Debug, Clone, Copy, PartialEq, Eq, Structural)]
pub enum ImageDataErrors {
    DifferentImageFormats,
    BufferTooSmall,
}

/// An output image under construction: its dimensions, its pixel buffer,
/// and the file name it will be written to.
#[derive(Debug)]
pub struct FloatingImage {
    pub width: u32,
    pub height: u32,
    pub data: Vec<u8>,
    pub name: String,
}

impl FloatingImage {
    /// How many bytes the image's RGBA buffer may hold.
    pub open spec fn buffer_capacity(&self) -> int {
        self.width * self.height * 4
    }

    /// An empty image of the given dimensions.
    pub fn new(width: u32, height: u32, name: String) -> (r: Self)
        requires
            width * height * 4 <= u32::MAX,
        ensures
            r.width == width,
            r.height == height,
            r.name == name,
            r.data@.len() == 0,
    {
        let buffer_capacity = width * height * 4;
        let buffer: Vec<u8> = Vec::with_capacity(buffer_capacity as usize);
        FloatingImage { width, height, data: buffer, name }
    }

    /// Installs a pixel buffer, refusing one larger than the image's
    /// capacity.
    pub fn set_data(&mut self, data: Vec<u8>) -> (r: Result<(), ImageDataErrors>)
        requires
            old(self).width * old(self).height * 4 <= u32::MAX,
        ensures
            r == Ok::<(), ImageDataErrors>(()) <==> data@.len() <= old(self).buffer_capacity(),
            r == Ok::<(), ImageDataErrors>(()) ==> final(self).data == data
                && final(self).width == old(self).width && final(self).height == old(self).height
                && final(self).name == old(self).name,
            r == Err::<(), ImageDataErrors>(ImageDataErrors::BufferTooSmall) ==> *final(self)
                == *old(self),
    {
        let capacity = self.width * self.height * 4;
        if data.len() > capacity as usize {
            return Err(ImageDataErrors::BufferTooSmall);
        }
        self.data = data;
        Ok(())
    }
}

/// Of two pixel grids, the dimensions of the one with more pixels; despite
/// the name, ties go to the second.
pub fn get_smaller_dimensions(dim1: (u32, u32), dim2: (u32, u32)) -> (r: (u32, u32))
    requires
        dim1.0 * dim1.1 <= u32::MAX,
        dim2.0 * dim2.1 <= u32::MAX,
    ensures
        r == if dim1.0 * dim1.1 > dim2.0 * dim2.1 {
            dim1
        } else {
            dim2
        },
{
    let pixels_1 = dim1.0 * dim1.1;
    let pixels_2 = dim2.0 * dim2.1;
    if pixels_1 > pixels_2 {
        dim1
    } else {
        dim2
    }
}

/// Four consecutive bytes of a buffer: one RGBA pixel.
pub fn set_rgba(vec: &Vec<u8>, start: usize, end: usize) -> (rgba: Vec<u8>)
    requires
        start <= end < vec@.len(),
    ensures
        rgba@ == vec@.subrange(start as int, end + 1),
{
    let mut rgba: Vec<u8> = Vec::new();
    let n = vec.len();
    let mut i: usize = start;
    while i <= end
        invariant
            start <= i <= end + 1,
            end < n,
            n == vec@.len(),
            rgba@ =~= vec@.subrange(start as int, i as int),
        decreases end + 1 - i,
    {
        let val = vec[i];
        rgba.push(val);
        proof {
            assert(rgba@ =~= vec@.subrange(start as int, i + 1));
        }
        i += 1;
    }
    rgba
}

/// Which buffer the pixel block at byte position `i` is drawn from: blocks
/// alternate every four bytes, starting with the first buffer.
pub open spec fn from_first_buffer(i: int) -> bool {
    (i / 4) % 2 == 0
}

/// Interleaves two equally laid-out RGBA buffers, taking every other
/// four-byte pixel from each.
pub fn alternate_pixels(vec_1: Vec<u8>, vec_2: Vec<u8>) -> (combined: Vec<u8>)
    requires
        vec_1@.len() % 4 == 0,
        vec_2@.len() >= vec_1@.len(),
    ensures
        combined@.len() == vec_1@.len(),
        forall|k: int|
            0 <= k < combined@.len() ==> combined@[k] == (if from_first_buffer(k) {
                vec_1@[k]
            } else {
                vec_2@[k]
            }),
{
    let mut combined_data: Vec<u8> = Vec::new();
    let mut i: usize = 0;
    while i < vec_1.len()
        invariant
            i <= vec_1@.len(),
            i % 4 == 0,
            vec_1@.len() % 4 == 0,
            vec_2@.len() >= vec_1@.len(),
            combined_data@.len() == i,
            forall|k: int|
                0 <= k < i ==> combined_data@[k] == (if from_first_buffer(k) {
                    vec_1@[k]
                } else {
                    vec_2@[k]
                }),
        decreases vec_1@.len() - i,
    {
        let mut block = if i % 8 == 0 {
            set_rgba(&vec_1, i, i + 3)
        } else {
            set_rgba(&vec_2, i, i + 3)
        };
        combined_data.append(&mut block);
        proof {
            assert forall|k: int| 0 <= k < i + 4 implies combined_data@[k] == (if from_first_buffer(
                k,
            ) {
                vec_1@[k]
            } else {
                vec_2@[k]
            }) by {
                if i <= k < i + 4 {
                    assert(k / 4 == i / 4);
                    assert(from_first_buffer(k) == (i % 8 == 0)) by (nonlinear_arith)
                        requires
                            k / 4 == i / 4,
                            i % 4 == 0,
                            0 <= i <= k,
                            from_first_buffer(k) == ((k / 4) % 2 == 0),
                    ;
                }
            }
        }
        i += 4;
    }
    combined_data
}

/// A decoded image from the image crate; opaque to verification.
#[verifier::external_type_specification]
#[verifier::external_body]
pub struct ExDynamicImage(DynamicImage);

/// Relies on image::GenericImageView::dimensions for DynamicImage: returns
/// the image's width and height.
#[verifier::external_body]
fn image_dimensions(image: &DynamicImage) -> (dim: (u32, u32)) {
    image.dimensions()
}

/// Relies on image::DynamicImage::resize_exact with the Triangle filter:
/// returns the image resampled to exactly the given dimensions.
#[verifier::external_body]
fn image_resize_exact(image: &DynamicImage, width: u32, height: u32) -> (r: DynamicImage) {
    image.resize_exact(width, height, image::imageops::FilterType::Triangle)
}

/// Relies on image::DynamicImage::to_rgba8 and ImageBuffer::into_vec: the
/// buffer holds four bytes for each of the image's pixels.
#[verifier::external_body]
fn image_rgba_bytes(image: DynamicImage) -> (r: Vec<u8>)
    ensures
        r@.len() % 4 == 0,
{
    image.to_rgba8().into_vec()
}

/// Shrinks whichever image is smaller in pixel count to the other's
/// dimensions, so that both come out the same size.
pub fn standardise_image_size(image_1: DynamicImage, image_2: DynamicImage) -> (r: (
    DynamicImage,
    DynamicImage,
))
{
    let dim1 = image_dimensions(&image_1);
    let dim2 = image_dimensions(&image_2);
    let pixels_1_fit = dim1.0 <= 0xFFFF && dim1.1 <= 0xFFFF;
    let pixels_2_fit = dim2.0 <= 0xFFFF && dim2.1 <= 0xFFFF;
    if !pixels_1_fit || !pixels_2_fit {
        return (image_1, image_2);
    }
    proof {
        assert(dim1.0 * dim1.1 <= 0xFFFF * 0xFFFF) by (nonlinear_arith)
            requires
                dim1.0 <= 0xFFFF,
                dim1.1 <= 0xFFFF,
        ;
        assert(dim2.0 * dim2.1 <= 0xFFFF * 0xFFFF) by (nonlinear_arith)
            requires
                dim2.0 <= 0xFFFF,
                dim2.1 <= 0xFFFF,
        ;
    }
    let (width, height) = get_smaller_dimensions(dim1, dim2);
    if dim1.0 == width && dim1.1 == height {
        let resized = image_resize_exact(&image_2, width, height);
        (image_1, resized)
    } else {
        let resized = image_resize_exact(&image_1, width, height);
        (resized, image_2)
    }
}

/// Interleaves the RGBA pixels of two decoded images, first one first.
/// `None` when the second image's buffer is shorter than the first's, which
/// the alternation cannot fill.
pub fn combine_images(image_1: DynamicImage, image_2: DynamicImage) -> (r: Option<Vec<u8>>)
    ensures
        (match r {
            Some(v) => v@.len() % 4 == 0,
            None => true,
        }),
{
    let vec_1 = image_rgba_bytes(image_1);
    let vec_2 = image_rgba_bytes(image_2);
    if vec_2.len() < vec_1.len() {
        return None;
    }
    Some(alternate_pixels(vec_1, vec_2))
}

} // verus!
