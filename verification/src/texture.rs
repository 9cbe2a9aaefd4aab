//! The embedded image asset: decoding to 8-bit RGBA through the `image`
//! crate, and the upload plan for the resulting texture — linear
//! filtering, fragment-stage binding set at fixed slots 0 and 1.

use vstd::prelude::*;

verus! {

/// An image decoded to tightly packed 8-bit RGBA rows.
#[derive(Clone, Debug, PartialEq, Eq)]
pub struct DecodedImage {
    pub width: u32,
    pub height: u32,
    pub pixels: Vec<u8>,
}

impl DecodedImage {
    /// Four bytes per pixel, rows tightly packed.
    pub open spec fn wf(self) -> bool {
        self.pixels@.len() == 4 * self.width * self.height
    }
}

/// What decoding an image byte stream to 8-bit RGBA yields — width,
/// height and pixel bytes — or nothing when the stream is malformed. The
/// decoding is a pure function of the bytes.
pub uninterp spec fn rgba_decoding_of(bytes: Seq<u8>) -> Option<(u32, u32, Seq<u8>)>;

/// Relies on `image::load_from_memory` and `DynamicImage::to_rgba8`:
/// decoding depends on the input bytes alone, fails exactly on byte
/// streams no installed decoder accepts, and the RGBA buffer holds four
/// bytes per pixel of the decoded dimensions.
#[verifier::external_body]
pub(crate) fn decode_rgba(bytes: &Vec<u8>) -> (r: Option<DecodedImage>)
    ensures
        r matches Some(img) ==> rgba_decoding_of(bytes@) == Some(
            (img.width, img.height, img.pixels@),
        ) && img.wf(),
        r is None ==> rgba_decoding_of(bytes@) is None,
{
    match image::load_from_memory(bytes) {
        Ok(decoded) => {
            let rgba = decoded.to_rgba8();
            let width = rgba.width();
            let height = rgba.height();
            Some(DecodedImage { width, height, pixels: rgba.into_raw() })
        },
        Err(_) => None,
    }
}

/// How the decoded image is uploaded and bound: one two-dimensional
/// single-sample texture, tightly packed rows, a linear-filtering
/// sampler, and the {texture, sampler} binding set at fragment-stage
/// slots 0 and 1.
#[derive(Clone, Debug, PartialEq, Eq)]
pub struct TexturePlan {
    pub width: u32,
    pub height: u32,
    pub bytes_per_row: u64,
    pub rows_per_image: u32,
    pub pixels: Vec<u8>,
    pub texture_slot: u32,
    pub sampler_slot: u32,
    pub linear_filter: bool,
}

/// Whether a texture plan carries exactly this image — same extent, same
/// bytes, tightly packed four-byte rows — with linear filtering and the
/// fixed binding slots 0 (texture) and 1 (sampler).
pub open spec fn texture_plan_matches(
    t: TexturePlan,
    width: u32,
    height: u32,
    pixels: Seq<u8>,
) -> bool {
    &&& t.width == width
    &&& t.height == height
    &&& t.pixels@ == pixels
    &&& t.bytes_per_row == 4 * width
    &&& t.rows_per_image == height
    &&& t.texture_slot == 0
    &&& t.sampler_slot == 1
    &&& t.linear_filter
}

/// Build the upload-and-binding plan for a decoded image: the extent and
/// bytes are taken over unchanged, rows are tightly packed at four bytes
/// per pixel, filtering is linear, and the binding slots are the fixed
/// 0 (texture) and 1 (sampler).
pub fn build_texture_plan(image_data: DecodedImage) -> (t: TexturePlan)
    requires
        image_data.wf(),
    ensures
        texture_plan_matches(t, image_data.width, image_data.height, image_data.pixels@),
        t.width == image_data.width,
        t.height == image_data.height,
        t.pixels@ == image_data.pixels@,
        t.bytes_per_row == 4 * image_data.width,
        t.rows_per_image == image_data.height,
        t.pixels@.len() == t.bytes_per_row * t.rows_per_image,
        t.texture_slot == 0,
        t.sampler_slot == 1,
        t.linear_filter,
{
    let bytes_per_row: u64 = 4u64 * (image_data.width as u64);
    TexturePlan {
        width: image_data.width,
        height: image_data.height,
        bytes_per_row,
        rows_per_image: image_data.height,
        pixels: image_data.pixels,
        texture_slot: 0,
        sampler_slot: 1,
        linear_filter: true,
    }
}

} // verus!
