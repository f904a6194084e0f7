//! The calls into the `image` crate that decode an image held in memory, in
//! the format that its file name gives, and convert it to single-channel luma samples.

use vstd::prelude::*;

verus! {

#[verifier::external_type_specification]
#[verifier::external_body]
pub struct ExImageError(image::ImageError);

/// Whether the extension of the file name `path` names a format and the image
/// crate decodes these bytes in it: the decoders and their limits are fixed.
pub uninterp spec fn image_decodes(path: Seq<char>, bytes: Seq<u8>) -> bool;

/// Width and height of the image that these bytes decode to, in the format
/// that `path` gives.
pub uninterp spec fn decoded_size(path: Seq<char>, bytes: Seq<u8>) -> (u32, u32);

/// The 8-bit luma samples, row by row, of the image that these bytes
/// decode to, in the format that `path` gives.
pub uninterp spec fn decoded_luma8(path: Seq<char>, bytes: Seq<u8>) -> Seq<u8>;

/// The 16-bit luma samples, row by row, of the image that these bytes
/// decode to, in the format that `path` gives.
pub uninterp spec fn decoded_luma16(path: Seq<char>, bytes: Seq<u8>) -> Seq<u16>;

/// Relies on `image::ImageFormat::from_path`, which takes the format from the
/// extension of `path`, on `image::load_from_memory_with_format`, which fails
/// exactly on the bytes that it cannot decode in that format, and on
/// `DynamicImage::to_luma8`, whose buffer keeps the
/// image's width and height and holds one sample per pixel, row by row.
#[verifier::external_body]
pub(crate) fn decode_luma8(path: &str, bytes: &[u8]) -> (
    r: Result<(u32, u32, Vec<u8>), image::ImageError>
)
    ensures
        r is Ok <==> image_decodes(path@, bytes@),
        r matches Ok(t) ==> (t.0, t.1) == decoded_size(path@, bytes@)
            && t.2@ == decoded_luma8(path@, bytes@) && t.2@.len() == t.0 * t.1,
{
    let format = image::ImageFormat::from_path(path)?;
    let buf = image::load_from_memory_with_format(bytes, format)?.to_luma8();
    Ok((buf.width(), buf.height(), buf.into_raw()))
}

/// Relies on `image::ImageFormat::from_path`, which takes the format from the
/// extension of `path`, on `image::load_from_memory_with_format`, which fails
/// exactly on the bytes that it cannot decode in that format, and on
/// `DynamicImage::to_luma16`, whose buffer keeps the
/// image's width and height and holds one sample per pixel, row by row.
#[verifier::external_body]
pub(crate) fn decode_luma16(path: &str, bytes: &[u8]) -> (
    r: Result<(u32, u32, Vec<u16>), image::ImageError>
)
    ensures
        r is Ok <==> image_decodes(path@, bytes@),
        r matches Ok(t) ==> (t.0, t.1) == decoded_size(path@, bytes@)
            && t.2@ == decoded_luma16(path@, bytes@) && t.2@.len() == t.0 * t.1,
{
    let format = image::ImageFormat::from_path(path)?;
    let buf = image::load_from_memory_with_format(bytes, format)?.to_luma16();
    Ok((buf.width(), buf.height(), buf.into_raw()))
}

} // verus!
