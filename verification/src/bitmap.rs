use crate::develop::RasterView;
use crate::error::DecodeError;
use crate::frame::Raster;
use image::ImageFormat;
use vstd::prelude::*;

verus! {

#[verifier::external_type_specification]
#[verifier::external_body]
pub struct ExImageError(image::ImageError);

#[verifier::external_type_specification]
pub struct ExImageFormat(ImageFormat);

/// What `image` decodes from the bytes of a file and hands on as 8-bit RGBA:
/// the width, the height and the bytes, or nothing where it does not take
/// the bytes for an image that it can read.
pub uninterp spec fn decoded_rgba8(bytes: Seq<u8>) -> Option<(u32, u32, Seq<u8>)>;

/// `image::load_from_memory` followed by `DynamicImage::to_rgba8`: the width,
/// the height and the RGBA bytes of the decoded image. Trusted: they are a
/// function of the bytes, named [`decoded_rgba8`]; nothing is assumed of how
/// the three belong together.
#[verifier::external_body]
fn decode_rgba8(buf: &[u8]) -> (r: Result<(u32, u32, Vec<u8>), image::ImageError>)
    ensures
        r is Ok <==> decoded_rgba8(buf@) is Some,
        r matches Ok(decoded) ==> decoded_rgba8(buf@) == Some((decoded.0, decoded.1, decoded.2@)),
{
    let rgba = image::load_from_memory(buf)?.to_rgba8();
    Ok((rgba.width(), rgba.height(), rgba.into_raw()))
}

/// The format that `image` guesses from the signature at the start of a
/// buffer, if it knows the signature.
pub uninterp spec fn sniffed_format(bytes: Seq<u8>) -> Option<ImageFormat>;

/// `image::guess_format`. Trusted: the guess is a function of the bytes,
/// named [`sniffed_format`].
#[verifier::external_body]
fn guess_format(buf: &[u8]) -> (r: Result<ImageFormat, image::ImageError>)
    ensures
        r is Ok <==> sniffed_format(buf@) is Some,
        r matches Ok(format) ==> sniffed_format(buf@) == Some(format),
{
    image::guess_format(buf)
}

/// The raster that a decoder's output makes: its bytes if they are four for
/// each pixel of positive dimensions.
pub open spec fn spec_raster(decoded: Option<(u32, u32, Vec<u8>)>) -> Result<Raster, DecodeError> {
    match decoded {
        None => Err(DecodeError::NotThisFormat),
        Some((width, height, data)) => if width > 0 && height > 0 && data@.len() == width * height
            * 4 {
            Ok(Raster { width, height, data })
        } else {
            Err(DecodeError::MalformedBuffer)
        },
    }
}

/// Checks what a decoder returned and makes a raster of it.
pub fn raster_from_decoded(decoded: Option<(u32, u32, Vec<u8>)>) -> (r: Result<Raster, DecodeError>)
    ensures
        r == spec_raster(decoded),
        r matches Ok(raster) ==> raster.wf(),
{
    match decoded {
        None => Err(DecodeError::NotThisFormat),
        Some((width, height, data)) => Raster::from_rgba(width, height, data),
    }
}

/// What decoding a buffer as a bitmap gives, from what the decoder made of
/// it: its image if the bytes are four for each pixel of positive
/// dimensions.
pub open spec fn spec_bitmap_outcome(decoded: Option<(u32, u32, Seq<u8>)>) -> Result<
    RasterView,
    DecodeError,
> {
    match decoded {
        None => Err(DecodeError::NotThisFormat),
        Some((width, height, data)) => if width > 0 && height > 0 && data.len() == width * height
            * 4 {
            Ok(RasterView { width: width as int, height: height as int, data })
        } else {
            Err(DecodeError::MalformedBuffer)
        },
    }
}

/// Decodes any of the common bitmap formats into 8-bit RGBA.
pub fn load_image_fallback(buf: &[u8]) -> (r: Result<Raster, DecodeError>)
    ensures
        match spec_bitmap_outcome(decoded_rgba8(buf@)) {
            Ok(view) => r matches Ok(raster) && raster.wf() && raster@ == view,
            Err(e) => r matches Err(f) && f == e,
        },
{
    match decode_rgba8(buf) {
        Ok(decoded) => raster_from_decoded(Some(decoded)),
        Err(_) => raster_from_decoded(None),
    }
}

/// Decodes any of the common bitmap formats into 8-bit RGBA.
pub fn load_image_default(buf: &Vec<u8>) -> (r: Result<Raster, DecodeError>)
    ensures
        match spec_bitmap_outcome(decoded_rgba8(buf@)) {
            Ok(view) => r matches Ok(raster) && raster.wf() && raster@ == view,
            Err(e) => r matches Err(f) && f == e,
        },
{
    load_image_fallback(buf.as_slice())
}

/// The label of a bitmap format: its name in capitals.
pub open spec fn spec_format_label(format: ImageFormat) -> Seq<char> {
    match format {
        ImageFormat::Png => "PNG"@,
        ImageFormat::Jpeg => "JPEG"@,
        ImageFormat::Gif => "GIF"@,
        ImageFormat::WebP => "WEBP"@,
        ImageFormat::Pnm => "PNM"@,
        ImageFormat::Tiff => "TIFF"@,
        ImageFormat::Tga => "TGA"@,
        ImageFormat::Dds => "DDS"@,
        ImageFormat::Bmp => "BMP"@,
        ImageFormat::Ico => "ICO"@,
        ImageFormat::Hdr => "HDR"@,
        ImageFormat::OpenExr => "OPENEXR"@,
        ImageFormat::Farbfeld => "FARBFELD"@,
        ImageFormat::Avif => "AVIF"@,
        ImageFormat::Qoi => "QOI"@,
        _ => "UNKNOWN"@,
    }
}

/// The label of a bitmap format.
pub fn format_label(format: ImageFormat) -> (r: &'static str)
    ensures
        r@ == spec_format_label(format),
{
    match format {
        ImageFormat::Png => "PNG",
        ImageFormat::Jpeg => "JPEG",
        ImageFormat::Gif => "GIF",
        ImageFormat::WebP => "WEBP",
        ImageFormat::Pnm => "PNM",
        ImageFormat::Tiff => "TIFF",
        ImageFormat::Tga => "TGA",
        ImageFormat::Dds => "DDS",
        ImageFormat::Bmp => "BMP",
        ImageFormat::Ico => "ICO",
        ImageFormat::Hdr => "HDR",
        ImageFormat::OpenExr => "OPENEXR",
        ImageFormat::Farbfeld => "FARBFELD",
        ImageFormat::Avif => "AVIF",
        ImageFormat::Qoi => "QOI",
        _ => "UNKNOWN",
    }
}

/// The label that the signature of a buffer gives, if it is a known one.
pub open spec fn spec_sniffed_label(bytes: Seq<u8>) -> Option<Seq<char>> {
    match sniffed_format(bytes) {
        Some(format) => Some(spec_format_label(format)),
        None => None,
    }
}

/// Names the bitmap format of a buffer by the signature at its start.
pub fn sniff_label(buf: &[u8]) -> (r: Option<&'static str>)
    ensures
        r is Some <==> spec_sniffed_label(buf@) is Some,
        r matches Some(label) ==> spec_sniffed_label(buf@) == Some(label@),
{
    match guess_format(buf) {
        Ok(format) => Some(format_label(format)),
        Err(_) => None,
    }
}

} // verus!
