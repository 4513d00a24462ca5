//! Image format selection and decoding, through the `image` crate.

use vstd::prelude::*;

verus! {

#[verifier::external_type_specification]
pub struct ExImageFormat(image::ImageFormat);

/// Pixels in 8-bit RGBA order, row by row.
pub struct DecodedImage {
    pub width: u32,
    pub height: u32,
    pub pixels: Vec<u8>,
}

impl DecodedImage {
    /// The image's width and height.
    pub open spec fn dimensions(&self) -> (u32, u32) {
        (self.width, self.height)
    }
}

/// The format that a MIME type names, if any.
pub open spec fn mime_format(mime: Seq<char>) -> Option<image::ImageFormat> {
    if mime == "image/avif"@ {
        Some(image::ImageFormat::Avif)
    } else if mime == "image/jpeg"@ {
        Some(image::ImageFormat::Jpeg)
    } else if mime == "image/png"@ {
        Some(image::ImageFormat::Png)
    } else if mime == "image/gif"@ {
        Some(image::ImageFormat::Gif)
    } else if mime == "image/webp"@ {
        Some(image::ImageFormat::WebP)
    } else if mime == "image/tiff"@ {
        Some(image::ImageFormat::Tiff)
    } else if mime == "image/x-targa"@ || mime == "image/x-tga"@ {
        Some(image::ImageFormat::Tga)
    } else if mime == "image/vnd-ms.dds"@ {
        Some(image::ImageFormat::Dds)
    } else if mime == "image/bmp"@ {
        Some(image::ImageFormat::Bmp)
    } else if mime == "image/x-icon"@ {
        Some(image::ImageFormat::Ico)
    } else if mime == "image/vnd.radiance"@ {
        Some(image::ImageFormat::Hdr)
    } else if mime == "image/x-exr"@ {
        Some(image::ImageFormat::OpenExr)
    } else if mime == "image/x-portable-bitmap"@ || mime == "image/x-portable-graymap"@
        || mime == "image/x-portable-pixmap"@ || mime == "image/x-portable-anymap"@ {
        Some(image::ImageFormat::Pnm)
    } else if mime == "image/x-qoi"@ {
        Some(image::ImageFormat::Qoi)
    } else {
        None
    }
}

/// The format that the leading bytes of an encoded image announce, if any.
pub uninterp spec fn sniffed_format(bytes: Seq<u8>) -> Option<image::ImageFormat>;

/// Width and height of the image that `bytes` hold in `format`, if they decode.
/// The pixel values themselves are left unnamed: some decoders pick a code path
/// by the processor they run on, and their output differs between paths.
pub uninterp spec fn decoded_dimensions(bytes: Seq<u8>, format: image::ImageFormat) -> Option<
    (u32, u32),
>;

/// Relies on `image::ImageFormat::from_mime_type`: a fixed table of MIME types.
#[verifier::external_body]
pub(crate) fn format_of_mime(mime: &str) -> (r: Option<image::ImageFormat>)
    ensures
        r == mime_format(mime@),
{
    image::ImageFormat::from_mime_type(mime)
}

/// Relies on `image::guess_format`: the format follows from the leading bytes alone.
#[verifier::external_body]
pub(crate) fn sniff_format(bytes: &[u8]) -> (r: Option<image::ImageFormat>)
    ensures
        r == sniffed_format(bytes@),
{
    image::guess_format(bytes).ok()
}

/// Relies on `image::load_from_memory_with_format`, whether it succeeds and the
/// size it reports depending on the bytes and the format alone, and on
/// `DynamicImage::to_rgba8`, which fills a new `ImageBuffer::new(width, height)`
/// of four bytes per pixel.
#[verifier::external_body]
pub(crate) fn decode_rgba(bytes: &[u8], format: image::ImageFormat) -> (r: Option<DecodedImage>)
    ensures
        r.is_some() == decoded_dimensions(bytes@, format).is_some(),
        r.is_some() ==> r->0.dimensions() == decoded_dimensions(bytes@, format)->0,
        r.is_some() ==> r->0.pixels@.len() == 4 * r->0.width * r->0.height,
{
    image::load_from_memory_with_format(bytes, format).ok().map(|img| {
        let rgba = img.to_rgba8();
        DecodedImage { width: rgba.width(), height: rgba.height(), pixels: rgba.into_raw() }
    })
}

} // verus!
