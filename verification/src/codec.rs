//! Image conversion on bytes: decode a source-format byte stream to RGBA
//! pixel data and re-encode it as PNG. The codec library is an opaque
//! capability reached through trusted wrappers; the conversion logic around
//! them is verified.

use vstd::prelude::*;

use crate::errors::AppError;

verus! {

/// Decoded pixel data: width, height, and the raw 8-bit RGBA samples,
/// row-major, four bytes per pixel.
pub struct Pixels {
    pub width: u32,
    pub height: u32,
    pub rgba: Vec<u8>,
}

impl Pixels {
    /// The raw buffer holds exactly four samples per pixel.
    pub open spec fn wf(self) -> bool {
        self.rgba@.len() == 4 * (self.width as int) * (self.height as int)
    }
}

/// What the codec library decodes a byte stream to: `None` where the bytes
/// are not a decodable image, otherwise the width, height and RGBA samples.
/// Decoding is a pure function of the bytes.
pub uninterp spec fn decoded_image(bytes: Seq<u8>) -> Option<(u32, u32, Seq<u8>)>;

/// The PNG encoding of the given RGBA pixel data.
pub uninterp spec fn png_encoding(width: u32, height: u32, rgba: Seq<u8>) -> Seq<u8>;

/// Relies on `image::ImageReader` (format guessed from the bytes, no
/// resource limits) followed by `DynamicImage::to_rgba8`: decoding depends
/// on the bytes alone, and the raw buffer of the decoded image holds
/// width * height * 4 samples.
#[verifier::external_body]
fn decode_rgba(bytes: &Vec<u8>) -> (r: Result<Pixels, String>)
    ensures
        match r {
            Ok(p) => decoded_image(bytes@) == Some((p.width, p.height, p.rgba@)) && p.wf(),
            Err(_) => decoded_image(bytes@) is None,
        },
{
    let mut reader = match image::ImageReader::new(std::io::Cursor::new(bytes))
        .with_guessed_format()
    {
        Ok(reader) => reader,
        Err(e) => return Err(e.to_string()),
    };
    reader.no_limits();
    match reader.decode() {
        Ok(img) => {
            let rgba = img.to_rgba8();
            let (width, height) = rgba.dimensions();
            Ok(Pixels { width, height, rgba: rgba.into_raw() })
        },
        Err(e) => Err(e.to_string()),
    }
}

/// Relies on `image::codecs::png::PngEncoder`: the encoding depends on the
/// pixel data alone, and PNG is lossless, so decoding the encoded bytes
/// yields the same dimensions and RGBA samples again. For a well-formed
/// buffer written to memory the encoder fails only on a zero dimension.
#[verifier::external_body]
fn encode_png(p: &Pixels) -> (r: Result<Vec<u8>, String>)
    requires
        p.wf(),
    ensures
        match r {
            Ok(out) => out@ == png_encoding(p.width, p.height, p.rgba@) && decoded_image(out@)
                == Some((p.width, p.height, p.rgba@)),
            Err(_) => p.width == 0 || p.height == 0,
        },
{
    let mut buf: Vec<u8> = Vec::new();
    let encoder = image::codecs::png::PngEncoder::new(&mut buf);
    match image::ImageEncoder::write_image(
        encoder,
        &p.rgba,
        p.width,
        p.height,
        image::ExtendedColorType::Rgba8,
    ) {
        Ok(()) => Ok(buf),
        Err(e) => Err(e.to_string()),
    }
}

/// Convert one source-format byte stream to PNG bytes.
///
/// Every byte stream that decodes to an image with positive dimensions is
/// converted: the output is the PNG encoding of the decoded pixel data, so
/// decoding the output yields exactly the pixels decoded from the input. A
/// byte stream that does not decode is rejected, and every failure is an
/// image error, never a filesystem error.
pub fn convert_png_bytes(source: &Vec<u8>) -> (r: Result<Vec<u8>, AppError>)
    ensures
        (r matches Ok(out) ==> decoded_image(source@) matches Some(d) && out@ == png_encoding(
            d.0,
            d.1,
            d.2,
        ) && decoded_image(out@) == decoded_image(source@)),
        (decoded_image(source@) matches Some(d) && d.0 > 0 && d.1 > 0) ==> r is Ok,
        decoded_image(source@) is None ==> r is Err,
        r matches Err(e) ==> e is Image,
{
    match decode_rgba(source) {
        Err(m) => Err(AppError::Image(m)),
        Ok(pixels) => match encode_png(&pixels) {
            Err(m) => Err(AppError::Image(m)),
            Ok(out) => Ok(out),
        },
    }
}

} // verus!
