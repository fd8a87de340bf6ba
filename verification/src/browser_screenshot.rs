//! Screenshot values and their encodings.
//!
//! A screenshot is an owned block of encoded image bytes with its format
//! and dimensions. Turning it into transportable text (base64, data URLs)
//! and re-encoding it (resize, JPEG compression) are computed here;
//! capturing pixels from a live page is remote-procedure work that lives
//! with the caller.

use base64::Engine;
use vstd::prelude::*;

verus! {

/// Errors of screenshot handling.
#[derive(Debug)]
pub enum ScreenshotError {
    /// The capture itself failed.
    CaptureFailed(String),
    /// The image could not be processed.
    ProcessingError(String),
    /// The requested format is invalid.
    InvalidFormat(String),
    /// Re-encoding failed.
    EncodingError(String),
}

/// Encoded image format of a screenshot.
#[derive(Debug, Clone, Copy, PartialEq, Eq, Structural)]
pub enum ScreenshotFormat {
    Png,
    Jpeg,
}

impl Default for ScreenshotFormat {
    /// PNG.
    fn default() -> (r: ScreenshotFormat)
        ensures
            r == ScreenshotFormat::Png,
    {
        ScreenshotFormat::Png
    }
}

/// The base64 text of a byte block under the standard alphabet with
/// padding. The encoding is a function of the bytes alone.
pub uninterp spec fn base64_of(bytes: Seq<u8>) -> Seq<char>;

/// The bytes of an image re-encoded at a new size; a function of the
/// input bytes, the size and the target format alone.
pub uninterp spec fn resized_image(bytes: Seq<u8>, width: u32, height: u32, png: bool) -> Seq<u8>;

/// The bytes of an image re-encoded as JPEG at a quality; a function of
/// the input bytes and the quality alone.
pub uninterp spec fn compressed_jpeg(bytes: Seq<u8>, quality: u8) -> Seq<u8>;

/// The MIME type of a format.
pub open spec fn mime_of(format: ScreenshotFormat) -> Seq<char> {
    if format == ScreenshotFormat::Png {
        "image/png"@
    } else {
        "image/jpeg"@
    }
}

/// A captured screenshot: encoded bytes with their format and size.
#[derive(Debug, Clone)]
pub struct Screenshot {
    /// Encoded image bytes (PNG or JPEG).
    pub data: Vec<u8>,
    /// Encoded format.
    pub format: ScreenshotFormat,
    /// Width in pixels.
    pub width: u32,
    /// Height in pixels.
    pub height: u32,
    /// Length of the encoded bytes.
    pub size_bytes: usize,
}

/// Relies on `image::load_from_memory`, `DynamicImage::resize`
/// (Lanczos3) and `DynamicImage::write_to`: decode the bytes, resize
/// within the box, re-encode in the given format. Deterministic in its
/// arguments; fails when the bytes do not decode or the encoder rejects
/// the image.
#[verifier::external_body]
fn resize_image_bytes(data: &Vec<u8>, width: u32, height: u32, png: bool) -> (r: Result<
    Vec<u8>,
    ScreenshotError,
>)
    ensures
        r matches Ok(v) ==> v@ == resized_image(data@, width, height, png),
{
    let img = image::load_from_memory(data).map_err(
        |e| ScreenshotError::ProcessingError(e.to_string()),
    )?;
    let resized = img.resize(width, height, image::imageops::FilterType::Lanczos3);
    let format = if png {
        image::ImageFormat::Png
    } else {
        image::ImageFormat::Jpeg
    };
    let mut buffer: Vec<u8> = Vec::new();
    resized.write_to(&mut std::io::Cursor::new(&mut buffer), format).map_err(
        |e| ScreenshotError::EncodingError(e.to_string()),
    )?;
    Ok(buffer)
}

/// Relies on `image::load_from_memory`, `DynamicImage::to_rgb8` and
/// `image::codecs::jpeg::JpegEncoder::new_with_quality`/`encode_image`:
/// decode the bytes and re-encode them as JPEG at the given quality
/// (capped at 100). The encoder takes its dimensions and layout from the
/// decoded image itself, so the only failure is bytes that do not decode.
/// Deterministic in the bytes and the quality.
#[verifier::external_body]
fn compress_jpeg_bytes(data: &Vec<u8>, quality: u8) -> (r: Result<Vec<u8>, ScreenshotError>)
    ensures
        r matches Ok(v) ==> v@ == compressed_jpeg(data@, quality),
{
    let img = image::load_from_memory(data).map_err(
        |e| ScreenshotError::ProcessingError(e.to_string()),
    )?;
    let capped = if quality > 100 {
        100
    } else {
        quality
    };
    let mut buffer: Vec<u8> = Vec::new();
    let mut encoder = image::codecs::jpeg::JpegEncoder::new_with_quality(&mut buffer, capped);
    encoder.encode_image(&img.to_rgb8()).map_err(
        |e| ScreenshotError::EncodingError(e.to_string()),
    )?;
    Ok(buffer)
}

impl Screenshot {
    /// Relies on base64's standard engine (`STANDARD.encode`): four output
    /// characters for every three input bytes, padded, a function of the
    /// bytes alone.
    #[verifier::external_body]
    pub fn to_base64(&self) -> (r: String)
        ensures
            r@ == base64_of(self.data@),
            r@.len() == 4 * ((self.data@.len() + 2) / 3),
    {
        base64::engine::general_purpose::STANDARD.encode(&self.data)
    }

    /// The data URL of the screenshot: `data:<mime>;base64,<encoding>`.
    pub fn to_data_url(&self) -> (r: String)
        ensures
            r@ == "data:"@ + mime_of(self.format) + ";base64,"@ + base64_of(self.data@),
    {
        let mime: &str = match self.format {
            ScreenshotFormat::Png => "image/png",
            ScreenshotFormat::Jpeg => "image/jpeg",
        };
        let encoded = self.to_base64();
        let r = String::from_str("data:").concat(mime).concat(";base64,").concat(
            encoded.as_str(),
        );
        proof {
            assert(r@ =~= "data:"@ + mime_of(self.format) + ";base64,"@ + base64_of(self.data@));
        }
        r
    }

    /// Re-encode the screenshot at a new size; on failure the screenshot
    /// is unchanged.
    pub fn resize(&mut self, width: u32, height: u32) -> (r: Result<(), ScreenshotError>)
        ensures
            r is Ok ==> {
                &&& final(self).data@ == resized_image(
                    old(self).data@,
                    width,
                    height,
                    old(self).format == ScreenshotFormat::Png,
                )
                &&& final(self).width == width
                &&& final(self).height == height
                &&& final(self).size_bytes == final(self).data@.len()
                &&& final(self).format == old(self).format
            },
            r is Err ==> *final(self) == *old(self),
    {
        let png = match self.format {
            ScreenshotFormat::Png => true,
            ScreenshotFormat::Jpeg => false,
        };
        match resize_image_bytes(&self.data, width, height, png) {
            Ok(buffer) => {
                let n = buffer.len();
                self.data = buffer;
                self.width = width;
                self.height = height;
                self.size_bytes = n;
                Ok(())
            },
            Err(e) => Err(e),
        }
    }

    /// Re-encode a JPEG screenshot at a lower quality; a PNG screenshot is
    /// rejected, and on failure the screenshot is unchanged.
    pub fn compress(&mut self, quality: u8) -> (r: Result<(), ScreenshotError>)
        ensures
            old(self).format != ScreenshotFormat::Jpeg ==> (r matches Err(
                ScreenshotError::ProcessingError(_),
            ) && *final(self) == *old(self)),
            old(self).format == ScreenshotFormat::Jpeg && r is Ok ==> {
                &&& final(self).data@ == compressed_jpeg(old(self).data@, quality)
                &&& final(self).size_bytes == final(self).data@.len()
                &&& final(self).width == old(self).width
                &&& final(self).height == old(self).height
                &&& final(self).format == old(self).format
            },
            r is Err ==> *final(self) == *old(self),
    {
        match self.format {
            ScreenshotFormat::Jpeg => (),
            _ => {
                return Err(
                    ScreenshotError::ProcessingError(
                        "Compression only supported for JPEG".to_owned(),
                    ),
                );
            },
        }
        match compress_jpeg_bytes(&self.data, quality) {
            Ok(buffer) => {
                let n = buffer.len();
                self.data = buffer;
                self.size_bytes = n;
                Ok(())
            },
            Err(e) => Err(e),
        }
    }
}

/// Marker for the capture side of the harness: taking a [`Screenshot`]
/// from a live page is remote-procedure work that lives with the caller,
/// which hands the captured bytes back as a [`Screenshot`] value.
pub struct ScreenshotCapturer;

} // verus!
