//! Screenshots: when a capture may be attempted, how failed captures are
//! retried, and how pixels travel over the socket (JPEG, then base64).

use vstd::prelude::*;
use vstd::string::*;

use crate::server::ScreenshotData;
use crate::text::{contains_str, decimal, has_substring, push_decimal, push_str};

verus! {

// ---------------------------------------------------------------------------
// Capture preconditions
// ---------------------------------------------------------------------------

/// Why a capture did not produce pixels.
#[derive(Debug, Clone, PartialEq, Eq)]
pub enum CaptureFailure {
    NotRealized,
    NotMapped,
    NoNativeSurface,
    NoAllocatedSize,
    NoVisibleContent,
    NoRenderer,
    SavePng(String),
    DecodePng(String),
}

/// The message a capture failure is reported with.
pub open spec fn capture_failure_text_spec(f: CaptureFailure) -> Seq<char> {
    match f {
        CaptureFailure::NotRealized => "Widget is not realized"@,
        CaptureFailure::NotMapped => "Widget is not mapped (not visible)"@,
        CaptureFailure::NoNativeSurface => "Widget has no native surface"@,
        CaptureFailure::NoAllocatedSize => "Widget has no allocated size"@,
        CaptureFailure::NoVisibleContent => "Failed to create render node: widget has no visible content to render"@,
        CaptureFailure::NoRenderer => "Native has no renderer"@,
        CaptureFailure::SavePng(e) => "Failed to save PNG: "@ + e@,
        CaptureFailure::DecodePng(e) => "Failed to decode PNG: "@ + e@,
    }
}

/// The message a capture failure is reported with.
pub fn capture_failure_text(f: &CaptureFailure) -> (s: String)
    ensures
        s@ == capture_failure_text_spec(*f),
{
    match f {
        CaptureFailure::NotRealized => String::from_str("Widget is not realized"),
        CaptureFailure::NotMapped => String::from_str("Widget is not mapped (not visible)"),
        CaptureFailure::NoNativeSurface => String::from_str("Widget has no native surface"),
        CaptureFailure::NoAllocatedSize => String::from_str("Widget has no allocated size"),
        CaptureFailure::NoVisibleContent => String::from_str(
            "Failed to create render node: widget has no visible content to render",
        ),
        CaptureFailure::NoRenderer => String::from_str("Native has no renderer"),
        CaptureFailure::SavePng(e) => {
            let mut s = String::from_str("Failed to save PNG: ");
            push_str(&mut s, e.as_str());
            s
        },
        CaptureFailure::DecodePng(e) => {
            let mut s = String::from_str("Failed to decode PNG: ");
            push_str(&mut s, e.as_str());
            s
        },
    }
}

/// The checks made before rendering a widget, in order: it must be realized,
/// mapped, have a native surface, and have a positive allocated size.
pub open spec fn capture_precheck_spec(
    realized: bool,
    mapped: bool,
    has_native: bool,
    width: i32,
    height: i32,
) -> Result<(), CaptureFailure> {
    if !realized {
        Err(CaptureFailure::NotRealized)
    } else if !mapped {
        Err(CaptureFailure::NotMapped)
    } else if !has_native {
        Err(CaptureFailure::NoNativeSurface)
    } else if width <= 0 || height <= 0 {
        Err(CaptureFailure::NoAllocatedSize)
    } else {
        Ok(())
    }
}

/// Whether a widget in the given state may be rendered for a screenshot.
pub fn capture_precheck(realized: bool, mapped: bool, has_native: bool, width: i32, height: i32) -> (r:
    Result<(), CaptureFailure>)
    ensures
        r == capture_precheck_spec(realized, mapped, has_native, width, height),
{
    if !realized {
        Err(CaptureFailure::NotRealized)
    } else if !mapped {
        Err(CaptureFailure::NotMapped)
    } else if !has_native {
        Err(CaptureFailure::NoNativeSurface)
    } else if width <= 0 || height <= 0 {
        Err(CaptureFailure::NoAllocatedSize)
    } else {
        Ok(())
    }
}

// ---------------------------------------------------------------------------
// Retrying captures
// ---------------------------------------------------------------------------

/// A failure that may go away on its own (an animation, a window that is
/// still being shown), so that another attempt is worth making.
pub open spec fn is_transient_spec(error: Seq<char>) -> bool {
    has_substring(error, "no visible content"@) || has_substring(error, "not realized"@)
        || has_substring(error, "not mapped"@)
}

/// Whether another capture attempt is worth making after this error.
pub fn is_transient_capture_error(error: &str) -> (b: bool)
    ensures
        b == is_transient_spec(error@),
{
    contains_str(error, "no visible content") || contains_str(error, "not realized")
        || contains_str(error, "not mapped")
}

/// The error reported once every attempt has failed.
pub open spec fn retries_exhausted_spec(last_error: Seq<char>, max_attempts: u32) -> Seq<char> {
    last_error + " (after "@ + decimal(max_attempts as nat) + " attempts)"@
}

/// The error reported once every attempt has failed:
/// `{last_error} (after {max_attempts} attempts)`.
pub fn retries_exhausted(last_error: &str, max_attempts: u32) -> (s: String)
    ensures
        s@ == retries_exhausted_spec(last_error@, max_attempts),
{
    let mut s = String::from_str(last_error);
    push_str(&mut s, " (after ");
    push_decimal(&mut s, max_attempts as u64);
    push_str(&mut s, " attempts)");
    assert(s@ =~= retries_exhausted_spec(last_error@, max_attempts));
    s
}

/// What to do after a capture attempt failed.
#[derive(Debug, Clone, PartialEq, Eq)]
pub enum RetryStep {
    /// Wait the configured delay, then make the next attempt.
    TryAgain,
    /// Stop and report this error.
    GiveUp(String),
}

/// The decision before any capture attempt is made, for at most
/// `max_attempts` attempts: with no attempts allowed, give up at once with
/// the exhausted-retries error for an empty last error; otherwise make the
/// first attempt.
pub fn before_first_attempt(max_attempts: u32) -> (step: RetryStep)
    ensures
        max_attempts == 0 ==> (step matches RetryStep::GiveUp(e) && e@ == retries_exhausted_spec(
            Seq::empty(),
            0,
        )),
        max_attempts > 0 ==> step is TryAgain,
{
    if max_attempts == 0 {
        let e = retries_exhausted("", 0);
        assert(""@ =~= Seq::<char>::empty()) by {
            reveal_strlit("");
        }
        RetryStep::GiveUp(e)
    } else {
        RetryStep::TryAgain
    }
}

pub open spec fn after_failed_attempt_spec(attempt: u32, max_attempts: u32, error: Seq<char>) -> Option<
    Seq<char>,
> {
    if !is_transient_spec(error) {
        Some(error)
    } else if attempt < max_attempts {
        None
    } else {
        Some(retries_exhausted_spec(error, max_attempts))
    }
}

/// The decision after attempt number `attempt` (counting from 1) of at most
/// `max_attempts` failed with `error`: a lasting failure is reported at once;
/// a transient one is retried while attempts remain, and otherwise reported
/// with the number of attempts made.
pub fn after_failed_attempt(attempt: u32, max_attempts: u32, error: String) -> (step: RetryStep)
    requires
        1 <= attempt <= max_attempts,
    ensures
        match step {
            RetryStep::TryAgain => after_failed_attempt_spec(attempt, max_attempts, error@) is None,
            RetryStep::GiveUp(e) => after_failed_attempt_spec(attempt, max_attempts, error@) == Some(
                e@,
            ),
        },
        step is TryAgain ==> attempt < max_attempts,
{
    if !is_transient_capture_error(error.as_str()) {
        RetryStep::GiveUp(error)
    } else if attempt < max_attempts {
        RetryStep::TryAgain
    } else {
        RetryStep::GiveUp(retries_exhausted(error.as_str(), max_attempts))
    }
}

// ---------------------------------------------------------------------------
// Encoding for the wire
// ---------------------------------------------------------------------------

/// The JPEG quality screenshots are sent with.
pub const SCREENSHOT_JPEG_QUALITY: u8 = 15;

/// `4 * width * height` fits in `usize` and the buffer holds that many bytes:
/// what `ImageBuffer::<Rgba<u8>, _>::from_raw` checks.
pub open spec fn rgba_fits(width: u32, height: u32, len: nat) -> bool {
    &&& 4 * width <= usize::MAX
    &&& 4 * width * height <= usize::MAX
    &&& 4 * width * height <= len
}

/// The RGB pixels of the first `width * height` RGBA pixels: each pixel's
/// red, green and blue bytes, in order, with its alpha byte dropped.
pub open spec fn rgb_of_rgba(width: u32, height: u32, rgba: Seq<u8>) -> Seq<u8> {
    Seq::new((3 * width * height) as nat, |i: int| rgba[4 * (i / 3) + i % 3])
}

/// The sizes the image crate's JPEG encoder accepts: each side from 1 to
/// 65535 pixels.
pub open spec fn jpeg_size_ok(width: u32, height: u32) -> bool {
    1 <= width <= 65535 && 1 <= height <= 65535
}

/// What the image crate's JPEG encoder at its default quality answers for
/// RGB pixels: success, or the text of its error.
pub uninterp spec fn jpeg_default_check(width: u32, height: u32, rgb: Seq<u8>) -> Result<(), Seq<char>>;

/// The JPEG bytes the image crate's encoder produces at a quality, or the
/// text of its error.
pub uninterp spec fn jpeg_encoding(width: u32, height: u32, rgb: Seq<u8>, quality: u8) -> Result<
    Seq<u8>,
    Seq<char>,
>;

/// Standard base64 (with padding) of bytes, as the base64 crate's
/// `general_purpose::STANDARD` engine encodes them.
pub uninterp spec fn base64_standard(bytes: Seq<u8>) -> Seq<char>;

/// What the base64 crate's `general_purpose::STANDARD` engine decodes from
/// text: the bytes, or the text of its error.
pub uninterp spec fn base64_standard_decoding(text: Seq<char>) -> Result<Seq<u8>, Seq<char>>;

pub open spec fn bytes_or_text(r: Result<Vec<u8>, String>) -> Result<Seq<u8>, Seq<char>> {
    match r {
        Ok(v) => Ok(v@),
        Err(e) => Err(e@),
    }
}

pub open spec fn unit_or_text(r: Result<(), String>) -> Result<(), Seq<char>> {
    match r {
        Ok(_) => Ok(()),
        Err(e) => Err(e@),
    }
}

/// `ImageBuffer::<Rgba<u8>, Vec<u8>>::from_raw`, handing the buffer back when
/// it is accepted. The image crate's source accepts it exactly when
/// `4 * width` and `4 * width * height` fit in `usize` and the buffer is at
/// least that long, and keeps the buffer as it is.
#[verifier::external_body]
fn rgba_from_raw(width: u32, height: u32, pixels: Vec<u8>) -> (r: Option<Vec<u8>>)
    ensures
        r is Some <==> rgba_fits(width, height, pixels@.len()),
        r matches Some(p) ==> p@ == pixels@,
{
    match image::RgbaImage::from_raw(width, height, pixels) {
        Some(img) => Some(img.into_raw()),
        None => None,
    }
}

/// `DynamicImage::to_rgb8` on an RGBA image made of these pixels. In the
/// image crate's source, an 8-bit RGBA buffer in sRGB is cast to RGB channel
/// by channel over its first `width * height` pixels, keeping red, green and
/// blue and dropping alpha.
#[verifier::external_body]
fn rgba_to_rgb8(width: u32, height: u32, pixels: Vec<u8>) -> (r: Vec<u8>)
    requires
        rgba_fits(width, height, pixels@.len()),
    ensures
        r@ == rgb_of_rgba(width, height, pixels@),
{
    let img = image::RgbaImage::from_raw(width, height, pixels).unwrap();
    image::DynamicImage::ImageRgba8(img).to_rgb8().into_raw()
}

/// `image::write_buffer_with_format` to JPEG at the default quality, into a
/// buffer that is then dropped (what `ImageBuffer::write_to` does for an RGB
/// image). The outcome is named; the error is handed back as its text. The
/// encoder panics unless the buffer holds exactly `3 * width * height` bytes;
/// otherwise it fails exactly when a side is 0 or above 65535, since writing
/// into memory cannot fail.
#[verifier::external_body]
fn jpeg_default_encode(width: u32, height: u32, rgb: &Vec<u8>) -> (r: Result<(), String>)
    requires
        rgb@.len() == 3 * width * height,
    ensures
        unit_or_text(r) == jpeg_default_check(width, height, rgb@),
        r is Ok <==> jpeg_size_ok(width, height),
{
    let mut sink = std::io::Cursor::new(Vec::new());
    match image::write_buffer_with_format(
        &mut sink,
        rgb.as_slice(),
        width,
        height,
        image::ExtendedColorType::Rgb8,
        image::ImageFormat::Jpeg,
    ) {
        Ok(()) => Ok(()),
        Err(e) => Err(e.to_string()),
    }
}

/// `JpegEncoder::new_with_quality(..).encode(..)` for RGB pixels. The bytes
/// (or the error's text) are named. The encoder panics unless the buffer holds
/// exactly `3 * width * height` bytes; otherwise it fails exactly when a side
/// is 0 or above 65535, since writing into a `Vec` cannot fail.
#[verifier::external_body]
fn jpeg_quality_encode(width: u32, height: u32, rgb: &Vec<u8>, quality: u8) -> (r: Result<
    Vec<u8>,
    String,
>)
    requires
        rgb@.len() == 3 * width * height,
    ensures
        bytes_or_text(r) == jpeg_encoding(width, height, rgb@, quality),
        r is Ok <==> jpeg_size_ok(width, height),
{
    let mut out = Vec::new();
    let mut encoder = image::codecs::jpeg::JpegEncoder::new_with_quality(&mut out, quality);
    match encoder.encode(rgb.as_slice(), width, height, image::ExtendedColorType::Rgb8) {
        Ok(()) => Ok(out),
        Err(e) => Err(e.to_string()),
    }
}

/// `general_purpose::STANDARD.encode` of the base64 crate. The text is named.
#[verifier::external_body]
fn base64_encode(bytes: &Vec<u8>) -> (r: String)
    ensures
        r@ == base64_standard(bytes@),
{
    base64::Engine::encode(&base64::engine::general_purpose::STANDARD, bytes)
}

/// `general_purpose::STANDARD.decode` of the base64 crate. The outcome is
/// named; the error is handed back as its text.
#[verifier::external_body]
fn base64_decode(text: &str) -> (r: Result<Vec<u8>, String>)
    ensures
        bytes_or_text(r) == base64_standard_decoding(text@),
{
    match base64::Engine::decode(&base64::engine::general_purpose::STANDARD, text) {
        Ok(bytes) => Ok(bytes),
        Err(e) => Err(e.to_string()),
    }
}

/// The text that prefixes JPEG encoder errors.
pub open spec fn jpeg_failure(e: Seq<char>) -> Seq<char> {
    "Failed to encode JPEG: "@ + e
}

/// The base64 text of a JPEG of the screenshot, or why there is none.
pub open spec fn encode_screenshot_spec(width: u32, height: u32, pixels: Seq<u8>, quality: u8) -> Result<
    Seq<char>,
    Seq<char>,
> {
    if !rgba_fits(width, height, pixels.len()) {
        Err("Invalid image dimensions"@)
    } else {
        let rgb = rgb_of_rgba(width, height, pixels);
        match jpeg_default_check(width, height, rgb) {
            Err(e) => Err(jpeg_failure(e)),
            Ok(_) => match jpeg_encoding(width, height, rgb, quality) {
                Err(e) => Err(jpeg_failure(e)),
                Ok(bytes) => Ok(base64_standard(bytes)),
            },
        }
    }
}

/// The JPEG that is sent has the captured size: its bytes are what the
/// encoder makes of the captured pixels with the width as the width and the
/// height as the height, at the asked quality.
pub proof fn lemma_sent_jpeg_has_captured_size(width: u32, height: u32, pixels: Seq<u8>, quality: u8)
    ensures
        encode_screenshot_spec(width, height, pixels, quality) matches Ok(t) ==> jpeg_encoding(
            width,
            height,
            rgb_of_rgba(width, height, pixels),
            quality,
        ) matches Ok(bytes) && t == base64_standard(bytes),
{
}

pub open spec fn text_result(r: Result<String, String>) -> Result<Seq<char>, Seq<char>> {
    match r {
        Ok(s) => Ok(s@),
        Err(e) => Err(e@),
    }
}

/// The JPEG error prefixed with `Failed to encode JPEG: `.
pub fn jpeg_failure_text(e: &str) -> (s: String)
    ensures
        s@ == jpeg_failure(e@),
{
    let mut s = String::from_str("Failed to encode JPEG: ");
    push_str(&mut s, e);
    s
}

/// What the JPEG encoder's outcome becomes on the wire: its bytes as
/// standard base64, or its error with the JPEG failure prefix.
pub fn jpeg_outcome_text(encoded: Result<Vec<u8>, String>) -> (r: Result<String, String>)
    ensures
        text_result(r) == match bytes_or_text(encoded) {
            Ok(bytes) => Ok(base64_standard(bytes)),
            Err(e) => Err(jpeg_failure(e)),
        },
{
    match encoded {
        Ok(bytes) => Ok(base64_encode(&bytes)),
        Err(e) => Err(jpeg_failure_text(e.as_str())),
    }
}

/// Encode screenshot data as JPEG and return its base64 text. It succeeds
/// exactly when the buffer holds `width * height` RGBA pixels and each side
/// is from 1 to 65535 pixels.
pub fn encode_screenshot_jpeg(data: &ScreenshotData, quality: u8) -> (r: Result<String, String>)
    ensures
        text_result(r) == encode_screenshot_spec(data.width, data.height, data.pixels@, quality),
        r is Ok <==> rgba_fits(data.width, data.height, data.pixels@.len()) && jpeg_size_ok(
            data.width,
            data.height,
        ),
        r matches Ok(t) ==> jpeg_encoding(
            data.width,
            data.height,
            rgb_of_rgba(data.width, data.height, data.pixels@),
            quality,
        ) matches Ok(bytes) && t@ == base64_standard(bytes),
{
    let pixels = match rgba_from_raw(data.width, data.height, data.pixels.clone()) {
        None => return Err(String::from_str("Invalid image dimensions")),
        Some(p) => p,
    };
    let rgb = rgba_to_rgb8(data.width, data.height, pixels);
    if let Err(e) = jpeg_default_encode(data.width, data.height, &rgb) {
        return Err(jpeg_failure_text(e.as_str()));
    }
    jpeg_outcome_text(jpeg_quality_encode(data.width, data.height, &rgb, quality))
}

/// Decode the base64 text of a screenshot back into its JPEG bytes.
pub fn decode_screenshot(text: &str) -> (r: Result<Vec<u8>, String>)
    ensures
        bytes_or_text(r) == base64_standard_decoding(text@),
{
    base64_decode(text)
}

} // verus!
