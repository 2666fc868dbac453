//! Screenshots: decoding the image a device sends back, as base64 text
//! from the JSON-RPC service or from `screencap -p | base64`, and choosing
//! the file format of a saved screenshot.
use vstd::prelude::*;

use base64::Engine;
use std::fmt::Write;

use crate::device::truncate_detail_spec;
use crate::error::Error;
use crate::text::{
    chars_of, contains_str, ends_with_str, is_whitespace, is_whitespace_exec, lower_chars,
    push_str, seq_contains, seq_ends_with, seq_starts_with, string_of, trim, trim_chars,
    unicode_lowercase,
};

verus! {

/// What the standard base64 engine decodes the text to, `None` where it
/// refuses the text.
pub uninterp spec fn base64_standard_decode(input: Seq<char>) -> Option<Seq<u8>>;

/// Whether `image::load_from_memory` decodes the bytes to an image.
pub uninterp spec fn image_decodes(bytes: Seq<u8>) -> bool;

/// Calls `Engine::decode` of `base64::engine::general_purpose::STANDARD`.
///
/// Trusted: the bytes, or the refusal, are those that
/// `base64_standard_decode` names for the text.
#[verifier::external_body]
fn decode_base64(input: &str) -> (r: Result<Vec<u8>, base64::DecodeError>)
    ensures
        match r {
            Ok(b) => base64_standard_decode(input@) == Some(b@),
            Err(_) => base64_standard_decode(input@) is None,
        },
{
    base64::engine::general_purpose::STANDARD.decode(input)
}

/// Writes a `base64::DecodeError` with `{}`.
///
/// Trusted: appends the text; what it says is left unstated.
#[verifier::external_body]
fn push_decode_error(out: &mut String, e: &base64::DecodeError)
    ensures
        seq_starts_with(final(out)@, old(out)@),
{
    let _ = write!(out, "{}", e);
}

/// Calls `image::load_from_memory`.
///
/// Trusted: it succeeds exactly where `image_decodes` holds of the bytes.
/// The image itself is not described.
#[verifier::external_body]
fn load_image(bytes: &[u8]) -> (r: Result<image::DynamicImage, image::ImageError>)
    ensures
        r is Ok <==> image_decodes(bytes@),
{
    image::load_from_memory(bytes)
}

/// An image from its encoded bytes (PNG or JPEG).
pub fn decode_image_bytes(bytes: &[u8]) -> (r: Result<image::DynamicImage, Error>)
    ensures
        r is Ok <==> image_decodes(bytes@),
        r matches Err(e) ==> e is Image,
{
    match load_image(bytes) {
        Ok(img) => Ok(img),
        Err(e) => Err(Error::Image(e)),
    }
}

/// The text without any whitespace character.
pub open spec fn strip_whitespace(s: Seq<char>) -> Seq<char>
    decreases s.len(),
{
    if s.len() == 0 {
        Seq::empty()
    } else if is_whitespace(s.last()) {
        strip_whitespace(s.drop_last())
    } else {
        strip_whitespace(s.drop_last()).push(s.last())
    }
}

fn strip_whitespace_exec(v: &Vec<char>) -> (r: Vec<char>)
    ensures
        r@ == strip_whitespace(v@),
{
    let mut r: Vec<char> = Vec::new();
    let mut i: usize = 0;
    while i < v.len()
        invariant
            i <= v@.len(),
            r@ == strip_whitespace(v@.take(i as int)),
        decreases v@.len() - i,
    {
        assert(v@.take(i + 1).drop_last() =~= v@.take(i as int));
        if !is_whitespace_exec(v[i]) {
            r.push(v[i]);
        }
        i = i + 1;
    }
    assert(v@.take(v@.len() as int) =~= v@);
    r
}

/// The lower-cased output of `screencap` says that the command failed.
pub open spec fn screencap_failed_text(t: Seq<char>) -> bool {
    let l = unicode_lowercase(t);
    ||| seq_contains(l, "not found"@)
    ||| seq_contains(l, "permission denied"@)
    ||| seq_contains(l, "inaccessible"@)
}

/// The image that `screencap -p | base64` printed: its output trimmed,
/// with all whitespace dropped, decoded as base64, then as an image.
pub fn decode_screencap_output(output: &str) -> (r: Result<image::DynamicImage, Error>)
    ensures
        ({
            let t = trim(output@);
            let payload = strip_whitespace(t);
            if t.len() == 0 {
                r matches Err(e) && e matches Error::Adb(m) && m@
                    == "adb screencap returned empty output"@
            } else if payload.len() == 0 {
                r matches Err(e) && e matches Error::Adb(m) && m@
                    == "adb screencap returned empty base64 payload"@
            } else {
                match base64_standard_decode(payload) {
                    Some(bytes) => (r is Ok <==> image_decodes(bytes)) && (r matches Err(e)
                        ==> e is Image),
                    None => if screencap_failed_text(t) {
                        r matches Err(e) && e matches Error::Adb(m) && m@
                            == "adb screencap command failed: "@ + truncate_detail_spec(t, 200)
                    } else {
                        r matches Err(e) && e matches Error::InvalidArgument(m) && seq_starts_with(
                            m@,
                            "failed to decode adb screencap base64 output: "@,
                        )
                    },
                }
            }
        }),
{
    let ov = chars_of(output);
    let t = trim_chars(&ov);
    if t.len() == 0 {
        let mut m = String::new();
        push_str(&mut m, "adb screencap returned empty output");
        return Err(Error::Adb(m));
    }
    let payload = strip_whitespace_exec(&t);
    if payload.len() == 0 {
        let mut m = String::new();
        push_str(&mut m, "adb screencap returned empty base64 payload");
        return Err(Error::Adb(m));
    }
    let text = string_of(&payload);
    match decode_base64(text.as_str()) {
        Ok(bytes) => match load_image(bytes.as_slice()) {
            Ok(img) => Ok(img),
            Err(e) => Err(Error::Image(e)),
        },
        Err(e) => {
            let l = lower_chars(&t);
            if contains_str(&l, "not found") || contains_str(&l, "permission denied")
                || contains_str(&l, "inaccessible") {
                let d = crate::device::truncate_error_detail(string_of(&t).as_str(), 200);
                let mut m = String::new();
                push_str(&mut m, "adb screencap command failed: ");
                push_str(&mut m, d.as_str());
                return Err(Error::Adb(m));
            }
            let mut m = String::new();
            push_str(&mut m, "failed to decode adb screencap base64 output: ");
            push_decode_error(&mut m, &e);
            Err(Error::InvalidArgument(m))
        },
    }
}

/// The image in a JSON-RPC `screenshot` answer, given as its string value
/// (`None` when the answer is not a JSON string): base64, then an image.
pub fn decode_jsonrpc_screenshot_response(response: Option<&str>) -> (r: Result<
    image::DynamicImage,
    Error,
>)
    ensures
        match response {
            None => r matches Err(e) && e matches Error::InvalidArgument(m) && m@
                == "截图响应不是字符串"@,
            Some(s) => match base64_standard_decode(s@) {
                None => r matches Err(e) && e matches Error::InvalidArgument(m) && seq_starts_with(
                    m@,
                    "Base64 解码失败: "@,
                ),
                Some(bytes) => (r is Ok <==> image_decodes(bytes)) && (r matches Err(e)
                    ==> e is Image),
            },
        },
{
    let s = match response {
        Some(s) => s,
        None => {
            let mut m = String::new();
            push_str(&mut m, "截图响应不是字符串");
            return Err(Error::InvalidArgument(m));
        },
    };
    match decode_base64(s) {
        Ok(bytes) => match load_image(bytes.as_slice()) {
            Ok(img) => Ok(img),
            Err(e) => Err(Error::Image(e)),
        },
        Err(e) => {
            let mut m = String::new();
            push_str(&mut m, "Base64 解码失败: ");
            push_decode_error(&mut m, &e);
            Err(Error::InvalidArgument(m))
        },
    }
}

/// The file formats a screenshot is saved in.
#[derive(Debug, Clone, Copy, PartialEq, Eq, Structural)]
pub enum ScreenshotFormat {
    /// PNG.
    Png,
    /// JPEG.
    Jpeg,
}

/// The format for a path: by its lower-cased extension, PNG where it is
/// neither `.png`, `.jpg` nor `.jpeg`.
pub open spec fn screenshot_format_spec(path: Seq<char>) -> ScreenshotFormat {
    let l = unicode_lowercase(path);
    if seq_ends_with(l, ".png"@) {
        ScreenshotFormat::Png
    } else if seq_ends_with(l, ".jpg"@) || seq_ends_with(l, ".jpeg"@) {
        ScreenshotFormat::Jpeg
    } else {
        ScreenshotFormat::Png
    }
}

/// The format a screenshot saved at `path` is written in.
pub fn screenshot_format_for_path(path: &str) -> (r: ScreenshotFormat)
    ensures
        r == screenshot_format_spec(path@),
{
    let pv = chars_of(path);
    let l = lower_chars(&pv);
    if ends_with_str(&l, ".png") {
        ScreenshotFormat::Png
    } else if ends_with_str(&l, ".jpg") || ends_with_str(&l, ".jpeg") {
        ScreenshotFormat::Jpeg
    } else {
        ScreenshotFormat::Png
    }
}

} // verus!
