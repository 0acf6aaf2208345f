//! The scannable code shown to the end user: a QR code for a URI, as the
//! base64 text of a grayscale PNG. Rendering is best effort: a code that
//! cannot be made yields nothing, and never stops a transaction.

use vstd::prelude::*;
use vstd::utf8::encode_utf8;
use crate::gateway::{base64_len, base64_of, encode_base64};

verus! {

/// Whether qrcode accepts the bytes for a QR code (they fit its largest
/// version).
pub uninterp spec fn qr_accepts(b: Seq<u8>) -> bool;

/// The QR code that qrcode draws for the bytes, as 8-bit gray pixels row by
/// row, with the width and height.
pub uninterp spec fn qr_image_of(b: Seq<u8>) -> (Seq<u8>, u32, u32);

/// The PNG that image writes for 8-bit gray pixels of the given size, or
/// none where the encoder reports a failure.
pub uninterp spec fn png_of(pixels: Seq<u8>, width: u32, height: u32) -> Option<Seq<u8>>;

/// Relies on qrcode::QrCode::new to encode the bytes, which fails when they
/// do not fit in a QR code, and on qrcode's renderer with image's 8-bit gray
/// pixels (`render::<Luma<u8>>().build()`) to draw it: one byte per pixel.
#[verifier::external_body]
fn qr_gray_image(b: &[u8]) -> (r: Option<(Vec<u8>, u32, u32)>)
    ensures
        r is Some <==> qr_accepts(b@),
        r matches Some(img) ==> (img.0@, img.1, img.2) == qr_image_of(b@),
        r matches Some(img) ==> img.0@.len() == img.1 * img.2,
{
    let code = qrcode::QrCode::new(b).ok()?;
    let img = code.render::<image::Luma<u8>>().build();
    let (w, h) = img.dimensions();
    Some((img.into_raw(), w, h))
}

/// Relies on image's PngEncoder to write 8-bit gray pixels as PNG; the
/// bytes depend on the pixels and size alone.
#[verifier::external_body]
fn encode_gray_png(pixels: &[u8], width: u32, height: u32) -> (r: Option<Vec<u8>>)
    requires
        pixels@.len() == width * height,
    ensures
        r is Some <==> png_of(pixels@, width, height) is Some,
        r matches Some(v) ==> png_of(pixels@, width, height) == Some(v@),
{
    let mut buf = Vec::new();
    match image::png::PngEncoder::new(&mut buf).encode(pixels, width, height, image::ColorType::L8) {
        Ok(()) => Some(buf),
        Err(_) => None,
    }
}

/// The PNG of the QR code for the bytes, where both steps succeed.
pub open spec fn qr_png_of(b: Seq<u8>) -> Option<Seq<u8>> {
    if qr_accepts(b) {
        let img = qr_image_of(b);
        png_of(img.0, img.1, img.2)
    } else {
        None
    }
}

/// The PNG bytes as base64 text.
pub fn png_as_text(png: &Vec<u8>) -> (r: String)
    ensures
        r@ == base64_of(png@),
        r@.len() == base64_len(png@.len()),
{
    encode_base64(png.as_slice())
}

/// A QR code for `uri` as base64 PNG text; `None` where no code can be made
/// or the PNG cannot be written.
pub fn qr_code_png(uri: &str) -> (r: Option<String>)
    ensures
        r is Some <==> qr_png_of(encode_utf8(uri@)) is Some,
        r matches Some(t) ==> t@ == base64_of(qr_png_of(encode_utf8(uri@))->0),
{
    let b = uri.as_bytes();
    match qr_gray_image(b) {
        None => None,
        Some((pixels, width, height)) => match encode_gray_png(pixels.as_slice(), width, height) {
            Some(png) => Some(png_as_text(&png)),
            None => None,
        },
    }
}

} // verus!
