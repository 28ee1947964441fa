use vstd::prelude::*;
use vstd::string::StringExecFns;

use crate::canvas::{canvas_wf, Canvas};

verus! {

/// The JPEG encoding of a row-major RGB buffer with the given dimensions at
/// the given quality, as produced by the `image` crate.  It is a function of
/// the arguments alone.
pub uninterp spec fn jpeg_bytes(data: Seq<u8>, width: u32, height: u32, quality: u8) -> Seq<u8>;

/// The standard-alphabet, padded base64 encoding of `bytes`.
pub uninterp spec fn base64_chars(bytes: Seq<u8>) -> Seq<char>;

/// The data-URI header every encoded captcha starts with.
pub open spec fn mime_prefix() -> Seq<char> {
    "data:image/jpeg;base64,"@
}

/// An image could not be serialized to JPEG.
#[derive(Clone, Copy, Debug, PartialEq, Eq, Structural)]
pub struct EncodeError;

/// Relies on `image`'s JPEG encoder, reached through
/// `DynamicImage::write_to` with `ImageOutputFormat::Jpeg`: the encoder
/// writes a function of the pixel data, the dimensions and the quality into
/// the buffer (quality is clamped internally, still a function of the
/// argument).  Writing into an in-memory cursor cannot fail and RGB input is
/// always supported, so the one failure, reported instead of panicking, is a
/// dimension the format cannot hold: a width or height above 65535.
#[verifier::external_body]
fn jpeg_encode_call(canvas: &Canvas, quality: u8) -> (r: Option<Vec<u8>>)
    requires
        canvas_wf(canvas@),
    ensures
        r is Some <==> (canvas@.width <= 65535 && canvas@.height <= 65535),
        r matches Some(v) ==> v@ == jpeg_bytes(canvas@.data, canvas@.width, canvas@.height, quality),
{
    let img = image::ImageBuffer::<image::Rgb<u8>, Vec<u8>>::from_raw(
        canvas.width,
        canvas.height,
        canvas.data.clone(),
    ).unwrap();
    let dynimg = image::DynamicImage::ImageRgb8(img);
    let mut buf = std::io::Cursor::new(Vec::new());
    match dynimg.write_to(&mut buf, image::ImageOutputFormat::Jpeg(quality)) {
        Ok(()) => Some(buf.into_inner()),
        Err(_) => None,
    }
}

/// Relies on `base64::engine::general_purpose::STANDARD`: it encodes with the
/// standard alphabet and padding, so the output is a function of the input
/// bytes alone and spans four characters for every started group of three
/// input bytes.
#[verifier::external_body]
fn base64_encode_call(bytes: &Vec<u8>) -> (r: String)
    ensures
        r@ == base64_chars(bytes@),
        r@.len() == 4 * ((bytes@.len() + 2) / 3),
{
    base64::Engine::encode(&base64::engine::general_purpose::STANDARD, bytes)
}

/// Wraps already-encoded image bytes as a data URI: the MIME header followed
/// by the base64 encoding of the bytes.
pub fn package_data_uri(bytes: &Vec<u8>) -> (s: String)
    ensures
        s@ == mime_prefix() + base64_chars(bytes@),
        s@.len() == mime_prefix().len() + 4 * ((bytes@.len() + 2) / 3),
        s@.subrange(0, mime_prefix().len() as int) == mime_prefix(),
{
    let mut s = String::from_str("data:image/jpeg;base64,");
    let tail = base64_encode_call(bytes);
    s.append(tail.as_str());
    proof {
        assert(s@.subrange(0, mime_prefix().len() as int) =~= mime_prefix());
    }
    s
}

/// Serializes the canvas to JPEG at the given quality and wraps it as a
/// `data:image/jpeg;base64,` URI; fails exactly when the underlying JPEG
/// serialization fails, that is, when a dimension exceeds what the format
/// can hold.
pub fn to_base64_str(canvas: &Canvas, compression: u8) -> (r: Result<String, EncodeError>)
    requires
        canvas_wf(canvas@),
    ensures
        r is Ok <==> (canvas@.width <= 65535 && canvas@.height <= 65535),
        r matches Ok(s) ==> s@ == mime_prefix() + base64_chars(
            jpeg_bytes(canvas@.data, canvas@.width, canvas@.height, compression),
        ),
        r matches Ok(s) ==> s@.subrange(0, mime_prefix().len() as int) == mime_prefix(),
{
    match jpeg_encode_call(canvas, compression) {
        Some(bytes) => Ok(package_data_uri(&bytes)),
        None => Err(EncodeError),
    }
}

} // verus!
