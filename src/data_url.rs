use base64::Engine;
use vstd::prelude::*;

verus! {

/// The standard, padded base64 text of `b`.
pub uninterp spec fn base64_of(b: Seq<u8>) -> Seq<char>;

/// Length of the padded base64 text of `n` bytes: four characters for
/// each started group of three.
pub open spec fn base64_len(n: nat) -> nat {
    4 * ((n + 2) / 3)
}

/// Relies on `base64::engine::general_purpose::STANDARD.encode`: the padded
/// standard-alphabet text of the bytes, which depends on the bytes alone and
/// has four characters per started group of three bytes. It panics when
/// that length does not fit in `usize`, which `requires` leaves out.
#[verifier::external_body]
fn encode_base64(bytes: &[u8]) -> (r: String)
    requires
        base64_len(bytes@.len()) <= usize::MAX,
    ensures
        r@ == base64_of(bytes@),
        r@.len() == base64_len(bytes@.len()),
{
    base64::engine::general_purpose::STANDARD.encode(bytes)
}

/// The view of an optional string.
pub open spec fn opt_view(s: Option<&str>) -> Option<Seq<char>> {
    match s {
        Some(e) => Some(e@),
        None => None,
    }
}

/// The MIME type announced for a file with extension `ext`; unknown or
/// missing extensions are treated as PNG.
pub open spec fn mime_of(ext: Option<Seq<char>>) -> Seq<char> {
    match ext {
        Some(e) => if e == "jpg"@ || e == "jpeg"@ {
            "image/jpeg"@
        } else if e == "gif"@ {
            "image/gif"@
        } else if e == "webp"@ {
            "image/webp"@
        } else {
            "image/png"@
        },
        None => "image/png"@,
    }
}

/// The data URL that embeds already encoded base64 text `encoded` with
/// the MIME type of extension `ext`.
pub open spec fn data_url_spec(ext: Option<Seq<char>>, encoded: Seq<char>) -> Seq<char> {
    "data:"@ + mime_of(ext) + ";base64,"@ + encoded
}

fn is_ext(e: &str, name: &str) -> (r: bool)
    ensures
        r == (e@ == name@),
{
    let a = String::from_str(e);
    let b = String::from_str(name);
    a.eq(&b)
}

/// The MIME type for an image file's extension.
pub fn mime_type(ext: Option<&str>) -> (r: &'static str)
    ensures
        r@ == mime_of(opt_view(ext)),
{
    match ext {
        Some(e) => {
            if is_ext(e, "jpg") || is_ext(e, "jpeg") {
                "image/jpeg"
            } else if is_ext(e, "gif") {
                "image/gif"
            } else if is_ext(e, "webp") {
                "image/webp"
            } else {
                "image/png"
            }
        },
        None => "image/png",
    }
}

/// Builds the data URL for base64 text that has already been produced.
pub fn data_url_from_base64(ext: Option<&str>, encoded: &str) -> (r: String)
    ensures
        r@ == data_url_spec(opt_view(ext), encoded@),
{
    let mut url = String::from_str("data:");
    url.append(mime_type(ext));
    url.append(";base64,");
    url.append(encoded);
    url
}

/// Embeds the bytes of an image file whose extension is `ext` in a
/// `data:` URL with the matching MIME type.
pub fn encode_image(ext: Option<&str>, bytes: &[u8]) -> (r: String)
    requires
        base64_len(bytes@.len()) <= usize::MAX,
    ensures
        r@ == data_url_spec(opt_view(ext), base64_of(bytes@)),
{
    let encoded = encode_base64(bytes);
    data_url_from_base64(ext, encoded.as_str())
}

} // verus!
