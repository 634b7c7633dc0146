use vstd::prelude::*;
use crate::data_url::{base64_len, base64_of, data_url_spec, encode_image};

verus! {

/// The contents of an image file found on disk, with the extension of its
/// file name when it has one.
pub struct ImageFile {
    pub ext: Option<String>,
    pub bytes: Vec<u8>,
}

/// The view of an optional owned string.
pub open spec fn opt_string_view(s: Option<String>) -> Option<Seq<char>> {
    match s {
        Some(e) => Some(e@),
        None => None,
    }
}

impl ImageFile {
    /// Whether the base64 text of this image fits in memory.
    pub open spec fn encodable(&self) -> bool {
        base64_len(self.bytes@.len()) <= usize::MAX
    }

    /// The data URL that embeds this image.
    pub open spec fn url_spec(&self) -> Seq<char> {
        data_url_spec(opt_string_view(self.ext), base64_of(self.bytes@))
    }

    /// Embeds this image in a `data:` URL.
    pub fn data_url(&self) -> (r: String)
        requires
            self.encodable(),
        ensures
            r@ == self.url_spec(),
    {
        let ext: Option<&str> = match &self.ext {
            Some(e) => Some(e.as_str()),
            None => None,
        };
        encode_image(ext, self.bytes.as_slice())
    }
}

/// An optional image that, when present, can be encoded.
pub open spec fn opt_encodable(img: Option<ImageFile>) -> bool {
    match img {
        Some(i) => i.encodable(),
        None => true,
    }
}

} // verus!
