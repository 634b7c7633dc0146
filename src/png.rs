use vstd::prelude::*;

verus! {

/// The big-endian unsigned integer held by four bytes.
pub open spec fn be_u32(b0: u8, b1: u8, b2: u8, b3: u8) -> int {
    b0 as int * 0x1000000 + b1 as int * 0x10000 + b2 as int * 0x100 + b3 as int
}

/// Whether `s` starts like a PNG file: byte 0x89 followed by `PNG`.
pub open spec fn has_png_magic(s: Seq<u8>) -> bool {
    s.len() >= 4 && s[0] == 0x89u8 && s[1] == 0x50u8 && s[2] == 0x4eu8 && s[3] == 0x47u8
}

/// The width recorded in a PNG's IHDR chunk: bytes 16 to 19, big-endian,
/// when the data holds at least a signature and a full IHDR header.
pub open spec fn png_width_spec(s: Seq<u8>) -> Option<u32> {
    if s.len() < 24 || !has_png_magic(s) {
        None
    } else {
        Some(be_u32(s[16], s[17], s[18], s[19]) as u32)
    }
}

/// Reads an image's pixel width from its PNG header, or `None` when the
/// data is too short or does not carry the PNG signature.
pub fn png_width(data: &[u8]) -> (r: Option<u32>)
    ensures
        r == png_width_spec(data@),
        r matches Some(w) ==> w as int == be_u32(data@[16], data@[17], data@[18], data@[19]),
{
    if data.len() < 24 {
        return None;
    }
    if data[0] != 0x89u8 || data[1] != 0x50u8 || data[2] != 0x4eu8 || data[3] != 0x47u8 {
        return None;
    }
    let b0 = data[16] as u32;
    let b1 = data[17] as u32;
    let b2 = data[18] as u32;
    let b3 = data[19] as u32;
    proof {
        assert(0 <= be_u32(data@[16], data@[17], data@[18], data@[19]) < 0x1_0000_0000) by (nonlinear_arith)
            requires
                data@[16] <= 255, data@[17] <= 255, data@[18] <= 255, data@[19] <= 255;
    }
    Some(b0 * 0x1000000 + b1 * 0x10000 + b2 * 0x100 + b3)
}

} // verus!
