use vstd::prelude::*;
use crate::errors::DrawError;

verus! {

/// Lower-case image of an ASCII byte; other bytes are unchanged.
pub open spec fn lower_byte_spec(b: u8) -> u8 {
    if 65 <= b && b <= 90 {
        (b + 32) as u8
    } else {
        b
    }
}

fn lower_byte(b: u8) -> (r: u8)
    ensures
        r == lower_byte_spec(b),
{
    if b >= 65 && b <= 90 {
        b + 32
    } else {
        b
    }
}

/// Whether a file name extension, as bytes, names an eligible image file:
/// exactly "jpg", compared without regard to ASCII case.
pub open spec fn is_jpg_ext_spec(s: Seq<u8>) -> bool {
    &&& s.len() == 3
    &&& lower_byte_spec(s[0]) == 106
    &&& lower_byte_spec(s[1]) == 112
    &&& lower_byte_spec(s[2]) == 103
}

/// The predicate the directory scan filters with: does this extension
/// denote an eligible image file?
pub fn is_jpg_extension(ext: &[u8]) -> (r: bool)
    ensures
        r == is_jpg_ext_spec(ext@),
{
    if ext.len() != 3 {
        return false;
    }
    lower_byte(ext[0]) == 106 && lower_byte(ext[1]) == 112 && lower_byte(ext[2]) == 103
}

/// Relies on rand::random: an arbitrary machine word. Nothing is promised
/// of the value.
#[verifier::external_body]
fn random_usize() -> usize {
    rand::random::<usize>()
}

/// Pick which enumerated candidate to draw, uniformly at random. An empty
/// enumeration is the configuration error of an exhausted directory; any
/// other yields an in-range index, whatever the randomness source
/// returned.
pub fn pick_source(files: &Vec<String>) -> (r: Result<usize, DrawError>)
    ensures
        files@.len() == 0 <==> r == Err::<usize, DrawError>(DrawError::EmptyDirectory),
        files@.len() > 0 <==> (r matches Ok(i) && i < files@.len()),
{
    if files.len() == 0 {
        Err(DrawError::EmptyDirectory)
    } else {
        let x = random_usize();
        Ok(x % files.len())
    }
}

} // verus!
