use vstd::prelude::*;
use vstd::string::StringSliceAdditionalSpecFns;
use vstd::utf8::encode_utf8;

verus! {

/// Whether one byte of a candidate name is acceptable: an ASCII lower-case
/// letter or digit, or an ASCII upper-case letter when `require_lower` is
/// false.
pub open spec fn valid_name_byte(b: u8, require_lower: bool) -> bool {
    ||| ('a' as u8) <= b <= ('z' as u8)
    ||| ('0' as u8) <= b <= ('9' as u8)
    ||| !require_lower && ('A' as u8) <= b <= ('Z' as u8)
}

/// Whether a candidate name is acceptable: 2 to 32 bytes in its UTF-8
/// encoding, every byte an acceptable name byte.  Any string containing a
/// character outside the ASCII letters and digits fails, since such a
/// character contributes at least one byte outside the accepted ranges.
pub open spec fn valid_name_bytes(bytes: Seq<u8>, require_lower: bool) -> bool {
    &&& 2 <= bytes.len() <= 32
    &&& forall|i: int| 0 <= i < bytes.len() ==> valid_name_byte(bytes[i], require_lower)
}

/// [`valid_name_bytes`] over a string's characters.
pub open spec fn valid_name(s: Seq<char>, require_lower: bool) -> bool {
    valid_name_bytes(encode_utf8(s), require_lower)
}

/// Checks that a display name holds only ASCII letters and digits (only
/// lower-case ones when `require_lower` is set) and is 2 to 32 bytes long.
pub fn is_valid_name(s: &str, require_lower: bool) -> (r: bool)
    ensures
        r == valid_name(s@, require_lower),
{
    let bytes = s.as_bytes();
    let len = bytes.len();
    if len > 32 || len < 2 {
        return false;
    }
    let mut i: usize = 0;
    while i < len
        invariant
            i <= len,
            len == bytes@.len(),
            bytes@ == s.spec_bytes(),
            2 <= len <= 32,
            forall|j: int| 0 <= j < i ==> valid_name_byte(bytes@[j], require_lower),
        decreases len - i,
    {
        let b = bytes[i];
        let ok = (('a' as u8) <= b && b <= ('z' as u8)) || (('0' as u8) <= b && b <= ('9' as u8))
            || (!require_lower && ('A' as u8) <= b && b <= ('Z' as u8));
        if !ok {
            return false;
        }
        i += 1;
    }
    true
}

} // verus!
