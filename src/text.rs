//! Reading bytes of the address space as text.
use vstd::prelude::*;

verus! {

/// The text that a byte sequence decodes to as UTF-8, if it is valid UTF-8.
pub uninterp spec fn utf8_decode(b: Seq<u8>) -> Option<Seq<char>>;

/// Every byte is an ASCII code.
pub open spec fn is_ascii_bytes(b: Seq<u8>) -> bool {
    forall|i: int| 0 <= i < b.len() ==> b[i] < 0x80
}

/// The characters that ASCII bytes stand for, one per byte.
pub open spec fn ascii_chars(b: Seq<u8>) -> Seq<char> {
    b.map_values(|x: u8| x as char)
}

/// Relies on `std::str::from_utf8`: `Some` exactly for valid UTF-8, which
/// ASCII bytes always are, each byte then being one character.
#[verifier::external_body]
pub(crate) fn utf8_str(b: &[u8]) -> (r: Option<&str>)
    ensures
        utf8_decode(b@) == (match r { Some(s) => Some(s@), None => None::<Seq<char>> }),
        is_ascii_bytes(b@) ==> r is Some && (r->Some_0)@ == ascii_chars(b@),
{
    std::str::from_utf8(b).ok()
}

} // verus!
