//! Character classes and text helpers shared by the grammars of this crate.

use vstd::prelude::*;
use vstd::string::*;
use vstd::utf8::*;

verus! {

/// `a` to `z`.
pub open spec fn is_lower(c: char) -> bool {
    'a' <= c <= 'z'
}

/// `A` to `Z`.
pub open spec fn is_upper(c: char) -> bool {
    'A' <= c <= 'Z'
}

/// `0` to `9`.
pub open spec fn is_digit(c: char) -> bool {
    '0' <= c <= '9'
}

/// A text of `n` characters that begins with `a` and `b`.
pub open spec fn spelled(s: Seq<char>, n: nat, a: char, b: char) -> bool {
    s.len() == n && s[0] == a && s[1] == b
}

/// The bytes of `s`, one per character, when every character of `s` is ASCII.
pub open spec fn ascii_image(s: Seq<char>, b: Seq<u8>) -> bool {
    &&& b.len() == s.len()
    &&& forall|i: int| 0 <= i < s.len() ==> (#[trigger] b[i]) as char == s[i]
}

/// The bytes of an ASCII string, or `None` when some character is not ASCII.
pub(crate) fn ascii_bytes(s: &str) -> (r: Option<&[u8]>)
    ensures
        r is Some == is_ascii_chars(s@),
        r matches Some(b) ==> ascii_image(s@, b@),
{
    if s.is_ascii() {
        let b = s.as_bytes();
        proof {
            is_ascii_chars_encode_utf8(s@);
            assert forall|i: int| 0 <= i < s@.len() implies (#[trigger] b@[i]) as char == s@[i] by {
                let c = s@[i];
                assert('\0' <= c <= '\u{7f}');
                assert(c as u8 == encode_utf8(s@)[i]);
            }
        }
        Some(b)
    } else {
        None
    }
}

/// Whether two strings hold the same characters.
pub(crate) fn str_eq(a: &str, b: &str) -> (r: bool)
    ensures
        r == (a@ == b@),
{
    let x = a.as_bytes();
    let y = b.as_bytes();
    proof {
        encode_utf8_decode_utf8(a@);
        encode_utf8_decode_utf8(b@);
    }
    if x.len() != y.len() {
        return false;
    }
    let mut i: usize = 0;
    while i < x.len()
        invariant
            x@ == a.spec_bytes(),
            y@ == b.spec_bytes(),
            x@.len() == y@.len(),
            i <= x@.len(),
            forall|j: int| 0 <= j < i ==> x@[j] == y@[j],
        decreases x@.len() - i,
    {
        if x[i] != y[i] {
            return false;
        }
        i += 1;
    }
    proof {
        assert(x@ =~= y@);
    }
    true
}

/// An owned copy of `s`.
pub(crate) fn owned(s: &str) -> (r: String)
    ensures
        r@ == s@,
{
    s.to_owned()
}

/// A copy of some bytes.
pub(crate) fn copy_bytes(bytes: &Vec<u8>) -> (r: Vec<u8>)
    ensures
        r@ == bytes@,
{
    let mut out: Vec<u8> = Vec::new();
    let mut i: usize = 0;
    while i < bytes.len()
        invariant
            i <= bytes@.len(),
            out@ == bytes@.take(i as int),
        decreases bytes@.len() - i,
    {
        out.push(bytes[i]);
        proof {
            assert(bytes@.take(i as int).push(bytes@[i as int]) =~= bytes@.take(i as int + 1));
        }
        i += 1;
    }
    proof {
        assert(bytes@.take(i as int) =~= bytes@);
    }
    out
}

/// The view of an optional string.
pub open spec fn opt_text(o: Option<String>) -> Option<Seq<char>> {
    match o {
        Some(s) => Some(s@),
        None => None,
    }
}

} // verus!
