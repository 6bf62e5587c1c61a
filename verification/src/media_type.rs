//! Media types: `type/subtype`.

use vstd::prelude::*;
use vstd::utf8::is_ascii_chars;
use crate::text::{ascii_bytes, ascii_image, is_digit, is_lower, is_upper};

verus! {

/// The first character of a name: `[A-Za-z0-9]`.
pub open spec fn is_name_start(c: char) -> bool {
    is_lower(c) || is_upper(c) || is_digit(c)
}

/// A later character of a name: `[A-Za-z0-9!#$&-^_.+]`. In this class `&-^`
/// is a range, from `&` to `^`; it holds, among others, the slash.
pub open spec fn is_name_char(c: char) -> bool {
    is_name_start(c) || c == '!' || c == '#' || c == '$' || ('&' <= c <= '^') || c == '_' || c == '.'
        || c == '+'
}

/// `[A-Za-z0-9][A-Za-z0-9!#$&-^_.+]{0,126}`: at most 127 characters.
pub open spec fn is_name(s: Seq<char>) -> bool {
    &&& 1 <= s.len() <= 127
    &&& is_name_start(s[0])
    &&& forall|i: int| 1 <= i < s.len() ==> is_name_char(#[trigger] s[i])
}

/// Whether `s` splits at position `k` into a name, a slash and a name.
pub open spec fn media_splits_at(s: Seq<char>, k: int) -> bool {
    &&& 0 <= k < s.len()
    &&& s[k] == '/'
    &&& is_name(s.take(k))
    &&& is_name(s.skip(k + 1))
}

/// The media type pattern:
/// `^[A-Za-z0-9][A-Za-z0-9!#$&-^_.+]{0,126}/[A-Za-z0-9][A-Za-z0-9!#$&-^_.+]{0,126}$`.
pub open spec fn is_media_type(s: Seq<char>) -> bool {
    exists|k: int| media_splits_at(s, k)
}

fn name_start_byte(b: u8) -> (r: bool)
    ensures
        r == is_name_start(b as char),
{
    (b >= 0x61 && b <= 0x7a) || (b >= 0x41 && b <= 0x5a) || (b >= 0x30 && b <= 0x39)
}

fn name_byte(b: u8) -> (r: bool)
    ensures
        r == is_name_char(b as char),
{
    name_start_byte(b) || b == 0x21 || b == 0x23 || b == 0x24 || (b >= 0x26 && b <= 0x5e) || b == 0x5f
        || b == 0x2e || b == 0x2b
}

/// Every character of a media type is a name character, the slash included.
proof fn lemma_media_type_chars(s: Seq<char>, k: int)
    requires
        media_splits_at(s, k),
    ensures
        3 <= s.len() <= 255,
        1 <= k <= 127,
        1 <= s.len() - 1 - k <= 127,
        is_name_start(s[0]),
        is_name_start(s[k + 1]),
        forall|i: int| 0 <= i < s.len() ==> is_name_char(#[trigger] s[i]),
{
    let a = s.take(k);
    let b = s.skip(k + 1);
    assert(a[0] == s[0]);
    assert(b[0] == s[k + 1]);
    assert forall|i: int| 0 <= i < s.len() implies is_name_char(#[trigger] s[i]) by {
        if i < k {
            assert(a[i] == s[i]);
        } else if i > k {
            assert(b[i - k - 1] == s[i]);
        }
    }
}

/// Whether `text` matches the media type pattern.
pub fn check_media_type(text: &str) -> (r: bool)
    ensures
        r == is_media_type(text@),
{
    let ghost s = text@;
    proof {
        assert forall|k: int| media_splits_at(s, k) implies is_ascii_chars(s) by {
            lemma_media_type_chars(s, k);
        }
    }
    let b = match ascii_bytes(text) {
        Some(b) => b,
        None => {
            return false;
        },
    };
    let n = b.len();
    if n < 3 || n > 255 || !name_start_byte(b[0]) {
        proof {
            assert forall|k: int| !media_splits_at(s, k) by {
                if media_splits_at(s, k) {
                    lemma_media_type_chars(s, k);
                }
            }
        }
        return false;
    }
    let mut i: usize = 0;
    while i < n
        invariant
            s == text@,
            n == b@.len(),
            ascii_image(s, b@),
            i <= n,
            forall|j: int| 0 <= j < i ==> is_name_char(#[trigger] s[j]),
        decreases n - i,
    {
        if !name_byte(b[i]) {
            proof {
                assert forall|k: int| !media_splits_at(s, k) by {
                    if media_splits_at(s, k) {
                        lemma_media_type_chars(s, k);
                    }
                }
            }
            return false;
        }
        i += 1;
    }
    let mut k: usize = 1;
    while k + 1 < n
        invariant
            s == text@,
            n == b@.len(),
            3 <= n <= 255,
            ascii_image(s, b@),
            1 <= k < n,
            is_name_start(s[0]),
            forall|j: int| 0 <= j < n ==> is_name_char(#[trigger] s[j]),
            forall|j: int| 1 <= j < k ==> !media_splits_at(s, j),
        decreases n - k,
    {
        if b[k] == 0x2f && k <= 127 && n - 1 - k <= 127 && name_start_byte(b[k + 1]) {
            proof {
                let x = s.take(k as int);
                let y = s.skip(k + 1);
                assert forall|j: int| 1 <= j < x.len() implies is_name_char(#[trigger] x[j]) by {
                    assert(x[j] == s[j]);
                }
                assert forall|j: int| 1 <= j < y.len() implies is_name_char(#[trigger] y[j]) by {
                    assert(y[j] == s[j + k + 1]);
                }
                assert(x[0] == s[0]);
                assert(y[0] == s[k + 1]);
                assert(media_splits_at(s, k as int));
            }
            return true;
        }
        proof {
            if media_splits_at(s, k as int) {
                lemma_media_type_chars(s, k as int);
            }
        }
        k += 1;
    }
    proof {
        assert forall|j: int| !media_splits_at(s, j) by {
            if media_splits_at(s, j) {
                lemma_media_type_chars(s, j);
            }
        }
    }
    false
}

} // verus!
