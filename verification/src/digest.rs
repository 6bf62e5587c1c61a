//! Content digests: `algorithm:encoded`.

use vstd::prelude::*;
use vstd::string::*;
use vstd::utf8::*;
use crate::error::OCIDirError;
use crate::text::{ascii_bytes, ascii_image, is_digit, is_lower, is_upper, owned, str_eq};

verus! {

/// A character of an algorithm component: `[a-z0-9]`.
pub open spec fn is_algorithm_char(c: char) -> bool {
    is_lower(c) || is_digit(c)
}

/// A character that separates two algorithm components: `[+._-]`.
pub open spec fn is_algorithm_separator(c: char) -> bool {
    c == '+' || c == '.' || c == '_' || c == '-'
}

/// A character of the encoded part: `[a-zA-Z0-9=_-]`.
pub open spec fn is_encoded_char(c: char) -> bool {
    is_lower(c) || is_upper(c) || is_digit(c) || c == '=' || c == '_' || c == '-'
}

/// `[a-z0-9]+(?:[+._-][a-z0-9]+)*`: non-empty components of algorithm
/// characters, joined by single separators.
pub open spec fn is_algorithm(s: Seq<char>) -> bool {
    &&& s.len() > 0
    &&& forall|i: int| 0 <= i < s.len() ==> is_algorithm_char(#[trigger] s[i]) || is_algorithm_separator(s[i])
    &&& is_algorithm_char(s[0])
    &&& is_algorithm_char(s[s.len() - 1])
    &&& forall|i: int| 0 <= i < s.len() - 1 ==> !(is_algorithm_separator(#[trigger] s[i]) && is_algorithm_separator(s[i + 1]))
}

/// `[a-zA-Z0-9=_-]+`.
pub open spec fn is_encoded(s: Seq<char>) -> bool {
    &&& s.len() > 0
    &&& forall|i: int| 0 <= i < s.len() ==> is_encoded_char(#[trigger] s[i])
}

/// Whether `s` splits at position `k` into an algorithm, a colon and an encoded part.
pub open spec fn splits_at(s: Seq<char>, k: int) -> bool {
    &&& 0 <= k < s.len()
    &&& s[k] == ':'
    &&& is_algorithm(s.take(k))
    &&& is_encoded(s.skip(k + 1))
}

/// The digest grammar: `^[a-z0-9]+(?:[+._-][a-z0-9]+)*:[a-zA-Z0-9=_-]+$`.
pub open spec fn is_digest(s: Seq<char>) -> bool {
    exists|k: int| splits_at(s, k)
}

/// The position of the first colon of `s`, or the length of `s` when it has none.
pub open spec fn first_colon(s: Seq<char>) -> int
    decreases s.len(),
{
    if s.len() == 0 || s[0] == ':' {
        0
    } else {
        1 + first_colon(s.drop_first())
    }
}

/// The algorithm part of a digest string: what stands before the first colon.
pub open spec fn algorithm_of(s: Seq<char>) -> Seq<char> {
    s.take(first_colon(s))
}

/// The encoded part of a digest string: what stands after the first colon.
pub open spec fn encoded_of(s: Seq<char>) -> Seq<char> {
    s.skip(first_colon(s) + 1)
}

/// Where the blob of a digest lies below the root of a layout: the colon of
/// the digest becomes a path separator.
pub open spec fn blob_path_of(digest: Seq<char>) -> Seq<char> {
    "blobs/"@ + algorithm_of(digest) + "/"@ + encoded_of(digest)
}

/// `first_colon` is the least position that holds a colon.
pub proof fn lemma_first_colon(s: Seq<char>)
    ensures
        0 <= first_colon(s) <= s.len(),
        first_colon(s) < s.len() ==> s[first_colon(s)] == ':',
        forall|i: int| 0 <= i < first_colon(s) ==> s[i] != ':',
    decreases s.len(),
{
    if s.len() == 0 || s[0] == ':' {
    } else {
        let t = s.drop_first();
        lemma_first_colon(t);
        assert forall|i: int| 0 <= i < first_colon(s) implies s[i] != ':' by {
            if i > 0 {
                assert(s[i] == t[i - 1]);
            }
        }
    }
}

/// A digest string splits at its first colon and nowhere else.
pub proof fn lemma_split_is_first_colon(s: Seq<char>, k: int)
    requires
        splits_at(s, k),
    ensures
        k == first_colon(s),
{
    lemma_first_colon(s);
    let f = first_colon(s);
    if f < k {
        assert(s.take(k)[f] == ':');
    } else if f > k {
    }
}

/// A digest string is its algorithm, a colon and its encoded part, each of
/// its own grammar.
pub proof fn lemma_digest_parts(s: Seq<char>)
    requires
        is_digest(s),
    ensures
        s == algorithm_of(s) + seq![':'] + encoded_of(s),
        is_algorithm(algorithm_of(s)),
        is_encoded(encoded_of(s)),
{
    let k = choose|k: int| splits_at(s, k);
    lemma_split_is_first_colon(s, k);
    assert(s =~= algorithm_of(s) + seq![':'] + encoded_of(s));
}

fn algorithm_byte(b: u8) -> (r: bool)
    ensures
        r == is_algorithm_char(b as char),
{
    (b >= 0x61 && b <= 0x7a) || (b >= 0x30 && b <= 0x39)
}

fn separator_byte(b: u8) -> (r: bool)
    ensures
        r == is_algorithm_separator(b as char),
{
    b == 0x2b || b == 0x2e || b == 0x5f || b == 0x2d
}

fn encoded_byte(b: u8) -> (r: bool)
    ensures
        r == is_encoded_char(b as char),
{
    (b >= 0x61 && b <= 0x7a) || (b >= 0x41 && b <= 0x5a) || (b >= 0x30 && b <= 0x39) || b == 0x3d
        || b == 0x5f || b == 0x2d
}

/// Scans an ASCII string for the digest grammar; on success returns the
/// position of the colon.
fn scan_digest(b: &[u8], Ghost(s): Ghost<Seq<char>>) -> (r: Option<usize>)
    requires
        ascii_image(s, b@),
    ensures
        r is Some == is_digest(s),
        r matches Some(k) ==> splits_at(s, k as int),
{
    let n = b.len();
    // The algorithm: up to the first byte that is neither a component
    // character nor a separator.
    let mut k: usize = 0;
    let mut after_separator: bool = true;
    while k < n && (algorithm_byte(b[k]) || (separator_byte(b[k]) && !after_separator))
        invariant
            n == b@.len(),
            ascii_image(s, b@),
            k <= n,
            forall|i: int| 0 <= i < k ==> is_algorithm_char(#[trigger] s[i]) || is_algorithm_separator(s[i]),
            k > 0 ==> is_algorithm_char(s[0]),
            forall|i: int| 0 <= i < k - 1 ==> !(is_algorithm_separator(#[trigger] s[i]) && is_algorithm_separator(s[i + 1])),
            after_separator == (k == 0 || is_algorithm_separator(s[k - 1])),
            k > 0 && !after_separator ==> is_algorithm_char(s[k - 1]),
        decreases n - k,
    {
        after_separator = separator_byte(b[k]);
        k += 1;
    }
    if k >= n || b[k] != 0x3a || after_separator {
        proof {
            assert forall|j: int| !splits_at(s, j) by {
                if splits_at(s, j) {
                    let a = s.take(j);
                    if j < k {
                        assert(a[j - 1] == s[j - 1]);
                    } else if j > k {
                        assert(a[k as int] == s[k as int]);
                        if k + 1 < j {
                            assert(a[k as int + 1] == s[k as int + 1]) ;
                        }
                        if k > 0 {
                            assert(a[k as int - 1] == s[k as int - 1]);
                        }
                    } else {
                        if k > 0 {
                            assert(a[k as int - 1] == s[k as int - 1]);
                        }
                    }
                }
            }
        }
        return None;
    }
    proof {
        assert(s.take(k as int) =~= Seq::new(k as nat, |i: int| s[i]));
        assert(is_algorithm(s.take(k as int)));
    }
    let mut j: usize = k + 1;
    while j < n && encoded_byte(b[j])
        invariant
            n == b@.len(),
            ascii_image(s, b@),
            k < j <= n,
            forall|i: int| k < i < j ==> is_encoded_char(#[trigger] s[i]),
        decreases n - j,
    {
        j += 1;
    }
    if j < n || j == k + 1 {
        proof {
            assert forall|m: int| !splits_at(s, m) by {
                if splits_at(s, m) {
                    lemma_split_is_first_colon(s, m);
                    assert(splits_at(s, k as int) ==> first_colon(s) == k) by {
                        if splits_at(s, k as int) {
                            lemma_split_is_first_colon(s, k as int);
                        }
                    }
                    lemma_first_colon(s);
                    if m < k {
                        assert(s[m] == ':');
                    } else if m > k {
                        assert(s[k as int] == ':');
                    } else {
                        let e = s.skip(k + 1);
                        if j < n {
                            assert(e[j - k - 1] == s[j as int]);
                        }
                    }
                }
            }
        }
        return None;
    }
    proof {
        let e = s.skip(k + 1);
        assert forall|i: int| 0 <= i < e.len() implies is_encoded_char(#[trigger] e[i]) by {
            assert(e[i] == s[i + k + 1]);
        }
        assert(splits_at(s, k as int));
    }
    Some(k)
}

/// Every character of a digest string is ASCII.
pub proof fn lemma_digest_is_ascii(s: Seq<char>)
    requires
        is_digest(s),
    ensures
        is_ascii_chars(s),
{
    let k = choose|k: int| splits_at(s, k);
    let a = s.take(k);
    let e = s.skip(k + 1);
    assert forall|i: int| 0 <= i < s.len() implies '\0' <= #[trigger] s[i] <= '\u{7f}' by {
        if i < k {
            assert(a[i] == s[i]);
        } else if i > k {
            assert(e[i - k - 1] == s[i]);
        }
    }
}

/// Whether `text` matches the digest grammar.
pub fn check_digest(text: &str) -> (r: bool)
    ensures
        r == is_digest(text@),
{
    proof {
        if is_digest(text@) {
            lemma_digest_is_ascii(text@);
        }
    }
    match ascii_bytes(text) {
        Some(b) => scan_digest(b, Ghost(text@)).is_some(),
        None => false,
    }
}

/// A content digest: a text of the form `algorithm:encoded`.
#[derive(Debug, Hash)]
pub struct Digest {
    text: String,
    colon: usize,
}

impl View for Digest {
    type V = Seq<char>;

    /// The full string form.
    closed spec fn view(&self) -> Seq<char> {
        self.text@
    }
}

impl Clone for Digest {
    fn clone(&self) -> (r: Digest)
        ensures
            r@ == self@,
    {
        proof {
            use_type_invariant(self);
        }
        Digest { text: self.text.clone(), colon: self.colon }
    }
}

impl PartialEq for Digest {
    fn eq(&self, other: &Digest) -> (r: bool) {
        str_eq(self.text.as_str(), other.text.as_str())
    }
}

impl Eq for Digest {

}

impl vstd::std_specs::cmp::PartialEqSpecImpl for Digest {
    open spec fn obeys_eq_spec() -> bool {
        true
    }

    /// Two digests are equal exactly when their string forms are.
    open spec fn eq_spec(&self, other: &Digest) -> bool {
        self@ == other@
    }
}

impl Digest {
    #[verifier::type_invariant]
    spec fn well_formed(&self) -> bool {
        splits_at(self.text@, self.colon as int)
    }

    /// Reads a digest. Succeeds exactly on the texts of the digest grammar;
    /// any other text comes back in `MalformedDigest`.
    pub fn parse(text: &str) -> (r: Result<Digest, OCIDirError>)
        ensures
            match r {
                Ok(d) => is_digest(text@) && d@ == text@,
                Err(e) => !is_digest(text@) && (e matches OCIDirError::MalformedDigest(t) && t@ == text@),
            },
    {
        proof {
            if is_digest(text@) {
                lemma_digest_is_ascii(text@);
            }
        }
        let found = match ascii_bytes(text) {
            Some(b) => scan_digest(b, Ghost(text@)),
            None => None,
        };
        match found {
            Some(k) => Ok(Digest { text: owned(text), colon: k }),
            None => Err(OCIDirError::MalformedDigest(owned(text))),
        }
    }

    /// The full string form, which matches the digest grammar.
    pub fn as_str(&self) -> (r: &str)
        ensures
            r@ == self@,
            is_digest(r@),
    {
        proof {
            use_type_invariant(self);
        }
        self.text.as_str()
    }

    /// The part before the colon.
    pub fn algorithm(&self) -> (r: &str)
        ensures
            r@ == algorithm_of(self@),
            is_algorithm(r@),
    {
        proof {
            use_type_invariant(self);
            lemma_split_is_first_colon(self.text@, self.colon as int);
            lemma_digest_is_ascii(self.text@);
        }
        self.text.as_str().substring_ascii(0, self.colon)
    }

    /// The part after the colon.
    pub fn encoded(&self) -> (r: &str)
        ensures
            r@ == encoded_of(self@),
            is_encoded(r@),
    {
        proof {
            use_type_invariant(self);
            lemma_split_is_first_colon(self.text@, self.colon as int);
            lemma_digest_is_ascii(self.text@);
        }
        let s = self.text.as_str();
        let n = s.unicode_len();
        s.substring_ascii(self.colon + 1, n)
    }

    /// Where the blob of the digest lies below the root of a layout:
    /// `blobs/<algorithm>/<encoded>`.
    pub fn blob_path(&self) -> (r: String)
        ensures
            r@ == blob_path_of(self@),
    {
        let mut path = owned("blobs/");
        path.append(self.algorithm());
        path.append("/");
        path.append(self.encoded());
        path
    }

    /// Whether two digests have the same string form.
    pub fn same(&self, other: &Digest) -> (r: bool)
        ensures
            r == (self@ == other@),
    {
        *self == *other
    }
}

} // verus!
