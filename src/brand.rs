use vstd::prelude::*;
use vstd::utf8::{decode_utf8, valid_utf8};

use crate::bits::{push_word_bytes, word_bytes};
use crate::query::Registers;

verus! {

/// The number of bytes of a brand string: three leaves of four 4-byte words.
pub const BRAND_STRING_LENGTH: usize = 48;

/// The sixteen bytes that one brand-string leaf contributes: eax, ebx, ecx, edx.
pub open spec fn chunk_bytes(r: Registers) -> Seq<u8> {
    word_bytes(r.eax) + word_bytes(r.ebx) + word_bytes(r.ecx) + word_bytes(r.edx)
}

/// Whether `c` has the Unicode `White_Space` property.
pub open spec fn is_white_space(c: char) -> bool {
    ('\u{09}' <= c && c <= '\u{0D}') || c == ' ' || c == '\u{85}' || c == '\u{A0}' || c
        == '\u{1680}' || ('\u{2000}' <= c && c <= '\u{200A}') || c == '\u{2028}' || c
        == '\u{2029}' || c == '\u{202F}' || c == '\u{205F}' || c == '\u{3000}'
}

/// Whether `p` is the position of the first NUL byte of `b`.
pub open spec fn is_first_nul(b: Seq<u8>, p: int) -> bool {
    &&& 0 <= p < b.len()
    &&& b[p] == 0
    &&& forall|j: int| 0 <= j < p ==> b[j] != 0
}

/// The bytes before the first NUL byte; empty when `b` holds no NUL.
pub open spec fn until_nul(b: Seq<u8>) -> Seq<u8> {
    if exists|p: int| is_first_nul(b, p) {
        b.subrange(0, choose|p: int| is_first_nul(b, p))
    } else {
        Seq::empty()
    }
}

/// `s` without its leading whitespace.
pub open spec fn trim_start(s: Seq<char>) -> Seq<char>
    decreases s.len(),
{
    if s.len() > 0 && is_white_space(s[0]) {
        trim_start(s.drop_first())
    } else {
        s
    }
}

/// `s` without its trailing whitespace.
pub open spec fn trim_end(s: Seq<char>) -> Seq<char>
    decreases s.len(),
{
    if s.len() > 0 && is_white_space(s.last()) {
        trim_end(s.drop_last())
    } else {
        s
    }
}

/// `s` without its leading and trailing whitespace.
pub open spec fn trim_white_space(s: Seq<char>) -> Seq<char> {
    trim_end(trim_start(s))
}

/// The characters that `String::from_utf8_lossy` reads from `b`.
pub uninterp spec fn utf8_lossy(b: Seq<u8>) -> Seq<char>;

/// The text of a raw brand buffer: the bytes before the first NUL, decoded, and
/// trimmed of surrounding whitespace.
pub open spec fn brand_text(raw: Seq<u8>) -> Seq<char> {
    trim_white_space(utf8_lossy(until_nul(raw)))
}

/// Relies on `str::trim`: removes leading and trailing characters with the
/// Unicode `White_Space` property.
#[verifier::external_body]
fn trim_str(s: &str) -> (r: &str)
    ensures
        r@ == trim_white_space(s@),
{
    s.trim()
}

/// Relies on `String::from_utf8_lossy`: a valid UTF-8 sequence decodes to its
/// characters; an invalid one gets replacement characters.
#[verifier::external_body]
fn decode_lossy(b: &[u8]) -> (r: String)
    ensures
        r@ == utf8_lossy(b@),
        valid_utf8(b@) ==> r@ == decode_utf8(b@),
{
    String::from_utf8_lossy(b).into_owned()
}

/// The position of the first NUL byte of `b`, if any.
fn nul_position(b: &Vec<u8>) -> (r: Option<usize>)
    ensures
        match r {
            Some(p) => is_first_nul(b@, p as int),
            None => forall|j: int| 0 <= j < b@.len() ==> b@[j] != 0,
        },
{
    let mut i: usize = 0;
    while i < b.len()
        invariant
            0 <= i <= b@.len(),
            forall|j: int| 0 <= j < i ==> b@[j] != 0,
        decreases b@.len() - i,
    {
        if b[i] == 0 {
            return Some(i);
        }
        i = i + 1;
    }
    None
}

/// The bytes of a raw brand buffer before its first NUL byte; none when it holds
/// no NUL.
pub fn bytes_before_nul(raw: &Vec<u8>) -> (r: Vec<u8>)
    ensures
        r@ == until_nul(raw@),
{
    let end: usize = match nul_position(raw) {
        Some(p) => p,
        None => 0,
    };
    proof {
        if exists|p: int| is_first_nul(raw@, p) {
            let q = choose|p: int| is_first_nul(raw@, p);
            assert(q == end as int) by {
                if q < end as int {
                    assert(raw@[q] == 0);
                } else if q > end as int {
                    assert(raw@[end as int] == 0);
                }
            }
        }
        assert(until_nul(raw@) =~= raw@.subrange(0, end as int));
    }
    let mut out: Vec<u8> = Vec::new();
    let mut i: usize = 0;
    while i < end
        invariant
            i <= end <= raw@.len(),
            out@ == raw@.subrange(0, i as int),
        decreases end - i,
    {
        out.push(raw[i]);
        i = i + 1;
        assert(out@ =~= raw@.subrange(0, i as int));
    }
    out
}

/// The brand string of the processor: 48 bytes from three consecutive leaves, read
/// as text up to the first NUL byte and trimmed of surrounding whitespace.
#[derive(Debug)]
pub struct BrandString {
    bytes: Vec<u8>,
    text: String,
}

impl View for BrandString {
    type V = Seq<u8>;

    /// The raw 48 bytes.
    closed spec fn view(&self) -> Seq<u8> {
        self.bytes@
    }
}

impl BrandString {
    #[verifier::type_invariant]
    spec fn text_matches_bytes(&self) -> bool {
        &&& self.bytes@.len() == BRAND_STRING_LENGTH
        &&& self.text@ == brand_text(self.bytes@)
        &&& valid_utf8(until_nul(self.bytes@)) ==> self.text@ == trim_white_space(
            decode_utf8(until_nul(self.bytes@)),
        )
    }

    /// Assembles the brand string from the registers of its three leaves, in order.
    pub fn new(first: Registers, second: Registers, third: Registers) -> (r: BrandString)
        ensures
            r@ == chunk_bytes(first) + chunk_bytes(second) + chunk_bytes(third),
    {
        let mut bytes: Vec<u8> = Vec::new();
        push_word_bytes(&mut bytes, first.eax);
        push_word_bytes(&mut bytes, first.ebx);
        push_word_bytes(&mut bytes, first.ecx);
        push_word_bytes(&mut bytes, first.edx);
        push_word_bytes(&mut bytes, second.eax);
        push_word_bytes(&mut bytes, second.ebx);
        push_word_bytes(&mut bytes, second.ecx);
        push_word_bytes(&mut bytes, second.edx);
        push_word_bytes(&mut bytes, third.eax);
        push_word_bytes(&mut bytes, third.ebx);
        push_word_bytes(&mut bytes, third.ecx);
        push_word_bytes(&mut bytes, third.edx);
        assert(bytes@ =~= chunk_bytes(first) + chunk_bytes(second) + chunk_bytes(third));
        let before_nul = bytes_before_nul(&bytes);
        let decoded = decode_lossy(before_nul.as_slice());
        let text = trim_str(decoded.as_str()).to_owned();
        BrandString { bytes, text }
    }

    /// The brand text: the bytes before the first NUL, decoded, and trimmed of
    /// surrounding whitespace. Valid UTF-8 decodes to exactly its characters.
    pub fn as_str(&self) -> (r: &str)
        ensures
            r@ == brand_text(self@),
            valid_utf8(until_nul(self@)) ==> r@ == trim_white_space(decode_utf8(until_nul(self@))),
    {
        proof {
            use_type_invariant(self);
        }
        self.text.as_str()
    }

    /// The raw 48 bytes.
    pub fn raw_bytes(&self) -> (r: &Vec<u8>)
        ensures
            r@ == self@,
            r@.len() == BRAND_STRING_LENGTH,
    {
        proof {
            use_type_invariant(self);
        }
        &self.bytes
    }
}

impl Clone for BrandString {
    fn clone(&self) -> (r: BrandString)
        ensures
            r@ == self@,
    {
        proof {
            use_type_invariant(self);
        }
        let bytes = self.bytes.clone();
        let text = self.text.clone();
        assert(bytes@ =~= self.bytes@);
        BrandString { bytes, text }
    }
}

/// Decoding is deterministic: brand strings assembled from the same three leaves'
/// registers hold the same bytes and read as the same text.
pub proof fn lemma_brand_text_deterministic(
    a: BrandString,
    b: BrandString,
    first: Registers,
    second: Registers,
    third: Registers,
)
    requires
        a@ == chunk_bytes(first) + chunk_bytes(second) + chunk_bytes(third),
        b@ == chunk_bytes(first) + chunk_bytes(second) + chunk_bytes(third),
    ensures
        a@ == b@,
        brand_text(a@) == brand_text(b@),
{
}

} // verus!
