use vstd::prelude::*;

use vstd::utf8::{encode_scalar, encode_utf8};

verus! {

/// First line of an ASCII-armored OpenPGP message.
pub open spec fn header_line() -> Seq<u8> {
    encode_utf8("-----BEGIN PGP MESSAGE-----"@)
}

/// Last line of an ASCII-armored OpenPGP message.
pub open spec fn footer_line() -> Seq<u8> {
    encode_utf8("-----END PGP MESSAGE-----"@)
}

/// The header line is not empty, so an armored message never is.
pub proof fn lemma_header_not_empty()
    ensures
        header_line().len() > 0,
{
    reveal_strlit("-----BEGIN PGP MESSAGE-----");
    let chars = "-----BEGIN PGP MESSAGE-----"@;
    assert(chars.len() > 0);
    assert(encode_utf8(chars) == encode_scalar(chars[0] as u32) + encode_utf8(chars.drop_first()));
}

/// A printable ASCII byte or a line ending.
pub open spec fn is_text_byte(b: u8) -> bool {
    b == 10 || b == 13 || (0x20 <= b && b <= 0x7e)
}

/// Whether `b` ends with the footer followed by `tail` bytes of line ending
/// (none, "\n" or "\r\n").
pub open spec fn ends_with_footer(b: Seq<u8>, tail: Seq<u8>) -> bool {
    &&& b.len() >= footer_line().len() + tail.len()
    &&& b.subrange(b.len() - tail.len() - footer_line().len(), b.len() - tail.len()) == footer_line()
    &&& b.subrange(b.len() - tail.len(), b.len() as int) == tail
}

/// Bytes of an ASCII-armored message: the header line first, the footer
/// line last (then at most one line ending), and nothing but printable
/// ASCII and line endings.
pub open spec fn armored_message(b: Seq<u8>) -> bool {
    &&& b.len() >= header_line().len()
    &&& b.subrange(0, header_line().len() as int) == header_line()
    &&& (ends_with_footer(b, Seq::empty()) || ends_with_footer(b, seq![10u8]) || ends_with_footer(
        b,
        seq![13u8, 10u8],
    ))
    &&& forall|i: int| 0 <= i < b.len() ==> #[trigger] is_text_byte(b[i])
}

/// Text whose UTF-8 bytes are an ASCII-armored message.
pub open spec fn armored_text(s: Seq<char>) -> bool {
    armored_message(encode_utf8(s))
}

/// Whether `pat` occurs in `b` at `start`.
fn occurs_at(b: &Vec<u8>, start: usize, pat: &[u8]) -> (r: bool)
    requires
        start <= b@.len(),
    ensures
        r == (pat@.len() <= b@.len() - start && b@.subrange(start as int, start + pat@.len())
            == pat@),
{
    if pat.len() > b.len() - start {
        return false;
    }
    let mut i: usize = 0;
    while i < pat.len()
        invariant
            start + pat@.len() <= b@.len(),
            b@.len() <= usize::MAX,
            i <= pat@.len(),
            forall|j: int| 0 <= j < i ==> b@[start + j] == pat@[j],
        decreases pat@.len() - i,
    {
        if b[start + i] != pat[i] {
            assert(b@.subrange(start as int, start + pat@.len())[i as int] != pat@[i as int]);
            return false;
        }
        i = i + 1;
    }
    assert(b@.subrange(start as int, start + pat@.len()) =~= pat@);
    true
}

/// Whether `b` ends with the footer followed by `tail`.
fn has_footer(b: &Vec<u8>, tail: &[u8]) -> (r: bool)
    ensures
        r == ends_with_footer(b@, tail@),
{
    let footer = "-----END PGP MESSAGE-----".as_bytes();
    if b.len() < footer.len() || b.len() - footer.len() < tail.len() {
        return false;
    }
    let at = b.len() - tail.len() - footer.len();
    occurs_at(b, at, footer) && occurs_at(b, b.len() - tail.len(), tail)
}

/// Checks that the bytes are an ASCII-armored message.
pub fn is_armored_message(b: &Vec<u8>) -> (r: bool)
    ensures
        r == armored_message(b@),
{
    let header = "-----BEGIN PGP MESSAGE-----".as_bytes();
    if !occurs_at(b, 0, header) {
        return false;
    }
    let none: [u8; 0] = [];
    let lf: [u8; 1] = [10u8];
    let crlf: [u8; 2] = [13u8, 10u8];
    assert(none@ =~= Seq::<u8>::empty());
    assert(lf@ =~= seq![10u8]);
    assert(crlf@ =~= seq![13u8, 10u8]);
    if !(has_footer(b, &none) || has_footer(b, &lf) || has_footer(b, &crlf)) {
        return false;
    }
    let mut i: usize = 0;
    while i < b.len()
        invariant
            i <= b@.len(),
            forall|j: int| 0 <= j < i ==> #[trigger] is_text_byte(b@[j]),
        decreases b@.len() - i,
    {
        let c = b[i];
        if !(c == 10 || c == 13 || (0x20 <= c && c <= 0x7e)) {
            assert(!is_text_byte(b@[i as int]));
            return false;
        }
        i = i + 1;
    }
    true
}

} // verus!
