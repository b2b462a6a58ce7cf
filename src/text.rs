//! Text fields of cartridge headers: legacy encodings, padding and spacing.
use encoding::codec::japanese::{EUCJPEncoding, Windows31JEncoding};
use encoding::{DecoderTrap, Encoding};
use vstd::prelude::*;

verus! {

/// What EUC-JP decoding makes of `b`, skipping bytes that do not decode.
pub uninterp spec fn euc_jp_text(b: Seq<u8>) -> Seq<char>;

/// What Windows-31J (Shift JIS) decoding makes of `b`, skipping bytes that do not decode.
pub uninterp spec fn windows_31j_text(b: Seq<u8>) -> Seq<char>;

/// What UTF-8 decoding makes of `b`, with U+FFFD for each invalid sequence.
pub uninterp spec fn utf8_lossy_text(b: Seq<u8>) -> Seq<char>;

/// Relies on encoding's `EUCJPEncoding.decode` with `DecoderTrap::Ignore`: the
/// text depends on the bytes alone, and the ignore trap never reports an error.
#[verifier::external_body]
pub(crate) fn decode_euc_jp(b: &[u8]) -> (r: String)
    ensures
        r@ == euc_jp_text(b@),
{
    match EUCJPEncoding.decode(b, DecoderTrap::Ignore) {
        Ok(s) => s,
        Err(e) => e.into_owned(),
    }
}

/// Relies on encoding's `Windows31JEncoding.decode` with `DecoderTrap::Ignore`:
/// the text depends on the bytes alone, and the ignore trap never reports an error.
#[verifier::external_body]
pub(crate) fn decode_windows_31j(b: &[u8]) -> (r: String)
    ensures
        r@ == windows_31j_text(b@),
{
    match Windows31JEncoding.decode(b, DecoderTrap::Ignore) {
        Ok(s) => s,
        Err(e) => e.into_owned(),
    }
}

/// Relies on `String::from_utf8_lossy`: the text depends on the bytes alone.
#[verifier::external_body]
pub(crate) fn decode_utf8_lossy(b: &[u8]) -> (r: String)
    ensures
        r@ == utf8_lossy_text(b@),
{
    String::from_utf8_lossy(b).into_owned()
}

/// The characters with the Unicode `White_Space` property.
pub open spec fn is_space(c: char) -> bool {
    let v = c as u32;
    (0x09 <= v && v <= 0x0D) || v == 0x20 || v == 0x85 || v == 0xA0 || v == 0x1680
        || (0x2000 <= v && v <= 0x200A) || v == 0x2028 || v == 0x2029 || v == 0x202F
        || v == 0x205F || v == 0x3000
}

pub fn is_space_char(c: char) -> (r: bool)
    ensures
        r == is_space(c),
{
    let v = c as u32;
    (0x09 <= v && v <= 0x0D) || v == 0x20 || v == 0x85 || v == 0xA0 || v == 0x1680
        || (0x2000 <= v && v <= 0x200A) || v == 0x2028 || v == 0x2029 || v == 0x202F
        || v == 0x205F || v == 0x3000
}

/// `s` without its trailing white space.
pub open spec fn trimmed_end(s: Seq<char>) -> Seq<char>
    decreases s.len(),
{
    if s.len() > 0 && is_space(s.last()) {
        trimmed_end(s.drop_last())
    } else {
        s
    }
}

/// `s` without its trailing NUL characters.
pub open spec fn trimmed_nul(s: Seq<char>) -> Seq<char>
    decreases s.len(),
{
    if s.len() > 0 && s.last() == '\0' {
        trimmed_nul(s.drop_last())
    } else {
        s
    }
}

/// The length of the run of white space at the start of `s`.
pub open spec fn space_run(s: Seq<char>) -> nat
    decreases s.len(),
{
    if s.len() > 0 && is_space(s[0]) {
        1 + space_run(s.drop_first())
    } else {
        0
    }
}

/// `s` with each run of two or more white-space characters replaced by one space.
pub open spec fn collapsed(s: Seq<char>) -> Seq<char>
    decreases s.len(),
{
    if s.len() == 0 {
        s
    } else if 2 <= space_run(s) <= s.len() {
        seq![' '] + collapsed(s.skip(space_run(s) as int))
    } else {
        seq![s[0]] + collapsed(s.drop_first())
    }
}

/// The number of characters left in `s` once its trailing white space is cut.
fn trimmed_end_len(s: &str) -> (k: usize)
    ensures
        k <= s@.len(),
        trimmed_end(s@) == s@.subrange(0, k as int),
{
    let mut k = s.unicode_len();
    assert(s@.subrange(0, k as int) =~= s@);
    while k > 0 && is_space_char(s.get_char(k - 1))
        invariant
            k <= s@.len(),
            trimmed_end(s@) == trimmed_end(s@.subrange(0, k as int)),
        decreases k,
    {
        assert(s@.subrange(0, k as int).drop_last() =~= s@.subrange(0, k - 1));
        k = k - 1;
    }
    k
}

/// A copy of `s` without its trailing white space.
pub fn trim_end(s: &str) -> (r: String)
    ensures
        r@ == trimmed_end(s@),
{
    let k = trimmed_end_len(s);
    String::from_str(s.substring_char(0, k))
}

/// A copy of `s` without its trailing NUL characters.
pub fn trim_nul(s: &str) -> (r: String)
    ensures
        r@ == trimmed_nul(s@),
{
    let mut k = s.unicode_len();
    assert(s@.subrange(0, k as int) =~= s@);
    while k > 0 && s.get_char(k - 1) == '\0'
        invariant
            k <= s@.len(),
            trimmed_nul(s@) == trimmed_nul(s@.subrange(0, k as int)),
        decreases k,
    {
        assert(s@.subrange(0, k as int).drop_last() =~= s@.subrange(0, k - 1));
        k = k - 1;
    }
    String::from_str(s.substring_char(0, k))
}

/// Relies on regex's `Regex::replace_all`: with the pattern `\s{2,}` (Unicode
/// white space, greedy) every maximal run of two or more white-space
/// characters is one match, and each match is replaced by `replacement`.
#[verifier::external_body]
fn regex_replace_all(pattern: &str, text: &str, replacement: &str) -> (r: String)
    requires
        pattern@ == seq!['\\', 's', '{', '2', ',', '}'],
        replacement@ == seq![' '],
    ensures
        r@ == collapsed(text@),
{
    match regex::Regex::new(pattern) {
        Ok(re) => re.replace_all(text, replacement).into_owned(),
        Err(_) => String::from(text),
    }
}

/// A copy of `s` with each run of two or more white-space characters made one space.
pub fn collapse_spaces(s: &str) -> (r: String)
    ensures
        r@ == collapsed(s@),
{
    proof {
        reveal_strlit("\\s{2,}");
        reveal_strlit(" ");
        assert("\\s{2,}"@ =~= seq!['\\', 's', '{', '2', ',', '}']);
        assert(" "@ =~= seq![' ']);
    }
    regex_replace_all("\\s{2,}", s, " ")
}

/// Whether `s` holds exactly the characters of `t`.
pub fn str_equals(s: &str, t: &str) -> (r: bool)
    ensures
        r == (s@ == t@),
{
    let n = s.unicode_len();
    if n != t.unicode_len() {
        return false;
    }
    let mut i: usize = 0;
    while i < n
        invariant
            n == s@.len(),
            n == t@.len(),
            i <= n,
            forall|j: int| 0 <= j < i ==> s@[j] == t@[j],
        decreases n - i,
    {
        if s.get_char(i) != t.get_char(i) {
            return false;
        }
        i = i + 1;
    }
    assert(s@ =~= t@);
    true
}

} // verus!
