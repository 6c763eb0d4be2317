//! Character-sequence helpers: prefix and suffix tests on strings, decimal
//! rendering of unsigned integers, and hexadecimal rendering of byte strings.

use vstd::prelude::*;

verus! {

/// `p` is an initial segment of `s`.
pub open spec fn has_prefix(s: Seq<char>, p: Seq<char>) -> bool {
    p.len() <= s.len() && forall|i: int| 0 <= i < p.len() ==> s[i] == p[i]
}

/// `p` is a final segment of `s`.
pub open spec fn has_suffix(s: Seq<char>, p: Seq<char>) -> bool {
    p.len() <= s.len() && forall|i: int| 0 <= i < p.len() ==> s[s.len() - p.len() + i] == p[i]
}

/// Whether the string `s` begins with `prefix`, compared character by
/// character.
pub fn str_starts_with(s: &str, prefix: &str) -> (r: bool)
    ensures
        r == has_prefix(s@, prefix@),
{
    let s_len = s.unicode_len();
    let p_len = prefix.unicode_len();
    if p_len > s_len {
        return false;
    }
    let mut i: usize = 0;
    while i < p_len
        invariant
            0 <= i <= p_len,
            p_len == prefix@.len(),
            s_len == s@.len(),
            p_len <= s_len,
            forall|j: int| 0 <= j < i ==> s@[j] == prefix@[j],
        decreases p_len - i,
    {
        if s.get_char(i) != prefix.get_char(i) {
            return false;
        }
        i = i + 1;
    }
    true
}

/// Whether the string `s` ends with `suffix`, compared character by character.
pub fn str_ends_with(s: &str, suffix: &str) -> (r: bool)
    ensures
        r == has_suffix(s@, suffix@),
{
    let s_len = s.unicode_len();
    let p_len = suffix.unicode_len();
    if p_len > s_len {
        return false;
    }
    let off = s_len - p_len;
    let mut i: usize = 0;
    while i < p_len
        invariant
            0 <= i <= p_len,
            p_len == suffix@.len(),
            s_len == s@.len(),
            p_len <= s_len,
            off == s_len - p_len,
            forall|j: int| 0 <= j < i ==> s@[off + j] == suffix@[j],
        decreases p_len - i,
    {
        if s.get_char(off + i) != suffix.get_char(i) {
            return false;
        }
        i = i + 1;
    }
    true
}

/// Whether two strings hold the same characters.
pub fn str_eq(a: &str, b: &str) -> (r: bool)
    ensures
        r == (a@ == b@),
{
    let a_len = a.unicode_len();
    let b_len = b.unicode_len();
    if a_len != b_len {
        return false;
    }
    let mut i: usize = 0;
    while i < a_len
        invariant
            0 <= i <= a_len,
            a_len == a@.len(),
            a_len == b@.len(),
            forall|j: int| 0 <= j < i ==> a@[j] == b@[j],
        decreases a_len - i,
    {
        if a.get_char(i) != b.get_char(i) {
            return false;
        }
        i = i + 1;
    }
    proof {
        assert(a@ =~= b@);
    }
    true
}

/// The character for a single decimal digit.
pub open spec fn dec_digit(d: nat) -> char
    recommends
        d < 10,
{
    if d == 0 { '0' }
    else if d == 1 { '1' }
    else if d == 2 { '2' }
    else if d == 3 { '3' }
    else if d == 4 { '4' }
    else if d == 5 { '5' }
    else if d == 6 { '6' }
    else if d == 7 { '7' }
    else if d == 8 { '8' }
    else { '9' }
}

/// The usual decimal rendering of `n`, without leading zeros (except for the
/// single digit of zero itself).
pub open spec fn dec_of(n: nat) -> Seq<char>
    decreases n,
{
    if n < 10 {
        seq![dec_digit(n)]
    } else {
        dec_of(n / 10) + seq![dec_digit(n % 10)]
    }
}

/// A one-character string for the decimal digit `d`.
fn dec_digit_str(d: u64) -> (r: &'static str)
    requires
        d < 10,
    ensures
        r@ == seq![dec_digit(d as nat)],
{
    proof {
        reveal_strlit("0");
        reveal_strlit("1");
        reveal_strlit("2");
        reveal_strlit("3");
        reveal_strlit("4");
        reveal_strlit("5");
        reveal_strlit("6");
        reveal_strlit("7");
        reveal_strlit("8");
        reveal_strlit("9");
    }
    let r = if d == 0 { "0" }
        else if d == 1 { "1" }
        else if d == 2 { "2" }
        else if d == 3 { "3" }
        else if d == 4 { "4" }
        else if d == 5 { "5" }
        else if d == 6 { "6" }
        else if d == 7 { "7" }
        else if d == 8 { "8" }
        else { "9" };
    proof {
        assert(r@ =~= seq![dec_digit(d as nat)]);
    }
    r
}

/// Renders `v` in decimal, as the contract stores monetary values.
pub fn u64_to_decimal(v: u64) -> (r: String)
    ensures
        r@ == dec_of(v as nat),
    decreases v,
{
    if v < 10 {
        let mut s = String::new();
        s.append(dec_digit_str(v));
        proof {
            assert(s@ =~= dec_of(v as nat));
        }
        s
    } else {
        let mut s = u64_to_decimal(v / 10);
        s.append(dec_digit_str(v % 10));
        proof {
            assert(s@ =~= dec_of(v as nat));
        }
        s
    }
}

/// The character for a single lower-case hexadecimal digit.
pub open spec fn hex_digit(d: nat) -> char
    recommends
        d < 16,
{
    if d == 0 { '0' }
    else if d == 1 { '1' }
    else if d == 2 { '2' }
    else if d == 3 { '3' }
    else if d == 4 { '4' }
    else if d == 5 { '5' }
    else if d == 6 { '6' }
    else if d == 7 { '7' }
    else if d == 8 { '8' }
    else if d == 9 { '9' }
    else if d == 10 { 'a' }
    else if d == 11 { 'b' }
    else if d == 12 { 'c' }
    else if d == 13 { 'd' }
    else if d == 14 { 'e' }
    else { 'f' }
}

/// Lower-case hexadecimal rendering of a byte string, two digits per byte.
pub open spec fn hex_of(bytes: Seq<u8>) -> Seq<char>
    decreases bytes.len(),
{
    if bytes.len() == 0 {
        Seq::empty()
    } else {
        hex_of(bytes.drop_last()) + seq![
            hex_digit((bytes.last() / 16) as nat),
            hex_digit((bytes.last() % 16) as nat),
        ]
    }
}

/// A one-character string for the hexadecimal digit `d`.
fn hex_digit_str(d: u8) -> (r: &'static str)
    requires
        d < 16,
    ensures
        r@ == seq![hex_digit(d as nat)],
{
    proof {
        reveal_strlit("0");
        reveal_strlit("1");
        reveal_strlit("2");
        reveal_strlit("3");
        reveal_strlit("4");
        reveal_strlit("5");
        reveal_strlit("6");
        reveal_strlit("7");
        reveal_strlit("8");
        reveal_strlit("9");
        reveal_strlit("a");
        reveal_strlit("b");
        reveal_strlit("c");
        reveal_strlit("d");
        reveal_strlit("e");
        reveal_strlit("f");
    }
    let r = if d == 0 { "0" }
        else if d == 1 { "1" }
        else if d == 2 { "2" }
        else if d == 3 { "3" }
        else if d == 4 { "4" }
        else if d == 5 { "5" }
        else if d == 6 { "6" }
        else if d == 7 { "7" }
        else if d == 8 { "8" }
        else if d == 9 { "9" }
        else if d == 10 { "a" }
        else if d == 11 { "b" }
        else if d == 12 { "c" }
        else if d == 13 { "d" }
        else if d == 14 { "e" }
        else { "f" };
    proof {
        assert(r@ =~= seq![hex_digit(d as nat)]);
    }
    r
}

/// Appends the lower-case hexadecimal rendering of `bytes` to `out`.
pub fn append_hex(out: &mut String, bytes: &[u8])
    ensures
        final(out)@ == old(out)@ + hex_of(bytes@),
{
    let n = bytes.len();
    let mut i: usize = 0;
    while i < n
        invariant
            0 <= i <= n,
            n == bytes@.len(),
            out@ == old(out)@ + hex_of(bytes@.take(i as int)),
        decreases n - i,
    {
        let b = bytes[i];
        out.append(hex_digit_str(b / 16));
        out.append(hex_digit_str(b % 16));
        proof {
            assert(bytes@.take(i + 1).drop_last() =~= bytes@.take(i as int));
            assert(bytes@.take(i + 1).last() == bytes@[i as int]);
            assert(out@ =~= old(out)@ + hex_of(bytes@.take(i + 1)));
        }
        i = i + 1;
    }
    proof {
        assert(bytes@.take(n as int) =~= bytes@);
    }
}

} // verus!
