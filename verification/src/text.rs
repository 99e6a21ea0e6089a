//! Byte-level text helpers with exact contracts over the UTF-8 encoding.
use vstd::prelude::*;
use vstd::string::StringExecFns;

verus! {

/// The UTF-8 bytes of a character sequence.
pub open spec fn utf8_of(s: Seq<char>) -> Seq<u8> {
    vstd::utf8::encode_utf8(s)
}

/// `p` is a prefix of `s`.
pub open spec fn has_prefix(s: Seq<u8>, p: Seq<u8>) -> bool {
    p.len() <= s.len() && s.subrange(0, p.len() as int) == p
}

/// `p` is a suffix of `s`.
pub open spec fn has_suffix(s: Seq<u8>, p: Seq<u8>) -> bool {
    p.len() <= s.len() && s.subrange(s.len() - p.len(), s.len() as int) == p
}

/// `p` occurs in `s` at offset `i`.
pub open spec fn occurs_at(s: Seq<u8>, p: Seq<u8>, i: int) -> bool {
    0 <= i && i + p.len() <= s.len() && s.subrange(i, i + p.len()) == p
}

/// `p` occurs somewhere in `s`.
pub open spec fn has_infix(s: Seq<u8>, p: Seq<u8>) -> bool {
    exists|i: int| occurs_at(s, p, i)
}

/// Compares two byte slices element by element.
pub fn bytes_equal(a: &[u8], b: &[u8]) -> (r: bool)
    ensures
        r == (a@ == b@),
{
    if a.len() != b.len() {
        return false;
    }
    let n = a.len();
    let mut i: usize = 0;
    while i < n
        invariant
            n == a@.len(),
            n == b@.len(),
            i <= n,
            forall|j: int| 0 <= j < i ==> a@[j] == b@[j],
        decreases n - i,
    {
        if a[i] != b[i] {
            return false;
        }
        i = i + 1;
    }
    assert(a@ =~= b@);
    true
}

/// Character-exact string equality.
pub fn text_eq(a: &str, b: &str) -> (r: bool)
    ensures
        r == (a@ == b@),
{
    let r = bytes_equal(a.as_bytes(), b.as_bytes());
    proof {
        vstd::utf8::encode_utf8_decode_utf8(a@);
        vstd::utf8::encode_utf8_decode_utf8(b@);
    }
    r
}

/// Whether `s` occurs in `p` at byte offset `i`.
fn bytes_occur_at(s: &[u8], p: &[u8], i: usize) -> (r: bool)
    requires
        i <= s@.len(),
    ensures
        r == occurs_at(s@, p@, i as int),
{
    if p.len() > s.len() - i {
        return false;
    }
    let n = p.len();
    let slen = s.len();
    let mut j: usize = 0;
    while j < n
        invariant
            n == p@.len(),
            slen == s@.len(),
            i + n <= s@.len(),
            j <= n,
            forall|k: int| 0 <= k < j ==> s@[i + k] == p@[k],
        decreases n - j,
    {
        assert(i + j < s@.len());
        if s[i + j] != p[j] {
            assert(s@.subrange(i as int, i + n)[j as int] != p@[j as int]);
            return false;
        }
        j = j + 1;
    }
    assert(s@.subrange(i as int, i + n) =~= p@);
    true
}

/// Byte-prefix test, as `str::starts_with` on a string pattern.
pub fn starts_with(s: &str, p: &str) -> (r: bool)
    ensures
        r == has_prefix(utf8_of(s@), utf8_of(p@)),
{
    bytes_occur_at(s.as_bytes(), p.as_bytes(), 0)
}

/// Byte-suffix test, as `str::ends_with` on a string pattern.
pub fn ends_with(s: &str, p: &str) -> (r: bool)
    ensures
        r == has_suffix(utf8_of(s@), utf8_of(p@)),
{
    let sb = s.as_bytes();
    let pb = p.as_bytes();
    if pb.len() > sb.len() {
        return false;
    }
    bytes_occur_at(sb, pb, sb.len() - pb.len())
}

/// Substring search, as `str::contains` on a string pattern.
pub fn contains(s: &str, p: &str) -> (r: bool)
    ensures
        r == has_infix(utf8_of(s@), utf8_of(p@)),
{
    let sb = s.as_bytes();
    let pb = p.as_bytes();
    let n = sb.len();
    if pb.len() == 0 {
        assert(sb@.subrange(0, 0) =~= pb@);
        assert(occurs_at(utf8_of(s@), utf8_of(p@), 0));
        return true;
    }
    if pb.len() > n {
        assert forall|k: int| #![auto] !occurs_at(sb@, pb@, k) by {}
        return false;
    }
    let stop = n - pb.len() + 1;
    let mut i: usize = 0;
    while i < stop
        invariant
            n == sb@.len(),
            sb@ == utf8_of(s@),
            pb@ == utf8_of(p@),
            stop == n - pb@.len() + 1,
            i <= stop,
            forall|k: int| 0 <= k < i ==> !occurs_at(sb@, pb@, k),
        decreases stop - i,
    {
        if bytes_occur_at(sb, pb, i) {
            assert(occurs_at(utf8_of(s@), utf8_of(p@), i as int));
            return true;
        }
        i = i + 1;
    }
    assert forall|k: int| #![auto] !occurs_at(sb@, pb@, k) by {
        if 0 <= k && k < stop {
        }
    }
    false
}

} // verus!

verus! {

/// The character of a decimal digit.
pub open spec fn digit_char(d: nat) -> char {
    if d == 0 { '0' } else if d == 1 { '1' } else if d == 2 { '2' } else if d == 3 { '3' }
    else if d == 4 { '4' } else if d == 5 { '5' } else if d == 6 { '6' } else if d == 7 { '7' }
    else if d == 8 { '8' } else { '9' }
}

/// Decimal digits of a natural number, most significant first.
pub open spec fn digits_of(n: nat) -> Seq<char>
    decreases n,
{
    if n < 10 {
        seq![digit_char(n)]
    } else {
        digits_of(n / 10).push(digit_char(n % 10))
    }
}

/// Decimal text of an integer, with a leading `-` when negative.
pub open spec fn decimal_text(i: int) -> Seq<char> {
    if i < 0 {
        seq!['-'] + digits_of((-i) as nat)
    } else {
        digits_of(i as nat)
    }
}

fn digit_str(d: u64) -> (r: &'static str)
    requires
        d < 10,
    ensures
        r@ == seq![digit_char(d as nat)],
{
    proof {
        reveal_strlit("0"); reveal_strlit("1"); reveal_strlit("2"); reveal_strlit("3");
        reveal_strlit("4"); reveal_strlit("5"); reveal_strlit("6"); reveal_strlit("7");
        reveal_strlit("8"); reveal_strlit("9");
    }
    if d == 0 { "0" } else if d == 1 { "1" } else if d == 2 { "2" } else if d == 3 { "3" }
    else if d == 4 { "4" } else if d == 5 { "5" } else if d == 6 { "6" } else if d == 7 { "7" }
    else if d == 8 { "8" } else { "9" }
}

/// Appends the decimal digits of `n`.
pub fn push_digits(out: &mut String, n: u64)
    ensures
        final(out)@ == old(out)@ + digits_of(n as nat),
    decreases n,
{
    if n >= 10 {
        push_digits(out, n / 10);
    }
    out.append(digit_str(n % 10));
    assert(final(out)@ =~= old(out)@ + digits_of(n as nat));
}

/// Decimal text of a signed integer.
pub fn i64_text(n: i64) -> (r: String)
    ensures
        r@ == decimal_text(n as int),
{
    let mut out = String::new();
    if n < 0 {
        proof { reveal_strlit("-"); }
        out.append("-");
        let m: u64 = if n == i64::MIN { 9223372036854775808u64 } else { (-n) as u64 };
        push_digits(&mut out, m);
    } else {
        push_digits(&mut out, n as u64);
    }
    assert(out@ =~= decimal_text(n as int));
    out
}

/// Decimal text of an unsigned integer.
pub fn u64_text(n: u64) -> (r: String)
    ensures
        r@ == decimal_text(n as int),
{
    let mut out = String::new();
    push_digits(&mut out, n);
    assert(out@ =~= decimal_text(n as int));
    out
}

/// Concatenation of two texts.
pub fn concat(a: &str, b: &str) -> (r: String)
    ensures
        r@ == a@ + b@,
{
    let mut out = String::from_str(a);
    out.append(b);
    out
}

} // verus!
