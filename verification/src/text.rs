//! Character-level helpers shared by the modules: decimal and hexadecimal
//! rendering, prefix tests and whole-string comparison.
use vstd::prelude::*;

verus! {

/// Appends one character to a string (`String::push`).
#[verifier::external_body]
pub(crate) fn push_char(s: &mut String, c: char)
    ensures
        final(s)@ == old(s)@.push(c),
{
    s.push(c);
}

/// The decimal digit character for `d` (0..=9).
pub open spec fn decimal_digit(d: nat) -> char {
    ('0' as nat + d) as char
}

/// The decimal digits of `n`, most significant first, without leading zeros.
pub open spec fn decimal_digits(n: nat) -> Seq<char>
    decreases n,
{
    if n < 10 {
        seq![decimal_digit(n)]
    } else {
        decimal_digits(n / 10).push(decimal_digit(n % 10))
    }
}

/// The decimal rendering of a signed integer, as `Display` writes it.
pub open spec fn decimal_text(n: int) -> Seq<char> {
    if n < 0 {
        seq!['-'] + decimal_digits((-n) as nat)
    } else {
        decimal_digits(n as nat)
    }
}

/// The lower-case hexadecimal digit character for `d` (0..=15).
pub open spec fn hex_lower_digit(d: nat) -> char {
    if d < 10 {
        ('0' as nat + d) as char
    } else {
        ('a' as nat + (d - 10)) as char
    }
}

/// The upper-case hexadecimal digit character for `d` (0..=15).
pub open spec fn hex_upper_digit(d: nat) -> char {
    if d < 10 {
        ('0' as nat + d) as char
    } else {
        ('A' as nat + (d - 10)) as char
    }
}

/// Every byte rendered as two lower-case hexadecimal digits, in order.
pub open spec fn hex_lower_bytes(bytes: Seq<u8>) -> Seq<char>
    decreases bytes.len(),
{
    if bytes.len() == 0 {
        Seq::empty()
    } else {
        let last: u8 = bytes.last();
        hex_lower_bytes(bytes.drop_last()).push(hex_lower_digit((last / 16) as nat)).push(
            hex_lower_digit((last % 16) as nat),
        )
    }
}

fn decimal_digit_char(d: u64) -> (c: char)
    requires
        d < 10,
    ensures
        c == decimal_digit(d as nat),
{
    let chars: [char; 10] = ['0', '1', '2', '3', '4', '5', '6', '7', '8', '9'];
    let c = chars[d as usize];
    assert(c == decimal_digit(d as nat)) by {
        assert(d == 0 || d == 1 || d == 2 || d == 3 || d == 4 || d == 5 || d == 6 || d == 7 || d
            == 8 || d == 9);
    }
    c
}

fn hex_lower_digit_char(d: u8) -> (c: char)
    requires
        d < 16,
    ensures
        c == hex_lower_digit(d as nat),
{
    let chars: [char; 16] = [
        '0',
        '1',
        '2',
        '3',
        '4',
        '5',
        '6',
        '7',
        '8',
        '9',
        'a',
        'b',
        'c',
        'd',
        'e',
        'f',
    ];
    let c = chars[d as usize];
    assert(c == hex_lower_digit(d as nat)) by {
        assert(d == 0 || d == 1 || d == 2 || d == 3 || d == 4 || d == 5 || d == 6 || d == 7 || d
            == 8 || d == 9 || d == 10 || d == 11 || d == 12 || d == 13 || d == 14 || d == 15);
    }
    c
}

/// Appends the decimal digits of `n`.
pub(crate) fn push_decimal_digits(out: &mut String, n: u64)
    ensures
        final(out)@ == old(out)@ + decimal_digits(n as nat),
    decreases n,
{
    if n >= 10 {
        push_decimal_digits(out, n / 10);
    }
    let d = decimal_digit_char(n % 10);
    push_char(out, d);
}

/// Appends the decimal rendering of a signed integer.
pub(crate) fn push_decimal(out: &mut String, n: i64)
    ensures
        final(out)@ == old(out)@ + decimal_text(n as int),
{
    if n < 0 {
        push_char(out, '-');
        let magnitude: u64 = if n == i64::MIN {
            9223372036854775808u64
        } else {
            (-n) as u64
        };
        push_decimal_digits(out, magnitude);
    } else {
        push_decimal_digits(out, n as u64);
    }
}

/// The decimal rendering of a signed integer (`i64::to_string`).
pub fn decimal_string(n: i64) -> (res: String)
    ensures
        res@ == decimal_text(n as int),
{
    let mut out = String::new();
    push_decimal(&mut out, n);
    out
}

/// Renders bytes as lower-case hexadecimal, two digits per byte.
pub fn hex_lower(bytes: &[u8]) -> (res: String)
    ensures
        res@ == hex_lower_bytes(bytes@),
{
    let mut out = String::new();
    let n: usize = bytes.len();
    let mut i: usize = 0;
    while i < n
        invariant
            n == bytes@.len(),
            i <= n,
            out@ == hex_lower_bytes(bytes@.take(i as int)),
        decreases n - i,
    {
        let b: u8 = bytes[i];
        let hi = hex_lower_digit_char(b / 16);
        let lo = hex_lower_digit_char(b % 16);
        push_char(&mut out, hi);
        push_char(&mut out, lo);
        assert(bytes@.take(i + 1).drop_last() =~= bytes@.take(i as int));
        i = i + 1;
    }
    assert(bytes@.take(n as int) =~= bytes@);
    out
}

/// Whether `s` begins with `prefix`.
pub open spec fn has_prefix(s: Seq<char>, prefix: Seq<char>) -> bool {
    prefix.len() <= s.len() && s.take(prefix.len() as int) =~= prefix
}

/// Whole-string equality of two string slices.
pub fn chars_equal(a: &str, b: &str) -> (res: bool)
    ensures
        res == (a@ == b@),
{
    let n: usize = a.unicode_len();
    let m: usize = b.unicode_len();
    if n != m {
        return false;
    }
    let mut i: usize = 0;
    while i < n
        invariant
            n == a@.len(),
            m == b@.len(),
            n == m,
            i <= n,
            forall|j: int| 0 <= j < i ==> a@[j] == b@[j],
        decreases n - i,
    {
        if a.get_char(i) != b.get_char(i) {
            return false;
        }
        i = i + 1;
    }
    assert(a@ =~= b@);
    true
}

/// Whether `s` begins with `prefix`.
pub fn starts_with(s: &str, prefix: &str) -> (res: bool)
    ensures
        res == has_prefix(s@, prefix@),
{
    let n: usize = s.unicode_len();
    let m: usize = prefix.unicode_len();
    if m > n {
        return false;
    }
    let mut i: usize = 0;
    while i < m
        invariant
            n == s@.len(),
            m == prefix@.len(),
            m <= n,
            i <= m,
            forall|j: int| 0 <= j < i ==> s@[j] == prefix@[j],
        decreases m - i,
    {
        if s.get_char(i) != prefix.get_char(i) {
            assert(s@.take(m as int)[i as int] != prefix@[i as int]);
            return false;
        }
        i = i + 1;
    }
    assert(s@.take(m as int) =~= prefix@);
    true
}

} // verus!
