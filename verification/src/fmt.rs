//! Text building: appending to strings and writing numbers in decimal and hexadecimal.
use vstd::prelude::*;

verus! {

/// `String::push` appends one character: the documentation states that the character is added
/// to the end of the string.
pub assume_specification[ String::push ](string: &mut String, ch: char)
    ensures
        final(string)@ == old(string)@.push(ch),
;

/// `String::push_str` appends a string slice: the documentation states that the slice is added
/// to the end of the string.
pub assume_specification[ String::push_str ](string: &mut String, other: &str)
    ensures
        final(string)@ == old(string)@ + other@,
;

/// The character for a digit value below 16.
pub open spec fn digit_char(d: int, upper: bool) -> char {
    if d < 10 {
        (48 + d) as char
    } else if upper {
        (55 + d) as char
    } else {
        (87 + d) as char
    }
}

/// The digits of `n` in base `base` (10 or 16), most significant first, without leading zeros.
pub open spec fn digits(n: nat, base: nat, upper: bool) -> Seq<char>
    recommends
        base >= 2,
    decreases n,
{
    if n < base || base < 2 {
        seq![digit_char(n as int, upper)]
    } else {
        proof {
            assert(n / base < n) by (nonlinear_arith)
                requires
                    base >= 2,
                    n >= base,
            ;
        }
        digits(n / base, base, upper).push(digit_char((n % base) as int, upper))
    }
}

/// `s` preceded by zeros up to `width` characters.
pub open spec fn zero_padded(s: Seq<char>, width: nat) -> Seq<char> {
    if s.len() >= width {
        s
    } else {
        Seq::new((width - s.len()) as nat, |i: int| '0') + s
    }
}

/// A signed number in decimal, with a minus sign when negative.
pub open spec fn signed_decimal(n: int) -> Seq<char> {
    if n < 0 {
        seq!['-'] + digits((-n) as nat, 10, false)
    } else {
        digits(n as nat, 10, false)
    }
}

/// The character for a digit value below 16.
fn digit(d: u64, upper: bool) -> (c: char)
    requires
        d < 16,
    ensures
        c == digit_char(d as int, upper),
{
    if d < 10 {
        ((48 + d) as u8) as char
    } else if upper {
        ((55 + d) as u8) as char
    } else {
        ((87 + d) as u8) as char
    }
}

/// Appends the digits of `n` in base `base`.
pub fn push_digits(s: &mut String, n: u64, base: u64, upper: bool)
    requires
        base == 10 || base == 16,
    ensures
        final(s)@ == old(s)@ + digits(n as nat, base as nat, upper),
    decreases n,
{
    if n >= base {
        push_digits(s, n / base, base, upper);
    }
    let d = digit(n % base, upper);
    s.push(d);
    proof {
        if n >= base {
            assert(old(s)@ + digits(n as nat, base as nat, upper) =~= old(s)@ + digits(
                (n / base) as nat,
                base as nat,
                upper,
            ) + seq![d]);
        } else {
            assert(old(s)@ + digits(n as nat, base as nat, upper) =~= old(s)@.push(d));
        }
    }
}

/// The number of digits of `n` in base `base`.
fn digit_count(n: u64, base: u64) -> (count: u64)
    requires
        base == 10 || base == 16,
    ensures
        count == digits(n as nat, base as nat, false).len(),
    decreases n,
{
    proof {
        lemma_digits_len(n as nat, base as nat);
    }
    if n >= base {
        proof {
            lemma_digits_len((n / base) as nat, base as nat);
        }
        digit_count(n / base, base) + 1
    } else {
        1
    }
}

/// The number of digits does not depend on the case of the letters, and is at most the number
/// itself for numbers of at least two.
proof fn lemma_digits_len(n: nat, base: nat)
    requires
        base >= 2,
    ensures
        forall|u: bool| #[trigger] digits(n, base, u).len() == digits(n, base, false).len(),
        digits(n, base, false).len() <= (if n < 2 { 1 } else { n }),
    decreases n,
{
    if n >= base {
        assert(n / base < n && n / base + 1 <= n) by (nonlinear_arith)
            requires
                base >= 2,
                n >= base,
        ;
        lemma_digits_len(n / base, base);
        assert forall|u: bool| #[trigger] digits(n, base, u).len() == digits(n, base, false).len() by {
            assert(digits(n / base, base, u).len() == digits(n / base, base, false).len());
        }
    }
}

/// Appends `n` in decimal.
pub fn push_decimal(s: &mut String, n: u64)
    ensures
        final(s)@ == old(s)@ + digits(n as nat, 10, false),
{
    push_digits(s, n, 10, false);
}

/// Appends a signed number in decimal.
pub fn push_signed_decimal(s: &mut String, n: i64)
    ensures
        final(s)@ == old(s)@ + signed_decimal(n as int),
{
    if n < 0 {
        s.push('-');
        let m: u64 = if n == i64::MIN { 0x8000_0000_0000_0000u64 } else { (-n) as u64 };
        push_digits(s, m, 10, false);
        assert(final(s)@ =~= old(s)@ + signed_decimal(n as int));
    } else {
        push_digits(s, n as u64, 10, false);
    }
}

/// Appends `n` in base `base`, zero-padded to `width` digits.
fn push_padded_digits(s: &mut String, n: u64, base: u64, width: u64, upper: bool)
    requires
        base == 10 || base == 16,
    ensures
        final(s)@ == old(s)@ + zero_padded(digits(n as nat, base as nat, upper), width as nat),
{
    let count = digit_count(n, base);
    proof {
        lemma_digits_len(n as nat, base as nat);
    }
    let ghost start = s@;
    let mut i: u64 = count;
    while i < width
        invariant
            count <= i,
            i <= width || count > width,
            count >= width ==> i == count,
            s@ == start + Seq::new((i - count) as nat, |j: int| '0'),
        decreases width - i,
    {
        s.push('0');
        assert(Seq::new((i + 1 - count) as nat, |j: int| '0') =~= Seq::new(
            (i - count) as nat,
            |j: int| '0',
        ).push('0'));
        i = i + 1;
    }
    let ghost pad = s@;
    push_digits(s, n, base, upper);
    proof {
        let d = digits(n as nat, base as nat, upper);
        if d.len() >= width {
            assert(Seq::new((i - count) as nat, |j: int| '0') =~= Seq::<char>::empty());
            assert(s@ =~= old(s)@ + zero_padded(d, width as nat));
        } else {
            assert(i == width);
            assert(s@ =~= old(s)@ + zero_padded(d, width as nat));
        }
    }
}

/// Appends `n` in hexadecimal, zero-padded to `width` digits.
pub fn push_hex(s: &mut String, n: u64, width: u64, upper: bool)
    ensures
        final(s)@ == old(s)@ + zero_padded(digits(n as nat, 16, upper), width as nat),
{
    push_padded_digits(s, n, 16, width, upper);
}

/// Appends `n` in decimal, zero-padded to `width` digits.
pub fn push_padded_decimal(s: &mut String, n: u64, width: u64)
    ensures
        final(s)@ == old(s)@ + zero_padded(digits(n as nat, 10, false), width as nat),
{
    push_padded_digits(s, n, 10, width, false);
}

} // verus!

verus! {

/// A new string holding a copy of `text`.
pub fn string_from(text: &str) -> (s: String)
    ensures
        s@ == text@,
{
    let mut s = String::new();
    s.push_str(text);
    assert(s@ =~= text@);
    s
}

/// `true` or `false`.
pub open spec fn bool_text(b: bool) -> Seq<char> {
    if b { "true"@ } else { "false"@ }
}

/// Appends `true` or `false`.
pub fn push_bool(s: &mut String, b: bool)
    ensures
        final(s)@ == old(s)@ + bool_text(b),
{
    if b {
        s.push_str("true");
    } else {
        s.push_str("false");
    }
}

} // verus!
