//! Text conversions: UTF-16 for wide-character Win32 calls, decimal numerals.

use vstd::prelude::*;

verus! {

/// The UTF-16 code units of one character.
pub open spec fn utf16_units(c: char) -> Seq<u16> {
    let v = c as int;
    if v < 0x1_0000 {
        seq![v as u16]
    } else {
        let w = v - 0x1_0000;
        seq![(0xD800 + w / 0x400) as u16, (0xDC00 + w % 0x400) as u16]
    }
}

/// The UTF-16 encoding of a character sequence.
pub open spec fn utf16_encode(s: Seq<char>) -> Seq<u16>
    decreases s.len(),
{
    if s.len() == 0 {
        seq![]
    } else {
        utf16_encode(s.drop_last()) + utf16_units(s.last())
    }
}

/// The Unicode scalar value of a character.
fn scalar_value(c: char) -> (v: u32)
    ensures
        v == c as int,
        v <= 0x10FFFF,
{
    c as u32
}

/// Encodes `value` as UTF-16 and appends the terminating NUL unit that
/// wide-character Win32 functions expect.
pub fn to_wide(value: &str) -> (wide: Vec<u16>)
    ensures
        wide@ == utf16_encode(value@).push(0u16),
        wide@.len() >= value@.len() + 1,
        wide@.last() == 0,
{
    broadcast use vstd::string::group_string_axioms;
    let mut wide: Vec<u16> = Vec::new();
    for c in it: value.chars()
        invariant
            it.seq() == value@,
            wide@ == utf16_encode(value@.take(it.index() as int)),
            wide@.len() >= it.index(),
    {
        let ghost i = it.index();
        assert(c == value@[i]);
        let v: u32 = scalar_value(c);
        if v < 0x1_0000 {
            wide.push(v as u16);
        } else {
            let w: u32 = v - 0x1_0000;
            wide.push((0xD800 + w / 0x400) as u16);
            wide.push((0xDC00 + w % 0x400) as u16);
        }
        assert(value@.take(i + 1).drop_last() =~= value@.take(i));
    }
    assert(value@.take(value@.len() as int) =~= value@);
    wide.push(0u16);
    wide
}

/// Every character's scalar value lies below 0x110000.
proof fn scalar_range(c: char)
    ensures
        0 <= c as int <= 0x10FFFF,
{
}

/// A string without NUL characters encodes to UTF-16 without a zero unit, so
/// the terminator `to_wide` appends is the first and only zero of its result.
pub proof fn terminator_is_the_only_nul(s: Seq<char>)
    requires
        forall|i: int| 0 <= i < s.len() ==> (#[trigger] s[i]) as int != 0,
    ensures
        forall|j: int| 0 <= j < utf16_encode(s).len() ==> #[trigger] utf16_encode(s)[j] != 0,
        utf16_encode(s).push(0u16).last() == 0,
    decreases s.len(),
{
    if s.len() > 0 {
        let init = s.drop_last();
        assert forall|i: int| 0 <= i < init.len() implies (#[trigger] init[i]) as int != 0 by {
            assert(init[i] == s[i]);
        }
        terminator_is_the_only_nul(init);
        let c = s.last();
        assert(c == s[s.len() - 1]);
        let units = utf16_units(c);
        scalar_range(c);
        assert forall|j: int| 0 <= j < units.len() implies #[trigger] units[j] != 0 by {}
        let e = utf16_encode(s);
        assert(e == utf16_encode(init) + units);
        assert forall|j: int| 0 <= j < e.len() implies #[trigger] e[j] != 0 by {
            if j < utf16_encode(init).len() {
                assert(e[j] == utf16_encode(init)[j]);
            } else {
                assert(e[j] == units[j - utf16_encode(init).len()]);
            }
        }
    }
}

/// Encoding a concatenation encodes each part in turn.
pub proof fn utf16_encode_concat(a: Seq<char>, b: Seq<char>)
    ensures
        utf16_encode(a + b) == utf16_encode(a) + utf16_encode(b),
    decreases b.len(),
{
    if b.len() == 0 {
        assert(a + b =~= a);
        assert(utf16_encode(a) + utf16_encode(b) =~= utf16_encode(a));
    } else {
        assert((a + b).drop_last() =~= a + b.drop_last());
        utf16_encode_concat(a, b.drop_last());
        assert(utf16_encode(a) + utf16_encode(b.drop_last()) + utf16_units(b.last())
            =~= utf16_encode(a) + (utf16_encode(b.drop_last()) + utf16_units(b.last())));
    }
}

/// Each character encodes to units that decode back to it: a character below
/// 0x10000 is one unit with its own value, any other is a high surrogate
/// (0xD800..0xDBFF) then a low surrogate (0xDC00..0xDFFF) whose payloads
/// rebuild its value.
pub proof fn utf16_units_decode(c: char)
    ensures
        (c as int) < 0x1_0000 ==> utf16_units(c).len() == 1 && utf16_units(c)[0] == c as int,
        (c as int) >= 0x1_0000 ==> ({
            let u = utf16_units(c);
            &&& u.len() == 2
            &&& 0xD800 <= u[0] < 0xDC00
            &&& 0xDC00 <= u[1] < 0xE000
            &&& 0x1_0000 + (u[0] - 0xD800) * 0x400 + (u[1] - 0xDC00) == c as int
        }),
{
    scalar_range(c);
    let v = c as int;
    if v >= 0x1_0000 {
        let w = v - 0x1_0000;
        assert(0 <= w / 0x400 < 0x400);
        assert(w / 0x400 * 0x400 + w % 0x400 == w);
    }
}

/// The number of a sequence of decimal digits.
pub open spec fn decimal_value(s: Seq<char>) -> int
    decreases s.len(),
{
    if s.len() == 0 {
        0
    } else {
        decimal_value(s.drop_last()) * 10 + (s.last() as int - '0' as int)
    }
}

/// The decimal numeral of `n` is made of digits only, has no leading zero,
/// and reads back as `n`.
pub proof fn decimal_reads_back(n: nat)
    ensures
        decimal(n).len() > 0,
        forall|i: int| 0 <= i < decimal(n).len() ==> '0' <= #[trigger] decimal(n)[i] <= '9',
        n > 0 ==> decimal(n)[0] != '0',
        decimal_value(decimal(n)) == n,
    decreases n,
{
    assert(digit_char(n % 10) as int == '0' as int + n % 10);
    if n < 10 {
        assert(decimal(n).drop_last() =~= Seq::<char>::empty());
        assert(decimal_value(Seq::<char>::empty()) == 0);
        assert(decimal(n).last() == digit_char(n % 10));
    }
    if n >= 10 {
        decimal_reads_back(n / 10);
        let d = decimal(n);
        assert(d.drop_last() =~= decimal(n / 10));
        assert(d[0] == decimal(n / 10)[0]);
        assert forall|i: int| 0 <= i < d.len() implies '0' <= #[trigger] d[i] <= '9' by {
            if i < d.len() - 1 {
                assert(d[i] == decimal(n / 10)[i]);
            }
        }
        assert(d.last() == digit_char(n % 10));
        assert(decimal_value(d) == decimal_value(decimal(n / 10)) * 10 + n % 10);
        assert((n / 10) * 10 + n % 10 == n);
    }
}

/// The decimal digit character for `d < 10`.
pub open spec fn digit_char(d: nat) -> char {
    ('0' as int + d) as char
}

/// The decimal numeral of `n`, without leading zeros.
pub open spec fn decimal(n: nat) -> Seq<char>
    decreases n,
{
    if n < 10 {
        seq![digit_char(n)]
    } else {
        decimal(n / 10).push(digit_char(n % 10))
    }
}

/// Calls `String::push`, which appends one character to the end of the string.
#[verifier::external_body]
fn push_char(s: &mut String, c: char)
    ensures
        final(s)@ == old(s)@.push(c),
{
    s.push(c)
}

/// The digit character for `d`.
fn digit(d: u64) -> (c: char)
    requires
        d < 10,
    ensures
        c == digit_char(d as nat),
{
    let b: u8 = 0x30 + d as u8;
    b as char
}

/// Appends the decimal numeral of `n` to `s`.
pub fn push_decimal(s: &mut String, n: u64)
    ensures
        final(s)@ == old(s)@ + decimal(n as nat),
    decreases n,
{
    if n >= 10 {
        push_decimal(s, n / 10);
    }
    push_char(s, digit(n % 10));
}

} // verus!
