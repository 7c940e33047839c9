//! Byte counts as text: `"10M"`, `"512K"`, `"1.5GB"`.
//!
//! All units are binary: a kilobyte is 1024 bytes, whether it is written
//! `K`, `KB` or `KiB`.

use vstd::prelude::*;
use vstd::string::StringExecFns;
use crate::text::{decimal, digit_char, digit_str, push_decimal};

verus! {

/// The bytes in a kilobyte.
pub const KIB: u64 = 1024;

/// The bytes in a megabyte.
pub const MIB: u64 = 1_048_576;

/// The bytes in a gigabyte.
pub const GIB: u64 = 1_073_741_824;

/// The bytes in a terabyte.
pub const TIB: u64 = 1_099_511_627_776;

/// The bytes in a petabyte.
pub const PIB: u64 = 1_125_899_906_842_624;

/// Whether `c` has the Unicode property White_Space.
pub open spec fn is_space(c: char) -> bool {
    let u = c as u32;
    ||| 0x09 <= u <= 0x0D
    ||| u == 0x20
    ||| u == 0x85
    ||| u == 0xA0
    ||| u == 0x1680
    ||| 0x2000 <= u <= 0x200A
    ||| u == 0x2028
    ||| u == 0x2029
    ||| u == 0x202F
    ||| u == 0x205F
    ||| u == 0x3000
}

/// How many characters at the start of `s` are white space.
pub open spec fn leading_spaces(s: Seq<char>) -> nat
    decreases s.len(),
{
    if s.len() > 0 && is_space(s[0]) {
        1 + leading_spaces(s.skip(1))
    } else {
        0
    }
}

/// How many characters at the end of `s` are white space.
pub open spec fn trailing_spaces(s: Seq<char>) -> nat
    decreases s.len(),
{
    if s.len() > 0 && is_space(s.last()) {
        1 + trailing_spaces(s.drop_last())
    } else {
        0
    }
}

/// `s` without the white space at its start and at its end.
pub open spec fn trimmed(s: Seq<char>) -> Seq<char> {
    let rest = s.skip(leading_spaces(s) as int);
    rest.take(rest.len() - trailing_spaces(rest))
}

/// Whether `c` is one of `0` to `9`.
pub open spec fn is_digit(c: char) -> bool {
    0x30 <= c as u32 <= 0x39
}

/// The number that the digit `c` stands for; 0 for any other character.
pub open spec fn digit_value(c: char) -> nat {
    if is_digit(c) {
        (c as u32 - 0x30) as nat
    } else {
        0
    }
}

/// The number that the digits of `s` spell in base ten.
pub open spec fn digits_value(s: Seq<char>) -> nat
    decreases s.len(),
{
    if s.len() == 0 {
        0
    } else {
        digits_value(s.drop_last()) * 10 + digit_value(s.last())
    }
}

/// Whether every character of `s` is a digit.
pub open spec fn all_digits(s: Seq<char>) -> bool {
    forall|i: int| 0 <= i < s.len() ==> is_digit(#[trigger] s[i])
}

/// The number that `s` spells: an optional `+`, then at least one digit and
/// nothing else, the whole no greater than `u64::MAX`.
pub open spec fn number(s: Seq<char>) -> Option<u64> {
    let digits = if s.len() > 0 && s[0] == '+' {
        s.skip(1)
    } else {
        s
    };
    if digits.len() > 0 && all_digits(digits) && digits_value(digits) <= u64::MAX {
        Some(digits_value(digits) as u64)
    } else {
        None
    }
}

/// The number of bytes in the unit that `letter` names.
pub open spec fn scale(letter: char) -> Option<u64> {
    if letter == 'K' {
        Some(KIB)
    } else if letter == 'M' {
        Some(MIB)
    } else if letter == 'G' {
        Some(GIB)
    } else if letter == 'T' {
        Some(TIB)
    } else if letter == 'P' {
        Some(PIB)
    } else {
        None
    }
}

/// The unit at the end of the upper-case text `t`: how many characters it
/// takes, and how many bytes it stands for. A unit is a letter of `K`, `M`,
/// `G`, `T`, `P`, alone or followed by `B` or `IB`; or `B` alone, for bytes.
/// The longest one that fits is taken; where none does, the text counts
/// bytes.
pub open spec fn unit(t: Seq<char>) -> (nat, u64) {
    let n = t.len() as int;
    if n >= 3 && t[n - 1] == 'B' && t[n - 2] == 'I' && scale(t[n - 3]) is Some {
        (3, scale(t[n - 3])->0)
    } else if n >= 2 && t[n - 1] == 'B' && scale(t[n - 2]) is Some {
        (2, scale(t[n - 2])->0)
    } else if n >= 1 && scale(t[n - 1]) is Some {
        (1, scale(t[n - 1])->0)
    } else if n >= 1 && t[n - 1] == 'B' {
        (1, 1)
    } else {
        (0, 1)
    }
}

/// The byte count that the trimmed, upper-case text `t` states: the number
/// in front of the unit, white space between the two set aside, times the
/// unit. There is none where `t` is empty, where what stands before the
/// unit is no number, or where the product does not fit in 64 bits.
pub open spec fn amount(t: Seq<char>) -> Option<u64> {
    if t.len() == 0 {
        None
    } else {
        let (k, bytes) = unit(t);
        match number(trimmed(t.take(t.len() - k))) {
            Some(v) => if v * bytes <= u64::MAX {
                Some((v * bytes) as u64)
            } else {
                None
            },
            None => None,
        }
    }
}

/// What `str::to_uppercase` makes of `s`.
pub uninterp spec fn uppercase(s: Seq<char>) -> Seq<char>;

/// The byte count that `s` states, in any case and with white space around
/// it: `"10M"`, `" 512 kb "`, `"2GiB"`, `"1024"`.
pub open spec fn size_of(s: Seq<char>) -> Option<u64> {
    amount(uppercase(trimmed(s)))
}

/// `str::to_uppercase`: the upper-case form of `s` by Unicode's rules,
/// which is a function of its characters alone.
#[verifier::external_body]
fn to_upper(s: &str) -> (r: String)
    ensures
        r@ == uppercase(s@),
{
    s.to_uppercase()
}

/// Whether `c` has the Unicode property White_Space.
pub fn is_whitespace(c: char) -> (r: bool)
    ensures
        r == is_space(c),
{
    let u: u32 = c as u32;
    (0x09 <= u && u <= 0x0D) || u == 0x20 || u == 0x85 || u == 0xA0 || u == 0x1680 || (0x2000 <= u
        && u <= 0x200A) || u == 0x2028 || u == 0x2029 || u == 0x202F || u == 0x205F || u == 0x3000
}

/// The characters of `s`.
fn chars_of(s: &str) -> (v: Vec<char>)
    ensures
        v@ == s@,
{
    let mut v: Vec<char> = Vec::new();
    for c in it: s.chars()
        invariant
            v@ == it.seq().take(it.index()),
    {
        v.push(c);
    }
    v
}

proof fn lemma_leading_spaces_step(s: Seq<char>, i: int)
    requires
        0 <= i < s.len(),
        is_space(s[i]),
    ensures
        leading_spaces(s.skip(i)) == 1 + leading_spaces(s.skip(i + 1)),
{
    assert(s.skip(i).skip(1) =~= s.skip(i + 1));
}

proof fn lemma_trailing_spaces_step(s: Seq<char>, j: int)
    requires
        0 < j <= s.len(),
        is_space(s[j - 1]),
    ensures
        trailing_spaces(s.take(j)) == 1 + trailing_spaces(s.take(j - 1)),
{
    assert(s.take(j).drop_last() =~= s.take(j - 1));
}

/// Where the part of `v[from..to]` begins and ends that is left when the
/// white space around it is taken away.
fn trim_bounds(v: &Vec<char>, from: usize, to: usize) -> (r: (usize, usize))
    requires
        from <= to <= v.len(),
    ensures
        from <= r.0 <= r.1 <= to,
        v@.subrange(r.0 as int, r.1 as int) == trimmed(v@.subrange(from as int, to as int)),
{
    let ghost s = v@.subrange(from as int, to as int);
    let mut a: usize = from;
    assert(s.skip(0) =~= s);
    while a < to && is_whitespace(v[a])
        invariant
            from <= a <= to <= v.len(),
            s == v@.subrange(from as int, to as int),
            leading_spaces(s) == (a - from) + leading_spaces(s.skip(a - from)),
        decreases to - a,
    {
        proof {
            lemma_leading_spaces_step(s, a - from);
        }
        a = a + 1;
    }
    assert(leading_spaces(s.skip(a - from)) == 0) by {
        if a < to {
            assert(s.skip(a - from)[0] == v@[a as int]);
        }
    }
    let ghost rest = s.skip(a - from);
    let mut b: usize = to;
    assert(rest.take(to - a) =~= rest);
    while b > a && is_whitespace(v[b - 1])
        invariant
            from <= a <= b <= to <= v.len(),
            s == v@.subrange(from as int, to as int),
            rest == s.skip(a - from),
            trailing_spaces(rest) == (to - b) + trailing_spaces(rest.take(b - a)),
        decreases b - a,
    {
        proof {
            assert(rest[b - a - 1] == v@[b - 1]);
            lemma_trailing_spaces_step(rest, b - a);
        }
        b = b - 1;
    }
    proof {
        assert(rest.take(rest.len() as int) =~= rest);
        assert(trailing_spaces(rest.take(b - a)) == 0) by {
            if b > a {
                assert(rest.take(b - a).last() == v@[b - 1]);
            }
        }
        assert(v@.subrange(a as int, b as int) =~= rest.take(rest.len() - trailing_spaces(rest)));
    }
    (a, b)
}

/// A number is no smaller than what any of its leading digits spell.
proof fn lemma_digits_value_prefix(s: Seq<char>, k: int)
    requires
        0 <= k <= s.len(),
    ensures
        digits_value(s.take(k)) <= digits_value(s),
    decreases s.len(),
{
    if k == s.len() {
        assert(s.take(k) =~= s);
    } else {
        lemma_digits_value_prefix(s.drop_last(), k);
        assert(s.drop_last().take(k) =~= s.take(k));
    }
}

/// The number that `v[from..to]` spells, if it spells one.
fn parse_number(v: &Vec<char>, from: usize, to: usize) -> (r: Option<u64>)
    requires
        from <= to <= v.len(),
    ensures
        r == number(v@.subrange(from as int, to as int)),
{
    let ghost s = v@.subrange(from as int, to as int);
    let mut i: usize = from;
    if i < to && v[i] == '+' {
        i = i + 1;
    }
    let start = i;
    let ghost digits = v@.subrange(start as int, to as int);
    assert(digits =~= if s.len() > 0 && s[0] == '+' {
        s.skip(1)
    } else {
        s
    });
    if start == to {
        return None;
    }
    let mut value: u64 = 0;
    while i < to
        invariant
            from <= start <= i <= to <= v.len(),
            s == v@.subrange(from as int, to as int),
            digits == v@.subrange(start as int, to as int),
            digits == if s.len() > 0 && s[0] == '+' {
                s.skip(1)
            } else {
                s
            },
            all_digits(digits.take(i - start)),
            value == digits_value(digits.take(i - start)),
        decreases to - i,
    {
        let c: u32 = v[i] as u32;
        let ghost seen = digits.take(i - start + 1);
        proof {
            assert(seen.drop_last() =~= digits.take(i - start));
            assert(seen.last() == v@[i as int]);
            assert(digits[i - start] == v@[i as int]);
        }
        if c < 0x30 || c > 0x39 {
            return None;
        }
        let next = match value.checked_mul(10) {
            Some(tens) => tens.checked_add((c - 0x30) as u64),
            None => None,
        };
        match next {
            Some(n) => {
                value = n;
            },
            None => {
                proof {
                    assert(digits_value(seen) > u64::MAX);
                    lemma_digits_value_prefix(digits, i - start + 1);
                }
                return None;
            },
        }
        i = i + 1;
        assert(all_digits(seen)) by {
            assert forall|j: int| 0 <= j < seen.len() implies is_digit(#[trigger] seen[j]) by {
                if j < seen.len() - 1 {
                    assert(seen[j] == digits.take(i - 1 - start)[j]);
                }
            }
        }
    }
    assert(digits.take(i - start) =~= digits);
    Some(value)
}

/// The number of bytes in the unit that `letter` names.
fn scale_of(letter: char) -> (r: Option<u64>)
    ensures
        r == scale(letter),
{
    if letter == 'K' {
        Some(KIB)
    } else if letter == 'M' {
        Some(MIB)
    } else if letter == 'G' {
        Some(GIB)
    } else if letter == 'T' {
        Some(TIB)
    } else if letter == 'P' {
        Some(PIB)
    } else {
        None
    }
}

/// The unit at the end of `v`: its length and its size in bytes.
fn unit_of(v: &Vec<char>) -> (r: (usize, u64))
    ensures
        r.0 == unit(v@).0,
        r.1 == unit(v@).1,
        r.0 <= v.len(),
{
    let n = v.len();
    if n >= 3 && v[n - 1] == 'B' && v[n - 2] == 'I' {
        if let Some(bytes) = scale_of(v[n - 3]) {
            return (3, bytes);
        }
    }
    if n >= 2 && v[n - 1] == 'B' {
        if let Some(bytes) = scale_of(v[n - 2]) {
            return (2, bytes);
        }
    }
    if n >= 1 {
        if let Some(bytes) = scale_of(v[n - 1]) {
            return (1, bytes);
        }
        if v[n - 1] == 'B' {
            return (1, 1);
        }
    }
    (0, 1)
}

/// Parses a size that is already trimmed and in upper case, such as
/// `"10M"`, `"512 KB"` or `"1024"`.
///
/// Returns `None` where the text is empty, where what stands before the unit
/// is not an unsigned decimal number, or where the size does not fit in 64
/// bits.
pub fn parse_upper(text: &str) -> (r: Option<u64>)
    ensures
        r == amount(text@),
{
    let v = chars_of(text);
    if v.len() == 0 {
        return None;
    }
    let (k, bytes) = unit_of(&v);
    let end = v.len() - k;
    let (a, b) = trim_bounds(&v, 0, end);
    assert(v@.subrange(0, end as int) =~= v@.take(v@.len() - k));
    match parse_number(&v, a, b) {
        Some(value) => value.checked_mul(bytes),
        None => None,
    }
}

/// Parses a human-readable size such as `"10M"`, `"1G"`, `"512K"`, `"2KiB"`
/// or `"1KB"` into a number of bytes.
///
/// The units are `K`, `KB`, `KiB`, `M`, `MB`, `MiB`, `G`, `GB`, `GiB`, `T`,
/// `TB`, `TiB`, `P`, `PB`, `PiB` and `B`, in any case; a number without a
/// unit counts bytes. White space around the text, and between the number
/// and the unit, is ignored. All units are binary (base 1024).
///
/// Returns `None` where the text states no size, or one that does not fit in
/// 64 bits.
pub fn parse_size(size_str: &str) -> (r: Option<u64>)
    ensures
        r == size_of(size_str@),
{
    let v = chars_of(size_str);
    let (a, b) = trim_bounds(&v, 0, v.len());
    assert(v@.subrange(0, v@.len() as int) =~= v@);
    let upper = to_upper(size_str.substring_char(a, b));
    parse_upper(upper.as_str())
}

/// `num / den`, rounded to the nearest whole number; a quotient that lies
/// exactly halfway between two goes to the even one.
pub open spec fn round_half_even(num: nat, den: nat) -> nat {
    let q = num / den;
    let r = num % den;
    if 2 * r > den || (2 * r == den && q % 2 == 1) {
        q + 1
    } else {
        q
    }
}

/// The distance between neighbouring double-precision numbers around `b`:
/// 1 below 2^53, and twice as much with each further power of two.
pub open spec fn spacing(b: nat) -> nat
    decreases b,
{
    if b < 0x20_0000_0000_0000 {
        1
    } else {
        2 * spacing(b / 2)
    }
}

/// The double-precision number nearest to `b`. Sizes are shown with the
/// precision of a double: below 2^53 every byte count is one, above that the
/// nearest is taken.
pub open spec fn as_double(b: nat) -> nat {
    round_half_even(b, spacing(b)) * spacing(b)
}

/// `b / unit` in tenths, rounded to the nearest tenth.
pub open spec fn tenths(b: nat, unit: nat) -> nat {
    round_half_even(as_double(b) * 10, unit)
}

/// `b / unit` with one decimal place, followed by `suffix`.
pub open spec fn scaled_text(b: nat, unit: nat, suffix: Seq<char>) -> Seq<char> {
    let t = tenths(b, unit);
    decimal(t / 10) + seq!['.', digit_char(t % 10)] + suffix
}

/// `bytes` for a reader: the count itself below 1024, and above that the
/// largest unit that it reaches, with one decimal place.
pub open spec fn size_text(bytes: u64) -> Seq<char> {
    let b = bytes as nat;
    if bytes < KIB {
        decimal(b) + seq!['B']
    } else if bytes < MIB {
        scaled_text(b, KIB as nat, seq!['K', 'B'])
    } else if bytes < GIB {
        scaled_text(b, MIB as nat, seq!['M', 'B'])
    } else if bytes < TIB {
        scaled_text(b, GIB as nat, seq!['G', 'B'])
    } else if bytes < PIB {
        scaled_text(b, TIB as nat, seq!['T', 'B'])
    } else {
        scaled_text(b, PIB as nat, seq!['P', 'B'])
    }
}

fn rounded_div(num: u128, den: u128) -> (r: u128)
    requires
        0 < den <= 0x1_0000_0000_0000_0000,
        num <= 0x10_0000_0000_0000_0000,
    ensures
        r == round_half_even(num as nat, den as nat),
{
    let q = num / den;
    let rem = num % den;
    if 2 * rem > den || (2 * rem == den && q % 2 == 1) {
        q + 1
    } else {
        q
    }
}

fn spacing_of(bytes: u64) -> (r: u64)
    ensures
        r == spacing(bytes as nat),
        1 <= r <= 2048,
{
    let mut x: u64 = bytes;
    let mut sp: u64 = 1;
    while x >= 0x20_0000_0000_0000
        invariant
            spacing(bytes as nat) == sp * spacing(x as nat),
            sp * x <= bytes,
            sp == 1 || sp == 2 || sp == 4 || sp == 8 || sp == 16 || sp == 32 || sp == 64 || sp
                == 128 || sp == 256 || sp == 512 || sp == 1024 || sp == 2048,
        decreases x,
    {
        assert(sp < 2048) by (nonlinear_arith)
            requires
                sp * x <= bytes,
                x >= 0x20_0000_0000_0000,
                bytes <= 0xFFFF_FFFF_FFFF_FFFF,
        ;
        assert((2 * sp) * (x / 2) <= sp * x) by (nonlinear_arith);
        assert(sp * (2 * spacing((x / 2) as nat)) == (2 * sp) * spacing((x / 2) as nat))
            by (nonlinear_arith);
        x = x / 2;
        sp = 2 * sp;
    }
    assert(spacing(x as nat) == 1);
    assert(sp * 1 == sp);
    sp
}

fn to_double(bytes: u64) -> (d: u128)
    ensures
        d == as_double(bytes as nat),
        d <= 0x1_0000_0000_0000_0800,
{
    let sp = spacing_of(bytes);
    let q = rounded_div(bytes as u128, sp as u128);
    assert(q * sp <= bytes + sp) by (nonlinear_arith)
        requires
            q <= bytes as u128 / sp as u128 + 1,
            sp >= 1,
    ;
    q * (sp as u128)
}

/// Appends `bytes / unit` with one decimal place, and then `suffix`.
fn push_scaled(out: &mut String, bytes: u64, unit: u64, suffix: &str)
    requires
        unit >= 1024,
    ensures
        final(out)@ == old(out)@ + scaled_text(bytes as nat, unit as nat, suffix@),
{
    let d = to_double(bytes);
    let t = rounded_div(d * 10, unit as u128);
    assert(t / 10 <= 0xFFFF_FFFF_FFFF_FFFF) by {
        vstd::arithmetic::div_mod::lemma_div_is_ordered_by_denominator(
            (d * 10) as int,
            1024,
            unit as int,
        );
    }
    push_decimal(out, (t / 10) as u64);
    out.append(".");
    out.append(digit_str((t % 10) as u64));
    out.append(suffix);
    proof {
        reveal_strlit(".");
        assert(out@ =~= old(out)@ + scaled_text(bytes as nat, unit as nat, suffix@));
    }
}

/// Formats a byte count for a reader, such as `"512B"`, `"1.5KB"` or
/// `"10.0MB"`.
///
/// Below 1024 the count is given in bytes. From there on it is given in the
/// largest of KB, MB, GB, TB and PB that it reaches, with one decimal place,
/// rounded to the nearest and at a tie to the even digit. All units are
/// binary (base 1024).
pub fn format_size(bytes: u64) -> (r: String)
    ensures
        r@ == size_text(bytes),
{
    let mut out = String::new();
    proof {
        reveal_strlit("B");
        reveal_strlit("KB");
        reveal_strlit("MB");
        reveal_strlit("GB");
        reveal_strlit("TB");
        reveal_strlit("PB");
    }
    if bytes < KIB {
        push_decimal(&mut out, bytes);
        out.append("B");
        assert(out@ =~= decimal(bytes as nat) + seq!['B']);
    } else if bytes < MIB {
        push_scaled(&mut out, bytes, KIB, "KB");
        assert("KB"@ =~= seq!['K', 'B']);
    } else if bytes < GIB {
        push_scaled(&mut out, bytes, MIB, "MB");
        assert("MB"@ =~= seq!['M', 'B']);
    } else if bytes < TIB {
        push_scaled(&mut out, bytes, GIB, "GB");
        assert("GB"@ =~= seq!['G', 'B']);
    } else if bytes < PIB {
        push_scaled(&mut out, bytes, TIB, "TB");
        assert("TB"@ =~= seq!['T', 'B']);
    } else {
        push_scaled(&mut out, bytes, PIB, "PB");
        assert("PB"@ =~= seq!['P', 'B']);
    }
    assert(out@ =~= size_text(bytes));
    out
}

} // verus!
