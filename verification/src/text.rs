//! Text rendering shared by the bot: decimal numbers and UUIDs.
use vstd::prelude::*;

verus! {

/// The character of a decimal digit `d` (for `0 <= d < 10`).
pub open spec fn digit_char(d: int) -> char {
    if d == 0 {
        '0'
    } else if d == 1 {
        '1'
    } else if d == 2 {
        '2'
    } else if d == 3 {
        '3'
    } else if d == 4 {
        '4'
    } else if d == 5 {
        '5'
    } else if d == 6 {
        '6'
    } else if d == 7 {
        '7'
    } else if d == 8 {
        '8'
    } else {
        '9'
    }
}

/// The decimal representation of a natural number, without leading zeros.
pub open spec fn decimal(n: nat) -> Seq<char>
    decreases n,
{
    if n < 10 {
        seq![digit_char(n as int)]
    } else {
        decimal(n / 10).push(digit_char((n % 10) as int))
    }
}

/// The decimal representation of an integer, with a leading `-` when negative.
pub open spec fn signed_decimal(n: int) -> Seq<char> {
    if n < 0 {
        seq!['-'] + decimal((-n) as nat)
    } else {
        decimal(n as nat)
    }
}

/// The character of a lower-case hexadecimal digit `d` (for `0 <= d < 16`).
pub open spec fn hex_char(d: int) -> char {
    if d < 10 {
        digit_char(d)
    } else if d == 10 {
        'a'
    } else if d == 11 {
        'b'
    } else if d == 12 {
        'c'
    } else if d == 13 {
        'd'
    } else if d == 14 {
        'e'
    } else {
        'f'
    }
}

/// The `k`-th hexadecimal digit of `u`, counted from the most significant of 32 digits.
pub open spec fn uuid_nibble(u: u128, k: int) -> int {
    (u as int / vstd::arithmetic::power::pow(16, (31 - k) as nat)) % 16
}

/// The position among the 32 hexadecimal digits that character `i` of the
/// hyphenated form (`8-4-4-4-12`) shows.
pub open spec fn uuid_digit_index(i: int) -> int {
    if i < 8 {
        i
    } else if i < 13 {
        i - 1
    } else if i < 18 {
        i - 2
    } else if i < 23 {
        i - 3
    } else {
        i - 4
    }
}

/// The hyphenated lower-case text of the UUID whose big-endian value is `u`,
/// such as `67e55044-10b1-426f-9247-bb680e5fe0c8`.
pub open spec fn uuid_text(u: u128) -> Seq<char> {
    Seq::new(
        36,
        |i: int|
            if i == 8 || i == 13 || i == 18 || i == 23 {
                '-'
            } else {
                hex_char(uuid_nibble(u, uuid_digit_index(i)))
            },
    )
}

/// The UUID `u` with its two lowest bits replaced by `k` (for `k < 4`).
pub open spec fn with_low_bits(u: u128, k: u128) -> u128 {
    (u & 0xffff_ffff_ffff_ffff_ffff_ffff_ffff_fffc) | k
}

/// The bit facts behind `with_low_bits`: the version and variant digits
/// stay, the lowest two bits become `k`, and `k` = the lowest bits of `u`
/// gives `u` back.
proof fn low_bits_facts(u: u128, k: u128)
    by (bit_vector)
    requires
        k < 4,
    ensures
        ((u & 0xffff_ffff_ffff_ffff_ffff_ffff_ffff_fffc) | k) / 0x1000_0000_0000_0000_0000 % 16 == u
            / 0x1000_0000_0000_0000_0000 % 16,
        ((u & 0xffff_ffff_ffff_ffff_ffff_ffff_ffff_fffc) | k) / 0x1000_0000_0000_0000 % 16 == u
            / 0x1000_0000_0000_0000 % 16,
        ((u & 0xffff_ffff_ffff_ffff_ffff_ffff_ffff_fffc) | k) % 16 % 4 == k,
        (u & 0xffff_ffff_ffff_ffff_ffff_ffff_ffff_fffc) | (u % 4) == u,
{
}

/// The last character of a UUID's text is its lowest hexadecimal digit.
pub proof fn uuid_text_last(u: u128)
    ensures
        uuid_text(u).len() == 36,
        uuid_text(u)[35] == hex_char((u % 16) as int),
{
    reveal(vstd::arithmetic::power::pow);
    assert(vstd::arithmetic::power::pow(16, 0) == 1);
    assert(uuid_digit_index(35) == 31);
}

/// Replacing the two lowest bits keeps a random UUID random, and with
/// `k` = its own lowest bits it is the UUID itself.
pub proof fn low_bits_keep_uuid_random(u: u128, k: u128)
    requires
        k < 4,
    ensures
        is_random_uuid(u) ==> is_random_uuid(with_low_bits(u, k)),
        with_low_bits(u, k) % 16 % 4 == k,
        with_low_bits(u, u % 4) == u,
{
    low_bits_facts(u, k);
    low_bits_facts(u, u % 4);
    assert(vstd::arithmetic::power::pow(16, 19) == 0x1000_0000_0000_0000_0000) by {
        reveal_with_fuel(vstd::arithmetic::power::pow, 20);
    }
    assert(vstd::arithmetic::power::pow(16, 15) == 0x1000_0000_0000_0000) by {
        reveal_with_fuel(vstd::arithmetic::power::pow, 16);
    }
}

/// Two distinct lowest hexadecimal digits give distinct characters.
pub proof fn hex_char_injective(a: int, b: int)
    requires
        0 <= a < 16,
        0 <= b < 16,
        a != b,
    ensures
        hex_char(a) != hex_char(b),
{
}

/// The one-character text of decimal digit `d`.
fn digit_str(d: u64) -> (s: &'static str)
    requires
        d < 10,
    ensures
        s@ == seq![digit_char(d as int)],
{
    proof {
        reveal_strlit("0");
        reveal_strlit("1");
        reveal_strlit("2");
        reveal_strlit("3");
        reveal_strlit("4");
        reveal_strlit("5");
        reveal_strlit("6");
        reveal_strlit("7");
        reveal_strlit("8");
        reveal_strlit("9");
    }
    if d == 0 {
        "0"
    } else if d == 1 {
        "1"
    } else if d == 2 {
        "2"
    } else if d == 3 {
        "3"
    } else if d == 4 {
        "4"
    } else if d == 5 {
        "5"
    } else if d == 6 {
        "6"
    } else if d == 7 {
        "7"
    } else if d == 8 {
        "8"
    } else {
        "9"
    }
}

/// Appends the decimal digits of `n` to `out`.
fn push_decimal(out: &mut String, n: u64)
    ensures
        final(out)@ == old(out)@ + decimal(n as nat),
    decreases n,
{
    if n < 10 {
        out.append(digit_str(n));
    } else {
        push_decimal(out, n / 10);
        out.append(digit_str(n % 10));
        assert(decimal(n as nat) == decimal((n / 10) as nat).push(digit_char((n % 10) as int)));
    }
}

/// Renders an unsigned integer in decimal, as `format!("{}", n)` does.
pub fn u64_to_decimal(n: u64) -> (s: String)
    ensures
        s@ == decimal(n as nat),
{
    let mut s = String::new();
    push_decimal(&mut s, n);
    s
}

/// Renders a signed integer in decimal, as `format!("{}", n)` does.
pub fn i64_to_decimal(n: i64) -> (s: String)
    ensures
        s@ == signed_decimal(n as int),
{
    if n < 0 {
        proof {
            reveal_strlit("-");
        }
        let mut s = String::from_str("-");
        let magnitude: u64 = (0i128 - n as i128) as u64;
        push_decimal(&mut s, magnitude);
        s
    } else {
        u64_to_decimal(n as u64)
    }
}

/// Renders a UUID, given by its 128-bit big-endian value, with the `uuid`
/// crate's `Display` (its hyphenated lower-case form), which
/// `uuid_text` states digit by digit.
#[verifier::external_body]
pub(crate) fn uuid_to_text(id: u128) -> (s: String)
    ensures
        s@ == uuid_text(id),
{
    uuid::Uuid::from_u128(id).to_string()
}

/// Whether `u` is a random (version 4) UUID of the RFC 4122 variant: its
/// version digit is 4 and its variant digit is one of `8`, `9`, `a`, `b`.
pub open spec fn is_random_uuid(u: u128) -> bool {
    &&& uuid_nibble(u, 12) == 4
    &&& 8 <= uuid_nibble(u, 16) <= 11
}

/// A fresh random UUID from `uuid::Uuid::new_v4`, as its 128-bit big-endian
/// value. What the random source gives is not stated; of every outcome the
/// crate's source masks in the version digit 4 and the RFC 4122 variant bits.
#[verifier::external_body]
pub(crate) fn random_uuid() -> (id: u128)
    ensures
        is_random_uuid(id),
{
    uuid::Uuid::new_v4().as_u128()
}

} // verus!
