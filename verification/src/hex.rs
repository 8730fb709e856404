//! Lowercase hexadecimal rendering of addresses.
//!
//! An address that cannot be given a name is shown as `0x` followed by its
//! hexadecimal digits, lowercase and without leading zeros.

use vstd::prelude::*;

verus! {

/// The lowercase hexadecimal digit that stands for `d`, for `d` below 16.
pub open spec fn hex_char(d: nat) -> char {
    if d == 0 {
        '0'
    } else if d == 1 {
        '1'
    } else if d == 2 {
        '2'
    } else if d == 3 {
        '3'
    } else if d == 4 {
        '4'
    } else if d == 5 {
        '5'
    } else if d == 6 {
        '6'
    } else if d == 7 {
        '7'
    } else if d == 8 {
        '8'
    } else if d == 9 {
        '9'
    } else if d == 10 {
        'a'
    } else if d == 11 {
        'b'
    } else if d == 12 {
        'c'
    } else if d == 13 {
        'd'
    } else if d == 14 {
        'e'
    } else {
        'f'
    }
}

/// The number that a lowercase hexadecimal digit stands for.
pub open spec fn hex_char_value(c: char) -> nat {
    if c == '0' {
        0
    } else if c == '1' {
        1
    } else if c == '2' {
        2
    } else if c == '3' {
        3
    } else if c == '4' {
        4
    } else if c == '5' {
        5
    } else if c == '6' {
        6
    } else if c == '7' {
        7
    } else if c == '8' {
        8
    } else if c == '9' {
        9
    } else if c == 'a' {
        10
    } else if c == 'b' {
        11
    } else if c == 'c' {
        12
    } else if c == 'd' {
        13
    } else if c == 'e' {
        14
    } else {
        15
    }
}

/// Whether `c` is one of `0`..`9`, `a`..`f`.
pub open spec fn is_lower_hex(c: char) -> bool {
    ('0' <= c && c <= '9') || ('a' <= c && c <= 'f')
}

/// The hexadecimal digits of `n`, most significant first.
pub open spec fn hex_digits(n: nat) -> Seq<char>
    decreases n,
{
    if n < 16 {
        seq![hex_char(n)]
    } else {
        hex_digits(n / 16).push(hex_char(n % 16))
    }
}

/// The number that a sequence of hexadecimal digits denotes.
pub open spec fn hex_value(digits: Seq<char>) -> nat
    decreases digits.len(),
{
    if digits.len() == 0 {
        0
    } else {
        16 * hex_value(digits.drop_last()) + hex_char_value(digits.last())
    }
}

/// The two characters `0x` that open every rendered address.
pub open spec fn hex_prefix() -> Seq<char> {
    seq!['0', 'x']
}

/// The text that stands for an address without a name.
pub open spec fn hex_address(address: nat) -> Seq<char> {
    hex_prefix() + hex_digits(address)
}

/// Every digit of `hex_digits(n)` is a lowercase hexadecimal digit.
pub proof fn lemma_hex_digits_lowercase(n: nat)
    ensures
        forall|i: int| 0 <= i < hex_digits(n).len() ==> is_lower_hex(#[trigger] hex_digits(n)[i]),
    decreases n,
{
    if n >= 16 {
        lemma_hex_digits_lowercase(n / 16);
        let d = hex_digits(n);
        assert forall|i: int| 0 <= i < d.len() implies is_lower_hex(#[trigger] d[i]) by {
            if i < d.len() - 1 {
                assert(d[i] == hex_digits(n / 16)[i]);
            }
        }
    }
}

/// `hex_digits(n)` is never empty and is not padded: zero is the single digit
/// `0`, and the first digit of any other number is not `0`.
pub proof fn lemma_hex_digits_no_padding(n: nat)
    ensures
        hex_digits(n).len() >= 1,
        n == 0 ==> hex_digits(n) == seq!['0'],
        n > 0 ==> hex_digits(n)[0] != '0',
    decreases n,
{
    if n >= 16 {
        lemma_hex_digits_no_padding(n / 16);
    }
}

/// Reading the digits of `n` back gives `n`, so two addresses are rendered
/// alike only when they are equal.
pub proof fn lemma_hex_digits_value(n: nat)
    ensures
        hex_value(hex_digits(n)) == n,
    decreases n,
{
    if n < 16 {
        let d = hex_digits(n);
        assert(hex_value(d.drop_last()) == 0);
    } else {
        lemma_hex_digits_value(n / 16);
        let d = hex_digits(n);
        assert(d.drop_last() =~= hex_digits(n / 16));
    }
}

/// Distinct addresses have distinct renderings.
pub proof fn lemma_hex_address_injective(a: nat, b: nat)
    requires
        hex_address(a) == hex_address(b),
    ensures
        a == b,
{
    let da = hex_digits(a);
    let db = hex_digits(b);
    assert(da =~= hex_address(a).subrange(2, hex_address(a).len() as int));
    assert(db =~= hex_address(b).subrange(2, hex_address(b).len() as int));
    lemma_hex_digits_value(a);
    lemma_hex_digits_value(b);
}

/// One hexadecimal digit as a string slice.
fn hex_digit(d: u8) -> (s: &'static str)
    requires
        d < 16,
    ensures
        s@ == seq![hex_char(d as nat)],
{
    proof {
        reveal_strlit("0");
        reveal_strlit("1");
        reveal_strlit("2");
        reveal_strlit("3");
        reveal_strlit("4");
        reveal_strlit("5");
        reveal_strlit("6");
        reveal_strlit("7");
        reveal_strlit("8");
        reveal_strlit("9");
        reveal_strlit("a");
        reveal_strlit("b");
        reveal_strlit("c");
        reveal_strlit("d");
        reveal_strlit("e");
        reveal_strlit("f");
    }
    match d {
        0 => "0",
        1 => "1",
        2 => "2",
        3 => "3",
        4 => "4",
        5 => "5",
        6 => "6",
        7 => "7",
        8 => "8",
        9 => "9",
        10 => "a",
        11 => "b",
        12 => "c",
        13 => "d",
        14 => "e",
        _ => "f",
    }
}

/// Appends the hexadecimal digits of `n` to `out`.
fn push_hex_digits(out: &mut String, n: u64)
    ensures
        final(out)@ == old(out)@ + hex_digits(n as nat),
    decreases n,
{
    if n < 16 {
        out.append(hex_digit(n as u8));
    } else {
        push_hex_digits(out, n / 16);
        out.append(hex_digit((n % 16) as u8));
    }
}

/// Renders `address` as `0x` and its lowercase hexadecimal digits, without
/// leading zeros.
pub fn format_address(address: u64) -> (text: String)
    ensures
        text@ == hex_address(address as nat),
{
    proof {
        reveal_strlit("0x");
    }
    let mut text = String::from_str("0x");
    push_hex_digits(&mut text, address);
    text
}

} // verus!
