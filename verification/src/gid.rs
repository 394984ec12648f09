//! Download identifiers: the null sentinel and the sixteen-digit hex form.

use vstd::prelude::*;

verus! {

/// Identifier of a download. The engine assigns it; `0` never names one.
pub type A2Gid = u64;

/// Number of hex digits in the text form of an identifier.
pub const GID_HEX_LEN: usize = 16;

/// The lower-case hex digit that stands for `n`, for `0 <= n < 16`.
pub open spec fn hex_digit(n: int) -> char {
    if 0 <= n < 10 {
        (n + 48) as char
    } else {
        (n + 87) as char
    }
}

/// The value of a hex digit of either case; `None` for any other character.
pub open spec fn hex_value(c: char) -> Option<int> {
    let u = c as int;
    if 48 <= u <= 57 {
        Some(u - 48)
    } else if 97 <= u <= 102 {
        Some(u - 87)
    } else if 65 <= u <= 70 {
        Some(u - 55)
    } else {
        None
    }
}

/// `v` with its `k` lowest hex digits removed.
pub open spec fn drop_digits(v: nat, k: nat) -> nat
    decreases k,
{
    if k == 0 {
        v
    } else {
        drop_digits(v / 16, (k - 1) as nat)
    }
}

/// The number that a string of hex digits denotes, most significant digit
/// first; `None` as soon as one character is no hex digit.
pub open spec fn hex_number(s: Seq<char>) -> Option<nat>
    decreases s.len(),
{
    if s.len() == 0 {
        Some(0nat)
    } else {
        match (hex_number(s.drop_last()), hex_value(s.last())) {
            (Some(high), Some(low)) => Some((16 * high + low) as nat),
            _ => None,
        }
    }
}

/// The text form of an identifier: sixteen lower-case hex digits, zero padded,
/// most significant digit first.
pub open spec fn spec_gid_to_hex(gid: A2Gid) -> Seq<char> {
    Seq::new(16, |i: int| hex_digit((drop_digits(gid as nat, (15 - i) as nat) % 16) as int))
}

/// The identifier that a text denotes: its number where the text is exactly
/// sixteen hex digits, the null identifier for every other text.
pub open spec fn spec_hex_to_gid(hex: Seq<char>) -> A2Gid {
    if hex.len() == 16 {
        match hex_number(hex) {
            Some(v) => v as u64,
            None => 0,
        }
    } else {
        0
    }
}

/// Sixteen to the power `n`.
pub open spec fn pow16(n: nat) -> nat
    decreases n,
{
    if n == 0 {
        1
    } else {
        16 * pow16((n - 1) as nat)
    }
}

/// Whether `gid` is the null sentinel.
pub open spec fn spec_is_gid_null(gid: A2Gid) -> bool {
    gid == 0
}

/// Whether `gid` is the null sentinel, which names no download.
pub fn is_gid_null(gid: A2Gid) -> (null: bool)
    ensures
        null == spec_is_gid_null(gid),
        null == (gid == 0),
{
    gid == 0
}

/// Removing one more digit divides by sixteen once more.
proof fn lemma_drop_digits_step(v: nat, k: nat)
    ensures
        drop_digits(v, k + 1) == drop_digits(v, k) / 16,
    decreases k,
{
    reveal_with_fuel(drop_digits, 2);
    if k > 0 {
        lemma_drop_digits_step(v / 16, (k - 1) as nat);
    }
}

/// A hex digit has the value it was made from.
proof fn lemma_hex_digit_value(d: int)
    requires
        0 <= d < 16,
    ensures
        hex_value(hex_digit(d)) == Some(d),
{
}

/// A string of `n` hex digits denotes a number below sixteen to the `n`.
pub proof fn lemma_hex_number_bound(s: Seq<char>)
    ensures
        hex_number(s) is Some ==> hex_number(s).unwrap() < pow16(s.len()),
    decreases s.len(),
{
    if s.len() > 0 {
        lemma_hex_number_bound(s.drop_last());
    }
}

/// A text with a prefix that is no hex number is no hex number.
proof fn lemma_hex_number_prefix(s: Seq<char>, n: int)
    requires
        0 <= n <= s.len(),
        hex_number(s.take(n)) is None,
    ensures
        hex_number(s) is None,
    decreases s.len() - n,
{
    if n == s.len() {
        assert(s.take(n) =~= s);
    } else {
        assert(s.take(n + 1).drop_last() =~= s.take(n));
        lemma_hex_number_prefix(s, n + 1);
    }
}

/// The digits of `v`, written most significant first, denote `v` without
/// what lies above the `n` lowest digits.
proof fn lemma_digits_number(v: nat, n: nat, s: Seq<char>)
    requires
        s.len() == n,
        forall|i: int|
            0 <= i < n ==> s[i] == hex_digit((drop_digits(v, (n - 1 - i) as nat) % 16) as int),
    ensures
        hex_number(s) is Some,
        hex_number(s).unwrap() + pow16(n) * drop_digits(v, n) == v,
    decreases n,
{
    if n > 0 {
        let high = s.drop_last();
        let m = (n - 1) as nat;
        assert forall|i: int| 0 <= i < m implies high[i] == hex_digit(
            (drop_digits(v / 16, (m - 1 - i) as nat) % 16) as int,
        ) by {
            assert(high[i] == s[i]);
        }
        lemma_digits_number(v / 16, m, high);
        lemma_hex_digit_value((v % 16) as int);
        let t = drop_digits(v / 16, m);
        let p = pow16(m);
        assert(pow16(n) * t == 16 * (p * t)) by (nonlinear_arith)
            requires
                pow16(n) == 16 * p,
        ;
    } else {
        assert(pow16(0) == 1);
    }
}

/// Nothing lies above the sixteen lowest hex digits of a 64-bit number.
proof fn lemma_drop_all_digits(gid: A2Gid)
    ensures
        drop_digits(gid as nat, 16) == 0,
{
    reveal_with_fuel(drop_digits, 17);
}

/// Sixteen to the fifteenth, the bound that keeps the last digit in 64 bits.
proof fn lemma_pow16_values(n: nat)
    requires
        n <= 15,
    ensures
        pow16(n) <= 0x1000_0000_0000_0000,
{
    reveal_with_fuel(pow16, 17);
}

/// Hex round trip: reading back the text form of an identifier gives that
/// identifier, for every identifier.
pub proof fn lemma_hex_round_trip(gid: A2Gid)
    ensures
        spec_gid_to_hex(gid).len() == 16,
        spec_hex_to_gid(spec_gid_to_hex(gid)) == gid,
{
    let hex = spec_gid_to_hex(gid);
    lemma_digits_number(gid as nat, 16, hex);
    lemma_drop_all_digits(gid);
    assert(pow16(16) * drop_digits(gid as nat, 16) == 0) by (nonlinear_arith)
        requires
            drop_digits(gid as nat, 16) == 0,
    ;
}

/// The one-character text of the hex digit for `n`.
fn hex_digit_str(n: u8) -> (s: &'static str)
    requires
        n < 16,
    ensures
        s@ =~= seq![hex_digit(n as int)],
{
    proof {
        reveal_strlit("0");
        reveal_strlit("1");
        reveal_strlit("2");
        reveal_strlit("3");
        reveal_strlit("4");
        reveal_strlit("5");
        reveal_strlit("6");
        reveal_strlit("7");
        reveal_strlit("8");
        reveal_strlit("9");
        reveal_strlit("a");
        reveal_strlit("b");
        reveal_strlit("c");
        reveal_strlit("d");
        reveal_strlit("e");
        reveal_strlit("f");
    }
    match n {
        0 => "0",
        1 => "1",
        2 => "2",
        3 => "3",
        4 => "4",
        5 => "5",
        6 => "6",
        7 => "7",
        8 => "8",
        9 => "9",
        10 => "a",
        11 => "b",
        12 => "c",
        13 => "d",
        14 => "e",
        _ => "f",
    }
}

/// The value of `c` as a hex digit of either case, if it is one.
fn hex_char_value(c: char) -> (v: Option<u8>)
    ensures
        match v {
            Some(d) => hex_value(c) == Some(d as int),
            None => hex_value(c) is None,
        },
{
    let u: u32 = c as u32;
    if 48 <= u && u <= 57 {
        Some((u - 48) as u8)
    } else if 97 <= u && u <= 102 {
        Some((u - 87) as u8)
    } else if 65 <= u && u <= 70 {
        Some((u - 55) as u8)
    } else {
        None
    }
}

/// Writes an identifier as sixteen lower-case hex digits.
pub fn gid_to_hex(gid: A2Gid) -> (hex: String)
    ensures
        hex@ == spec_gid_to_hex(gid),
{
    let mut nibbles: Vec<u8> = Vec::new();
    let mut rest: u64 = gid;
    let mut k: usize = 0;
    while k < GID_HEX_LEN
        invariant
            k <= 16,
            nibbles@.len() == k,
            rest == drop_digits(gid as nat, k as nat),
            forall|j: int| 0 <= j < k ==> nibbles@[j] == drop_digits(gid as nat, j as nat) % 16,
        decreases 16 - k,
    {
        proof {
            lemma_drop_digits_step(gid as nat, k as nat);
        }
        nibbles.push((rest % 16) as u8);
        rest = rest / 16;
        k += 1;
    }
    let mut hex = String::new();
    let mut i: usize = 0;
    while i < GID_HEX_LEN
        invariant
            i <= 16,
            nibbles@.len() == 16,
            forall|j: int| 0 <= j < 16 ==> nibbles@[j] == drop_digits(gid as nat, j as nat) % 16,
            hex@.len() == i,
            forall|j: int| 0 <= j < i ==> hex@[j] == spec_gid_to_hex(gid)[j],
        decreases 16 - i,
    {
        hex.append(hex_digit_str(nibbles[15 - i]));
        i += 1;
    }
    hex
}

/// Reads an identifier from its text form. A text that is not exactly
/// sixteen hex digits, of either case, gives the null identifier.
pub fn hex_to_gid(hex: &str) -> (gid: A2Gid)
    ensures
        gid == spec_hex_to_gid(hex@),
{
    if hex.unicode_len() != GID_HEX_LEN {
        return 0;
    }
    let mut acc: u64 = 0;
    let mut i: usize = 0;
    while i < GID_HEX_LEN
        invariant
            i <= 16,
            hex@.len() == 16,
            hex_number(hex@.take(i as int)) == Some(acc as nat),
        decreases 16 - i,
    {
        proof {
            lemma_hex_number_bound(hex@.take(i as int));
            lemma_pow16_values(i as nat);
            assert(hex@.take(i + 1).drop_last() =~= hex@.take(i as int));
        }
        match hex_char_value(hex.get_char(i)) {
            Some(d) => {
                acc = acc * 16 + d as u64;
            },
            None => {
                proof {
                    lemma_hex_number_prefix(hex@, i + 1);
                }
                return 0;
            },
        }
        i += 1;
    }
    assert(hex@.take(16) =~= hex@);
    acc
}

} // verus!
