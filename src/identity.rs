//! Identity resolution: reading Steam2 identities and decimal account
//! identifiers as 64-bit account identifiers.
use vstd::prelude::*;

verus! {

/// Universe "public", account type "individual" and instance "desktop", in
/// the bit positions of a 64-bit account identifier.
pub const INDIVIDUAL_ACCOUNT_BASE: u64 = 0x0110_0001_0000_0000;

pub open spec fn is_digit(c: char) -> bool {
    '0' <= c && c <= '9'
}

pub open spec fn digit_value(c: char) -> nat {
    (c as int - '0' as int) as nat
}

pub open spec fn all_digits(s: Seq<char>) -> bool {
    forall|i: int| 0 <= i < s.len() ==> is_digit(#[trigger] s[i])
}

/// The number that a string of decimal digits denotes.
pub open spec fn decimal_value(s: Seq<char>) -> nat
    decreases s.len(),
{
    if s.len() == 0 {
        0
    } else {
        decimal_value(s.drop_last()) * 10 + digit_value(s.last())
    }
}

/// A non-empty run of decimal digits whose value fits in 64 bits.
pub open spec fn spec_parse_u64(s: Seq<char>) -> Option<u64> {
    if s.len() > 0 && all_digits(s) && decimal_value(s) <= u64::MAX {
        Some(decimal_value(s) as u64)
    } else {
        None
    }
}

/// The account number of a Steam2 identity `STEAM_X:Y:Z`: `2 * Z + Y`, where
/// `X` is one digit, `Y` is `0` or `1`, `Z` is decimal digits, and the
/// account number fits in 32 bits.
pub open spec fn spec_steam2_account(s: Seq<char>) -> Option<nat> {
    if s.len() >= 11 && s.take(6) == "STEAM_"@ && is_digit(s[6]) && s[7] == ':' && (s[8] == '0'
        || s[8] == '1') && s[9] == ':' && all_digits(s.skip(10)) && 2 * decimal_value(s.skip(10))
        + digit_value(s[8]) <= 0xFFFF_FFFF {
        Some(2 * decimal_value(s.skip(10)) + digit_value(s[8]))
    } else {
        None
    }
}

/// The 64-bit identifier of the individual public account a Steam2 identity names.
pub open spec fn spec_parse_steam2(s: Seq<char>) -> Option<u64> {
    match spec_steam2_account(s) {
        Some(a) => Some((INDIVIDUAL_ACCOUNT_BASE + a) as u64),
        None => None,
    }
}

proof fn lemma_decimal_value_prefix_monotone(s: Seq<char>, j: int, k: int)
    requires
        0 <= j <= k <= s.len(),
    ensures
        decimal_value(s.take(j)) <= decimal_value(s.take(k)),
    decreases k - j,
{
    if j < k {
        lemma_decimal_value_prefix_monotone(s, j, k - 1);
        assert(s.take(k).drop_last() =~= s.take(k - 1));
    }
}

/// Reads a non-empty run of decimal digits as an unsigned 64-bit number;
/// `None` for any other character or a value past `u64::MAX`.
pub fn parse_u64(s: &str) -> (r: Option<u64>)
    ensures
        r == spec_parse_u64(s@),
{
    let n = s.unicode_len();
    if n == 0 {
        return None;
    }
    let mut v: u64 = 0;
    let mut i: usize = 0;
    while i < n
        invariant
            n == s@.len(),
            0 <= i <= n,
            all_digits(s@.take(i as int)),
            v == decimal_value(s@.take(i as int)),
        decreases n - i,
    {
        let c = s.get_char(i);
        if c < '0' || c > '9' {
            assert(!is_digit(s@[i as int]));
            return None;
        }
        let d: u64 = (c as u32 - '0' as u32) as u64;
        assert(s@.take(i as int + 1).drop_last() =~= s@.take(i as int));
        if v > (u64::MAX - d) / 10 {
            proof {
                lemma_decimal_value_prefix_monotone(s@, i as int + 1, n as int);
                assert(s@.take(n as int) =~= s@);
            }
            return None;
        }
        v = v * 10 + d;
        i = i + 1;
    }
    assert(s@.take(n as int) =~= s@);
    Some(v)
}

/// Reads a Steam2 identity (`STEAM_X:Y:Z`) as the 64-bit identifier of the
/// individual public account it names.
pub fn parse_steam2(s: &str) -> (r: Option<u64>)
    ensures
        r == spec_parse_steam2(s@),
        r matches Some(v) ==> INDIVIDUAL_ACCOUNT_BASE <= v <= INDIVIDUAL_ACCOUNT_BASE + 0xFFFF_FFFF,
{
    proof {
        reveal_strlit("STEAM_");
    }
    let n = s.unicode_len();
    if n < 11 {
        return None;
    }
    if s.get_char(0) != 'S' || s.get_char(1) != 'T' || s.get_char(2) != 'E' || s.get_char(3)
        != 'A' || s.get_char(4) != 'M' || s.get_char(5) != '_' {
        assert(s@.take(6)[0] != 'S' || s@.take(6)[1] != 'T' || s@.take(6)[2] != 'E'
            || s@.take(6)[3] != 'A' || s@.take(6)[4] != 'M' || s@.take(6)[5] != '_');
        return None;
    }
    assert(s@.take(6) =~= "STEAM_"@);
    let x = s.get_char(6);
    let y = s.get_char(8);
    if x < '0' || x > '9' || s.get_char(7) != ':' || (y != '0' && y != '1') || s.get_char(9)
        != ':' {
        return None;
    }
    let tail = s.substring_char(10, n);
    assert(tail@ =~= s@.skip(10));
    match parse_u64(tail) {
        None => None,
        Some(z) => {
            let low: u64 = if y == '1' {
                1
            } else {
                0
            };
            if z > (0xFFFF_FFFF - low) / 2 {
                None
            } else {
                Some(INDIVIDUAL_ACCOUNT_BASE + (2 * z + low))
            }
        },
    }
}

} // verus!
