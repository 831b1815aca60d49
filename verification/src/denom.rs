//! Token-factory denominations: how they are built from a creator address
//! and a sub-denomination, and how a redemption denomination is read back.
use vstd::prelude::*;

verus! {

/// The character of the decimal digit `d`.
pub open spec fn digit_char(d: nat) -> char {
    ((48 + d) as u32) as char
}

/// The decimal representation of `n`, without sign or leading zeros.
pub open spec fn decimal_string(n: nat) -> Seq<char>
    decreases n,
{
    if n < 10 {
        seq![digit_char(n)]
    } else {
        decimal_string(n / 10).push(digit_char(n % 10))
    }
}

/// Whether `c` is one of '0'..'9'.
pub open spec fn is_digit(c: char) -> bool {
    '0' <= c && c <= '9'
}

/// Whether every character of `s` is a decimal digit.
pub open spec fn all_digits(s: Seq<char>) -> bool {
    forall|i: int| 0 <= i < s.len() ==> #[trigger] is_digit(s[i])
}

/// The number that the decimal digits `s` denote.
pub open spec fn digits_value(s: Seq<char>) -> nat
    decreases s.len(),
{
    if s.len() == 0 {
        0
    } else {
        digits_value(s.drop_last()) * 10 + ((s.last() as u32) - 48) as nat
    }
}

/// What `u64::from_str` accepts: an optional '+' followed by at least one
/// decimal digit, denoting a number that fits in 64 bits.
pub open spec fn parse_u64_spec(s: Seq<char>) -> Option<u64> {
    let t = if s.len() > 0 && s[0] == '+' {
        s.drop_first()
    } else {
        s
    };
    if t.len() > 0 && all_digits(t) && digits_value(t) <= u64::MAX {
        Some(digits_value(t) as u64)
    } else {
        None
    }
}

/// What `u128::from_str` accepts: an optional '+' followed by at least one
/// decimal digit, denoting a number that fits in 128 bits.
pub open spec fn parse_u128_spec(s: Seq<char>) -> Option<u128> {
    let t = if s.len() > 0 && s[0] == '+' {
        s.drop_first()
    } else {
        s
    };
    if t.len() > 0 && all_digits(t) && digits_value(t) <= u128::MAX {
        Some(digits_value(t) as u128)
    } else {
        None
    }
}

/// The number of '/' characters in `s`.
pub open spec fn slash_count(s: Seq<char>) -> nat
    decreases s.len(),
{
    if s.len() == 0 {
        0
    } else {
        slash_count(s.drop_last()) + if s.last() == '/' {
            1nat
        } else {
            0nat
        }
    }
}

/// The full denomination `factory/{creator}/{subdenom}`.
pub open spec fn full_denom_spec(creator: Seq<char>, subdenom: Seq<char>) -> Seq<char> {
    "factory/"@ + creator + "/"@ + subdenom
}

/// The prefix shared by every redemption denomination of `creator`.
pub open spec fn redemption_prefix(creator: Seq<char>) -> Seq<char> {
    "factory/"@ + creator + "/redemption/batch/"@
}

/// `n.to_string()` for a `u64`: its decimal digits.
#[verifier::external_body]
pub(crate) fn u64_to_string(n: u64) -> (s: String)
    ensures
        s@ == decimal_string(n as nat),
{
    n.to_string()
}

/// `u64::from_str`: an optional '+' and decimal digits, within 64 bits.
#[verifier::external_body]
pub(crate) fn parse_u64(s: &str) -> (r: Option<u64>)
    ensures
        r == parse_u64_spec(s@),
{
    s.parse::<u64>().ok()
}

/// `cosmwasm_std::Uint128::from_str`, which parses with `u128::from_str`:
/// an optional '+' and decimal digits, within 128 bits.
#[verifier::external_body]
pub(crate) fn parse_u128(s: &str) -> (r: Option<u128>)
    ensures
        r == parse_u128_spec(s@),
{
    match s.parse::<cosmwasm_std::Uint128>() {
        Ok(v) => Some(v.u128()),
        Err(_) => None,
    }
}

/// The full token-factory denomination `factory/{creator}/{subdenom}`.
pub fn full_denom(creator: &str, subdenom: &str) -> (d: String)
    ensures
        d@ == full_denom_spec(creator@, subdenom@),
{
    let mut d = String::from_str("factory/");
    d.append(creator);
    d.append("/");
    d.append(subdenom);
    d
}

/// The full redemption denomination of `batch_id`:
/// `factory/{creator}/redemption/batch/{batch_id}`.
pub fn redemption_denom(creator: &str, batch_id: &str) -> (d: String)
    ensures
        d@ == redemption_prefix(creator@) + batch_id@,
{
    let mut d = String::from_str("factory/");
    d.append(creator);
    d.append("/redemption/batch/");
    d.append(batch_id);
    d
}

/// The redemption sub-denomination of `batch_id`: `redemption/batch/{batch_id}`.
pub fn redemption_subdenom(batch_id: u64) -> (d: String)
    ensures
        d@ == "redemption/batch/"@ + decimal_string(batch_id as nat),
{
    let mut d = String::from_str("redemption/batch/");
    let id = u64_to_string(batch_id);
    d.append(id.as_str());
    d
}

/// Whether `prefix` is a prefix of `s`.
pub fn starts_with(s: &str, prefix: &str) -> (b: bool)
    ensures
        b == prefix@.is_prefix_of(s@),
{
    let n = s.unicode_len();
    let m = prefix.unicode_len();
    if m > n {
        return false;
    }
    let mut i: usize = 0;
    while i < m
        invariant
            n == s@.len(),
            m == prefix@.len(),
            m <= n,
            i <= m,
            forall|j: int| 0 <= j < i ==> prefix@[j] == s@[j],
        decreases m - i,
    {
        if s.get_char(i) != prefix.get_char(i) {
            return false;
        }
        i = i + 1;
    }
    true
}

/// The number of '/' characters in `s`.
pub fn count_slashes(s: &str) -> (c: usize)
    ensures
        c == slash_count(s@),
{
    let n = s.unicode_len();
    let mut c: usize = 0;
    let mut i: usize = 0;
    while i < n
        invariant
            n == s@.len(),
            i <= n,
            c == slash_count(s@.subrange(0, i as int)),
            c <= i,
        decreases n - i,
    {
        proof {
            assert(s@.subrange(0, i + 1).drop_last() =~= s@.subrange(0, i as int));
        }
        if s.get_char(i) == '/' {
            c = c + 1;
        }
        i = i + 1;
    }
    proof {
        assert(s@.subrange(0, n as int) =~= s@);
    }
    c
}

} // verus!

verus! {

/// The decimal string of `n` is a non-empty run of digits, with no '/', no
/// leading '+', denoting `n`.
pub proof fn lemma_decimal_string(n: nat)
    ensures
        decimal_string(n).len() > 0,
        all_digits(decimal_string(n)),
        digits_value(decimal_string(n)) == n,
        slash_count(decimal_string(n)) == 0,
        decimal_string(n)[0] != '+',
    decreases n,
{
    let s = decimal_string(n);
    if n < 10 {
        assert(s.drop_last() =~= Seq::<char>::empty());
        assert(digits_value(Seq::<char>::empty()) == 0);
        assert(slash_count(Seq::<char>::empty()) == 0);
    } else {
        lemma_decimal_string(n / 10);
        let t = decimal_string(n / 10);
        assert(s == t.push(digit_char(n % 10)));
        assert(s.drop_last() =~= t);
        assert forall|i: int| 0 <= i < s.len() implies #[trigger] is_digit(s[i]) by {
            if i < t.len() {
                assert(s[i] == t[i]);
                assert(is_digit(t[i]));
            }
        }
        assert(s[0] == t[0]);
    }
}

/// Reading back the decimal string of a `u64` gives the number.
pub proof fn lemma_parse_decimal_string(n: u64)
    ensures
        parse_u64_spec(decimal_string(n as nat)) == Some(n),
{
    lemma_decimal_string(n as nat);
}

/// The slashes of a concatenation are those of its parts.
pub proof fn lemma_slash_count_concat(a: Seq<char>, b: Seq<char>)
    ensures
        slash_count(a + b) == slash_count(a) + slash_count(b),
    decreases b.len(),
{
    if b.len() == 0 {
        assert(a + b =~= a);
    } else {
        lemma_slash_count_concat(a, b.drop_last());
        assert((a + b).drop_last() =~= a + b.drop_last());
        assert((a + b).last() == b.last());
    }
}

/// The redemption prefix of a creator without '/' holds exactly four.
pub proof fn lemma_redemption_prefix_slashes(creator: Seq<char>)
    ensures
        slash_count(redemption_prefix(creator)) == 4 + slash_count(creator),
{
    reveal_strlit("factory/");
    reveal_strlit("/redemption/batch/");
    reveal_with_fuel(slash_count, 20);
    lemma_slash_count_concat("factory/"@ + creator, "/redemption/batch/"@);
    lemma_slash_count_concat("factory/"@, creator);
    assert(slash_count("factory/"@) == 1);
    assert(slash_count("/redemption/batch/"@) == 3);
}

} // verus!
