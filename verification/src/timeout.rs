//! The TLS handshake timeout: a number of seconds that the environment may
//! override.

use vstd::prelude::*;
use vstd::string::StringSliceAdditionalSpecFns;

verus! {

/// Handshake timeout, in seconds, when none is configured or the configured
/// value is not a number.
pub const DEFAULT_HANDSHAKE_TIMEOUT_SECS: u64 = 3;

/// `b` is one of the ASCII digits `0` to `9`.
pub open spec fn is_ascii_digit(b: u8) -> bool {
    48 <= b <= 57
}

/// The number written by a string of ASCII decimal digits.
pub open spec fn decimal_value(digits: Seq<u8>) -> nat
    decreases digits.len(),
{
    if digits.len() == 0 {
        0
    } else {
        decimal_value(digits.drop_last()) * 10 + (digits.last() - 48) as nat
    }
}

/// The digits of an unsigned number written with an optional leading `+`.
pub open spec fn unsigned_digits(text: Seq<u8>) -> Seq<u8> {
    if text.len() > 0 && text[0] == 43 {
        text.drop_first()
    } else {
        text
    }
}

/// How a `u64` is read from text: an optional `+` followed by at least one
/// ASCII digit and nothing else, denoting a number that fits in 64 bits.
/// Whitespace, a `-` sign or any other byte makes the text unreadable.
pub open spec fn parse_u64_spec(text: Seq<u8>) -> Option<u64> {
    let digits = unsigned_digits(text);
    if digits.len() > 0 && (forall|i: int| 0 <= i < digits.len() ==> is_ascii_digit(#[trigger] digits[i]))
        && decimal_value(digits) <= u64::MAX {
        Some(decimal_value(digits) as u64)
    } else {
        None
    }
}

/// The handshake timeout in seconds for the configured text, if any.
pub open spec fn handshake_timeout_secs_spec(configured: Option<Seq<u8>>) -> u64 {
    match configured {
        Some(text) => match parse_u64_spec(text) {
            Some(secs) => secs,
            None => DEFAULT_HANDSHAKE_TIMEOUT_SECS,
        },
        None => DEFAULT_HANDSHAKE_TIMEOUT_SECS,
    }
}

proof fn lemma_decimal_value_grows(digits: Seq<u8>, k: int)
    requires
        0 <= k <= digits.len(),
        forall|i: int| 0 <= i < digits.len() ==> is_ascii_digit(#[trigger] digits[i]),
    ensures
        decimal_value(digits.subrange(0, k)) <= decimal_value(digits),
    decreases digits.len() - k,
{
    if k < digits.len() {
        lemma_decimal_value_grows(digits, k + 1);
        let longer = digits.subrange(0, k + 1);
        assert(longer.drop_last() =~= digits.subrange(0, k));
        assert(is_ascii_digit(longer.last()));
    } else {
        assert(digits.subrange(0, k) =~= digits);
    }
}

/// The shortest decimal writing of `n` in ASCII digits, as `n.to_string()`
/// gives it.
pub open spec fn decimal_digits(n: nat) -> Seq<u8>
    decreases n,
{
    if n < 10 {
        seq![(48 + n) as u8]
    } else {
        decimal_digits(n / 10).push((48 + n % 10) as u8)
    }
}

proof fn lemma_decimal_digits_value(n: nat)
    ensures
        decimal_digits(n).len() > 0,
        forall|i: int|
            0 <= i < decimal_digits(n).len() ==> is_ascii_digit(#[trigger] decimal_digits(n)[i]),
        decimal_value(decimal_digits(n)) == n,
        decimal_digits(n)[0] != 43,
    decreases n,
{
    if n < 10 {
        let d = decimal_digits(n);
        assert(d.drop_last() =~= Seq::<u8>::empty());
        assert(d.last() as int == 48 + n);
        assert(decimal_value(d.drop_last()) == 0);
        assert(decimal_value(d) == decimal_value(d.drop_last()) * 10 + (d.last() - 48) as nat);
    } else {
        lemma_decimal_digits_value(n / 10);
        let d = decimal_digits(n);
        assert(d.drop_last() =~= decimal_digits(n / 10));
        assert(n == (n / 10) * 10 + n % 10);
        assert(d.last() as int == 48 + n % 10);
        assert(decimal_value(d.drop_last()) == n / 10);
        assert(decimal_value(d) == decimal_value(d.drop_last()) * 10 + (d.last() - 48) as nat);
        assert forall|i: int| 0 <= i < d.len() implies is_ascii_digit(#[trigger] d[i]) by {
            if i < d.len() - 1 {
                assert(d[i] == decimal_digits(n / 10)[i]);
            }
        }
    }
}

/// A configured timeout written as a whole number of seconds in decimal, with
/// or without a leading `+`, is the timeout used: every `u64` written that
/// way is read back as itself.
pub proof fn law_configured_seconds_are_used(secs: u64)
    ensures
        parse_u64_spec(decimal_digits(secs as nat)) == Some(secs),
        parse_u64_spec(seq![43u8] + decimal_digits(secs as nat)) == Some(secs),
        handshake_timeout_secs_spec(Some(decimal_digits(secs as nat))) == secs,
{
    lemma_decimal_digits_value(secs as nat);
    let d = decimal_digits(secs as nat);
    assert(unsigned_digits(d) == d);
    assert(unsigned_digits(seq![43u8] + d) =~= d);
}

/// Reads an unsigned 64-bit number from `text`, as `str::parse::<u64>` does.
pub fn parse_u64(text: &str) -> (r: Option<u64>)
    ensures
        r == parse_u64_spec(text.spec_bytes()),
{
    let bytes = text.as_bytes();
    let n = bytes.len();
    let start: usize = if n > 0 && bytes[0] == 43u8 { 1 } else { 0 };
    let ghost digits = unsigned_digits(bytes@);
    assert(digits =~= bytes@.subrange(start as int, n as int));
    if start == n {
        return None;
    }
    let mut value: u64 = 0;
    let mut i: usize = start;
    while i < n
        invariant
            start <= i <= n,
            n == bytes@.len(),
            bytes@ == text.spec_bytes(),
            digits == unsigned_digits(bytes@),
            digits == bytes@.subrange(start as int, n as int),
            forall|j: int| 0 <= j < i - start ==> is_ascii_digit(#[trigger] digits[j]),
            value as nat == decimal_value(digits.subrange(0, i - start)),
        decreases n - i,
    {
        let b = bytes[i];
        let ghost k: int = i - start;
        assert(digits[k] == b);
        if b < 48u8 || b > 57u8 {
            return None;
        }
        let ghost next = digits.subrange(0, k + 1);
        assert(next.drop_last() =~= digits.subrange(0, k));
        let scaled = value.checked_mul(10);
        if scaled.is_none() {
            proof {
                if forall|j: int| 0 <= j < digits.len() ==> is_ascii_digit(#[trigger] digits[j]) {
                    lemma_decimal_value_grows(digits, k + 1);
                }
            }
            return None;
        }
        let scaled = scaled.unwrap();
        let added = scaled.checked_add((b - 48u8) as u64);
        if added.is_none() {
            proof {
                if forall|j: int| 0 <= j < digits.len() ==> is_ascii_digit(#[trigger] digits[j]) {
                    lemma_decimal_value_grows(digits, k + 1);
                }
            }
            return None;
        }
        value = added.unwrap();
        i = i + 1;
    }
    assert(digits.subrange(0, n - start) =~= digits);
    Some(value)
}

/// The handshake timeout in seconds: the configured text read as a number of
/// seconds, or the default of 3 seconds when nothing is configured or the text
/// is not such a number.
pub fn handshake_timeout_secs(configured: Option<&str>) -> (secs: u64)
    ensures
        secs == handshake_timeout_secs_spec(
            match configured {
                Some(text) => Some(text.spec_bytes()),
                None => None,
            },
        ),
{
    match configured {
        Some(text) => match parse_u64(text) {
            Some(secs) => secs,
            None => DEFAULT_HANDSHAKE_TIMEOUT_SECS,
        },
        None => DEFAULT_HANDSHAKE_TIMEOUT_SECS,
    }
}

/// Text that is not a plain unsigned decimal number is not read as one: when
/// the text, after an optional leading `+`, is empty or holds a byte that is
/// not an ASCII digit, reading fails and the timeout is the default.
pub proof fn law_unreadable_text_gives_default(text: &str, secs: u64)
    requires
        call_ensures(handshake_timeout_secs, (Some(text),), secs),
        ({
            let b = text.spec_bytes();
            let digits = if b.len() > 0 && b[0] == 43 {
                b.drop_first()
            } else {
                b
            };
            digits.len() == 0 || exists|i: int| 0 <= i < digits.len() && !(48 <= #[trigger] digits[i] <= 57)
        }),
    ensures
        secs == 3,
{
}

/// Without configured text the timeout is three seconds.
pub proof fn law_unconfigured_timeout_is_default(secs: u64)
    requires
        call_ensures(handshake_timeout_secs, (None::<&str>,), secs),
    ensures
        secs == 3,
{
}

/// A configured number of seconds is the timeout: when the text is the
/// decimal writing of `n` (as `n.to_string()` gives it), the timeout is `n`.
pub proof fn law_configured_number_is_the_timeout(text: &str, n: u64, secs: u64)
    requires
        call_ensures(handshake_timeout_secs, (Some(text),), secs),
        text.spec_bytes() == decimal_digits(n as nat),
    ensures
        secs == n,
{
    law_configured_seconds_are_used(n);
}

} // verus!
