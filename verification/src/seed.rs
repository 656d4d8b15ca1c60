//! The value that is revealed to close a round: a decimal seed, then `:` and
//! a salt that only serves to make the commitment hard to guess. The seed is
//! written as Rust writes a `u64`: decimal digits, which one `+` may lead.

use vstd::prelude::*;
use crate::config::SALT_DELIM;

verus! {

/// Whether `byte` is an ASCII decimal digit.
pub open spec fn is_digit(byte: u8) -> bool {
    0x30 <= byte <= 0x39
}

/// Whether every byte of `bytes` is a decimal digit.
pub open spec fn all_digits(bytes: Seq<u8>) -> bool {
    forall|i: int| 0 <= i < bytes.len() ==> is_digit(#[trigger] bytes[i])
}

/// The number that the decimal digits `digits` write, most significant first.
pub open spec fn decimal_value(digits: Seq<u8>) -> nat
    decreases digits.len(),
{
    if digits.len() == 0 {
        0
    } else {
        (10 * decimal_value(digits.drop_last()) + (digits.last() - 0x30)) as nat
    }
}

/// How many bytes of `revealed` come before its first delimiter: all of them
/// where it holds none.
pub open spec fn token_len(revealed: Seq<u8>) -> nat
    decreases revealed.len(),
{
    if revealed.len() == 0 || revealed.first() == SALT_DELIM {
        0
    } else {
        1 + token_len(revealed.drop_first())
    }
}

/// The seed token of `revealed`: what comes before its first delimiter.
pub open spec fn seed_token(revealed: Seq<u8>) -> Seq<u8> {
    revealed.take(token_len(revealed) as int)
}

/// The digits of a token, without the one `+` that may lead them.
pub open spec fn unsigned_digits(token: Seq<u8>) -> Seq<u8> {
    if token.len() > 0 && token.first() == 0x2b {
        token.drop_first()
    } else {
        token
    }
}

/// The number that `token` writes: an optional `+`, then one or more decimal
/// digits whose value fits 64 bits. Any other token writes none.
pub open spec fn token_value(token: Seq<u8>) -> Option<u64> {
    let digits = unsigned_digits(token);
    if digits.len() > 0 && all_digits(digits) && decimal_value(digits) <= u64::MAX {
        Some(decimal_value(digits) as u64)
    } else {
        None
    }
}

/// The seed that `revealed` carries, if its token writes one.
pub open spec fn seed_of(revealed: Seq<u8>) -> Option<u64> {
    token_value(seed_token(revealed))
}

/// The token ends at the first delimiter, or at the end of a reveal that has
/// none.
pub proof fn lemma_token_len(revealed: Seq<u8>)
    ensures
        token_len(revealed) <= revealed.len(),
        forall|i: int| 0 <= i < token_len(revealed) ==> revealed[i] != SALT_DELIM,
        token_len(revealed) < revealed.len() ==> revealed[token_len(revealed) as int] == SALT_DELIM,
    decreases revealed.len(),
{
    if revealed.len() == 0 || revealed.first() == SALT_DELIM {
    } else {
        let rest = revealed.drop_first();
        lemma_token_len(rest);
        assert forall|i: int| 0 <= i < token_len(revealed) implies revealed[i] != SALT_DELIM by {
            if i > 0 {
                assert(revealed[i] == rest[i - 1]);
            }
        }
        if token_len(revealed) < revealed.len() {
            assert(revealed[token_len(revealed) as int] == rest[token_len(rest) as int]);
        }
    }
}

/// A position that no delimiter precedes, and that is the end of the reveal
/// or holds a delimiter, is where the token ends.
pub proof fn lemma_token_len_unique(revealed: Seq<u8>, end: int)
    requires
        0 <= end <= revealed.len(),
        forall|i: int| 0 <= i < end ==> revealed[i] != SALT_DELIM,
        end < revealed.len() ==> revealed[end] == SALT_DELIM,
    ensures
        token_len(revealed) == end,
{
    lemma_token_len(revealed);
    let len = token_len(revealed) as int;
    if len < end {
        assert(revealed[len] != SALT_DELIM);
    } else if end < len {
        assert(revealed[end] == SALT_DELIM);
    }
}

/// The salt has no part in the seed: a token without delimiter is the seed
/// token of itself, and of itself followed by a delimiter and any salt.
pub proof fn lemma_salt_is_ignored(token: Seq<u8>, salt: Seq<u8>)
    requires
        forall|i: int| 0 <= i < token.len() ==> token[i] != SALT_DELIM,
    ensures
        seed_token(token) == token,
        seed_token(token + seq![SALT_DELIM] + salt) == token,
        seed_of(token + seq![SALT_DELIM] + salt) == seed_of(token),
{
    let salted = token + seq![SALT_DELIM] + salt;
    lemma_token_len_unique(token, token.len() as int);
    assert(salted[token.len() as int] == SALT_DELIM);
    assert forall|i: int| 0 <= i < token.len() implies salted[i] != SALT_DELIM by {
        assert(salted[i] == token[i]);
    }
    lemma_token_len_unique(salted, token.len() as int);
    assert(token.take(token.len() as int) =~= token);
    assert(salted.take(token.len() as int) =~= token);
}

/// The digits read so far never write more than all of them do.
pub proof fn lemma_decimal_value_grows(digits: Seq<u8>, read: int)
    requires
        0 <= read <= digits.len(),
        all_digits(digits),
    ensures
        decimal_value(digits.take(read)) <= decimal_value(digits),
    decreases digits.len() - read,
{
    if read == digits.len() {
        assert(digits.take(read) =~= digits);
    } else {
        let next = digits.take(read + 1);
        assert(next.drop_last() =~= digits.take(read));
        assert(is_digit(digits[read]));
        assert(next.last() == digits[read]);
        lemma_decimal_value_grows(digits, read + 1);
    }
}

/// Where the seed token of `revealed` ends.
pub fn find_token_end(revealed: &[u8]) -> (end: usize)
    ensures
        end == token_len(revealed@),
{
    let mut end: usize = 0;
    while end < revealed.len() && revealed[end] != SALT_DELIM
        invariant
            end <= revealed.len(),
            forall|i: int| 0 <= i < end ==> revealed@[i] != SALT_DELIM,
        decreases revealed.len() - end,
    {
        end += 1;
    }
    proof {
        lemma_token_len_unique(revealed@, end as int);
    }
    end
}

/// Reads the seed of `revealed`: the number that stands before the first
/// delimiter.
pub fn parse_seed(revealed: &[u8]) -> (seed: Option<u64>)
    ensures
        seed == seed_of(revealed@),
{
    let end = find_token_end(revealed);
    let start: usize = if end > 0 && revealed[0] == 0x2b { 1 } else { 0 };
    let ghost token = seed_token(revealed@);
    let ghost digits = unsigned_digits(token);
    proof {
        lemma_token_len(revealed@);
        assert(digits =~= revealed@.subrange(start as int, end as int));
    }
    if start == end {
        return None;
    }
    let mut value: u64 = 0;
    let mut at: usize = start;
    while at < end
        invariant
            start <= at <= end <= revealed.len(),
            digits == unsigned_digits(seed_token(revealed@)),
            digits == revealed@.subrange(start as int, end as int),
            all_digits(digits.take(at - start)),
            value == decimal_value(digits.take(at - start)),
        decreases end - at,
    {
        let byte = revealed[at];
        let ghost read = digits.take(at - start + 1);
        proof {
            assert(read.drop_last() =~= digits.take(at - start));
            assert(read.last() == byte);
        }
        if byte < 0x30 || byte > 0x39 {
            assert(!is_digit(digits[at - start]));
            return None;
        }
        assert(all_digits(read)) by {
            assert forall|i: int| 0 <= i < read.len() implies is_digit(#[trigger] read[i]) by {
                if i < at - start {
                    assert(read[i] == digits.take(at - start)[i]);
                }
            }
        }
        let shifted = match value.checked_mul(10) {
            Some(shifted) => shifted,
            None => {
                proof {
                    if all_digits(digits) {
                        lemma_decimal_value_grows(digits, at - start + 1);
                    }
                }
                return None;
            },
        };
        value = match shifted.checked_add((byte - 0x30) as u64) {
            Some(sum) => sum,
            None => {
                proof {
                    if all_digits(digits) {
                        lemma_decimal_value_grows(digits, at - start + 1);
                    }
                }
                return None;
            },
        };
        at += 1;
    }
    proof {
        assert(digits.take(at - start) =~= digits);
    }
    Some(value)
}

} // verus!
