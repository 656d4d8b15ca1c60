//! The commit-reveal scheme that picks the winner. Before a round opens its
//! operator publishes the hash of a secret; to close the round the operator
//! discloses the secret, and the seed in it, mixed with the time of closing,
//! selects the winning ticket.
//!
//! The scheme is only as fair as the operator is unable to foresee or to
//! choose the time of closing: it is no source of randomness.

use vstd::prelude::*;
use crate::bytes::equal32;
use crate::error::LottoError;
use crate::seed::{parse_seed, seed_of};

verus! {

/// The SHA-256 digest of a byte string. Nothing is known of it here but that
/// the same bytes always have the same digest.
pub uninterp spec fn sha256(data: Seq<u8>) -> Seq<u8>;

/// Calls `solana_program::hash::hash` and takes the 32 bytes out of the
/// `Hash` that it returns. That function feeds its argument to a SHA-256
/// hasher and returns what the hasher gives, whatever the argument. The
/// contract, which is trusted and not proved, names that digest and claims
/// nothing else of it.
#[verifier::external_body]
fn sha256_digest(data: &[u8]) -> (digest: [u8; 32])
    ensures
        digest@ == sha256(data@),
{
    solana_program::hash::hash(data).to_bytes()
}

/// The commitment that binds its maker to `secret`.
pub fn commit(secret: &[u8]) -> (commitment: [u8; 32])
    ensures
        commitment@ == sha256(secret@),
{
    sha256_digest(secret)
}

/// The ticket that wins among `n_players`: the seed, combined bit by bit with
/// the time of closing by exclusive or, then reduced modulo the number of
/// tickets.
pub open spec fn winning_index(seed: u64, unix_timestamp: i64, n_players: u16) -> usize {
    ((seed ^ (unix_timestamp as u64)) % (n_players as u64)) as usize
}

/// The winning ticket is one of those sold.
pub proof fn lemma_winning_index_in_range(seed: u64, unix_timestamp: i64, n_players: u16)
    requires
        n_players > 0,
    ensures
        winning_index(seed, unix_timestamp, n_players) < n_players,
{
}

/// Picks the winning ticket of a round that sold at least one.
pub fn pick_winner(seed: u64, unix_timestamp: i64, n_players: u16) -> (index: usize)
    requires
        n_players > 0,
    ensures
        index == winning_index(seed, unix_timestamp, n_players),
        index < n_players,
{
    let time = #[verifier::truncate] (unix_timestamp as u64);
    ((seed ^ time) % (n_players as u64)) as usize
}

/// What a revealed value with the given digest settles for a round of
/// `n_players` tickets that was opened under `commitment`:
/// - nothing, where the digest is not the commitment;
/// - that there is no winner to pick, where no ticket was sold;
/// - nothing, where the revealed value holds no seed;
/// - else the winning ticket.
pub open spec fn resolution(
    commitment: Seq<u8>,
    digest: Seq<u8>,
    revealed: Seq<u8>,
    n_players: u16,
    unix_timestamp: i64,
) -> Result<Option<usize>, LottoError> {
    if digest != commitment {
        Err(LottoError::WrongWinningSeed)
    } else if n_players == 0 {
        Ok(None)
    } else {
        match seed_of(revealed) {
            None => Err(LottoError::WrongWinningSeed),
            Some(seed) => Ok(Some(winning_index(seed, unix_timestamp, n_players))),
        }
    }
}

/// Checks a revealed value, whose digest the caller has computed, against the
/// commitment and picks the winner.
pub fn resolve(
    commitment: &[u8; 32],
    digest: &[u8; 32],
    revealed: &[u8],
    n_players: u16,
    unix_timestamp: i64,
) -> (outcome: Result<Option<usize>, LottoError>)
    ensures
        outcome == resolution(commitment@, digest@, revealed@, n_players, unix_timestamp),
        outcome matches Ok(Some(index)) ==> index < n_players,
{
    if !equal32(digest, commitment) {
        return Err(LottoError::WrongWinningSeed);
    }
    if n_players == 0 {
        return Ok(None);
    }
    match parse_seed(revealed) {
        None => Err(LottoError::WrongWinningSeed),
        Some(seed) => Ok(Some(pick_winner(seed, unix_timestamp, n_players))),
    }
}

/// Hashes a revealed value, checks it against the commitment and picks the
/// winner.
pub fn verify_and_resolve(
    commitment: &[u8; 32],
    revealed: &[u8],
    n_players: u16,
    unix_timestamp: i64,
) -> (outcome: Result<Option<usize>, LottoError>)
    ensures
        outcome == resolution(
            commitment@,
            sha256(revealed@),
            revealed@,
            n_players,
            unix_timestamp,
        ),
        outcome matches Ok(Some(index)) ==> index < n_players,
{
    let digest = sha256_digest(revealed);
    resolve(commitment, &digest, revealed, n_players, unix_timestamp)
}

} // verus!
