//! The constants that configure a lottery.

use vstd::prelude::*;

verus! {

/// The most tickets that one round can sell.
pub const MAX_PLAYERS: u16 = 32;

/// The price of one ticket, in lamports (0.02 SOL).
pub const TICKET_PRICE_LAMPORTS: u64 = 20_000_000;

/// The denominator of a cut: cuts are counted in millionths of the pot.
pub const CUT_SCALE: u64 = 1_000_000;

/// The part of the pot that the pool keeps, in millionths (0.1 %).
pub const POOL_CUT: u64 = 1_000;

/// The byte that ends the seed in a reveal value; the salt follows it.
pub const SALT_DELIM: u8 = 0x3a;

} // verus!
