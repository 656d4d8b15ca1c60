//! How much of the pot the winner receives.

use vstd::prelude::*;
use crate::config::CUT_SCALE;

verus! {

/// What `n_players` tickets at `ticket_price` have brought in.
pub open spec fn collected(n_players: nat, ticket_price: nat) -> nat {
    n_players * ticket_price
}

/// The winner's share of the pot: what was collected, less the cut, rounded
/// down to a whole amount. The cut is given in millionths of the pot.
pub open spec fn payout_amount(n_players: nat, ticket_price: nat, cut: nat) -> nat {
    ((CUT_SCALE - cut) * collected(n_players, ticket_price) / (CUT_SCALE as int)) as nat
}

/// The winner never receives more than was collected.
pub proof fn lemma_payout_within_pot(n_players: nat, ticket_price: nat, cut: nat)
    requires
        cut <= CUT_SCALE,
    ensures
        payout_amount(n_players, ticket_price, cut) <= collected(n_players, ticket_price),
        cut == 0 ==> payout_amount(n_players, ticket_price, cut) == collected(
            n_players,
            ticket_price,
        ),
{
    let pot = collected(n_players, ticket_price) as int;
    let kept = CUT_SCALE - cut;
    assert(kept * pot <= CUT_SCALE * pot) by (nonlinear_arith)
        requires
            0 <= kept <= CUT_SCALE,
            0 <= pot,
    ;
    assert(CUT_SCALE * pot / (CUT_SCALE as int) == pot) by (nonlinear_arith)
        requires
            CUT_SCALE == 1_000_000,
    ;
    assert(kept * pot / (CUT_SCALE as int) <= CUT_SCALE * pot / (CUT_SCALE as int))
        by (nonlinear_arith)
        requires
            kept * pot <= CUT_SCALE * pot,
            CUT_SCALE == 1_000_000,
    ;
}

/// Calculates the amount to be paid out to the winner, in lamports.
pub fn calc_payout(n_players: u16, ticket_price: u64, cut: u64) -> (amount: u64)
    requires
        cut <= CUT_SCALE,
        collected(n_players as nat, ticket_price as nat) <= u64::MAX,
    ensures
        amount == payout_amount(n_players as nat, ticket_price as nat, cut as nat),
{
    let pot: u128 = (n_players as u128) * (ticket_price as u128);
    let kept: u128 = (CUT_SCALE - cut) as u128;
    proof {
        lemma_payout_within_pot(n_players as nat, ticket_price as nat, cut as nat);
        assert(kept * pot <= 1_000_000 * 0xffff_ffff_ffff_ffff) by (nonlinear_arith)
            requires
                0 <= kept <= 1_000_000,
                0 <= pot <= 0xffff_ffff_ffff_ffff,
        ;
    }
    (kept * pot / (CUT_SCALE as u128)) as u64
}

} // verus!
