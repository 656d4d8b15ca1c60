//! What holds of every pool through every sequence of calls.

use vstd::prelude::*;
use crate::commitment::lemma_winning_index_in_range;
use crate::config::{CUT_SCALE, MAX_PLAYERS, POOL_CUT, TICKET_PRICE_LAMPORTS};
use crate::context::Transfer;
use crate::error::{Error, ErrorKind, LottoError};
use crate::identity::Identity;
use crate::payout::lemma_payout_within_pot;
use crate::seed::seed_of;
use crate::state::{escrow_buys_no_ticket, purchases, GameState, Operation, PoolState};

verus! {

/// A call leaves the pool well formed, never changes its authority, and moves
/// it only along the cycle of a round: from `Inactive` to `Ongoing`, from
/// there to `Completed` or, with no ticket sold, back to `Inactive`, and from
/// `Completed` to `Inactive`. No round is closed, and so no winner
/// determined, but by a revealed value whose digest is the commitment.
pub proof fn lemma_call_keeps_order(s: PoolState, op: Operation)
    requires
        s.wf(),
    ensures
        s.after(s.apply(op)).wf(),
        s.after(s.apply(op)).authority == s.authority,
        match (s.game_state, s.after(s.apply(op)).game_state) {
            (GameState::Inactive, GameState::Inactive) => s.apply(op) is Err,
            (GameState::Inactive, GameState::Ongoing) => op is StartGame,
            (GameState::Inactive, GameState::Completed) => false,
            (GameState::Ongoing, GameState::Inactive) => op is EndGame && s.n_players == 0
                && op->digest == s.commit,
            (GameState::Ongoing, GameState::Ongoing) => s.apply(op) is Err || op is BuyTicket,
            (GameState::Ongoing, GameState::Completed) => op is EndGame && s.n_players > 0
                && op->digest == s.commit && seed_of(op->revealed) is Some,
            (GameState::Completed, GameState::Inactive) => op is Payout,
            (GameState::Completed, GameState::Ongoing) => false,
            (GameState::Completed, GameState::Completed) => s.apply(op) is Err,
        },
{
}

/// Every sequence of calls leaves the pool well formed, with the authority
/// that it was created with.
pub proof fn lemma_run_keeps_order(s: PoolState, ops: Seq<Operation>)
    requires
        s.wf(),
    ensures
        s.run(ops).wf(),
        s.run(ops).authority == s.authority,
    decreases ops.len(),
{
    if ops.len() > 0 {
        lemma_run_keeps_order(s, ops.drop_last());
        lemma_call_keeps_order(s.run(ops.drop_last()), ops.last());
    }
}

/// A call reserved to the authority, made under any other identity, fails for
/// want of authorization whatever else it hands in, and changes nothing.
pub proof fn lemma_only_the_authority(s: PoolState, op: Operation)
    requires
        op.is_gated(),
        op.caller() != s.authority,
    ensures
        s.apply(op) == Err::<PoolState, Error>(Error::MissingRequiredSignature),
        Error::MissingRequiredSignature.kind() == ErrorKind::AuthorizationFailure,
        s.after(s.apply(op)) == s,
{
}

/// While a round is open, each request for a ticket is granted until every
/// slot is taken, and refused from then on:
/// - the tickets sold are as many as the requests, capped at the capacity;
/// - they are as many as the requests granted;
/// - they name the buyers in the order of their requests;
/// - the pot has grown by one ticket price for each of them;
/// - nothing else about the pool has changed.
pub proof fn lemma_ticket_sales(s: PoolState, buyers: Seq<Identity>)
    requires
        s.wf(),
        s.game_state is Ongoing,
    ensures
        s.run(purchases(buyers)).wf(),
        s.run(purchases(buyers)).n_players == if s.n_players + buyers.len() <= MAX_PLAYERS {
            s.n_players + buyers.len()
        } else {
            MAX_PLAYERS as int
        },
        s.run(purchases(buyers)).n_players == s.n_players + s.accepted(purchases(buyers)),
        s.run(purchases(buyers)).tickets() == s.tickets() + buyers.take(
            s.accepted(purchases(buyers)) as int,
        ),
        s.run(purchases(buyers)).pot() == s.pot() + s.accepted(purchases(buyers))
            * TICKET_PRICE_LAMPORTS,
        s.run(purchases(buyers)).game_state is Ongoing,
        s.run(purchases(buyers)).commit == s.commit,
        s.run(purchases(buyers)).authority == s.authority,
    decreases buyers.len(),
{
    let ops = purchases(buyers);
    if buyers.len() == 0 {
        assert(s.tickets() + buyers.take(0) =~= s.tickets());
    } else {
        let earlier = buyers.drop_last();
        assert(ops.drop_last() =~= purchases(earlier));
        assert(ops.last() == Operation::BuyTicket { buyer: buyers.last() });
        lemma_ticket_sales(s, earlier);
        let before = s.run(purchases(earlier));
        let sold = s.accepted(purchases(earlier));
        let end = s.run(ops);
        assert(end == before.after(before.buy_ticket(buyers.last())));
        assert(sold * TICKET_PRICE_LAMPORTS + TICKET_PRICE_LAMPORTS == (sold + 1)
            * TICKET_PRICE_LAMPORTS) by (nonlinear_arith);
        if before.n_players < MAX_PLAYERS {
            assert(sold == earlier.len());
            assert(earlier.take(sold as int) =~= earlier);
            assert(buyers.take(sold as int + 1) =~= buyers);
            assert(end.tickets() =~= before.tickets().push(buyers.last()));
            assert(end.tickets() =~= s.tickets() + buyers.take(sold as int + 1));
        } else {
            assert(buyers.take(sold as int) =~= earlier.take(sold as int));
        }
    }
}

/// A pool whose every slot is taken refuses a further request for a ticket
/// as over capacity, and stays as it is.
pub proof fn lemma_full_pool_refuses(s: PoolState, buyer: Identity)
    requires
        s.game_state is Ongoing,
        s.n_players == MAX_PLAYERS,
    ensures
        s.buy_ticket(buyer) == Err::<PoolState, Error>(Error::Lotto(LottoError::MaxPlayers)),
        LottoError::MaxPlayers.kind() == ErrorKind::CapacityExceeded,
        s.after(s.buy_ticket(buyer)) == s,
{
}

/// `start_game` succeeds for the authority on an `Inactive` pool and for
/// nobody else; on any other pool it fails for the authority as an invalid
/// transition. After it the round is `Ongoing` under the commitment handed
/// in, with no ticket sold.
pub proof fn lemma_start_game(s: PoolState, caller: Identity, commit: Seq<u8>)
    ensures
        s.start_game(caller, commit) is Ok <==> caller == s.authority && s.game_state
            is Inactive,
        caller == s.authority && !(s.game_state is Inactive) ==> s.start_game(caller, commit)
            == Err::<PoolState, Error>(Error::Lotto(LottoError::GameOngoing)),
        LottoError::GameOngoing.kind() == ErrorKind::InvalidStateTransition,
        s.start_game(caller, commit) matches Ok(opened) ==> {
            &&& opened.game_state is Ongoing
            &&& opened.n_players == 0
            &&& opened.tickets() == Seq::<Identity>::empty()
            &&& opened.commit == commit
            &&& opened.authority == s.authority
        },
{
    if s.start_game(caller, commit) is Ok {
        assert(s.start_game(caller, commit)->Ok_0.tickets() =~= Seq::<Identity>::empty());
    }
}

/// `end_game` by the authority on an open round fails as a commitment
/// mismatch for every revealed value whose digest is not the commitment. The
/// round then is as open as before: a second call, with a revealed value that
/// has the committed digest, settles it as if the first had not been made.
pub proof fn lemma_end_game_retry(
    s: PoolState,
    wrong: Seq<u8>,
    wrong_digest: Seq<u8>,
    right: Seq<u8>,
    right_digest: Seq<u8>,
    first_time: i64,
    second_time: i64,
)
    requires
        s.wf(),
        s.game_state is Ongoing,
        wrong_digest != s.commit,
        right_digest == s.commit,
    ensures
        s.end_game(s.authority, wrong, wrong_digest, first_time) == Err::<PoolState, Error>(
            Error::Lotto(LottoError::WrongWinningSeed),
        ),
        LottoError::WrongWinningSeed.kind() == ErrorKind::CommitmentMismatch,
        s.after(s.end_game(s.authority, wrong, wrong_digest, first_time)) == s,
        s.after(s.end_game(s.authority, wrong, wrong_digest, first_time)).end_game(
            s.authority,
            right,
            right_digest,
            second_time,
        ) == s.end_game(s.authority, right, right_digest, second_time),
        s.n_players == 0 || seed_of(right) is Some ==> s.end_game(
            s.authority,
            right,
            right_digest,
            second_time,
        ) is Ok,
{
}

/// `end_game` on a round without tickets closes it at once: the pool is
/// `Inactive` again and no slot of `players` has been touched. Whether the
/// revealed value holds a seed does not matter then.
pub proof fn lemma_end_game_without_tickets(
    s: PoolState,
    revealed: Seq<u8>,
    digest: Seq<u8>,
    unix_timestamp: i64,
)
    requires
        s.game_state is Ongoing,
        s.n_players == 0,
        digest == s.commit,
    ensures
        s.end_game(s.authority, revealed, digest, unix_timestamp) == Ok::<PoolState, Error>(
            (PoolState { game_state: GameState::Inactive, ..s }),
        ),
        s.end_game(s.authority, revealed, digest, unix_timestamp)->Ok_0.players == s.players,
{
}

/// `end_game` on a round with tickets makes one of its ticket holders the
/// winner: the one whose ticket the seed and the time of closing select.
/// The other slots stay as they are, so that the ledger goes on naming only
/// identities that bought a ticket of the round.
pub proof fn lemma_end_game_picks_a_ticket(
    s: PoolState,
    revealed: Seq<u8>,
    digest: Seq<u8>,
    unix_timestamp: i64,
)
    requires
        s.wf(),
        s.game_state is Ongoing,
        s.n_players > 0,
        digest == s.commit,
        seed_of(revealed) is Some,
    ensures
        s.end_game(s.authority, revealed, digest, unix_timestamp) matches Ok(closed) && {
            let index = ((seed_of(revealed)->Some_0 ^ (unix_timestamp as u64)) % (
            s.n_players as u64)) as int;
            &&& 0 <= index < s.n_players
            &&& closed.game_state is Completed
            &&& closed.winner() == Some(s.tickets()[index])
            &&& closed.n_players == s.n_players
            &&& forall|i: int| 1 <= i < MAX_PLAYERS ==> closed.players[i] == s.players[i]
            &&& forall|i: int|
                0 <= i < closed.n_players ==> s.tickets().contains(#[trigger] closed.tickets()[i])
        },
{
    let index = ((seed_of(revealed)->Some_0 ^ (unix_timestamp as u64)) % (s.n_players as u64))
        as int;
    lemma_winning_index_in_range(seed_of(revealed)->Some_0, unix_timestamp, s.n_players);
    let closed = s.end_game(s.authority, revealed, digest, unix_timestamp)->Ok_0;
    assert forall|i: int| 0 <= i < closed.n_players implies s.tickets().contains(
        #[trigger] closed.tickets()[i],
    ) by {
        if i == 0 {
            assert(s.tickets()[index] == closed.tickets()[0]);
        } else {
            assert(s.tickets()[i] == closed.tickets()[i]);
        }
    }
}

/// `payout` succeeds exactly when the authority calls it on a `Completed`
/// round for the recipient that slot 0 names. What is paid is the pot, less
/// the pool's cut, rounded down; it never exceeds the pot.
pub proof fn lemma_payout(s: PoolState, caller: Identity, recipient: Identity)
    requires
        s.wf(),
    ensures
        s.payout(caller, recipient) is Ok <==> caller == s.authority && s.game_state
            is Completed && recipient == s.players[0],
        s.payout(caller, recipient) is Ok ==> s.winner() == Some(recipient),
        s.payout(caller, recipient) matches Ok(paid) ==> paid.game_state is Inactive
            && paid.n_players == 0,
        s.prize() == ((CUT_SCALE - POOL_CUT) * (s.n_players * TICKET_PRICE_LAMPORTS) / (
        CUT_SCALE as int)),
        s.prize() <= s.pot(),
        s.payout(caller, recipient) is Ok ==> forall|escrow: Identity|
            #[trigger] s.transfer(Operation::Payout { caller, recipient }, escrow) == Some(
                (Transfer { from: escrow, to: recipient, lamports: s.prize() as u64 }),
            ),
{
    lemma_payout_within_pot(s.n_players as nat, TICKET_PRICE_LAMPORTS as nat, POOL_CUT as nat);
}

/// While a round is open, the escrow receives one ticket price for each
/// ticket sold, as long as the host makes the transfers that the calls ask
/// for and the escrow buys no ticket itself: it grows as the pot does.
pub proof fn lemma_tickets_fill_the_escrow(
    s: PoolState,
    escrow: Identity,
    held: int,
    buyers: Seq<Identity>,
)
    requires
        s.wf(),
        s.game_state is Ongoing,
        escrow_buys_no_ticket(purchases(buyers), escrow),
    ensures
        s.escrow_after(escrow, held, purchases(buyers)) == held + s.accepted(purchases(buyers))
            * TICKET_PRICE_LAMPORTS,
        s.escrow_after(escrow, held, purchases(buyers)) - s.run(purchases(buyers)).pot() == held
            - s.pot(),
    decreases buyers.len(),
{
    let ops = purchases(buyers);
    lemma_ticket_sales(s, buyers);
    if buyers.len() > 0 {
        let earlier = buyers.drop_last();
        assert(ops.drop_last() =~= purchases(earlier));
        assert(escrow_buys_no_ticket(purchases(earlier), escrow)) by {
            assert forall|i: int| 0 <= i < purchases(earlier).len() implies (
            #[trigger] purchases(earlier)[i] matches Operation::BuyTicket { buyer } ==> buyer
                != escrow) by {
                assert(purchases(earlier)[i] == ops[i]);
            }
        }
        lemma_tickets_fill_the_escrow(s, escrow, held, earlier);
        lemma_ticket_sales(s, earlier);
        let sold = s.accepted(purchases(earlier));
        assert(ops.last() == Operation::BuyTicket { buyer: buyers.last() });
        assert(ops[ops.len() - 1] == ops.last());
        assert(buyers.last() != escrow);
        assert(sold * TICKET_PRICE_LAMPORTS + TICKET_PRICE_LAMPORTS == (sold + 1)
            * TICKET_PRICE_LAMPORTS) by (nonlinear_arith);
    }
}

/// An escrow that covers the pot goes on covering it, whatever calls are
/// made, as long as the host makes the transfers that the calls ask for and
/// the escrow buys no ticket itself: no round pays out more than its tickets
/// brought in, and what the escrow holds beyond the pot never shrinks.
pub proof fn lemma_escrow_covers_pot(
    s: PoolState,
    escrow: Identity,
    held: int,
    ops: Seq<Operation>,
)
    requires
        s.wf(),
        held >= s.pot(),
        escrow_buys_no_ticket(ops, escrow),
    ensures
        s.escrow_after(escrow, held, ops) - s.run(ops).pot() >= held - s.pot(),
        s.escrow_after(escrow, held, ops) >= s.run(ops).pot(),
    decreases ops.len(),
{
    if ops.len() > 0 {
        let earlier = ops.drop_last();
        let before = s.run(earlier);
        assert(escrow_buys_no_ticket(earlier, escrow)) by {
            assert forall|i: int| 0 <= i < earlier.len() implies (
            #[trigger] earlier[i] matches Operation::BuyTicket { buyer } ==> buyer != escrow) by {
                assert(earlier[i] == ops[i]);
            }
        }
        lemma_escrow_covers_pot(s, escrow, held, earlier);
        lemma_run_keeps_order(s, earlier);
        lemma_payout_within_pot(
            before.n_players as nat,
            TICKET_PRICE_LAMPORTS as nat,
            POOL_CUT as nat,
        );
        let op = ops.last();
        assert(ops[ops.len() - 1] == op);
        let end = before.after(before.apply(op));
        if before.apply(op) is Ok && op is BuyTicket {
            assert(end.pot() == before.pot() + TICKET_PRICE_LAMPORTS) by (nonlinear_arith)
                requires
                    end.n_players == before.n_players + 1,
                    end.pot() == end.n_players as nat * TICKET_PRICE_LAMPORTS as nat,
                    before.pot() == before.n_players as nat * TICKET_PRICE_LAMPORTS as nat,
            ;
        }
    }
}

} // verus!
