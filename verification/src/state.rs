//! The lottery as a state machine: what each operation does to the pool,
//! stated on the pool's abstract value.

use vstd::prelude::*;
use crate::commitment::resolution;
use crate::config::{MAX_PLAYERS, POOL_CUT, TICKET_PRICE_LAMPORTS};
use crate::context::Transfer;
use crate::error::{Error, LottoError};
use crate::identity::Identity;
use crate::payout::payout_amount;

verus! {

/// Where a pool stands in the life of a round.
#[derive(Clone, Copy, Debug, PartialEq, Eq, Structural)]
pub enum GameState {
    /// No round is open.
    Inactive,
    /// A round is open and sells tickets.
    Ongoing,
    /// The winner has been determined but not yet paid out.
    Completed,
}

/// The abstract value of a pool.
#[verifier::ext_equal]
pub struct PoolState {
    /// Which state the game is in.
    pub game_state: GameState,
    /// How many of the slots of `players` hold a ticket of this round.
    pub n_players: u16,
    /// The commitment under which the round was opened.
    pub commit: Seq<u8>,
    /// The only identity that may open and close rounds and order the payout.
    pub authority: Identity,
    /// The ticket slots, in the order of purchase. Once the round is
    /// `Completed`, slot 0 holds the winner.
    pub players: Seq<Identity>,
}

impl PoolState {
    /// The shape that every pool has: no more tickets than slots, none while
    /// no round is open, and at least one under a winner.
    pub open spec fn wf(self) -> bool {
        &&& self.players.len() == MAX_PLAYERS
        &&& self.n_players <= MAX_PLAYERS
        &&& self.game_state is Inactive ==> self.n_players == 0
        &&& self.game_state is Completed ==> self.n_players > 0
    }

    /// The tickets of the round, in the order of purchase.
    pub open spec fn tickets(self) -> Seq<Identity> {
        self.players.take(self.n_players as int)
    }

    /// The winner, once the round is closed and until the payout.
    pub open spec fn winner(self) -> Option<Identity> {
        if self.game_state is Completed {
            Some(self.players[0])
        } else {
            None
        }
    }

    /// What the escrow holds for the tickets of the round, before the payout.
    pub open spec fn pot(self) -> nat {
        self.n_players as nat * TICKET_PRICE_LAMPORTS as nat
    }

    /// What the winner of the round is paid.
    pub open spec fn prize(self) -> nat {
        payout_amount(self.n_players as nat, TICKET_PRICE_LAMPORTS as nat, POOL_CUT as nat)
    }

    /// A pool as it is created: no round open, every slot blank.
    pub open spec fn created(authority: Identity) -> PoolState {
        PoolState {
            game_state: GameState::Inactive,
            n_players: 0,
            commit: Seq::new(32, |i: int| 0u8),
            authority,
            players: Seq::new(MAX_PLAYERS as nat, |i: int| Identity::blank()),
        }
    }

    /// `start_game`: the authority opens a round under `commit`, with a fresh
    /// ledger. Refused while a round is open or its winner unpaid.
    pub open spec fn start_game(self, caller: Identity, commit: Seq<u8>) -> Result<
        PoolState,
        Error,
    > {
        if caller != self.authority {
            Err(Error::MissingRequiredSignature)
        } else if !(self.game_state is Inactive) {
            Err(Error::Lotto(LottoError::GameOngoing))
        } else {
            Ok(
                PoolState {
                    game_state: GameState::Ongoing,
                    n_players: 0,
                    commit,
                    players: Seq::new(MAX_PLAYERS as nat, |i: int| Identity::blank()),
                    ..self
                },
            )
        }
    }

    /// `buy_ticket`: anyone takes the next free slot of an open round.
    /// Refused where no round is open, and where every slot is taken.
    pub open spec fn buy_ticket(self, buyer: Identity) -> Result<PoolState, Error> {
        if !(self.game_state is Ongoing) {
            Err(Error::Lotto(LottoError::NoGameOngoing))
        } else if self.n_players == MAX_PLAYERS {
            Err(Error::Lotto(LottoError::MaxPlayers))
        } else {
            Ok(
                PoolState {
                    n_players: (self.n_players + 1) as u16,
                    players: self.players.update(self.n_players as int, buyer),
                    ..self
                },
            )
        }
    }

    /// `end_game`: the authority closes the open round with a revealed value
    /// of the given digest, at the given time. A round without tickets just
    /// closes; in any other the winning ticket is copied to slot 0.
    pub open spec fn end_game(
        self,
        caller: Identity,
        revealed: Seq<u8>,
        digest: Seq<u8>,
        unix_timestamp: i64,
    ) -> Result<PoolState, Error> {
        if caller != self.authority {
            Err(Error::MissingRequiredSignature)
        } else if !(self.game_state is Ongoing) {
            Err(Error::Lotto(LottoError::NoGameOngoing))
        } else {
            match resolution(self.commit, digest, revealed, self.n_players, unix_timestamp) {
                Err(refusal) => Err(Error::Lotto(refusal)),
                Ok(None) => Ok(PoolState { game_state: GameState::Inactive, ..self }),
                Ok(Some(index)) => Ok(
                    PoolState {
                        game_state: GameState::Completed,
                        players: self.players.update(0, self.players[index as int]),
                        ..self
                    },
                ),
            }
        }
    }

    /// `payout`: the authority has the winner of the closed round paid, which
    /// ends the round. Refused for any recipient but the winner.
    pub open spec fn payout(self, caller: Identity, recipient: Identity) -> Result<
        PoolState,
        Error,
    > {
        if caller != self.authority {
            Err(Error::MissingRequiredSignature)
        } else if !(self.game_state is Completed) {
            Err(Error::Lotto(LottoError::NoGameOngoing))
        } else if recipient != self.players[0] {
            Err(Error::Lotto(LottoError::WrongWinner))
        } else {
            Ok(PoolState { game_state: GameState::Inactive, n_players: 0, ..self })
        }
    }

    /// The pool after an operation with the given outcome: a refused
    /// operation leaves it as it was.
    pub open spec fn after(self, outcome: Result<PoolState, Error>) -> PoolState {
        match outcome {
            Ok(next) => next,
            Err(_) => self,
        }
    }
}

/// A call of one of the four operations, with what the caller hands in.
pub enum Operation {
    /// `start_game` by `caller` under `commit`.
    StartGame { caller: Identity, commit: Seq<u8> },
    /// `buy_ticket` by `buyer`.
    BuyTicket { buyer: Identity },
    /// `end_game` by `caller` at `unix_timestamp`, with a revealed value and
    /// its digest.
    EndGame { caller: Identity, revealed: Seq<u8>, digest: Seq<u8>, unix_timestamp: i64 },
    /// `payout` by `caller` to `recipient`.
    Payout { caller: Identity, recipient: Identity },
}

impl Operation {
    /// Whether the operation is reserved to the pool's authority.
    pub open spec fn is_gated(self) -> bool {
        !(self is BuyTicket)
    }

    /// The identity under which the call is made.
    pub open spec fn caller(self) -> Identity {
        match self {
            Operation::StartGame { caller, .. } => caller,
            Operation::BuyTicket { buyer } => buyer,
            Operation::EndGame { caller, .. } => caller,
            Operation::Payout { caller, .. } => caller,
        }
    }
}

impl PoolState {
    /// What the call `op` does to the pool.
    pub open spec fn apply(self, op: Operation) -> Result<PoolState, Error> {
        match op {
            Operation::StartGame { caller, commit } => self.start_game(caller, commit),
            Operation::BuyTicket { buyer } => self.buy_ticket(buyer),
            Operation::EndGame { caller, revealed, digest, unix_timestamp } => self.end_game(
                caller,
                revealed,
                digest,
                unix_timestamp,
            ),
            Operation::Payout { caller, recipient } => self.payout(caller, recipient),
        }
    }

    /// The transfer that pays for a ticket: its price, from the buyer into the
    /// escrow.
    pub open spec fn ticket_payment(buyer: Identity, escrow: Identity) -> Transfer {
        Transfer { from: buyer, to: escrow, lamports: TICKET_PRICE_LAMPORTS }
    }

    /// The transfer that pays the winner of the round: the prize, out of the
    /// escrow.
    pub open spec fn prize_payment(self, escrow: Identity, winner: Identity) -> Transfer {
        Transfer { from: escrow, to: winner, lamports: self.prize() as u64 }
    }

    /// The transfer that the call `op` asks the host for, where the pool's
    /// funds are held by the account `escrow`: none for a call that is
    /// refused, and none for one that opens or closes a round.
    pub open spec fn transfer(self, op: Operation, escrow: Identity) -> Option<Transfer> {
        if self.apply(op) is Err {
            None
        } else {
            match op {
                Operation::BuyTicket { buyer } => Some(Self::ticket_payment(buyer, escrow)),
                Operation::Payout { recipient, .. } => Some(
                    self.prize_payment(escrow, recipient),
                ),
                _ => None,
            }
        }
    }

    /// By how much the transfer of the call `op` changes what the escrow
    /// holds.
    pub open spec fn escrow_change(self, op: Operation, escrow: Identity) -> int {
        match self.transfer(op, escrow) {
            Some(transfer) => transfer.gain_of(escrow),
            None => 0,
        }
    }

    /// The pool after the calls `ops`, made one after the other.
    pub open spec fn run(self, ops: Seq<Operation>) -> PoolState
        decreases ops.len(),
    {
        if ops.len() == 0 {
            self
        } else {
            let before = self.run(ops.drop_last());
            before.after(before.apply(ops.last()))
        }
    }

    /// What the account `escrow` holds after the calls `ops` and their
    /// transfers, if it held `held` lamports before them.
    pub open spec fn escrow_after(self, escrow: Identity, held: int, ops: Seq<Operation>) -> int
        decreases ops.len(),
    {
        if ops.len() == 0 {
            held
        } else {
            let before = self.run(ops.drop_last());
            self.escrow_after(escrow, held, ops.drop_last()) + before.escrow_change(
                ops.last(),
                escrow,
            )
        }
    }

    /// How many of the calls `ops` the pool accepts.
    pub open spec fn accepted(self, ops: Seq<Operation>) -> nat
        decreases ops.len(),
    {
        if ops.len() == 0 {
            0
        } else {
            let before = self.run(ops.drop_last());
            self.accepted(ops.drop_last()) + if before.apply(ops.last()) is Ok {
                1nat
            } else {
                0nat
            }
        }
    }
}

/// The calls by which each of `buyers`, in turn, asks for a ticket.
pub open spec fn purchases(buyers: Seq<Identity>) -> Seq<Operation> {
    Seq::new(buyers.len(), |i: int| Operation::BuyTicket { buyer: buyers[i] })
}

/// Whether none of the calls `ops` has the account `escrow` itself buy a
/// ticket: it would pay itself, and the pot would grow without the escrow.
pub open spec fn escrow_buys_no_ticket(ops: Seq<Operation>, escrow: Identity) -> bool {
    forall|i: int| 0 <= i < ops.len() ==> (#[trigger] ops[i] matches Operation::BuyTicket { buyer }
        ==> buyer != escrow)
}

} // verus!
