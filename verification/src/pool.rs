//! The pool: the one record that a deployed lottery keeps, and the
//! operations that drive it through its rounds.
//!
//! No operation moves lamports by itself. `buy_ticket` and `payout` return the
//! transfer that belongs to them, and the host carries it out in the same
//! transaction: if the transfer fails, the change to the pool is dropped with
//! it.

use vstd::prelude::*;
use vstd::utf8::encode_utf8;
use crate::access::is_same_account;
use crate::commitment::{commit, resolve, sha256};
use crate::config::{MAX_PLAYERS, POOL_CUT, TICKET_PRICE_LAMPORTS};
use crate::context::{Auth, BuyTicket, EndGame, Payout, Transfer};
use crate::error::{Error, LottoError};
use crate::identity::Identity;
use crate::payout::{calc_payout, collected};
use crate::state::{GameState, PoolState};

verus! {

/// The state of a lottery.
#[derive(Clone, Copy, Debug)]
pub struct Pool {
    /// Which state is the game in
    game_state: GameState,
    /// How many players in `players`
    n_players: u16,
    /// Committed hash of the winner's seed
    commit: [u8; 32],
    /// Creator of this pool, the only one authorized to start and stop the
    /// game and pay out
    authority: Identity,
    /// Players currently in the pot
    players: [Identity; 32],
}

impl View for Pool {
    type V = PoolState;

    closed spec fn view(&self) -> PoolState {
        PoolState {
            game_state: self.game_state,
            n_players: self.n_players,
            commit: self.commit@,
            authority: self.authority,
            players: self.players@,
        }
    }
}

impl Pool {
    #[verifier::type_invariant]
    spec fn valid(self) -> bool {
        self@.wf()
    }

    /// Creates the pool of the authority that signs the call.
    pub fn new(ctx: Auth) -> (created: Result<Pool, Error>)
        ensures
            created is Ok,
            created->Ok_0@ == PoolState::created(ctx.authority),
            created->Ok_0@.wf(),
    {
        let pool = Pool {
            game_state: GameState::Inactive,
            n_players: 0,
            commit: [0u8; 32],
            authority: ctx.authority,
            players: [Identity::default(); 32],
        };
        assert(pool@ =~= PoolState::created(ctx.authority));
        Ok(pool)
    }

    /// Takes up a pool from the values of its fields, as they were stored:
    /// `None` where they do not make a pool.
    pub fn load(
        game_state: GameState,
        n_players: u16,
        commit: [u8; 32],
        authority: Identity,
        players: [Identity; 32],
    ) -> (loaded: Option<Pool>)
        ensures
            loaded is Some <==> (PoolState {
                game_state,
                n_players,
                commit: commit@,
                authority,
                players: players@,
            }).wf(),
            loaded matches Some(pool) ==> pool@ == (PoolState {
                game_state,
                n_players,
                commit: commit@,
                authority,
                players: players@,
            }),
    {
        let fits = match game_state {
            GameState::Inactive => n_players == 0,
            GameState::Ongoing => n_players <= MAX_PLAYERS,
            GameState::Completed => 0 < n_players && n_players <= MAX_PLAYERS,
        };
        if fits {
            Some(Pool { game_state, n_players, commit, authority, players })
        } else {
            None
        }
    }

    /// Which state the game is in.
    pub fn game_state(&self) -> (game_state: GameState)
        ensures
            game_state == self@.game_state,
    {
        self.game_state
    }

    /// How many tickets the round has sold.
    pub fn n_players(&self) -> (n_players: u16)
        ensures
            n_players == self@.n_players,
            self@.wf(),
    {
        proof {
            use_type_invariant(self);
        }
        self.n_players
    }

    /// The commitment under which the round was opened.
    pub fn commit(&self) -> (commit: [u8; 32])
        ensures
            commit@ == self@.commit,
    {
        self.commit
    }

    /// The only identity that may open and close rounds and order the payout.
    pub fn authority(&self) -> (authority: Identity)
        ensures
            authority == self@.authority,
    {
        self.authority
    }

    /// The ticket slots, the unused ones included.
    pub fn players(&self) -> (players: [Identity; 32])
        ensures
            players@ == self@.players,
    {
        self.players
    }

    /// The winner, once the round is closed and until the payout.
    pub fn winner(&self) -> (winner: Option<Identity>)
        ensures
            winner == self@.winner(),
    {
        if self.game_state == GameState::Completed {
            Some(self.players[0])
        } else {
            None
        }
    }

    /// Starts a new game
    pub fn start_game(&mut self, ctx: Auth, commit: [u8; 32]) -> (outcome: Result<(), Error>)
        ensures
            final(self)@.wf(),
            final(self)@ == old(self)@.after(old(self)@.start_game(ctx.authority, commit@)),
            match old(self)@.start_game(ctx.authority, commit@) {
                Ok(_) => outcome is Ok,
                Err(refusal) => outcome == Err::<(), Error>(refusal),
            },
    {
        proof {
            use_type_invariant(&*self);
        }
        match is_same_account(self.authority, ctx.authority) {
            Err(refusal) => return Err(refusal),
            Ok(()) => {},
        }
        if self.game_state != GameState::Inactive {
            return Err(Error::Lotto(LottoError::GameOngoing));
        }
        self.commit = commit;
        self.players = [Identity::default(); 32];
        self.n_players = 0;
        self.game_state = GameState::Ongoing;
        Ok(())
    }

    /// Ends the game: checks the revealed seed against the commitment and
    /// determines the winner, whom `payout` then pays.
    pub fn end_game(&mut self, ctx: EndGame, seed_gen: String) -> (outcome: Result<(), Error>)
        ensures
            final(self)@.wf(),
            final(self)@ == old(self)@.after(
                old(self)@.end_game(
                    ctx.authority,
                    encode_utf8(seed_gen@),
                    sha256(encode_utf8(seed_gen@)),
                    ctx.clock.unix_timestamp,
                ),
            ),
            match old(self)@.end_game(
                ctx.authority,
                encode_utf8(seed_gen@),
                sha256(encode_utf8(seed_gen@)),
                ctx.clock.unix_timestamp,
            ) {
                Ok(_) => outcome is Ok,
                Err(refusal) => outcome == Err::<(), Error>(refusal),
            },
    {
        let revealed = seed_gen.as_str().as_bytes();
        let digest = commit(revealed);
        self.end_game_with_digest(ctx, revealed, &digest)
    }

    /// Closes the round with a revealed value whose digest the caller has
    /// computed.
    pub fn end_game_with_digest(
        &mut self,
        ctx: EndGame,
        revealed: &[u8],
        digest: &[u8; 32],
    ) -> (outcome: Result<(), Error>)
        ensures
            final(self)@.wf(),
            final(self)@ == old(self)@.after(
                old(self)@.end_game(
                    ctx.authority,
                    revealed@,
                    digest@,
                    ctx.clock.unix_timestamp,
                ),
            ),
            match old(self)@.end_game(
                ctx.authority,
                revealed@,
                digest@,
                ctx.clock.unix_timestamp,
            ) {
                Ok(_) => outcome is Ok,
                Err(refusal) => outcome == Err::<(), Error>(refusal),
            },
    {
        proof {
            use_type_invariant(&*self);
        }
        match is_same_account(self.authority, ctx.authority) {
            Err(refusal) => return Err(refusal),
            Ok(()) => {},
        }
        if self.game_state != GameState::Ongoing {
            return Err(Error::Lotto(LottoError::NoGameOngoing));
        }
        let settled = resolve(
            &self.commit,
            digest,
            revealed,
            self.n_players,
            ctx.clock.unix_timestamp,
        );
        match settled {
            Err(refusal) => Err(Error::Lotto(refusal)),
            Ok(None) => {
                // no need for payout
                self.game_state = GameState::Inactive;
                Ok(())
            },
            Ok(Some(winning_index)) => {
                // set index 0 of self.players to the winner's identity
                self.players[0] = self.players[winning_index];
                self.game_state = GameState::Completed;
                Ok(())
            },
        }
    }

    /// Pays out the pot, less the pool's cut, to the winner of the closed
    /// round: returns the transfer from the escrow that the host has to make.
    pub fn payout(&mut self, ctx: Payout) -> (outcome: Result<Transfer, Error>)
        ensures
            final(self)@.wf(),
            final(self)@ == old(self)@.after(old(self)@.payout(ctx.authority, ctx.winner)),
            match old(self)@.payout(ctx.authority, ctx.winner) {
                Ok(_) => outcome == Ok::<Transfer, Error>(
                    old(self)@.prize_payment(ctx.state, ctx.winner),
                ),
                Err(refusal) => outcome == Err::<Transfer, Error>(refusal),
            },
    {
        proof {
            use_type_invariant(&*self);
        }
        match is_same_account(self.authority, ctx.authority) {
            Err(refusal) => return Err(refusal),
            Ok(()) => {},
        }
        if self.game_state != GameState::Completed {
            return Err(Error::Lotto(LottoError::NoGameOngoing));
        }
        if !ctx.winner.same_as(&self.players[0]) {
            return Err(Error::Lotto(LottoError::WrongWinner));
        }
        assert(collected(self.n_players as nat, TICKET_PRICE_LAMPORTS as nat) <= u64::MAX);
        let payout = calc_payout(self.n_players, TICKET_PRICE_LAMPORTS, POOL_CUT);
        *self = Pool { game_state: GameState::Inactive, n_players: 0, ..*self };
        Ok(Transfer { from: ctx.state, to: ctx.winner, lamports: payout })
    }

    /// Buy a lottery ticket: records the buyer and returns the transfer of
    /// the ticket price into the escrow that the host has to make.
    pub fn buy_ticket(&mut self, ctx: BuyTicket) -> (outcome: Result<Transfer, Error>)
        ensures
            final(self)@.wf(),
            final(self)@ == old(self)@.after(old(self)@.buy_ticket(ctx.buyer)),
            match old(self)@.buy_ticket(ctx.buyer) {
                Ok(_) => outcome == Ok::<Transfer, Error>(
                    PoolState::ticket_payment(ctx.buyer, ctx.state),
                ),
                Err(refusal) => outcome == Err::<Transfer, Error>(refusal),
            },
    {
        proof {
            use_type_invariant(&*self);
        }
        if self.game_state != GameState::Ongoing {
            return Err(Error::Lotto(LottoError::NoGameOngoing));
        }
        if self.n_players == MAX_PLAYERS {
            return Err(Error::Lotto(LottoError::MaxPlayers));
        }
        self.players[self.n_players as usize] = ctx.buyer;
        self.n_players += 1;
        Ok(Transfer { from: ctx.buyer, to: ctx.state, lamports: TICKET_PRICE_LAMPORTS })
    }
}

} // verus!
