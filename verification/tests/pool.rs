use solotto::commitment::commit;
use solotto::payout::calc_payout;
use solotto::{
    Auth, BuyTicket, Clock, EndGame, Error, ErrorKind, GameState, Identity, LottoError, Payout,
    Pool, Transfer, MAX_PLAYERS, POOL_CUT, TICKET_PRICE_LAMPORTS,
};

const SECRET: &str = "42:saltvalue";

fn key(tag: u8) -> Identity {
    Identity::new([tag; 32])
}

fn authority() -> Identity {
    key(200)
}

fn escrow() -> Identity {
    key(201)
}

fn as_authority() -> Auth {
    Auth { authority: authority() }
}

fn closing_at(unix_timestamp: i64) -> EndGame {
    EndGame { authority: authority(), clock: Clock { unix_timestamp } }
}

fn buying(tag: u8) -> BuyTicket {
    BuyTicket { buyer: key(tag), state: escrow() }
}

fn paying(winner: Identity) -> Payout {
    Payout { authority: authority(), state: escrow(), winner }
}

fn new_pool() -> Pool {
    Pool::new(as_authority()).unwrap()
}

/// A pool with an open round under the commitment to `SECRET` and `sold`
/// tickets, bought by the identities 1, 2, ...
fn open_pool(sold: u8) -> Pool {
    let mut pool = new_pool();
    pool.start_game(as_authority(), commit(SECRET.as_bytes())).unwrap();
    for tag in 1..=sold {
        pool.buy_ticket(buying(tag)).unwrap();
    }
    pool
}

fn assert_same(left: &Pool, right: &Pool) {
    assert_eq!(left.game_state(), right.game_state());
    assert_eq!(left.n_players(), right.n_players());
    assert_eq!(left.commit(), right.commit());
    assert_eq!(left.authority(), right.authority());
    assert_eq!(left.players(), right.players());
}

#[test]
fn new_pool_is_inactive_and_blank() {
    let pool = new_pool();
    assert_eq!(pool.game_state(), GameState::Inactive);
    assert_eq!(pool.n_players(), 0);
    assert_eq!(pool.commit(), [0u8; 32]);
    assert_eq!(pool.authority(), authority());
    assert_eq!(pool.players(), [Identity::default(); 32]);
    assert_eq!(pool.winner(), None);
}

#[test]
fn start_game_opens_a_round() {
    let mut pool = new_pool();
    let commitment = commit(SECRET.as_bytes());
    assert_eq!(pool.start_game(as_authority(), commitment), Ok(()));
    assert_eq!(pool.game_state(), GameState::Ongoing);
    assert_eq!(pool.n_players(), 0);
    assert_eq!(pool.commit(), commitment);
    assert_eq!(pool.authority(), authority());
    assert_eq!(pool.winner(), None);
}

#[test]
fn start_game_is_refused_while_a_round_is_open() {
    let mut pool = open_pool(2);
    let before = pool;
    let refusal = pool.start_game(as_authority(), [9; 32]).unwrap_err();
    assert_eq!(refusal, Error::Lotto(LottoError::GameOngoing));
    assert_eq!(refusal.kind(), ErrorKind::InvalidStateTransition);
    assert_same(&pool, &before);
}

#[test]
fn start_game_is_refused_while_the_winner_is_unpaid() {
    let mut pool = open_pool(2);
    pool.end_game(closing_at(0), SECRET.to_string()).unwrap();
    assert_eq!(pool.game_state(), GameState::Completed);
    let before = pool;
    assert_eq!(
        pool.start_game(as_authority(), [9; 32]),
        Err(Error::Lotto(LottoError::GameOngoing))
    );
    assert_same(&pool, &before);
}

#[test]
fn start_game_hands_out_a_fresh_ledger() {
    let mut pool = open_pool(3);
    pool.end_game(closing_at(0), SECRET.to_string()).unwrap();
    let winner = pool.winner().unwrap();
    pool.payout(paying(winner)).unwrap();
    pool.start_game(as_authority(), [5; 32]).unwrap();
    assert_eq!(pool.game_state(), GameState::Ongoing);
    assert_eq!(pool.n_players(), 0);
    assert_eq!(pool.commit(), [5; 32]);
    assert_eq!(pool.players(), [Identity::default(); 32]);
}

#[test]
fn buy_ticket_records_the_buyer_and_asks_for_the_price() {
    let mut pool = open_pool(0);
    let transfer = pool.buy_ticket(buying(1)).unwrap();
    assert_eq!(
        transfer,
        Transfer { from: key(1), to: escrow(), lamports: 20_000_000 }
    );
    assert_eq!(TICKET_PRICE_LAMPORTS, 20_000_000);
    assert_eq!(pool.n_players(), 1);
    assert_eq!(pool.players()[0], key(1));
    pool.buy_ticket(buying(2)).unwrap();
    assert_eq!(pool.n_players(), 2);
    assert_eq!(pool.players()[0], key(1));
    assert_eq!(pool.players()[1], key(2));
    assert_eq!(pool.players()[2], Identity::default());
    assert_eq!(pool.game_state(), GameState::Ongoing);
}

#[test]
fn buy_ticket_needs_no_authority() {
    let mut pool = open_pool(0);
    assert!(pool.buy_ticket(BuyTicket { buyer: key(77), state: escrow() }).is_ok());
    assert!(pool.buy_ticket(BuyTicket { buyer: authority(), state: escrow() }).is_ok());
    assert_eq!(pool.n_players(), 2);
}

#[test]
fn buy_ticket_lets_one_buyer_hold_several_tickets() {
    let mut pool = open_pool(0);
    pool.buy_ticket(buying(4)).unwrap();
    pool.buy_ticket(buying(4)).unwrap();
    assert_eq!(pool.n_players(), 2);
    assert_eq!(pool.players()[0], key(4));
    assert_eq!(pool.players()[1], key(4));
}

#[test]
fn buy_ticket_is_refused_without_an_open_round() {
    let mut pool = new_pool();
    let before = pool;
    let refusal = pool.buy_ticket(buying(1)).unwrap_err();
    assert_eq!(refusal, Error::Lotto(LottoError::NoGameOngoing));
    assert_eq!(refusal.kind(), ErrorKind::InvalidStateTransition);
    assert_same(&pool, &before);

    let mut pool = open_pool(1);
    pool.end_game(closing_at(0), SECRET.to_string()).unwrap();
    let before = pool;
    assert_eq!(pool.buy_ticket(buying(2)), Err(Error::Lotto(LottoError::NoGameOngoing)));
    assert_same(&pool, &before);
}

#[test]
fn buy_ticket_counts_the_tickets_up_to_the_capacity() {
    let mut pool = open_pool(0);
    let mut escrowed: u64 = 0;
    for sold in 1..=MAX_PLAYERS {
        let transfer = pool.buy_ticket(buying(sold as u8)).unwrap();
        escrowed += transfer.lamports;
        assert_eq!(pool.n_players(), sold);
        assert_eq!(escrowed, sold as u64 * TICKET_PRICE_LAMPORTS);
    }
    assert_eq!(pool.n_players(), 32);
    for slot in 0..32 {
        assert_eq!(pool.players()[slot], key(slot as u8 + 1));
    }
}

#[test]
fn buy_ticket_is_refused_when_the_pool_is_full() {
    let mut pool = open_pool(32);
    let before = pool;
    for _ in 0..3 {
        let refusal = pool.buy_ticket(buying(99)).unwrap_err();
        assert_eq!(refusal, Error::Lotto(LottoError::MaxPlayers));
        assert_eq!(refusal.kind(), ErrorKind::CapacityExceeded);
        assert_eq!(pool.n_players(), MAX_PLAYERS);
        assert_same(&pool, &before);
    }
}

#[test]
fn end_game_refuses_a_value_that_does_not_open_the_commitment() {
    let mut pool = open_pool(3);
    let before = pool;
    let refusal = pool.end_game(closing_at(7), "42:saltvalud".to_string()).unwrap_err();
    assert_eq!(refusal, Error::Lotto(LottoError::WrongWinningSeed));
    assert_eq!(refusal.kind(), ErrorKind::CommitmentMismatch);
    assert_eq!(pool.game_state(), GameState::Ongoing);
    assert_same(&pool, &before);
    assert_eq!(pool.end_game(closing_at(7), "42".to_string()), Err(refusal));
    assert_eq!(pool.end_game(closing_at(7), String::new()), Err(refusal));
    assert_same(&pool, &before);
}

#[test]
fn end_game_can_be_tried_again_with_the_right_value() {
    let mut pool = open_pool(3);
    assert!(pool.end_game(closing_at(7), "41:saltvalue".to_string()).is_err());
    assert_eq!(pool.end_game(closing_at(7), SECRET.to_string()), Ok(()));
    assert_eq!(pool.game_state(), GameState::Completed);

    let mut straight = open_pool(3);
    straight.end_game(closing_at(7), SECRET.to_string()).unwrap();
    assert_same(&pool, &straight);
}

#[test]
fn end_game_without_tickets_closes_the_round() {
    let mut pool = open_pool(0);
    let before = pool;
    assert_eq!(pool.end_game(closing_at(1_700_000_000), SECRET.to_string()), Ok(()));
    assert_eq!(pool.game_state(), GameState::Inactive);
    assert_eq!(pool.n_players(), 0);
    assert_eq!(pool.players(), before.players());
    assert_eq!(pool.commit(), before.commit());
    assert_eq!(pool.winner(), None);
}

#[test]
fn end_game_without_tickets_keeps_the_old_slots() {
    // a second round: the slots hold what `start_game` left in them
    let mut pool = open_pool(2);
    pool.end_game(closing_at(0), SECRET.to_string()).unwrap();
    let winner = pool.winner().unwrap();
    pool.payout(paying(winner)).unwrap();
    pool.start_game(as_authority(), commit(b"nonsense")).unwrap();
    let before = pool;
    assert_eq!(pool.end_game(closing_at(3), "nonsense".to_string()), Ok(()));
    assert_eq!(pool.game_state(), GameState::Inactive);
    assert_eq!(pool.players(), before.players());
}

#[test]
fn end_game_without_tickets_still_checks_the_commitment() {
    let mut pool = open_pool(0);
    assert_eq!(
        pool.end_game(closing_at(0), "43:saltvalue".to_string()),
        Err(Error::Lotto(LottoError::WrongWinningSeed))
    );
    assert_eq!(pool.game_state(), GameState::Ongoing);
}

#[test]
fn end_game_refuses_a_committed_value_without_seed() {
    let mut pool = new_pool();
    pool.start_game(as_authority(), commit(b"nonsense")).unwrap();
    pool.buy_ticket(buying(1)).unwrap();
    let before = pool;
    assert_eq!(
        pool.end_game(closing_at(0), "nonsense".to_string()),
        Err(Error::Lotto(LottoError::WrongWinningSeed))
    );
    assert_same(&pool, &before);
}

#[test]
fn end_game_is_refused_without_an_open_round() {
    let mut pool = new_pool();
    let before = pool;
    assert_eq!(
        pool.end_game(closing_at(0), SECRET.to_string()),
        Err(Error::Lotto(LottoError::NoGameOngoing))
    );
    assert_same(&pool, &before);

    let mut pool = open_pool(2);
    pool.end_game(closing_at(0), SECRET.to_string()).unwrap();
    let before = pool;
    assert_eq!(
        pool.end_game(closing_at(0), SECRET.to_string()),
        Err(Error::Lotto(LottoError::NoGameOngoing))
    );
    assert_same(&pool, &before);
}

#[test]
fn end_game_copies_the_winner_to_slot_zero() {
    for (time, index) in [(0i64, 0usize), (1, 1), (2, 1), (3, 2), (1_700_000_000, 2), (-1, 0)] {
        let mut pool = open_pool(3);
        let before = pool;
        assert_eq!(pool.end_game(closing_at(time), SECRET.to_string()), Ok(()));
        assert_eq!(pool.game_state(), GameState::Completed);
        assert_eq!(pool.n_players(), 3);
        assert_eq!(pool.players()[0], before.players()[index]);
        assert_eq!(pool.players()[0], key(index as u8 + 1));
        assert_eq!(pool.winner(), Some(key(index as u8 + 1)));
        assert_eq!(pool.players()[1..], before.players()[1..]);
        assert_eq!(pool.commit(), before.commit());
    }
}

#[test]
fn end_game_with_digest_takes_the_digest_on_trust() {
    let mut pool = new_pool();
    pool.start_game(as_authority(), [1; 32]).unwrap();
    pool.buy_ticket(buying(1)).unwrap();
    pool.buy_ticket(buying(2)).unwrap();
    let before = pool;
    assert_eq!(
        pool.end_game_with_digest(closing_at(0), b"7:x", &[2; 32]),
        Err(Error::Lotto(LottoError::WrongWinningSeed))
    );
    assert_same(&pool, &before);
    assert_eq!(pool.end_game_with_digest(closing_at(0), b"7:x", &[1; 32]), Ok(()));
    // 7 xor 0 is odd
    assert_eq!(pool.winner(), Some(key(2)));
}

#[test]
fn end_game_hashes_the_whole_value() {
    let mut pool = new_pool();
    pool.start_game(as_authority(), commit(b"7:x")).unwrap();
    pool.buy_ticket(buying(1)).unwrap();
    pool.buy_ticket(buying(2)).unwrap();
    assert!(pool.end_game(closing_at(1), "7".to_string()).is_err());
    assert!(pool.end_game(closing_at(1), "7:".to_string()).is_err());
    assert!(pool.end_game(closing_at(1), "7:y".to_string()).is_err());
    assert_eq!(pool.end_game(closing_at(1), "7:x".to_string()), Ok(()));
    // 7 xor 1 is even
    assert_eq!(pool.winner(), Some(key(1)));
}

#[test]
fn payout_pays_the_winner_and_ends_the_round() {
    let mut pool = open_pool(3);
    pool.end_game(closing_at(3), SECRET.to_string()).unwrap();
    let before = pool;
    let transfer = pool.payout(paying(key(3))).unwrap();
    assert_eq!(transfer, Transfer { from: escrow(), to: key(3), lamports: 59_940_000 });
    assert_eq!(transfer.lamports, calc_payout(3, TICKET_PRICE_LAMPORTS, POOL_CUT));
    assert_eq!(pool.game_state(), GameState::Inactive);
    assert_eq!(pool.n_players(), 0);
    assert_eq!(pool.winner(), None);
    assert_eq!(pool.players(), before.players());
    assert_eq!(pool.commit(), before.commit());
    assert_eq!(pool.authority(), authority());
}

#[test]
fn payout_of_a_full_pot() {
    let mut pool = open_pool(32);
    pool.end_game(closing_at(1_700_000_000), SECRET.to_string()).unwrap();
    // 42 mod 32 is 10: the eleventh buyer
    assert_eq!(pool.winner(), Some(key(11)));
    let transfer = pool.payout(paying(key(11))).unwrap();
    assert_eq!(transfer.lamports, 639_360_000);
}

#[test]
fn payout_is_refused_for_anyone_but_the_winner() {
    let mut pool = open_pool(3);
    pool.end_game(closing_at(3), SECRET.to_string()).unwrap();
    let before = pool;
    for loser in [key(1), key(2), authority(), escrow(), Identity::default()] {
        let refusal = pool.payout(paying(loser)).unwrap_err();
        assert_eq!(refusal, Error::Lotto(LottoError::WrongWinner));
        assert_eq!(refusal.kind(), ErrorKind::WinnerMismatch);
        assert_same(&pool, &before);
    }
}

#[test]
fn payout_is_refused_before_the_round_is_closed() {
    let mut pool = new_pool();
    let before = pool;
    assert_eq!(
        pool.payout(paying(Identity::default())),
        Err(Error::Lotto(LottoError::NoGameOngoing))
    );
    assert_same(&pool, &before);

    let mut pool = open_pool(3);
    let before = pool;
    assert_eq!(pool.payout(paying(key(1))), Err(Error::Lotto(LottoError::NoGameOngoing)));
    assert_same(&pool, &before);
}

#[test]
fn payout_is_made_once() {
    let mut pool = open_pool(3);
    pool.end_game(closing_at(3), SECRET.to_string()).unwrap();
    pool.payout(paying(key(3))).unwrap();
    let before = pool;
    assert_eq!(pool.payout(paying(key(3))), Err(Error::Lotto(LottoError::NoGameOngoing)));
    assert_same(&pool, &before);
}

#[test]
fn gated_calls_are_refused_to_anyone_but_the_authority() {
    let stranger = key(66);

    let mut pool = new_pool();
    let before = pool;
    let refusal = pool.start_game(Auth { authority: stranger }, [1; 32]).unwrap_err();
    assert_eq!(refusal, Error::MissingRequiredSignature);
    assert_eq!(refusal.kind(), ErrorKind::AuthorizationFailure);
    assert_same(&pool, &before);

    let mut pool = open_pool(3);
    let before = pool;
    let ctx = EndGame { authority: stranger, clock: Clock { unix_timestamp: 3 } };
    assert_eq!(pool.end_game(ctx, SECRET.to_string()), Err(Error::MissingRequiredSignature));
    assert_eq!(
        pool.end_game_with_digest(ctx, SECRET.as_bytes(), &commit(SECRET.as_bytes())),
        Err(Error::MissingRequiredSignature)
    );
    assert_same(&pool, &before);

    pool.end_game(closing_at(3), SECRET.to_string()).unwrap();
    let before = pool;
    let ctx = Payout { authority: stranger, state: escrow(), winner: key(3) };
    assert_eq!(pool.payout(ctx), Err(Error::MissingRequiredSignature));
    // not even the winner may order the payout
    let ctx = Payout { authority: key(3), state: escrow(), winner: key(3) };
    assert_eq!(pool.payout(ctx), Err(Error::MissingRequiredSignature));
    assert_same(&pool, &before);
}

#[test]
fn authorization_is_checked_before_anything_else() {
    let stranger = key(66);

    // a round is open: the authority would be told so
    let mut pool = open_pool(1);
    assert_eq!(
        pool.start_game(Auth { authority: stranger }, [1; 32]),
        Err(Error::MissingRequiredSignature)
    );

    // no round is open, and the value opens nothing
    let mut pool = new_pool();
    let ctx = EndGame { authority: stranger, clock: Clock { unix_timestamp: 3 } };
    assert_eq!(pool.end_game(ctx, "junk".to_string()), Err(Error::MissingRequiredSignature));

    // no winner is determined, and the recipient is nobody
    let ctx = Payout { authority: stranger, state: escrow(), winner: Identity::default() };
    assert_eq!(pool.payout(ctx), Err(Error::MissingRequiredSignature));
}

#[test]
fn full_round() {
    let mut pool = new_pool();
    let mut escrowed: u64 = 0;

    assert_eq!(pool.start_game(as_authority(), commit(b"42:saltvalue")), Ok(()));
    assert_eq!(pool.game_state(), GameState::Ongoing);

    for buyer in [key(10), key(20), key(30)] {
        let transfer = pool.buy_ticket(BuyTicket { buyer, state: escrow() }).unwrap();
        assert_eq!(transfer.from, buyer);
        assert_eq!(transfer.to, escrow());
        escrowed += transfer.lamports;
    }
    assert_eq!(pool.n_players(), 3);
    assert_eq!(escrowed, 3 * TICKET_PRICE_LAMPORTS);

    let time: i64 = 1_700_000_000;
    let entrants = pool.players();
    assert_eq!(pool.end_game(closing_at(time), "42:saltvalue".to_string()), Ok(()));
    let winning_index = ((42 ^ time as u64) % 3) as usize;
    assert_eq!(winning_index, 2);
    assert_eq!(pool.players()[0], entrants[winning_index]);
    assert_eq!(pool.players()[0], key(30));
    assert_eq!(pool.game_state(), GameState::Completed);

    let recipient = pool.players()[0];
    let transfer = pool.payout(paying(recipient)).unwrap();
    assert_eq!(transfer.from, escrow());
    assert_eq!(transfer.to, key(30));
    assert_eq!(transfer.lamports, 59_940_000);
    escrowed -= transfer.lamports;
    assert_eq!(escrowed, 60_000);
    assert_eq!(pool.game_state(), GameState::Inactive);
    assert_eq!(pool.n_players(), 0);
}

#[test]
fn rounds_follow_one_another() {
    let mut pool = new_pool();
    let mut escrowed: u64 = 0;
    for round in 1..=5u8 {
        let secret = format!("{}:salt{}", round, round);
        pool.start_game(as_authority(), commit(secret.as_bytes())).unwrap();
        for tag in 1..=round {
            escrowed += pool.buy_ticket(buying(tag)).unwrap().lamports;
        }
        assert!(escrowed >= round as u64 * TICKET_PRICE_LAMPORTS);
        pool.end_game(closing_at(round as i64), secret).unwrap();
        // seed xor time is 0
        assert_eq!(pool.winner(), Some(key(1)));
        escrowed -= pool.payout(paying(key(1))).unwrap().lamports;
        assert_eq!(pool.game_state(), GameState::Inactive);
        assert_eq!(pool.authority(), authority());
    }
    // the cuts of 1 + 2 + 3 + 4 + 5 tickets stay behind
    assert_eq!(escrowed, 15 * 20_000);
}

#[test]
fn load_takes_up_a_stored_pool() {
    let mut pool = open_pool(3);
    pool.end_game(closing_at(3), SECRET.to_string()).unwrap();
    let loaded = Pool::load(
        pool.game_state(),
        pool.n_players(),
        pool.commit(),
        pool.authority(),
        pool.players(),
    )
    .unwrap();
    assert_same(&loaded, &pool);

    let mut loaded = loaded;
    assert_eq!(loaded.payout(paying(key(3))).unwrap().lamports, 59_940_000);
}

#[test]
fn load_takes_up_each_state() {
    let blank = [Identity::default(); 32];
    let full = [key(1); 32];
    assert!(Pool::load(GameState::Inactive, 0, [0; 32], authority(), blank).is_some());
    assert!(Pool::load(GameState::Inactive, 0, [7; 32], authority(), full).is_some());
    assert!(Pool::load(GameState::Ongoing, 0, [0; 32], authority(), blank).is_some());
    assert!(Pool::load(GameState::Ongoing, 32, [0; 32], authority(), full).is_some());
    assert!(Pool::load(GameState::Completed, 1, [0; 32], authority(), full).is_some());
    assert!(Pool::load(GameState::Completed, 32, [0; 32], authority(), full).is_some());
}

#[test]
fn load_refuses_what_is_no_pool() {
    let full = [key(1); 32];
    assert!(Pool::load(GameState::Ongoing, 33, [0; 32], authority(), full).is_none());
    assert!(Pool::load(GameState::Ongoing, u16::MAX, [0; 32], authority(), full).is_none());
    assert!(Pool::load(GameState::Completed, 33, [0; 32], authority(), full).is_none());
    assert!(Pool::load(GameState::Completed, 0, [0; 32], authority(), full).is_none());
    assert!(Pool::load(GameState::Inactive, 1, [0; 32], authority(), full).is_none());
    assert!(Pool::load(GameState::Inactive, 33, [0; 32], authority(), full).is_none());
}

#[test]
fn loaded_full_pool_refuses_a_ticket() {
    let mut pool =
        Pool::load(GameState::Ongoing, 32, [0; 32], authority(), [key(1); 32]).unwrap();
    assert_eq!(pool.buy_ticket(buying(2)), Err(Error::Lotto(LottoError::MaxPlayers)));
    assert_eq!(pool.n_players(), 32);
}
