//! A lottery pool that sells fixed-price tickets, commits to a hidden seed
//! before the round opens, and pays the pot, less a fixed cut, to the ticket
//! holder that the revealed seed selects.
//!
//! The pool is a state machine. The host that runs it proves who the caller
//! is, tells the time and moves the lamports; the pool decides what each call
//! may do and what it owes.

pub mod access;
pub mod bytes;
pub mod commitment;
pub mod config;
pub mod context;
pub mod error;
pub mod identity;
pub mod lifecycle;
pub mod payout;
pub mod pool;
pub mod seed;
pub mod state;

pub use crate::config::{CUT_SCALE, MAX_PLAYERS, POOL_CUT, SALT_DELIM, TICKET_PRICE_LAMPORTS};
pub use crate::context::{Auth, BuyTicket, Clock, EndGame, Payout, Transfer};
pub use crate::error::{Error, ErrorKind, LottoError};
pub use crate::identity::Identity;
pub use crate::pool::Pool;
pub use crate::state::GameState;
