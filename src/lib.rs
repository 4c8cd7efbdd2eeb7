//! Verified logic of three message-driven programs: a session that plays a
//! word-guessing game on a player's behalf against a responder, the responder
//! itself, and a bonding curve that lists coins and sells their tokens.
//!
//! - `session`: the orchestrator. It dispatches each principal's request to
//!   the responder, parks it, correlates the reply back to the right principal
//!   and step, resumes the request, and enforces the game's lifecycle (one call
//!   in flight per principal, the attempt limit, win and loss). Its contracts
//!   are stated over the state machine in `model`; `theorems` proves what holds
//!   of every run of it.
//! - `wordle` and `matching`: the responder and its comparison of a guess with
//!   the secret word.
//! - `curve` and `coin`: listing and buying on the bonding curve, and the token
//!   transfers that they ask for.
//! - `maps`: the keyed stores, held in gstd's hash map.

pub mod coin;
pub mod curve;
mod ids;
pub mod maps;
mod table;
pub mod matching;
mod messages;
pub mod model;
pub mod session;
pub mod theorems;
pub mod wordle;

pub use ids::{CorrelationId, Principal};
pub use messages::{Action, Event, GameSessionInit, SessionEvent};
pub use wordle::{get_random_value, Wordle, WordleError};
