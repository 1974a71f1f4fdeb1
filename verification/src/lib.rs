//! Escrow and settlement core of a peer-to-peer betting pool.
//!
//! A creator opens a bet with a fixed entry stake and duration, other
//! accounts join while it is open, the creator closes it once the duration
//! has elapsed, and a winner is then selected and paid out with a platform
//! fee deducted. This crate holds only the lifecycle state machine and its
//! fund-movement rules; ledger storage, clocks, identity and transaction
//! submission are collaborators of the host, which hands the current time in
//! and carries the returned transfer requests out.

pub mod constants;
pub mod error;
pub mod states;

pub use states::announce_winner;
pub use states::create_bet;
pub use states::end_bet;
pub use states::join_bet;
