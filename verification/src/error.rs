//! Error taxonomy of the bet lifecycle operations.

use vstd::prelude::*;

verus! {

/// Why a lifecycle operation rejected its caller. Every error is detected
/// before any state mutation, so a rejected operation leaves the bet exactly
/// as it was.
#[derive(Clone, Copy, Debug, PartialEq, Eq, Structural)]
pub enum CustomError {
    /// The bet is closed or its duration has elapsed; joining is no longer
    /// possible.
    BetClosed,
    /// The participant is already in the bet's participant list.
    AlreadyJoined,
    /// The bet's duration has not yet elapsed; it cannot be ended.
    BetOpen,
    /// A winner cannot be selected from an empty participant list.
    NoParticipants,
    /// Only the bet's creator may end it or announce a winner.
    NotBetCreator,
    /// A winner has already been announced; a bet settles at most once, so
    /// the winner is never changed and the payouts are never re-issued.
    WinnerAlreadyAnnounced,
}

impl CustomError {
    /// The diagnostic text of this error, as a sequence of characters.
    pub open spec fn spec_message(self) -> Seq<char> {
        match self {
            CustomError::BetClosed => "Bet is already closed."@,
            CustomError::AlreadyJoined => "Participant already joined."@,
            CustomError::BetOpen => "Bet is still open."@,
            CustomError::NoParticipants => "No participants in the bet."@,
            CustomError::NotBetCreator => "Only the creator can perform this action."@,
            CustomError::WinnerAlreadyAnnounced => "Winner has already been announced."@,
        }
    }

    /// The diagnostic text reported to a caller for this error.
    pub fn message(&self) -> (r: &'static str)
        ensures
            r@ == self.spec_message(),
    {
        match self {
            CustomError::BetClosed => "Bet is already closed.",
            CustomError::AlreadyJoined => "Participant already joined.",
            CustomError::BetOpen => "Bet is still open.",
            CustomError::NoParticipants => "No participants in the bet.",
            CustomError::NotBetCreator => "Only the creator can perform this action.",
            CustomError::WinnerAlreadyAnnounced => "Winner has already been announced.",
        }
    }
}

} // verus!
