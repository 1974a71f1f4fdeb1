//! The bet lifecycle state machine: the `Bet` entity, its invariants, and
//! the four operations that drive it from creation to settlement.

use vstd::prelude::*;

use crate::constants::PLATFORM_FEE_PERCENTAGE;
use crate::error::CustomError;

verus! {

/// An authenticated account identity, as the host's identity layer reports
/// it. The core only compares identities for equality; what a key physically
/// is (a 32-byte public key, a username) is the host's concern.
#[derive(Clone, Copy, Debug, Hash, PartialEq, Eq, Structural)]
pub struct AccountId {
    pub key: u64,
}

/// One fund movement for the host's ledger collaborator to execute: move
/// `amount` units from the account `from` to the account `to`. The core only
/// decides which transfers to request; the ledger holds the balances.
#[derive(Clone, Copy, Debug, PartialEq, Eq, Structural)]
pub struct TransferRequest {
    pub from: AccountId,
    pub to: AccountId,
    pub amount: u64,
}

/// The two transfers that settle a bet, both funded from the creator's
/// account: the platform's fee and the winner's payout.
#[derive(Clone, Copy, Debug, PartialEq, Eq, Structural)]
pub struct Settlement {
    pub platform_fee: TransferRequest,
    pub winner_payout: TransferRequest,
}

/// The full state of one betting pool.
pub struct Bet {
    /// Opaque identifier, caller-supplied, immutable after creation.
    pub bet_id: String,
    /// Entry stake size, in the smallest unit of `crypto_type`.
    pub bet_amount: u64,
    /// Label of the asset type being wagered; no conversion logic.
    pub crypto_type: String,
    /// How long the bet stays open from creation, in seconds.
    pub bet_duration: u64,
    /// Sole authority permitted to end the bet and announce a winner.
    pub creator: AccountId,
    /// Creation time plus `bet_duration`, fixed at creation (unix seconds).
    pub end_time: u64,
    /// Joined accounts, insertion order preserved, no duplicates.
    pub participants: Vec<AccountId>,
    /// Unset until a winner is announced; always one of `participants`.
    pub winner: Option<AccountId>,
    /// True from creation until the creator ends the bet.
    pub is_active: bool,
    /// Destination of platform fees, fixed at creation.
    pub platform_account: AccountId,
}

impl Bet {
    /// Well-formedness: the participant list holds no duplicate identity,
    /// and the winner, once set, is one of the participants.
    pub open spec fn wf(self) -> bool {
        &&& forall|i: int, j: int|
                0 <= i < j < self.participants@.len() ==> self.participants@[i] != self.participants@[j]
        &&& (self.winner matches Some(w) ==> self.participants@.contains(w))
    }

    /// When a join attempt by `participant` at time `now` is accepted: the
    /// bet is still open, its duration has not elapsed, and the participant
    /// has not joined before.
    pub open spec fn join_allowed(self, participant: AccountId, now: u64) -> bool {
        &&& self.is_active
        &&& now < self.end_time
        &&& !self.participants@.contains(participant)
    }

    /// Which error a rejected join reports: closure (explicit or by elapsed
    /// time) is checked before duplicate membership.
    pub open spec fn join_error(self, participant: AccountId, now: u64) -> CustomError
        recommends
            !self.join_allowed(participant, now),
    {
        if !self.is_active || now >= self.end_time {
            CustomError::BetClosed
        } else {
            CustomError::AlreadyJoined
        }
    }

    /// Frame: every field of `self` equals the one of `other`, except
    /// possibly `participants`.
    pub open spec fn same_except_participants(self, other: Bet) -> bool {
        &&& self.bet_id == other.bet_id
        &&& self.bet_amount == other.bet_amount
        &&& self.crypto_type == other.crypto_type
        &&& self.bet_duration == other.bet_duration
        &&& self.creator == other.creator
        &&& self.end_time == other.end_time
        &&& self.winner == other.winner
        &&& self.is_active == other.is_active
        &&& self.platform_account == other.platform_account
    }

    /// Frame: every field of `self` equals the one of `other`, except
    /// possibly `is_active`.
    pub open spec fn same_except_active(self, other: Bet) -> bool {
        &&& self.bet_id == other.bet_id
        &&& self.bet_amount == other.bet_amount
        &&& self.crypto_type == other.crypto_type
        &&& self.bet_duration == other.bet_duration
        &&& self.creator == other.creator
        &&& self.end_time == other.end_time
        &&& self.participants@ == other.participants@
        &&& self.winner == other.winner
        &&& self.platform_account == other.platform_account
    }

    /// Frame: every field of `self` equals the one of `other`, except
    /// possibly `winner`.
    pub open spec fn same_except_winner(self, other: Bet) -> bool {
        &&& self.bet_id == other.bet_id
        &&& self.bet_amount == other.bet_amount
        &&& self.crypto_type == other.crypto_type
        &&& self.bet_duration == other.bet_duration
        &&& self.creator == other.creator
        &&& self.end_time == other.end_time
        &&& self.participants@ == other.participants@
        &&& self.is_active == other.is_active
        &&& self.platform_account == other.platform_account
    }

    /// Initializes a freshly allocated bet: all fields set, the participant
    /// list empty, no winner, and the bet open until `now + bet_duration`.
    ///
    /// Malformed inputs (empty identifier or asset label, zero stake, zero
    /// duration) are the caller's to reject before invoking the core, so
    /// they are preconditions here; uniqueness of `bet_id` against other
    /// bets is the host store's concern, not checked here.
    pub fn initialize(
        &mut self,
        bet_id: String,
        bet_amount: u64,
        crypto_type: String,
        bet_duration: u64,
        creator: &AccountId,
        platform_account: &AccountId,
        now: u64,
    ) -> (result: Result<(), CustomError>)
        requires
            bet_id@.len() > 0,
            bet_amount > 0,
            crypto_type@.len() > 0,
            bet_duration > 0,
            now + bet_duration <= u64::MAX,
        ensures
            result is Ok,
            final(self).bet_id == bet_id,
            final(self).bet_amount == bet_amount,
            final(self).crypto_type == crypto_type,
            final(self).bet_duration == bet_duration,
            final(self).creator == *creator,
            final(self).end_time == now + bet_duration,
            final(self).participants@.len() == 0,
            final(self).winner is None,
            final(self).is_active,
            final(self).platform_account == *platform_account,
            final(self).wf(),
    {
        self.bet_id = bet_id;
        self.bet_amount = bet_amount;
        self.crypto_type = crypto_type;
        self.bet_duration = bet_duration;
        self.creator = *creator;
        self.end_time = now + bet_duration;
        self.participants = Vec::new();
        self.is_active = true;
        self.winner = None;
        self.platform_account = *platform_account;
        Ok(())
    }

    /// Whether `target` is already one of the joined participants.
    pub fn contains_participant(&self, target: &AccountId) -> (r: bool)
        ensures
            r == self.participants@.contains(*target),
    {
        let mut i: usize = 0;
        while i < self.participants.len()
            invariant
                i <= self.participants.len(),
                forall|k: int| 0 <= k < i ==> self.participants@[k] != *target,
            decreases self.participants.len() - i,
        {
            if self.participants[i] == *target {
                return true;
            }
            i = i + 1;
        }
        false
    }

    /// Validates a join attempt without mutating anything, and says which
    /// transfer the ledger collaborator must execute before the join may be
    /// applied: the entry fee moves from the participant to the platform
    /// account. A host that can observe transfer failure calls this first,
    /// performs the transfer, and applies `join_bet` only on success, so
    /// that a failed transfer leaves the participant list unchanged.
    pub fn join_bet_request(&self, participant: &AccountId, fee_amount: u64, now: u64)
        -> (result: Result<TransferRequest, CustomError>)
        ensures
            self.join_allowed(*participant, now) ==> result == Ok::<TransferRequest, CustomError>(
                (TransferRequest { from: *participant, to: self.platform_account, amount: fee_amount }),
            ),
            !self.join_allowed(*participant, now) ==> result == Err::<TransferRequest, CustomError>(
                self.join_error(*participant, now),
            ),
            now >= self.end_time ==> result == Err::<TransferRequest, CustomError>(CustomError::BetClosed),
    {
        if !self.is_active {
            return Err(CustomError::BetClosed);
        }
        if now >= self.end_time {
            return Err(CustomError::BetClosed);
        }
        if self.contains_participant(participant) {
            return Err(CustomError::AlreadyJoined);
        }
        Ok(TransferRequest { from: *participant, to: self.platform_account, amount: fee_amount })
    }

    /// The `JoinBet` operation: checks that the bet is open, that its
    /// duration has not elapsed, and that `participant` has not joined
    /// before (in that order, first failure wins), then appends the
    /// participant and returns the entry-fee transfer for the ledger to
    /// execute. A rejected join leaves the bet exactly as it was; joining
    /// after `end_time` fails with `BetClosed` whether or not the bet was
    /// explicitly ended.
    ///
    /// `fee_amount` is caller-supplied and deliberately not tied to
    /// `bet_amount`: the host decides the staking policy.
    pub fn join_bet(&mut self, participant: AccountId, fee_amount: u64, now: u64)
        -> (result: Result<TransferRequest, CustomError>)
        ensures
            old(self).join_allowed(participant, now) ==> {
                &&& result == Ok::<TransferRequest, CustomError>(
                        (TransferRequest {
                            from: participant,
                            to: old(self).platform_account,
                            amount: fee_amount,
                        }),
                    )
                &&& final(self).participants@ == old(self).participants@.push(participant)
                &&& final(self).same_except_participants(*old(self))
            },
            !old(self).join_allowed(participant, now) ==> {
                &&& result == Err::<TransferRequest, CustomError>(
                        old(self).join_error(participant, now),
                    )
                &&& *final(self) == *old(self)
            },
            now >= old(self).end_time ==> result == Err::<TransferRequest, CustomError>(
                CustomError::BetClosed,
            ),
            old(self).wf() ==> final(self).wf(),
    {
        if !self.is_active {
            return Err(CustomError::BetClosed);
        }
        if now >= self.end_time {
            return Err(CustomError::BetClosed);
        }
        if self.contains_participant(&participant) {
            return Err(CustomError::AlreadyJoined);
        }
        let request = TransferRequest {
            from: participant,
            to: self.platform_account,
            amount: fee_amount,
        };
        proof {
            if old(self).wf() {
                lemma_push_keeps_unique(self.participants@, participant);
                lemma_push_keeps_contains(self.participants@, participant);
            }
        }
        self.participants.push(participant);
        Ok(request)
    }

    /// The `EndBet` operation: only the creator may end the bet, and only
    /// once its duration has elapsed; then the bet stops accepting joins.
    /// A rejected call leaves the bet exactly as it was. Ending an already
    /// ended bet is deliberately permitted and is a state-wise no-op: time
    /// only advances, so the duration check stays satisfied.
    pub fn end_bet(&mut self, creator_key: &AccountId, now: u64) -> (result: Result<
        (),
        CustomError,
    >)
        ensures
            *creator_key != old(self).creator ==> {
                &&& result == Err::<(), CustomError>(CustomError::NotBetCreator)
                &&& *final(self) == *old(self)
            },
            *creator_key == old(self).creator && now < old(self).end_time ==> {
                &&& result == Err::<(), CustomError>(CustomError::BetOpen)
                &&& *final(self) == *old(self)
            },
            *creator_key == old(self).creator && now >= old(self).end_time ==> {
                &&& result is Ok
                &&& !final(self).is_active
                &&& final(self).same_except_active(*old(self))
            },
            old(self).wf() ==> final(self).wf(),
    {
        if !(self.creator == *creator_key) {
            return Err(CustomError::NotBetCreator);
        }
        if now < self.end_time {
            return Err(CustomError::BetOpen);
        }
        self.is_active = false;
        Ok(())
    }

    /// The `AnnounceWinner` operation: only the creator may announce, only
    /// when at least one account has joined, and only while no winner has
    /// been announced yet — a repeated call is refused with
    /// `WinnerAlreadyAnnounced`, so the winner, once set, is never changed
    /// and the payouts are issued at most once. The winner is the
    /// participant at index `random_seed % participants.len()` — selection
    /// is deterministic in the seed; the seed's unpredictability is the
    /// host's concern, since whoever chooses it (often the creator) steers
    /// the outcome. Returns the two transfers that settle the bet, both
    /// funded from the creator's account: the platform fee to the platform
    /// account and the remainder of the stake to the winner. A rejected
    /// call leaves the bet, in particular `winner`, exactly as it was.
    ///
    /// Deliberately permissive, to be guarded by the host if undesired:
    /// the bet may still be open when the winner is announced.
    pub fn creator_announce_winner(&mut self, creator_key: &AccountId, random_seed: u64)
        -> (result: Result<Settlement, CustomError>)
        ensures
            *creator_key != old(self).creator ==> {
                &&& result == Err::<Settlement, CustomError>(CustomError::NotBetCreator)
                &&& *final(self) == *old(self)
            },
            *creator_key == old(self).creator && old(self).participants@.len() == 0 ==> {
                &&& result == Err::<Settlement, CustomError>(CustomError::NoParticipants)
                &&& *final(self) == *old(self)
            },
            *creator_key == old(self).creator && old(self).participants@.len() > 0 && old(
                self,
            ).winner is Some ==> {
                &&& result == Err::<Settlement, CustomError>(CustomError::WinnerAlreadyAnnounced)
                &&& *final(self) == *old(self)
            },
            old(self).winner is Some ==> final(self).winner == old(self).winner,
            *creator_key == old(self).creator && old(self).participants@.len() > 0 && old(
                self,
            ).winner is None ==> {
                let winner = old(self).participants@[random_seed as int % old(
                    self,
                ).participants@.len() as int];
                let fee = spec_platform_fee(
                    old(self).bet_amount as int,
                    PLATFORM_FEE_PERCENTAGE as int,
                );
                &&& final(self).winner == Some(winner)
                &&& final(self).same_except_winner(*old(self))
                &&& result == Ok::<Settlement, CustomError>(
                        (Settlement {
                            platform_fee: TransferRequest {
                                from: old(self).creator,
                                to: old(self).platform_account,
                                amount: fee as u64,
                            },
                            winner_payout: TransferRequest {
                                from: old(self).creator,
                                to: winner,
                                amount: (old(self).bet_amount - fee) as u64,
                            },
                        }),
                    )
            },
            old(self).wf() ==> final(self).wf(),
    {
        if !(self.creator == *creator_key) {
            return Err(CustomError::NotBetCreator);
        }
        if self.participants.len() == 0 {
            return Err(CustomError::NoParticipants);
        }
        if self.winner.is_some() {
            return Err(CustomError::WinnerAlreadyAnnounced);
        }
        let len_u64: u64 = self.participants.len() as u64;
        let winner_index: usize = (random_seed % len_u64) as usize;
        let winner: AccountId = self.participants[winner_index];
        self.winner = Some(winner);
        let (platform_fee, winner_amount) = settlement_amounts(self.bet_amount);
        proof {
            assert(self.participants@[winner_index as int] == winner);
            assert(self.participants@.contains(winner));
        }
        Ok(
            Settlement {
                platform_fee: TransferRequest {
                    from: self.creator,
                    to: self.platform_account,
                    amount: platform_fee,
                },
                winner_payout: TransferRequest {
                    from: self.creator,
                    to: winner,
                    amount: winner_amount,
                },
            },
        )
    }
}

/// Law: across any sequence of accepted joins the participant list holds no
/// duplicate identity and preserves the order of joining. Stated as the
/// inductive step: if `pre` is well formed and a join of `participant` is
/// accepted, then the resulting state — `participant` appended, the winner
/// unchanged — is well formed again, keeps every earlier participant at its
/// position, and places the new participant last.
pub proof fn lemma_join_preserves_uniqueness_and_order(
    pre: Bet,
    post: Bet,
    participant: AccountId,
    now: u64,
)
    requires
        pre.wf(),
        pre.join_allowed(participant, now),
        post.participants@ == pre.participants@.push(participant),
        post.winner == pre.winner,
    ensures
        post.wf(),
        post.participants@.len() == pre.participants@.len() + 1,
        forall|i: int|
            0 <= i < pre.participants@.len() ==> post.participants@[i] == pre.participants@[i],
        post.participants@[pre.participants@.len() as int] == participant,
{
    lemma_push_keeps_unique(pre.participants@, participant);
    lemma_push_keeps_contains(pre.participants@, participant);
}

/// The platform's cut of a stake of `amount` at a fee percentage of `pct`:
/// `amount * pct / 100`, rounded down.
pub open spec fn spec_platform_fee(amount: int, pct: int) -> int {
    amount * pct / 100
}

/// Law: for any stake and any fee percentage in `[0, 100]`, the platform fee
/// never exceeds the stake, so the winner's payout never underflows, and fee
/// plus payout return exactly the stake — settlement conserves funds.
pub proof fn lemma_settlement_conserves_stake(amount: int, pct: int)
    requires
        0 <= amount,
        0 <= pct <= 100,
    ensures
        0 <= spec_platform_fee(amount, pct) <= amount,
        spec_platform_fee(amount, pct) + (amount - spec_platform_fee(amount, pct)) == amount,
{
    assert(0 <= amount * pct / 100 <= amount) by (nonlinear_arith)
        requires
            0 <= amount,
            0 <= pct <= 100,
    ;
}

/// The settlement helper: splits a stake of `amount` into the platform's fee
/// and the winner's payout, at the platform fee percentage.
pub fn settlement_amounts(amount: u64) -> (r: (u64, u64))
    ensures
        r.0 == spec_platform_fee(amount as int, PLATFORM_FEE_PERCENTAGE as int),
        r.1 == amount - r.0,
        r.0 + r.1 == amount,
{
    proof {
        lemma_settlement_conserves_stake(amount as int, PLATFORM_FEE_PERCENTAGE as int);
    }
    let wide_fee: u128 = (amount as u128) * (PLATFORM_FEE_PERCENTAGE as u128) / 100;
    let platform_fee: u64 = wide_fee as u64;
    let winner_amount: u64 = amount - platform_fee;
    (platform_fee, winner_amount)
}

/// The appended sequence still holds no duplicates when the new element was
/// not present before.
proof fn lemma_push_keeps_unique(s: Seq<AccountId>, p: AccountId)
    requires
        forall|i: int, j: int| 0 <= i < j < s.len() ==> s[i] != s[j],
        !s.contains(p),
    ensures
        forall|i: int, j: int| 0 <= i < j < s.push(p).len() ==> s.push(p)[i] != s.push(p)[j],
{
    let s2 = s.push(p);
    assert forall|i: int, j: int| 0 <= i < j < s2.len() implies s2[i] != s2[j] by {
        if j == s.len() {
            assert(s2[i] == s[i]);
            if s[i] == p {
                assert(s.contains(p));
            }
        } else {
            assert(s2[i] == s[i]);
            assert(s2[j] == s[j]);
        }
    }
}

/// Appending keeps every element that was already contained.
proof fn lemma_push_keeps_contains(s: Seq<AccountId>, p: AccountId)
    ensures
        forall|w: AccountId| s.contains(w) ==> #[trigger] s.push(p).contains(w),
{
    assert forall|w: AccountId| s.contains(w) implies #[trigger] s.push(p).contains(w) by {
        let k = choose|k: int| 0 <= k < s.len() && s[k] == w;
        assert(s.push(p)[k] == w);
    }
}

/// The `CreateBet` operation: constructs the state of a new bet in `bet`.
/// The host supplies the authenticated `creator`, the fee destination
/// `platform_account`, and the current time `now`.
pub fn create_bet(
    bet: &mut Bet,
    bet_id: String,
    bet_amount: u64,
    crypto_type: String,
    bet_duration: u64,
    creator: &AccountId,
    platform_account: &AccountId,
    now: u64,
) -> (result: Result<(), CustomError>)
    requires
        bet_id@.len() > 0,
        bet_amount > 0,
        crypto_type@.len() > 0,
        bet_duration > 0,
        now + bet_duration <= u64::MAX,
    ensures
        result is Ok,
        final(bet).bet_id == bet_id,
        final(bet).bet_amount == bet_amount,
        final(bet).crypto_type == crypto_type,
        final(bet).bet_duration == bet_duration,
        final(bet).creator == *creator,
        final(bet).end_time == now + bet_duration,
        final(bet).participants@.len() == 0,
        final(bet).winner is None,
        final(bet).is_active,
        final(bet).platform_account == *platform_account,
        final(bet).wf(),
{
    bet.initialize(bet_id, bet_amount, crypto_type, bet_duration, creator, platform_account, now)
}

/// The `JoinBet` operation on `bet`; see `Bet::join_bet`.
pub fn join_bet(bet: &mut Bet, participant: AccountId, fee_amount: u64, now: u64) -> (result:
    Result<TransferRequest, CustomError>)
    ensures
        old(bet).join_allowed(participant, now) ==> {
            &&& result == Ok::<TransferRequest, CustomError>(
                    (TransferRequest {
                        from: participant,
                        to: old(bet).platform_account,
                        amount: fee_amount,
                    }),
                )
            &&& final(bet).participants@ == old(bet).participants@.push(participant)
            &&& final(bet).same_except_participants(*old(bet))
        },
        !old(bet).join_allowed(participant, now) ==> {
            &&& result == Err::<TransferRequest, CustomError>(
                    old(bet).join_error(participant, now),
                )
            &&& *final(bet) == *old(bet)
        },
        now >= old(bet).end_time ==> result == Err::<TransferRequest, CustomError>(
            CustomError::BetClosed,
        ),
        old(bet).wf() ==> final(bet).wf(),
{
    bet.join_bet(participant, fee_amount, now)
}

/// The `EndBet` operation on `bet`; see `Bet::end_bet`.
pub fn end_bet(bet: &mut Bet, creator_key: &AccountId, now: u64) -> (result: Result<
    (),
    CustomError,
>)
    ensures
        *creator_key != old(bet).creator ==> {
            &&& result == Err::<(), CustomError>(CustomError::NotBetCreator)
            &&& *final(bet) == *old(bet)
        },
        *creator_key == old(bet).creator && now < old(bet).end_time ==> {
            &&& result == Err::<(), CustomError>(CustomError::BetOpen)
            &&& *final(bet) == *old(bet)
        },
        *creator_key == old(bet).creator && now >= old(bet).end_time ==> {
            &&& result is Ok
            &&& !final(bet).is_active
            &&& final(bet).same_except_active(*old(bet))
        },
        old(bet).wf() ==> final(bet).wf(),
{
    bet.end_bet(creator_key, now)
}

/// The `AnnounceWinner` operation on `bet`; see
/// `Bet::creator_announce_winner`.
pub fn announce_winner(bet: &mut Bet, creator_key: &AccountId, random_seed: u64) -> (result:
    Result<Settlement, CustomError>)
    ensures
        *creator_key != old(bet).creator ==> {
            &&& result == Err::<Settlement, CustomError>(CustomError::NotBetCreator)
            &&& *final(bet) == *old(bet)
        },
        *creator_key == old(bet).creator && old(bet).participants@.len() == 0 ==> {
            &&& result == Err::<Settlement, CustomError>(CustomError::NoParticipants)
            &&& *final(bet) == *old(bet)
        },
        *creator_key == old(bet).creator && old(bet).participants@.len() > 0 && old(
            bet,
        ).winner is Some ==> {
            &&& result == Err::<Settlement, CustomError>(CustomError::WinnerAlreadyAnnounced)
            &&& *final(bet) == *old(bet)
        },
        old(bet).winner is Some ==> final(bet).winner == old(bet).winner,
        *creator_key == old(bet).creator && old(bet).participants@.len() > 0 && old(
            bet,
        ).winner is None ==> {
            let winner = old(bet).participants@[random_seed as int % old(
                bet,
            ).participants@.len() as int];
            let fee = spec_platform_fee(old(bet).bet_amount as int, PLATFORM_FEE_PERCENTAGE as int);
            &&& final(bet).winner == Some(winner)
            &&& final(bet).same_except_winner(*old(bet))
            &&& result == Ok::<Settlement, CustomError>(
                    (Settlement {
                        platform_fee: TransferRequest {
                            from: old(bet).creator,
                            to: old(bet).platform_account,
                            amount: fee as u64,
                        },
                        winner_payout: TransferRequest {
                            from: old(bet).creator,
                            to: winner,
                            amount: (old(bet).bet_amount - fee) as u64,
                        },
                    }),
                )
        },
        old(bet).wf() ==> final(bet).wf(),
{
    bet.creator_announce_winner(creator_key, random_seed)
}

} // verus!
