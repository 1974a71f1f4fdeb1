//! Tests of winner selection and payout arithmetic, and the end-to-end
//! lifecycle scenario.

use betting_dapp::announce_winner;
use betting_dapp::constants::PLATFORM_FEE_PERCENTAGE;
use betting_dapp::create_bet;
use betting_dapp::end_bet;
use betting_dapp::error::CustomError;
use betting_dapp::join_bet;
use betting_dapp::states::settlement_amounts;
use betting_dapp::states::AccountId;
use betting_dapp::states::Bet;
use betting_dapp::states::Settlement;
use betting_dapp::states::TransferRequest;

fn account(key: u64) -> AccountId {
    AccountId { key }
}

fn fresh_bet(amount: u64, duration: u64, now: u64) -> Bet {
    let mut bet = Bet {
        bet_id: String::new(),
        bet_amount: 0,
        crypto_type: String::new(),
        bet_duration: 0,
        creator: account(0),
        end_time: 0,
        participants: Vec::new(),
        winner: None,
        is_active: false,
        platform_account: account(0),
    };
    let r = create_bet(
        &mut bet,
        "pool-1".to_owned(),
        amount,
        "lamports".to_owned(),
        duration,
        &account(1),
        &account(2),
        now,
    );
    assert!(r.is_ok());
    bet
}

#[test]
fn winner_is_selected_by_seed_modulo_participant_count() {
    // participants [A, B, C], seed 7 -> index 7 % 3 == 1 -> B.
    let mut bet = fresh_bet(1000, 60, 100);
    let a = account(10);
    let b = account(11);
    let c = account(12);
    assert!(join_bet(&mut bet, a, 1000, 110).is_ok());
    assert!(join_bet(&mut bet, b, 1000, 111).is_ok());
    assert!(join_bet(&mut bet, c, 1000, 112).is_ok());

    let r = announce_winner(&mut bet, &account(1), 7);
    assert!(r.is_ok());
    assert_eq!(bet.winner, Some(b));

    // The selection is a pure function of seed and participant count.
    for (seed, expected) in [(0, a), (5, c), (300, a)] {
        let mut again = fresh_bet(1000, 60, 100);
        assert!(join_bet(&mut again, a, 1000, 110).is_ok());
        assert!(join_bet(&mut again, b, 1000, 111).is_ok());
        assert!(join_bet(&mut again, c, 1000, 112).is_ok());
        assert!(announce_winner(&mut again, &account(1), seed).is_ok());
        assert_eq!(again.winner, Some(expected));
    }
}

#[test]
fn announce_twice_fails_and_keeps_the_winner() {
    // Once set, the winner is never changed: a repeated announcement is
    // refused even with a seed that would select another participant.
    let mut bet = fresh_bet(1000, 60, 100);
    let a = account(10);
    let b = account(11);
    assert!(join_bet(&mut bet, a, 1000, 110).is_ok());
    assert!(join_bet(&mut bet, b, 1000, 111).is_ok());
    assert!(announce_winner(&mut bet, &account(1), 0).is_ok());
    assert_eq!(bet.winner, Some(a));
    let again = announce_winner(&mut bet, &account(1), 1);
    assert_eq!(again, Err(CustomError::WinnerAlreadyAnnounced));
    assert_eq!(bet.winner, Some(a));
}

#[test]
fn payout_arithmetic_splits_the_stake() {
    assert_eq!(PLATFORM_FEE_PERCENTAGE, 5);
    assert_eq!(settlement_amounts(1000), (50, 950));
    assert_eq!(settlement_amounts(100), (5, 95));
    // The fee rounds down; tiny stakes pay no fee.
    assert_eq!(settlement_amounts(19), (0, 19));
    assert_eq!(settlement_amounts(0), (0, 0));
    // Fee plus payout return exactly the stake, even at the extremes.
    let (fee, payout) = settlement_amounts(u64::MAX);
    assert_eq!(fee + payout, u64::MAX);
    assert_eq!(fee, u64::MAX / 100 * 5 + (u64::MAX % 100) * 5 / 100);
}

#[test]
fn announce_with_no_participants_fails_and_leaves_winner_unset() {
    let mut bet = fresh_bet(1000, 60, 100);
    let r = announce_winner(&mut bet, &account(1), 42);
    assert_eq!(r, Err(CustomError::NoParticipants));
    assert!(bet.winner.is_none());
}

#[test]
fn announce_by_non_creator_fails_and_leaves_winner_unset() {
    let mut bet = fresh_bet(1000, 60, 100);
    assert!(join_bet(&mut bet, account(10), 1000, 110).is_ok());
    let r = announce_winner(&mut bet, &account(99), 42);
    assert_eq!(r, Err(CustomError::NotBetCreator));
    assert!(bet.winner.is_none());
}

#[test]
fn end_to_end_two_participants_settle_the_pool() {
    // Create at time 0 with amount 100 and duration 60, let two distinct
    // accounts join, end at 60, and announce with a fixed seed.
    let creator = account(1);
    let platform = account(2);
    let first = account(10);
    let second = account(11);

    let mut bet = fresh_bet(100, 60, 0);
    assert_eq!(bet.end_time, 60);
    assert!(join_bet(&mut bet, first, 100, 10).is_ok());
    assert!(join_bet(&mut bet, second, 100, 20).is_ok());
    assert_eq!(end_bet(&mut bet, &creator, 60), Ok(()));

    let settlement = announce_winner(&mut bet, &creator, 13).unwrap();
    // seed 13 on two participants -> index 1 -> the second account.
    assert_eq!(bet.winner, Some(second));
    assert_eq!(
        settlement,
        Settlement {
            platform_fee: TransferRequest { from: creator, to: platform, amount: 5 },
            winner_payout: TransferRequest { from: creator, to: second, amount: 95 },
        }
    );

    // Exactly one participant is paid, and fee plus payout return the stake.
    assert_ne!(settlement.winner_payout.to, settlement.platform_fee.to);
    assert_eq!(
        settlement.platform_fee.amount + settlement.winner_payout.amount,
        bet.bet_amount
    );

    // The winner is set exactly once: a repeated announcement is refused
    // and no payouts are re-issued.
    let repeated = announce_winner(&mut bet, &creator, 13);
    assert_eq!(repeated, Err(CustomError::WinnerAlreadyAnnounced));
    assert_eq!(bet.winner, Some(second));
}
