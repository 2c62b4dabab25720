use lottery::errors::CustomError;
use lottery::ledger::Ledger;
use lottery::ops::{
    join, redeem_if_p2_no_reveal, reveal_p1, reveal_p2, JoinCtx, RedeemIfP2NoRevealCtx,
    RevealP1Ctx, RevealP2Ctx,
};
use lottery::record::{LotteryInfo, LotteryState};
use lottery::store::{pair_key, LotteryStore};

fn digest(s: &str) -> [u8; 32] {
    anchor_lang::solana_program::keccak::hash(s.as_bytes()).to_bytes()
}

fn setup(funds: u64) -> (LotteryStore, Ledger) {
    let store = LotteryStore::new();
    let mut ledger = Ledger::new();
    ledger.deposit(1, funds).unwrap();
    ledger.deposit(2, funds).unwrap();
    (store, ledger)
}

fn do_join(
    store: &mut LotteryStore,
    ledger: &mut Ledger,
    h1: [u8; 32],
    h2: [u8; 32],
    delay: u64,
    now: u64,
    amount: u64,
) -> Result<(), CustomError> {
    join(
        store,
        ledger,
        JoinCtx { player1: 1, player2: 2 },
        h1,
        h2,
        delay,
        now,
        amount,
    )
}

#[test]
fn join_with_equal_commitments_moves_nothing() {
    let (mut store, mut ledger) = setup(100);
    let h = digest("apple");
    let r = do_join(&mut store, &mut ledger, h, h, 50, 0, 100);
    assert_eq!(r, Err(CustomError::TwoEqualHashes));
    assert_eq!(ledger.balance_of(1), 100);
    assert_eq!(ledger.balance_of(2), 100);
    assert_eq!(ledger.balance_of(pair_key(1, 2)), 0);
    assert!(store.find(pair_key(1, 2)).is_none());
}

#[test]
fn join_with_degenerate_deadline_moves_nothing() {
    let (mut store, mut ledger) = setup(100);
    let r = do_join(
        &mut store,
        &mut ledger,
        digest("apple"),
        digest("fig"),
        0,
        7,
        100,
    );
    assert_eq!(r, Err(CustomError::InvalidTimeoutProvided));
    // a delay that overflows the clock cannot name a future deadline either
    let r2 = do_join(
        &mut store,
        &mut ledger,
        digest("apple"),
        digest("fig"),
        u64::MAX,
        7,
        100,
    );
    assert_eq!(r2, Err(CustomError::InvalidTimeoutProvided));
    assert_eq!(ledger.balance_of(1), 100);
    assert_eq!(ledger.balance_of(2), 100);
}

#[test]
fn join_without_the_stake_moves_nothing() {
    let (mut store, mut ledger) = setup(50);
    let r = do_join(
        &mut store,
        &mut ledger,
        digest("apple"),
        digest("fig"),
        50,
        0,
        100,
    );
    assert_eq!(r, Err(CustomError::InsufficientFunds));
    assert_eq!(ledger.balance_of(1), 50);
    assert_eq!(ledger.balance_of(2), 50);
    assert_eq!(ledger.balance_of(pair_key(1, 2)), 0);
}

#[test]
fn join_twice_for_one_pair_fails() {
    let (mut store, mut ledger) = setup(300);
    let h1 = digest("apple");
    let h2 = digest("fig");
    assert_eq!(do_join(&mut store, &mut ledger, h1, h2, 50, 0, 100), Ok(()));
    let again = do_join(&mut store, &mut ledger, h1, h2, 50, 1, 100);
    assert_eq!(again, Err(CustomError::InvalidState));
    assert_eq!(ledger.balance_of(pair_key(1, 2)), 200);
    assert_eq!(ledger.balance_of(1), 200);
}

#[test]
fn reveal_with_wrong_secret_changes_nothing() {
    let (mut store, mut ledger) = setup(100);
    assert_eq!(
        do_join(&mut store, &mut ledger, digest("apple"), digest("fig"), 50, 0, 100),
        Ok(())
    );
    let r = reveal_p1(
        &mut store,
        RevealP1Ctx { player1: 1, player2: 2 },
        "apples".to_string(),
        10,
    );
    assert_eq!(r, Err(CustomError::InvalidSecret));
    assert_eq!(store.recs[0].state, LotteryState::Init);
    assert_eq!(store.recs[0].secret1, "");

    assert_eq!(
        reveal_p1(
            &mut store,
            RevealP1Ctx { player1: 1, player2: 2 },
            "apple".to_string(),
            10,
        ),
        Ok(())
    );
    let r2 = reveal_p2(
        &mut store,
        &mut ledger,
        RevealP2Ctx { player1: 1, player2: 2 },
        "figs".to_string(),
        11,
    );
    assert_eq!(r2, Err(CustomError::InvalidSecret));
    assert_eq!(store.recs[0].state, LotteryState::RevealP1);
    assert_eq!(store.recs[0].secret2, "");
    assert_eq!(ledger.balance_of(pair_key(1, 2)), 200);
}

#[test]
fn reveal_after_its_window_fails() {
    let (mut store, mut ledger) = setup(100);
    assert_eq!(
        do_join(&mut store, &mut ledger, digest("apple"), digest("fig"), 50, 0, 100),
        Ok(())
    );
    // the first window closes at end_reveal itself
    let late1 = reveal_p1(
        &mut store,
        RevealP1Ctx { player1: 1, player2: 2 },
        "apple".to_string(),
        50,
    );
    assert_eq!(late1, Err(CustomError::TimeoutReached));

    assert_eq!(
        reveal_p1(
            &mut store,
            RevealP1Ctx { player1: 1, player2: 2 },
            "apple".to_string(),
            49,
        ),
        Ok(())
    );
    // the second window closes at end_reveal + 10
    let late2 = reveal_p2(
        &mut store,
        &mut ledger,
        RevealP2Ctx { player1: 1, player2: 2 },
        "fig".to_string(),
        60,
    );
    assert_eq!(late2, Err(CustomError::TimeoutReached));
    assert_eq!(store.recs[0].state, LotteryState::RevealP1);
}

#[test]
fn operations_without_a_record_fail() {
    let mut store = LotteryStore::new();
    let r = reveal_p1(
        &mut store,
        RevealP1Ctx { player1: 1, player2: 2 },
        "apple".to_string(),
        1,
    );
    assert_eq!(r, Err(CustomError::InvalidState));
    // swapped roles address the same pair but not the same record
    let (mut store2, mut ledger2) = setup(100);
    assert_eq!(
        do_join(&mut store2, &mut ledger2, digest("apple"), digest("fig"), 50, 0, 100),
        Ok(())
    );
    let swapped = reveal_p1(
        &mut store2,
        RevealP1Ctx { player1: 2, player2: 1 },
        "apple".to_string(),
        1,
    );
    assert_eq!(swapped, Err(CustomError::InvalidState));
}

#[test]
fn second_reveal_before_the_first_fails() {
    let (mut store, mut ledger) = setup(100);
    assert_eq!(
        do_join(&mut store, &mut ledger, digest("apple"), digest("fig"), 50, 0, 100),
        Ok(())
    );
    let r = reveal_p2(
        &mut store,
        &mut ledger,
        RevealP2Ctx { player1: 1, player2: 2 },
        "fig".to_string(),
        1,
    );
    assert_eq!(r, Err(CustomError::InvalidState));
    // and so does the first participant's redemption while the game is open
    let rd = redeem_if_p2_no_reveal(
        &mut store,
        &mut ledger,
        RedeemIfP2NoRevealCtx { player1: 1, player2: 2 },
        100,
    );
    assert_eq!(rd, Err(CustomError::InvalidState));
}

#[test]
fn payout_past_the_balance_cap_is_refused() {
    let mut store = LotteryStore::new();
    let mut ledger = Ledger::new();
    ledger.deposit(1, u64::MAX).unwrap();
    ledger.deposit(2, 200).unwrap();
    assert_eq!(
        do_join(&mut store, &mut ledger, digest("cat"), digest("dog"), 50, 0, 100),
        Ok(())
    );
    assert_eq!(
        reveal_p1(
            &mut store,
            RevealP1Ctx { player1: 1, player2: 2 },
            "cat".to_string(),
            1,
        ),
        Ok(())
    );
    // the winner would be player 1, whose balance cannot take the pot
    let r = reveal_p2(
        &mut store,
        &mut ledger,
        RevealP2Ctx { player1: 1, player2: 2 },
        "dog".to_string(),
        2,
    );
    assert_eq!(r, Err(CustomError::BalanceOverflow));
    assert_eq!(store.recs[0].state, LotteryState::RevealP1);
    assert_eq!(ledger.balance_of(pair_key(1, 2)), 200);
}

#[test]
fn deposit_past_the_balance_cap_is_refused() {
    let mut ledger = Ledger::new();
    ledger.deposit(9, u64::MAX - 1).unwrap();
    let r = ledger.deposit(9, 2);
    assert_eq!(r, Err(CustomError::BalanceOverflow));
    assert_eq!(ledger.balance_of(9), u64::MAX - 1);
}

#[test]
fn record_methods_follow_the_state_machine() {
    let mut rec = LotteryInfo::new();
    assert_eq!(
        rec.initialize(1, 2, digest("apple"), digest("apple"), 50, 0),
        Err(CustomError::TwoEqualHashes)
    );
    assert_eq!(
        rec.initialize(1, 2, digest("apple"), digest("fig"), 5, 5),
        Err(CustomError::InvalidTimeoutProvided)
    );
    assert_eq!(rec.initialize(1, 2, digest("apple"), digest("fig"), 50, 0), Ok(()));
    assert_eq!(rec.get_winner(), Err(CustomError::InvalidState));
    assert_eq!(rec.reveal_p2("fig", 1), Err(CustomError::InvalidState));
    assert_eq!(rec.reveal_p1("apple", 1), Ok(()));
    assert_eq!(rec.reveal_p1("apple", 2), Err(CustomError::InvalidState));
    assert_eq!(rec.check_redeem_if_p2_no_reveal(60), Err(CustomError::TimeoutNotReached));
    assert_eq!(rec.check_redeem_if_p2_no_reveal(61), Ok(()));
    assert_eq!(rec.reveal_p2("fig", 2), Ok(()));
    assert_eq!(rec.get_winner(), Ok(1));
    assert_eq!(rec.check_redeem_if_p1_no_reveal(100), Err(CustomError::InvalidState));
}
