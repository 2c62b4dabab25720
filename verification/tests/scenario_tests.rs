use lottery::errors::CustomError;
use lottery::ledger::Ledger;
use lottery::ops::{
    join, redeem_if_p1_no_reveal, redeem_if_p2_no_reveal, reveal_p1, reveal_p2, JoinCtx,
    RedeemIfP1NoRevealCtx, RedeemIfP2NoRevealCtx, RevealP1Ctx, RevealP2Ctx,
};
use lottery::record::LotteryState;
use lottery::store::{pair_key, LotteryStore};

fn digest(s: &str) -> [u8; 32] {
    anchor_lang::solana_program::keccak::hash(s.as_bytes()).to_bytes()
}

/// A fresh store and a ledger where players 1 and 2 hold `funds` each.
fn setup(funds: u64) -> (LotteryStore, Ledger) {
    let store = LotteryStore::new();
    let mut ledger = Ledger::new();
    ledger.deposit(1, funds).unwrap();
    ledger.deposit(2, funds).unwrap();
    (store, ledger)
}

/// Players 1 and 2, committed to the two secrets, joined at clock 0 with
/// `end_reveal` at 50 and `stake` locked from each.
fn joined(secret1: &str, secret2: &str, stake: u64) -> (LotteryStore, Ledger) {
    let (mut store, mut ledger) = setup(stake);
    let r = join(
        &mut store,
        &mut ledger,
        JoinCtx { player1: 1, player2: 2 },
        digest(secret1),
        digest(secret2),
        50,
        0,
        stake,
    );
    assert_eq!(r, Ok(()));
    (store, ledger)
}

fn do_reveal_p1(
    store: &mut LotteryStore,
    secret: &str,
    now: u64,
) -> Result<(), CustomError> {
    reveal_p1(
        store,
        RevealP1Ctx { player1: 1, player2: 2 },
        secret.to_string(),
        now,
    )
}

fn do_reveal_p2(
    store: &mut LotteryStore,
    ledger: &mut Ledger,
    secret: &str,
    now: u64,
) -> Result<(), CustomError> {
    reveal_p2(
        store,
        ledger,
        RevealP2Ctx { player1: 1, player2: 2 },
        secret.to_string(),
        now,
    )
}

#[test]
fn scenario_a_apple_fig_first_wins_two_hundred() {
    let (mut store, mut ledger) = joined("apple", "fig", 100);
    let pot = pair_key(1, 2);
    assert_eq!(ledger.balance_of(1), 0);
    assert_eq!(ledger.balance_of(2), 0);
    assert_eq!(ledger.balance_of(pot), 200);

    assert_eq!(do_reveal_p1(&mut store, "apple", 10), Ok(()));
    assert_eq!(store.recs[0].state, LotteryState::RevealP1);

    // lengths 5 + 3 = 8, even: the first participant takes the whole stake
    assert_eq!(do_reveal_p2(&mut store, &mut ledger, "fig", 20), Ok(()));
    assert_eq!(store.recs[0].state, LotteryState::RevealP2);
    assert!(store.recs[0].closed);
    assert_eq!(ledger.balance_of(1), 200);
    assert_eq!(ledger.balance_of(2), 0);
    assert_eq!(ledger.balance_of(pot), 0);
}

#[test]
fn scenario_b_cat_dog_first_wins() {
    let (mut store, mut ledger) = joined("cat", "dog", 100);
    assert_eq!(do_reveal_p1(&mut store, "cat", 1), Ok(()));
    // lengths 3 + 3 = 6, even: the first participant wins
    assert_eq!(do_reveal_p2(&mut store, &mut ledger, "dog", 2), Ok(()));
    assert_eq!(ledger.balance_of(1), 200);
    assert_eq!(ledger.balance_of(2), 0);
}

#[test]
fn scenario_c_ant_bees_second_wins_two_hundred() {
    let (mut store, mut ledger) = joined("ant", "bees", 100);
    assert_eq!(do_reveal_p1(&mut store, "ant", 1), Ok(()));
    // lengths 3 + 4 = 7, odd: the second participant takes the whole stake
    assert_eq!(do_reveal_p2(&mut store, &mut ledger, "bees", 2), Ok(()));
    assert_eq!(ledger.balance_of(1), 0);
    assert_eq!(ledger.balance_of(2), 200);
}

#[test]
fn scenario_d_first_silent_second_redeems_once() {
    let (mut store, mut ledger) = joined("apple", "fig", 100);
    let pot = pair_key(1, 2);
    let ctx = RedeemIfP1NoRevealCtx { player1: 1, player2: 2 };

    // at the deadline itself the silence is not yet provable
    let early = redeem_if_p1_no_reveal(&mut store, &mut ledger, ctx, 50);
    assert_eq!(early, Err(CustomError::TimeoutNotReached));
    assert_eq!(ledger.balance_of(pot), 200);

    // one slot past the deadline it succeeds, once
    assert_eq!(redeem_if_p1_no_reveal(&mut store, &mut ledger, ctx, 51), Ok(()));
    assert_eq!(ledger.balance_of(2), 200);
    assert_eq!(ledger.balance_of(pot), 0);
    assert_eq!(store.recs[0].state, LotteryState::Init);
    assert!(store.recs[0].closed);

    // any repeat fails and the custodied balance stays zero
    let again = redeem_if_p1_no_reveal(&mut store, &mut ledger, ctx, 52);
    assert_eq!(again, Err(CustomError::InvalidState));
    assert_eq!(ledger.balance_of(2), 200);
    assert_eq!(ledger.balance_of(pot), 0);
}

#[test]
fn scenario_e_second_silent_first_redeems_after_grace() {
    let (mut store, mut ledger) = joined("apple", "fig", 100);
    let pot = pair_key(1, 2);
    assert_eq!(do_reveal_p1(&mut store, "apple", 10), Ok(()));
    let ctx = RedeemIfP2NoRevealCtx { player1: 1, player2: 2 };

    // the grace period ends at end_reveal + 10; at its last slot, too early
    let early = redeem_if_p2_no_reveal(&mut store, &mut ledger, ctx, 60);
    assert_eq!(early, Err(CustomError::TimeoutNotReached));

    assert_eq!(redeem_if_p2_no_reveal(&mut store, &mut ledger, ctx, 61), Ok(()));
    assert_eq!(ledger.balance_of(1), 200);
    assert_eq!(ledger.balance_of(2), 0);
    assert_eq!(ledger.balance_of(pot), 0);
    assert_eq!(store.recs[0].state, LotteryState::RevealP1);
    assert!(store.recs[0].closed);

    let again = redeem_if_p2_no_reveal(&mut store, &mut ledger, ctx, 62);
    assert_eq!(again, Err(CustomError::InvalidState));
    assert_eq!(ledger.balance_of(1), 200);
}

#[test]
fn settled_game_rejects_every_later_operation() {
    let (mut store, mut ledger) = joined("cat", "dog", 100);
    assert_eq!(do_reveal_p1(&mut store, "cat", 1), Ok(()));
    assert_eq!(do_reveal_p2(&mut store, &mut ledger, "dog", 2), Ok(()));
    let pot = pair_key(1, 2);
    assert_eq!(ledger.balance_of(pot), 0);

    assert_eq!(
        do_reveal_p1(&mut store, "cat", 3),
        Err(CustomError::InvalidState)
    );
    assert_eq!(
        do_reveal_p2(&mut store, &mut ledger, "dog", 3),
        Err(CustomError::InvalidState)
    );
    assert_eq!(
        redeem_if_p1_no_reveal(
            &mut store,
            &mut ledger,
            RedeemIfP1NoRevealCtx { player1: 1, player2: 2 },
            1000,
        ),
        Err(CustomError::InvalidState)
    );
    assert_eq!(
        redeem_if_p2_no_reveal(
            &mut store,
            &mut ledger,
            RedeemIfP2NoRevealCtx { player1: 1, player2: 2 },
            1000,
        ),
        Err(CustomError::InvalidState)
    );
    // a second game for the same pair can never be opened
    let rejoin = join(
        &mut store,
        &mut ledger,
        JoinCtx { player1: 1, player2: 2 },
        digest("x"),
        digest("y"),
        50,
        5,
        0,
    );
    assert_eq!(rejoin, Err(CustomError::InvalidState));
    assert_eq!(ledger.balance_of(pot), 0);
    assert_eq!(ledger.balance_of(1), 200);
}

#[test]
fn zero_length_secret_counts_as_zero() {
    let (mut store, mut ledger) = joined("", "x", 100);
    assert_eq!(do_reveal_p1(&mut store, "", 1), Ok(()));
    // lengths 0 + 1 = 1, odd: the second participant wins
    assert_eq!(do_reveal_p2(&mut store, &mut ledger, "x", 2), Ok(()));
    assert_eq!(ledger.balance_of(2), 200);
}

#[test]
fn longest_secrets_still_follow_parity() {
    let s1 = "abcdefghijklmnopqrstuvwxyz0123"; // 30 characters
    let s2 = "ABCDEFGHIJKLMNOPQRSTUVWXYZ4567"; // 30 characters
    let (mut store, mut ledger) = joined(s1, s2, 100);
    assert_eq!(do_reveal_p1(&mut store, s1, 1), Ok(()));
    // 30 + 30 = 60, even: the first participant wins
    assert_eq!(do_reveal_p2(&mut store, &mut ledger, s2, 2), Ok(()));
    assert_eq!(ledger.balance_of(1), 200);
}

#[test]
fn parity_counts_characters_not_bytes() {
    // "é" is one character of two UTF-8 bytes: 1 + 2 = 3, odd
    let (mut store, mut ledger) = joined("\u{e9}", "ab", 100);
    assert_eq!(do_reveal_p1(&mut store, "\u{e9}", 1), Ok(()));
    assert_eq!(do_reveal_p2(&mut store, &mut ledger, "ab", 2), Ok(()));
    assert_eq!(ledger.balance_of(2), 200);
}
