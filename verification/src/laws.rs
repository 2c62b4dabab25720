use vstd::prelude::*;

use crate::errors::CustomError;
use crate::hashing::keccak_of;
use crate::ledger::Ledger;
use crate::ops::{
    join_err, record_found, redeem_if_p1_no_reveal_err, redeem_if_p2_no_reveal_err,
    reveal_p1_op_err, reveal_p2_op_err, JoinCtx,
};
use crate::record::{LotteryInfo, LotteryState, DEADLINE_EXTENSION};
use crate::store::{spec_pair_key, LotteryStore};

verus! {

/// Valid creations only: a `join` that succeeds had distinct commitments and
/// a deadline strictly in the future of the creation-time clock; any other
/// request fails (and, by `join`'s contract, moves no funds).
pub proof fn lemma_join_valid_creation(
    store: LotteryStore,
    ledger: Ledger,
    ctx: JoinCtx,
    h1: Seq<u8>,
    h2: Seq<u8>,
    delay: u64,
    now: u64,
    amount: u64,
)
    requires
        join_err(store, ledger, ctx, h1, h2, delay, now, amount) is None,
    ensures
        h1 != h2,
        delay >= 1,
        now + delay <= u64::MAX,
        now < now + delay,
{
}

/// A reveal whose secret does not hash to the stored commitment always fails
/// with the commitment-mismatch error, never any other way, whenever the
/// record and the clock would otherwise have accepted it. By the reveal
/// operations' contracts, the failed call leaves the record and the stored
/// secrets unchanged.
pub proof fn lemma_wrong_secret_rejected(r: LotteryInfo, secret: Seq<char>, now: u64)
    ensures
        !r.closed && r.state == LotteryState::Init && now < r.end_reveal && keccak_of(secret)
            != r.hashlock1@ ==> r.reveal_p1_err(secret, now) == Some(CustomError::InvalidSecret),
        !r.closed && r.state == LotteryState::RevealP1 && (now as int) < r.end_reveal as int
            + DEADLINE_EXTENSION as int && keccak_of(secret) != r.hashlock2@
            ==> r.reveal_p2_err(secret, now) == Some(CustomError::InvalidSecret),
{
}

/// Winner parity law: the first participant wins exactly when the summed
/// character count of the two revealed secrets is even, the second exactly
/// when it is odd — for every pair of secrets, the empty one included.
pub proof fn lemma_winner_parity(r: LotteryInfo)
    ensures
        (r.secret1@.len() + r.secret2@.len()) % 2 == 0 ==> r.spec_winner() == r.player1,
        (r.secret1@.len() + r.secret2@.len()) % 2 != 0 ==> r.spec_winner() == r.player2,
{
}

/// Timeout redemption is unreachable up to its deadline: with the record in
/// the state the redemption answers to, any attempt at `end_reveal` (or the
/// extended deadline) or earlier fails with `TimeoutNotReached`.
pub proof fn lemma_redeem_unreachable_before_deadline(r: LotteryInfo, now: u64)
    requires
        !r.closed,
    ensures
        r.state == LotteryState::Init && now <= r.end_reveal ==> r.redeem_p1_silent_err(now)
            == Some(CustomError::TimeoutNotReached),
        r.state == LotteryState::RevealP1 && now as int <= r.end_reveal as int
            + DEADLINE_EXTENSION as int ==> r.redeem_p2_silent_err(now) == Some(
            CustomError::TimeoutNotReached,
        ),
{
}

/// A closed record turns every further operation away with `InvalidState`:
/// both reveals and both redemptions, at every clock value and for every
/// secret.
pub proof fn lemma_closed_record_rejects_all(r: LotteryInfo, secret: Seq<char>, now: u64)
    requires
        r.closed,
    ensures
        r.reveal_p1_err(secret, now) == Some(CustomError::InvalidState),
        r.reveal_p2_err(secret, now) == Some(CustomError::InvalidState),
        r.redeem_p1_silent_err(now) == Some(CustomError::InvalidState),
        r.redeem_p2_silent_err(now) == Some(CustomError::InvalidState),
{
}

/// No double payout: once a pair's record is closed — as every payout leaves
/// it — each of the five operations on that pair fails with `InvalidState`
/// (`join` because the record exists at all), and by the operations'
/// contracts a failed call changes no record and moves no value, so the
/// custodied balance stays where the payout left it: at zero.
pub proof fn lemma_no_double_payout(
    store: LotteryStore,
    ledger: Ledger,
    p1: u64,
    p2: u64,
    h1: Seq<u8>,
    h2: Seq<u8>,
    delay: u64,
    amount: u64,
    secret: Seq<char>,
    now: u64,
)
    requires
        record_found(store, p1, p2),
        store.rec_of(spec_pair_key(p1, p2)).closed,
    ensures
        reveal_p1_op_err(store, p1, p2, secret, now) == Some(CustomError::InvalidState),
        reveal_p2_op_err(store, ledger, p1, p2, secret, now) == Some(CustomError::InvalidState),
        redeem_if_p1_no_reveal_err(store, ledger, p1, p2, now) == Some(CustomError::InvalidState),
        redeem_if_p2_no_reveal_err(store, ledger, p1, p2, now) == Some(CustomError::InvalidState),
        join_err(store, ledger, JoinCtx { player1: p1, player2: p2 }, h1, h2, delay, now, amount)
            is Some,
{
    let k = spec_pair_key(p1, p2);
    lemma_closed_record_rejects_all(store.rec_of(k), secret, now);
}

} // verus!
