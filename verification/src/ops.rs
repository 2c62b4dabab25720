use vstd::prelude::*;

use crate::errors::CustomError;
use crate::hashing::{digests_equal, keccak256};
use crate::ledger::Ledger;
use crate::record::{LotteryInfo, LotteryState, DEADLINE_EXTENSION};
use crate::store::{
    lemma_rec_of_at, lemma_remove_insert_is_update, lemma_update_rec_of, lemma_update_same,
    lemma_update_wf, pair_key, spec_pair_key, LotteryStore,
};

verus! {

/// The verified account set for `join`: both participants have authorized
/// the call (each identity here stands for a checked signature).
#[derive(Clone, Copy, Debug, PartialEq, Eq, Structural)]
pub struct JoinCtx {
    pub player1: u64,
    pub player2: u64,
}

/// The verified account set for `reveal_p1`: the first participant is the
/// authenticated caller.
#[derive(Clone, Copy, Debug, PartialEq, Eq, Structural)]
pub struct RevealP1Ctx {
    pub player1: u64,
    pub player2: u64,
}

/// The verified account set for `reveal_p2`: the second participant is the
/// authenticated caller.
#[derive(Clone, Copy, Debug, PartialEq, Eq, Structural)]
pub struct RevealP2Ctx {
    pub player1: u64,
    pub player2: u64,
}

/// The account set for the redemption open to the second participant. The
/// payout goes to the fixed second participant whoever triggers the call.
#[derive(Clone, Copy, Debug, PartialEq, Eq, Structural)]
pub struct RedeemIfP1NoRevealCtx {
    pub player1: u64,
    pub player2: u64,
}

/// The account set for the redemption open to the first participant. The
/// payout goes to the fixed first participant whoever triggers the call.
#[derive(Clone, Copy, Debug, PartialEq, Eq, Structural)]
pub struct RedeemIfP2NoRevealCtx {
    pub player1: u64,
    pub player2: u64,
}

/// An empty account set, kept for completeness; no operation consumes it.
#[derive(Clone, Copy, Debug, PartialEq, Eq, Structural)]
pub struct WinCtx {}

/// Whether the store holds the record of this pair, with the two identities
/// in these exact roles. (The degenerate pair of two `u64::MAX` identities
/// can never have been created.)
pub open spec fn record_found(store: LotteryStore, p1: u64, p2: u64) -> bool {
    &&& !(p1 == u64::MAX && p2 == u64::MAX)
    &&& store.has(spec_pair_key(p1, p2))
    &&& store.rec_of(spec_pair_key(p1, p2)).player1 == p1
    &&& store.rec_of(spec_pair_key(p1, p2)).player2 == p2
}

/// Two ledgers agree on every balance.
pub open spec fn same_balances(a: Ledger, b: Ledger) -> bool {
    forall|x: u128| #[trigger] a.bal(x) == b.bal(x)
}

/// A store's records agree except possibly at one custody address.
pub open spec fn same_records_except(s1: LotteryStore, s2: LotteryStore, k: u128) -> bool {
    forall|k2: u128|
        k2 != k ==> #[trigger] s2.has(k2) == s1.has(k2) && (s1.has(k2) ==> s2.rec_of(k2)
            == s1.rec_of(k2))
}

/// The error `join` runs into, if any, checked in this order: a deadline that
/// cannot be represented or is not in the future, equal commitments, an
/// already-existing record, a participant short of the stake, and a custody
/// account that the two stakes would overflow.
pub open spec fn join_err(
    store: LotteryStore,
    ledger: Ledger,
    ctx: JoinCtx,
    h1: Seq<u8>,
    h2: Seq<u8>,
    delay: u64,
    now: u64,
    amount: u64,
) -> Option<CustomError> {
    let k = spec_pair_key(ctx.player1, ctx.player2);
    let a1 = ctx.player1 as u128;
    let a2 = ctx.player2 as u128;
    if now + delay > u64::MAX {
        Some(CustomError::InvalidTimeoutProvided)
    } else if h1 == h2 {
        Some(CustomError::TwoEqualHashes)
    } else if delay == 0 {
        Some(CustomError::InvalidTimeoutProvided)
    } else if store.has(k) {
        Some(CustomError::InvalidState)
    } else if (if ctx.player1 == ctx.player2 {
        ledger.bal(a1) < 2 * amount
    } else {
        ledger.bal(a1) < amount || ledger.bal(a2) < amount
    }) {
        Some(CustomError::InsufficientFunds)
    } else if ledger.bal(k) + 2 * amount > u64::MAX {
        Some(CustomError::BalanceOverflow)
    } else {
        None
    }
}

/// The error the first-reveal operation runs into, if any: no record in these
/// roles, else whatever the record itself objects to.
pub open spec fn reveal_p1_op_err(
    store: LotteryStore,
    p1: u64,
    p2: u64,
    secret: Seq<char>,
    now: u64,
) -> Option<CustomError> {
    if !record_found(store, p1, p2) {
        Some(CustomError::InvalidState)
    } else {
        store.rec_of(spec_pair_key(p1, p2)).reveal_p1_err(secret, now)
    }
}

/// The error the second-reveal operation runs into, if any: no record in
/// these roles, an objection from the record, or a winner balance that the
/// payout would overflow.
pub open spec fn reveal_p2_op_err(
    store: LotteryStore,
    ledger: Ledger,
    p1: u64,
    p2: u64,
    secret: Seq<char>,
    now: u64,
) -> Option<CustomError> {
    let k = spec_pair_key(p1, p2);
    if !record_found(store, p1, p2) {
        Some(CustomError::InvalidState)
    } else if store.rec_of(k).reveal_p2_err(secret, now) is Some {
        store.rec_of(k).reveal_p2_err(secret, now)
    } else {
        let r0 = store.rec_of(k);
        let w = if (r0.secret1@.len() + secret.len()) % 2 == 0 {
            r0.player1
        } else {
            r0.player2
        };
        if ledger.bal(w as u128) + ledger.bal(k) > u64::MAX {
            Some(CustomError::BalanceOverflow)
        } else {
            None
        }
    }
}

/// The error the second participant's redemption runs into, if any.
pub open spec fn redeem_if_p1_no_reveal_err(
    store: LotteryStore,
    ledger: Ledger,
    p1: u64,
    p2: u64,
    now: u64,
) -> Option<CustomError> {
    let k = spec_pair_key(p1, p2);
    if !record_found(store, p1, p2) {
        Some(CustomError::InvalidState)
    } else if store.rec_of(k).redeem_p1_silent_err(now) is Some {
        store.rec_of(k).redeem_p1_silent_err(now)
    } else if ledger.bal(p2 as u128) + ledger.bal(k) > u64::MAX {
        Some(CustomError::BalanceOverflow)
    } else {
        None
    }
}

/// The error the first participant's redemption runs into, if any.
pub open spec fn redeem_if_p2_no_reveal_err(
    store: LotteryStore,
    ledger: Ledger,
    p1: u64,
    p2: u64,
    now: u64,
) -> Option<CustomError> {
    let k = spec_pair_key(p1, p2);
    if !record_found(store, p1, p2) {
        Some(CustomError::InvalidState)
    } else if store.rec_of(k).redeem_p2_silent_err(now) is Some {
        store.rec_of(k).redeem_p2_silent_err(now)
    } else if ledger.bal(p1 as u128) + ledger.bal(k) > u64::MAX {
        Some(CustomError::BalanceOverflow)
    } else {
        None
    }
}

/// First reveal against the stored record of this pair: validates state,
/// deadline and commitment, then stores the secret and advances the record.
/// No value moves. On failure nothing changes.
pub fn reveal_p1(
    store: &mut LotteryStore,
    ctx: RevealP1Ctx,
    secret: String,
    now: u64,
) -> (r: Result<(), CustomError>)
    requires
        old(store).wf(),
    ensures
        final(store).wf(),
        final(store).keys@ == old(store).keys@,
        same_records_except(*old(store), *final(store), spec_pair_key(ctx.player1, ctx.player2)),
        match r {
            Ok(()) => reveal_p1_op_err(*old(store), ctx.player1, ctx.player2, secret@, now)
                is None && ({
                let k = spec_pair_key(ctx.player1, ctx.player2);
                let r0 = old(store).rec_of(k);
                let rf = final(store).rec_of(k);
                &&& final(store).has(k)
                &&& rf.state == LotteryState::RevealP1
                &&& rf.secret1@ == secret@
                &&& rf.player1 == r0.player1
                &&& rf.player2 == r0.player2
                &&& rf.hashlock1 == r0.hashlock1
                &&& rf.hashlock2 == r0.hashlock2
                &&& rf.secret2 == r0.secret2
                &&& rf.end_reveal == r0.end_reveal
                &&& rf.closed == r0.closed
            }),
            Err(e) => Some(e) == reveal_p1_op_err(
                *old(store),
                ctx.player1,
                ctx.player2,
                secret@,
                now,
            ) && final(store).recs@ == old(store).recs@,
        },
{
    if ctx.player1 == u64::MAX && ctx.player2 == u64::MAX {
        return Err(CustomError::InvalidState);
    }
    let k = pair_key(ctx.player1, ctx.player2);
    let idx = match store.find(k) {
        Some(i) => i,
        None => {
            return Err(CustomError::InvalidState);
        },
    };
    proof {
        lemma_rec_of_at(*store, idx as int);
    }
    let mut rec = store.recs.remove(idx);
    if rec.player1 != ctx.player1 || rec.player2 != ctx.player2 {
        store.recs.insert(idx, rec);
        proof {
            lemma_remove_insert_is_update(old(store).recs@, idx as int, old(store).recs@[idx as int]);
            lemma_update_same(old(store).recs@, idx as int);
        }
        return Err(CustomError::InvalidState);
    }
    let res = rec.reveal_p1(secret.as_str(), now);
    store.recs.insert(idx, rec);
    proof {
        lemma_remove_insert_is_update(old(store).recs@, idx as int, store.recs@[idx as int]);
        lemma_update_wf(*old(store), *store, idx as int, store.recs@[idx as int]);
        lemma_update_rec_of(*old(store), *store, idx as int, store.recs@[idx as int]);
        if res is Err {
            lemma_update_same(old(store).recs@, idx as int);
        }
    }
    res
}

/// Creates the lottery for a pair: validates the deadline and the two
/// commitments, then atomically locks `amount` from each participant in the
/// pair's custody account and records the new game. On failure nothing
/// changes and no value moves.
pub fn join(
    store: &mut LotteryStore,
    ledger: &mut Ledger,
    ctx: JoinCtx,
    hashlock1: [u8; 32],
    hashlock2: [u8; 32],
    delay: u64,
    now: u64,
    amount: u64,
) -> (r: Result<(), CustomError>)
    requires
        old(store).wf(),
        !(ctx.player1 == u64::MAX && ctx.player2 == u64::MAX),
    ensures
        final(store).wf(),
        same_records_except(*old(store), *final(store), spec_pair_key(ctx.player1, ctx.player2)),
        match r {
            Ok(()) => join_err(
                *old(store),
                *old(ledger),
                ctx,
                hashlock1@,
                hashlock2@,
                delay,
                now,
                amount,
            ) is None && ({
                let k = spec_pair_key(ctx.player1, ctx.player2);
                let a1 = ctx.player1 as u128;
                let a2 = ctx.player2 as u128;
                let rf = final(store).rec_of(k);
                &&& final(store).keys@ == old(store).keys@.push(k)
                &&& final(store).has(k)
                &&& rf.state == LotteryState::Init
                &&& rf.player1 == ctx.player1
                &&& rf.player2 == ctx.player2
                &&& rf.hashlock1 == hashlock1
                &&& rf.hashlock2 == hashlock2
                &&& rf.secret1@.len() == 0
                &&& rf.secret2@.len() == 0
                &&& rf.end_reveal == now + delay
                &&& !rf.closed
                &&& final(ledger).bal(k) == old(ledger).bal(k) + 2 * amount
                &&& (ctx.player1 != ctx.player2 ==> final(ledger).bal(a1) == old(
                    ledger,
                ).bal(a1) - amount && final(ledger).bal(a2) == old(ledger).bal(a2) - amount)
                &&& (ctx.player1 == ctx.player2 ==> final(ledger).bal(a1) == old(
                    ledger,
                ).bal(a1) - 2 * amount)
                &&& forall|x: u128|
                    x != a1 && x != a2 && x != k ==> #[trigger] final(ledger).bal(x) == old(
                        ledger,
                    ).bal(x)
            }),
            Err(e) => Some(e) == join_err(
                *old(store),
                *old(ledger),
                ctx,
                hashlock1@,
                hashlock2@,
                delay,
                now,
                amount,
            ) && final(store).keys@ == old(store).keys@ && final(store).recs@ == old(
                store,
            ).recs@ && same_balances(*old(ledger), *final(ledger)),
        },
{
    let end_reveal = match now.checked_add(delay) {
        Some(v) => v,
        None => {
            return Err(CustomError::InvalidTimeoutProvided);
        },
    };
    let mut rec = LotteryInfo::new();
    match rec.initialize(ctx.player1, ctx.player2, hashlock1, hashlock2, end_reveal, now) {
        Ok(()) => (),
        Err(e) => {
            return Err(e);
        },
    }
    let k = pair_key(ctx.player1, ctx.player2);
    match store.find(k) {
        Some(_) => {
            return Err(CustomError::InvalidState);
        },
        None => (),
    }
    let a1 = ctx.player1 as u128;
    let a2 = ctx.player2 as u128;
    let b1 = ledger.balance_of(a1);
    if b1 < amount {
        return Err(CustomError::InsufficientFunds);
    }
    if ctx.player1 == ctx.player2 {
        if b1 - amount < amount {
            return Err(CustomError::InsufficientFunds);
        }
    } else {
        let b2 = ledger.balance_of(a2);
        if b2 < amount {
            return Err(CustomError::InsufficientFunds);
        }
    }
    let potb = ledger.balance_of(k);
    if (potb as u128) + (amount as u128) + (amount as u128) > (u64::MAX as u128) {
        return Err(CustomError::BalanceOverflow);
    }
    match ledger.transfer(a1, k, amount) {
        Ok(()) => (),
        Err(e) => {
            proof {
                assert(false);
            }
            return Err(e);
        },
    }
    match ledger.transfer(a2, k, amount) {
        Ok(()) => (),
        Err(e) => {
            proof {
                assert(false);
            }
            return Err(e);
        },
    }
    let inserted = store.insert_if_absent(k, rec);
    proof {
        assert(inserted);
        crate::store::lemma_push_rec_of(*old(store), *store, k, store.recs@.last());
    }
    Ok(())
}

/// Second reveal against the stored record of this pair: validates state,
/// extended deadline and commitment, then stores the secret, settles the game
/// and pays the whole custodied stake to the winner of the length-parity
/// rule, closing the record. On failure nothing changes and no value moves.
pub fn reveal_p2(
    store: &mut LotteryStore,
    ledger: &mut Ledger,
    ctx: RevealP2Ctx,
    secret: String,
    now: u64,
) -> (r: Result<(), CustomError>)
    requires
        old(store).wf(),
    ensures
        final(store).wf(),
        final(store).keys@ == old(store).keys@,
        same_records_except(*old(store), *final(store), spec_pair_key(ctx.player1, ctx.player2)),
        match r {
            Ok(()) => reveal_p2_op_err(
                *old(store),
                *old(ledger),
                ctx.player1,
                ctx.player2,
                secret@,
                now,
            ) is None && ({
                let k = spec_pair_key(ctx.player1, ctx.player2);
                let r0 = old(store).rec_of(k);
                let rf = final(store).rec_of(k);
                let w = if (r0.secret1@.len() + secret@.len()) % 2 == 0 {
                    r0.player1
                } else {
                    r0.player2
                };
                &&& final(store).has(k)
                &&& rf.state == LotteryState::RevealP2
                &&& rf.secret2@ == secret@
                &&& rf.secret1 == r0.secret1
                &&& rf.player1 == r0.player1
                &&& rf.player2 == r0.player2
                &&& rf.hashlock1 == r0.hashlock1
                &&& rf.hashlock2 == r0.hashlock2
                &&& rf.end_reveal == r0.end_reveal
                &&& rf.closed
                &&& (w == ctx.player1 || w == ctx.player2)
                &&& final(ledger).bal(k) == 0
                &&& final(ledger).bal(w as u128) == old(ledger).bal(w as u128) + old(
                    ledger,
                ).bal(k)
                &&& forall|x: u128|
                    x != k && x != w as u128 ==> #[trigger] final(ledger).bal(x) == old(
                        ledger,
                    ).bal(x)
            }),
            Err(e) => Some(e) == reveal_p2_op_err(
                *old(store),
                *old(ledger),
                ctx.player1,
                ctx.player2,
                secret@,
                now,
            ) && final(store).recs@ == old(store).recs@ && same_balances(
                *old(ledger),
                *final(ledger),
            ),
        },
{
    if ctx.player1 == u64::MAX && ctx.player2 == u64::MAX {
        return Err(CustomError::InvalidState);
    }
    let k = pair_key(ctx.player1, ctx.player2);
    let idx = match store.find(k) {
        Some(i) => i,
        None => {
            return Err(CustomError::InvalidState);
        },
    };
    proof {
        lemma_rec_of_at(*store, idx as int);
    }
    let mut rec = store.recs.remove(idx);
    let mut early: Option<CustomError> = None;
    if rec.player1 != ctx.player1 || rec.player2 != ctx.player2 {
        early = Some(CustomError::InvalidState);
    } else if rec.closed || rec.state != LotteryState::RevealP1 {
        early = Some(CustomError::InvalidState);
    } else {
        let within_window = rec.end_reveal <= u64::MAX - DEADLINE_EXTENSION
            && now < rec.end_reveal + DEADLINE_EXTENSION
            || rec.end_reveal > u64::MAX - DEADLINE_EXTENSION;
        if !within_window {
            early = Some(CustomError::TimeoutReached);
        } else {
            let digest = keccak256(secret.as_str());
            if !digests_equal(&digest, &rec.hashlock2) {
                early = Some(CustomError::InvalidSecret);
            }
        }
    }
    if early.is_none() {
        let l1 = rec.secret1.as_str().unicode_len();
        let l2 = secret.as_str().unicode_len();
        proof {
            vstd::arithmetic::div_mod::lemma_add_mod_noop(l1 as int, l2 as int, 2);
        }
        let winner = if l1 % 2 == l2 % 2 {
            rec.player1
        } else {
            rec.player2
        };
        let wb = ledger.balance_of(winner as u128);
        let potb = ledger.balance_of(k);
        if wb > u64::MAX - potb {
            early = Some(CustomError::BalanceOverflow);
        }
    }
    match early {
        Some(e) => {
            store.recs.insert(idx, rec);
            proof {
                lemma_remove_insert_is_update(
                    old(store).recs@,
                    idx as int,
                    old(store).recs@[idx as int],
                );
                lemma_update_same(old(store).recs@, idx as int);
            }
            return Err(e);
        },
        None => (),
    }
    match rec.reveal_p2(secret.as_str(), now) {
        Ok(()) => (),
        Err(e) => {
            proof {
                assert(false);
            }
            store.recs.insert(idx, rec);
            return Err(e);
        },
    }
    let winner = match rec.get_winner() {
        Ok(w) => w,
        Err(e) => {
            proof {
                assert(false);
            }
            store.recs.insert(idx, rec);
            return Err(e);
        },
    };
    proof {
        vstd::arithmetic::div_mod::lemma_add_mod_noop(
            rec.secret1@.len() as int,
            rec.secret2@.len() as int,
            2,
        );
    }
    let potb = ledger.balance_of(k);
    match ledger.transfer(k, winner as u128, potb) {
        Ok(()) => (),
        Err(e) => {
            proof {
                assert(false);
            }
            store.recs.insert(idx, rec);
            return Err(e);
        },
    }
    rec.closed = true;
    store.recs.insert(idx, rec);
    proof {
        lemma_remove_insert_is_update(old(store).recs@, idx as int, store.recs@[idx as int]);
        lemma_update_wf(*old(store), *store, idx as int, store.recs@[idx as int]);
        lemma_update_rec_of(*old(store), *store, idx as int, store.recs@[idx as int]);
    }
    Ok(())
}

/// Redemption for the second participant after the first never revealed:
/// past `end_reveal` with the record still in `Init`, the whole custodied
/// stake goes to the second participant and the record closes. The record's
/// state tag does not change. On failure nothing changes and no value moves.
pub fn redeem_if_p1_no_reveal(
    store: &mut LotteryStore,
    ledger: &mut Ledger,
    ctx: RedeemIfP1NoRevealCtx,
    now: u64,
) -> (r: Result<(), CustomError>)
    requires
        old(store).wf(),
    ensures
        final(store).wf(),
        final(store).keys@ == old(store).keys@,
        same_records_except(*old(store), *final(store), spec_pair_key(ctx.player1, ctx.player2)),
        match r {
            Ok(()) => redeem_if_p1_no_reveal_err(
                *old(store),
                *old(ledger),
                ctx.player1,
                ctx.player2,
                now,
            ) is None && ({
                let k = spec_pair_key(ctx.player1, ctx.player2);
                let r0 = old(store).rec_of(k);
                let rf = final(store).rec_of(k);
                let a2 = ctx.player2 as u128;
                &&& final(store).has(k)
                &&& rf.state == r0.state
                &&& rf.player1 == r0.player1
                &&& rf.player2 == r0.player2
                &&& rf.hashlock1 == r0.hashlock1
                &&& rf.hashlock2 == r0.hashlock2
                &&& rf.secret1 == r0.secret1
                &&& rf.secret2 == r0.secret2
                &&& rf.end_reveal == r0.end_reveal
                &&& rf.closed
                &&& final(ledger).bal(k) == 0
                &&& final(ledger).bal(a2) == old(ledger).bal(a2) + old(ledger).bal(k)
                &&& forall|x: u128|
                    x != k && x != a2 ==> #[trigger] final(ledger).bal(x) == old(ledger).bal(x)
            }),
            Err(e) => Some(e) == redeem_if_p1_no_reveal_err(
                *old(store),
                *old(ledger),
                ctx.player1,
                ctx.player2,
                now,
            ) && final(store).recs@ == old(store).recs@ && same_balances(
                *old(ledger),
                *final(ledger),
            ),
        },
{
    if ctx.player1 == u64::MAX && ctx.player2 == u64::MAX {
        return Err(CustomError::InvalidState);
    }
    let k = pair_key(ctx.player1, ctx.player2);
    let idx = match store.find(k) {
        Some(i) => i,
        None => {
            return Err(CustomError::InvalidState);
        },
    };
    proof {
        lemma_rec_of_at(*store, idx as int);
    }
    let mut rec = store.recs.remove(idx);
    let mut early: Option<CustomError> = None;
    if rec.player1 != ctx.player1 || rec.player2 != ctx.player2 {
        early = Some(CustomError::InvalidState);
    } else {
        match rec.check_redeem_if_p1_no_reveal(now) {
            Err(e) => {
                early = Some(e);
            },
            Ok(()) => {
                let wb = ledger.balance_of(ctx.player2 as u128);
                let potb = ledger.balance_of(k);
                if wb > u64::MAX - potb {
                    early = Some(CustomError::BalanceOverflow);
                }
            },
        }
    }
    match early {
        Some(e) => {
            store.recs.insert(idx, rec);
            proof {
                lemma_remove_insert_is_update(
                    old(store).recs@,
                    idx as int,
                    old(store).recs@[idx as int],
                );
                lemma_update_same(old(store).recs@, idx as int);
            }
            return Err(e);
        },
        None => (),
    }
    let potb = ledger.balance_of(k);
    match ledger.transfer(k, ctx.player2 as u128, potb) {
        Ok(()) => (),
        Err(e) => {
            proof {
                assert(false);
            }
            store.recs.insert(idx, rec);
            return Err(e);
        },
    }
    rec.closed = true;
    store.recs.insert(idx, rec);
    proof {
        lemma_remove_insert_is_update(old(store).recs@, idx as int, store.recs@[idx as int]);
        lemma_update_wf(*old(store), *store, idx as int, store.recs@[idx as int]);
        lemma_update_rec_of(*old(store), *store, idx as int, store.recs@[idx as int]);
    }
    Ok(())
}

/// Redemption for the first participant after the second never revealed:
/// past the extended deadline with the record still in `RevealP1`, the whole
/// custodied stake goes to the first participant and the record closes. The
/// record's state tag does not change. On failure nothing changes and no
/// value moves.
pub fn redeem_if_p2_no_reveal(
    store: &mut LotteryStore,
    ledger: &mut Ledger,
    ctx: RedeemIfP2NoRevealCtx,
    now: u64,
) -> (r: Result<(), CustomError>)
    requires
        old(store).wf(),
    ensures
        final(store).wf(),
        final(store).keys@ == old(store).keys@,
        same_records_except(*old(store), *final(store), spec_pair_key(ctx.player1, ctx.player2)),
        match r {
            Ok(()) => redeem_if_p2_no_reveal_err(
                *old(store),
                *old(ledger),
                ctx.player1,
                ctx.player2,
                now,
            ) is None && ({
                let k = spec_pair_key(ctx.player1, ctx.player2);
                let r0 = old(store).rec_of(k);
                let rf = final(store).rec_of(k);
                let a1 = ctx.player1 as u128;
                &&& final(store).has(k)
                &&& rf.state == r0.state
                &&& rf.player1 == r0.player1
                &&& rf.player2 == r0.player2
                &&& rf.hashlock1 == r0.hashlock1
                &&& rf.hashlock2 == r0.hashlock2
                &&& rf.secret1 == r0.secret1
                &&& rf.secret2 == r0.secret2
                &&& rf.end_reveal == r0.end_reveal
                &&& rf.closed
                &&& final(ledger).bal(k) == 0
                &&& final(ledger).bal(a1) == old(ledger).bal(a1) + old(ledger).bal(k)
                &&& forall|x: u128|
                    x != k && x != a1 ==> #[trigger] final(ledger).bal(x) == old(ledger).bal(x)
            }),
            Err(e) => Some(e) == redeem_if_p2_no_reveal_err(
                *old(store),
                *old(ledger),
                ctx.player1,
                ctx.player2,
                now,
            ) && final(store).recs@ == old(store).recs@ && same_balances(
                *old(ledger),
                *final(ledger),
            ),
        },
{
    if ctx.player1 == u64::MAX && ctx.player2 == u64::MAX {
        return Err(CustomError::InvalidState);
    }
    let k = pair_key(ctx.player1, ctx.player2);
    let idx = match store.find(k) {
        Some(i) => i,
        None => {
            return Err(CustomError::InvalidState);
        },
    };
    proof {
        lemma_rec_of_at(*store, idx as int);
    }
    let mut rec = store.recs.remove(idx);
    let mut early: Option<CustomError> = None;
    if rec.player1 != ctx.player1 || rec.player2 != ctx.player2 {
        early = Some(CustomError::InvalidState);
    } else {
        match rec.check_redeem_if_p2_no_reveal(now) {
            Err(e) => {
                early = Some(e);
            },
            Ok(()) => {
                let wb = ledger.balance_of(ctx.player1 as u128);
                let potb = ledger.balance_of(k);
                if wb > u64::MAX - potb {
                    early = Some(CustomError::BalanceOverflow);
                }
            },
        }
    }
    match early {
        Some(e) => {
            store.recs.insert(idx, rec);
            proof {
                lemma_remove_insert_is_update(
                    old(store).recs@,
                    idx as int,
                    old(store).recs@[idx as int],
                );
                lemma_update_same(old(store).recs@, idx as int);
            }
            return Err(e);
        },
        None => (),
    }
    let potb = ledger.balance_of(k);
    match ledger.transfer(k, ctx.player1 as u128, potb) {
        Ok(()) => (),
        Err(e) => {
            proof {
                assert(false);
            }
            store.recs.insert(idx, rec);
            return Err(e);
        },
    }
    rec.closed = true;
    store.recs.insert(idx, rec);
    proof {
        lemma_remove_insert_is_update(old(store).recs@, idx as int, store.recs@[idx as int]);
        lemma_update_wf(*old(store), *store, idx as int, store.recs@[idx as int]);
        lemma_update_rec_of(*old(store), *store, idx as int, store.recs@[idx as int]);
    }
    Ok(())
}

} // verus!
