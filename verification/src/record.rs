use vstd::prelude::*;

use crate::errors::CustomError;
use crate::hashing::{digests_equal, keccak256, keccak_of};

verus! {

broadcast use vstd::string::to_string_from_display_ensures_for_str;

/// Extra slots granted to the second revealer past `end_reveal`, since that
/// party can only act after the first reveal is visible.
pub const DEADLINE_EXTENSION: u64 = 10;

/// Where a lottery record stands. The state only ever advances:
/// `Init` to `RevealP1` to `RevealP2`.
#[derive(Clone, Copy, Debug, PartialEq, Eq, Structural)]
pub enum LotteryState {
    /// Created; neither secret revealed yet.
    Init,
    /// The first participant revealed a matching secret.
    RevealP1,
    /// Both secrets revealed; the game is settled.
    RevealP2,
}

/// The persistent state of one lottery instance between two participants.
///
/// `closed` records that the custodied stake has been paid out (by settlement
/// or by a timeout redemption); a closed record rejects every further
/// operation but is kept as an auditable terminal record.
#[derive(Debug)]
pub struct LotteryInfo {
    pub state: LotteryState,
    pub player1: u64,
    pub player2: u64,
    pub hashlock1: [u8; 32],
    pub secret1: String,
    pub hashlock2: [u8; 32],
    pub secret2: String,
    pub end_reveal: u64,
    pub closed: bool,
}

impl LotteryInfo {
    /// Well-formedness of an initialized record: the commitments differ, and
    /// each stored secret was only ever filled by a reveal that matched its
    /// commitment.
    pub open spec fn inv(self) -> bool {
        &&& self.hashlock1@ != self.hashlock2@
        &&& (self.state == LotteryState::Init ==> self.secret1@.len() == 0
            && self.secret2@.len() == 0)
        &&& (self.state == LotteryState::RevealP1 ==> keccak_of(self.secret1@)
            == self.hashlock1@ && self.secret2@.len() == 0)
        &&& (self.state == LotteryState::RevealP2 ==> keccak_of(self.secret1@)
            == self.hashlock1@ && keccak_of(self.secret2@) == self.hashlock2@)
    }

    /// The error a first reveal with this secret at this time runs into, if any.
    pub open spec fn reveal_p1_err(self, secret: Seq<char>, now: u64) -> Option<CustomError> {
        if self.closed || self.state != LotteryState::Init {
            Some(CustomError::InvalidState)
        } else if now >= self.end_reveal {
            Some(CustomError::TimeoutReached)
        } else if keccak_of(secret) != self.hashlock1@ {
            Some(CustomError::InvalidSecret)
        } else {
            None
        }
    }

    /// The error a second reveal with this secret at this time runs into, if any.
    pub open spec fn reveal_p2_err(self, secret: Seq<char>, now: u64) -> Option<CustomError> {
        if self.closed || self.state != LotteryState::RevealP1 {
            Some(CustomError::InvalidState)
        } else if now as int >= self.end_reveal as int + DEADLINE_EXTENSION as int {
            Some(CustomError::TimeoutReached)
        } else if keccak_of(secret) != self.hashlock2@ {
            Some(CustomError::InvalidSecret)
        } else {
            None
        }
    }

    /// The error a second-party redemption (first party silent) runs into, if any.
    pub open spec fn redeem_p1_silent_err(self, now: u64) -> Option<CustomError> {
        if self.closed || self.state != LotteryState::Init {
            Some(CustomError::InvalidState)
        } else if now <= self.end_reveal {
            Some(CustomError::TimeoutNotReached)
        } else {
            None
        }
    }

    /// The error a first-party redemption (second party silent) runs into, if any.
    pub open spec fn redeem_p2_silent_err(self, now: u64) -> Option<CustomError> {
        if self.closed || self.state != LotteryState::RevealP1 {
            Some(CustomError::InvalidState)
        } else if now as int <= self.end_reveal as int + DEADLINE_EXTENSION as int {
            Some(CustomError::TimeoutNotReached)
        } else {
            None
        }
    }

    /// The winner of a settled game: the first participant if the summed
    /// character count of the two revealed secrets is even, else the second.
    pub open spec fn spec_winner(self) -> u64 {
        if (self.secret1@.len() + self.secret2@.len()) % 2 == 0 {
            self.player1
        } else {
            self.player2
        }
    }

    /// A blank record, as allocated before `initialize` fills it in.
    pub fn new() -> (r: LotteryInfo)
        ensures
            r.state == LotteryState::Init,
            r.player1 == 0 && r.player2 == 0,
            r.hashlock1 == r.hashlock2,
            r.secret1@.len() == 0 && r.secret2@.len() == 0,
            r.end_reveal == 0,
            !r.closed,
    {
        let zero_digest: [u8; 32] = [0u8; 32];
        LotteryInfo {
            state: LotteryState::Init,
            player1: 0,
            player2: 0,
            hashlock1: zero_digest,
            secret1: String::new(),
            hashlock2: zero_digest,
            secret2: String::new(),
            end_reveal: 0,
            closed: false,
        }
    }

    /// Fills a fresh record: distinct commitments, identities, and a reveal
    /// deadline that must lie strictly in the future.
    pub fn initialize(
        &mut self,
        player1: u64,
        player2: u64,
        hashlock1: [u8; 32],
        hashlock2: [u8; 32],
        end_reveal: u64,
        now: u64,
    ) -> (r: Result<(), CustomError>)
        ensures
            match r {
                Ok(()) => hashlock1@ != hashlock2@ && now < end_reveal
                    && final(self).state == LotteryState::Init
                    && final(self).player1 == player1
                    && final(self).player2 == player2
                    && final(self).hashlock1 == hashlock1
                    && final(self).hashlock2 == hashlock2
                    && final(self).end_reveal == end_reveal
                    && final(self).secret1@.len() == 0
                    && final(self).secret2@.len() == 0
                    && !final(self).closed
                    && final(self).inv(),
                Err(e) => *final(self) == *old(self)
                    && (e == CustomError::TwoEqualHashes
                        || e == CustomError::InvalidTimeoutProvided)
                    && (e == CustomError::TwoEqualHashes <==> hashlock1@ == hashlock2@)
                    && (e == CustomError::InvalidTimeoutProvided
                        <==> hashlock1@ != hashlock2@ && now >= end_reveal),
            },
    {
        if digests_equal(&hashlock1, &hashlock2) {
            return Err(CustomError::TwoEqualHashes);
        }
        if now >= end_reveal {
            return Err(CustomError::InvalidTimeoutProvided);
        }
        self.state = LotteryState::Init;
        self.player1 = player1;
        self.player2 = player2;
        self.hashlock1 = hashlock1;
        self.hashlock2 = hashlock2;
        self.secret1 = String::new();
        self.secret2 = String::new();
        self.end_reveal = end_reveal;
        self.closed = false;
        Ok(())
    }

    /// First reveal: in `Init`, before `end_reveal`, with a secret whose
    /// digest equals the first commitment. Stores the secret and advances the
    /// state; on failure the record is untouched.
    pub fn reveal_p1(&mut self, secret: &str, now: u64) -> (r: Result<(), CustomError>)
        ensures
            match r {
                Ok(()) => old(self).reveal_p1_err(secret@, now) is None
                    && final(self).state == LotteryState::RevealP1
                    && final(self).secret1@ == secret@
                    && final(self).player1 == old(self).player1
                    && final(self).player2 == old(self).player2
                    && final(self).hashlock1 == old(self).hashlock1
                    && final(self).hashlock2 == old(self).hashlock2
                    && final(self).secret2 == old(self).secret2
                    && final(self).end_reveal == old(self).end_reveal
                    && final(self).closed == old(self).closed,
                Err(e) => *final(self) == *old(self)
                    && old(self).reveal_p1_err(secret@, now) == Some(e),
            },
    {
        if self.closed {
            return Err(CustomError::InvalidState);
        }
        if self.state != LotteryState::Init {
            return Err(CustomError::InvalidState);
        }
        if now >= self.end_reveal {
            return Err(CustomError::TimeoutReached);
        }
        let digest = keccak256(secret);
        if !digests_equal(&digest, &self.hashlock1) {
            return Err(CustomError::InvalidSecret);
        }
        self.secret1 = secret.to_string();
        self.state = LotteryState::RevealP1;
        Ok(())
    }

    /// Second reveal: in `RevealP1`, before `end_reveal + DEADLINE_EXTENSION`,
    /// with a secret whose digest equals the second commitment. Stores the
    /// secret and advances the state; on failure the record is untouched.
    /// Settlement of the stake is the caller's next step.
    pub fn reveal_p2(&mut self, secret: &str, now: u64) -> (r: Result<(), CustomError>)
        ensures
            match r {
                Ok(()) => old(self).reveal_p2_err(secret@, now) is None
                    && final(self).state == LotteryState::RevealP2
                    && final(self).secret2@ == secret@
                    && final(self).player1 == old(self).player1
                    && final(self).player2 == old(self).player2
                    && final(self).hashlock1 == old(self).hashlock1
                    && final(self).hashlock2 == old(self).hashlock2
                    && final(self).secret1 == old(self).secret1
                    && final(self).end_reveal == old(self).end_reveal
                    && final(self).closed == old(self).closed,
                Err(e) => *final(self) == *old(self)
                    && old(self).reveal_p2_err(secret@, now) == Some(e),
            },
    {
        if self.closed {
            return Err(CustomError::InvalidState);
        }
        if self.state != LotteryState::RevealP1 {
            return Err(CustomError::InvalidState);
        }
        let within_window = self.end_reveal <= u64::MAX - DEADLINE_EXTENSION
            && now < self.end_reveal + DEADLINE_EXTENSION
            || self.end_reveal > u64::MAX - DEADLINE_EXTENSION;
        if !within_window {
            return Err(CustomError::TimeoutReached);
        }
        let digest = keccak256(secret);
        if !digests_equal(&digest, &self.hashlock2) {
            return Err(CustomError::InvalidSecret);
        }
        self.secret2 = secret.to_string();
        self.state = LotteryState::RevealP2;
        Ok(())
    }

    /// The winner of a settled game, by the parity of the summed secret
    /// lengths: even picks the first participant, odd the second.
    pub fn get_winner(&self) -> (r: Result<u64, CustomError>)
        ensures
            match r {
                Ok(w) => self.state == LotteryState::RevealP2 && w == self.spec_winner(),
                Err(e) => self.state != LotteryState::RevealP2
                    && e == CustomError::InvalidState,
            },
    {
        if self.state != LotteryState::RevealP2 {
            return Err(CustomError::InvalidState);
        }
        let l1 = self.secret1.as_str().unicode_len();
        let l2 = self.secret2.as_str().unicode_len();
        proof {
            vstd::arithmetic::div_mod::lemma_add_mod_noop(l1 as int, l2 as int, 2);
        }
        if l1 % 2 == l2 % 2 {
            Ok(self.player1)
        } else {
            Ok(self.player2)
        }
    }

    /// Whether the second participant may redeem the stake because the first
    /// never revealed: still in `Init`, strictly past `end_reveal`.
    pub fn check_redeem_if_p1_no_reveal(&self, now: u64) -> (r: Result<(), CustomError>)
        ensures
            match r {
                Ok(()) => self.redeem_p1_silent_err(now) is None,
                Err(e) => self.redeem_p1_silent_err(now) == Some(e),
            },
    {
        if self.closed {
            return Err(CustomError::InvalidState);
        }
        if self.state != LotteryState::Init {
            return Err(CustomError::InvalidState);
        }
        if now <= self.end_reveal {
            return Err(CustomError::TimeoutNotReached);
        }
        Ok(())
    }

    /// Whether the first participant may redeem the stake because the second
    /// never revealed: in `RevealP1`, strictly past the extended deadline.
    pub fn check_redeem_if_p2_no_reveal(&self, now: u64) -> (r: Result<(), CustomError>)
        ensures
            match r {
                Ok(()) => self.redeem_p2_silent_err(now) is None,
                Err(e) => self.redeem_p2_silent_err(now) == Some(e),
            },
    {
        if self.closed {
            return Err(CustomError::InvalidState);
        }
        if self.state != LotteryState::RevealP1 {
            return Err(CustomError::InvalidState);
        }
        let past_window = self.end_reveal <= u64::MAX - DEADLINE_EXTENSION
            && now > self.end_reveal + DEADLINE_EXTENSION;
        if !past_window {
            return Err(CustomError::TimeoutNotReached);
        }
        Ok(())
    }
}

} // verus!
