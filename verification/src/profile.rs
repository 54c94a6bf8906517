//! The record kept for one participant, and the rules that apply to it.
//!
//! The rules are stated on a single record, or on the `Option` that a lookup
//! by account gives, so that they can be applied to whatever holds the
//! records: the in-memory [`Magink`](crate::Magink) ledger or a store of the
//! caller's own.

use vstd::prelude::*;

verus! {

/// Why a claim was turned down.
#[derive(Debug, PartialEq, Eq, Structural, Clone, Copy)]
pub enum Error {
    /// The current era has not elapsed yet.
    TooEarlyToClaim,
    /// The participant never started an era.
    UserNotFound,
}

/// What the ledger keeps for one participant.
#[derive(Debug, PartialEq, Eq, Structural, PartialOrd, Ord, Clone, Copy)]
pub struct Profile {
    /// Number of blocks that must pass between two claims.
    pub claim_era: u8,
    /// Block at which the current era began.
    pub start_block: u32,
    /// Number of badges claimed so far.
    pub badges_claimed: u8,
}

impl Profile {
    /// The profile of a participant who starts an era of `era` blocks at
    /// block `now`, with no badge to their name.
    pub open spec fn started(era: u8, now: u32) -> Profile {
        Profile { claim_era: era, start_block: now, badges_claimed: 0 }
    }

    /// Blocks still to wait at block `now` before the current era has
    /// elapsed; zero from then on.
    pub open spec fn remaining_at(self, now: u32) -> int {
        if now - self.start_block >= self.claim_era {
            0
        } else {
            self.claim_era - (now - self.start_block)
        }
    }

    /// Whether one more badge fits in the counter.
    pub open spec fn can_count_badge(self) -> bool {
        self.badges_claimed < u8::MAX
    }

    /// The profile after a claim at block `now`: one more badge, and a new
    /// era of the same length beginning at `now`.
    pub open spec fn claimed_at(self, now: u32) -> Profile
        recommends
            self.can_count_badge(),
    {
        Profile {
            claim_era: self.claim_era,
            start_block: now,
            badges_claimed: (self.badges_claimed + 1) as u8,
        }
    }

    /// Starts an era of `era` blocks at block `now`.
    pub fn begin(era: u8, now: u32) -> (profile: Profile)
        ensures
            profile == Profile::started(era, now),
    {
        Profile { claim_era: era, start_block: now, badges_claimed: 0 }
    }

    /// Blocks still to wait at block `now` before a badge can be claimed.
    ///
    /// Blocks only advance, so `now` must not lie before the start of the era.
    pub fn remaining(&self, now: u32) -> (blocks: u8)
        requires
            self.start_block <= now,
        ensures
            blocks == self.remaining_at(now),
    {
        let elapsed: u32 = now - self.start_block;
        if elapsed >= self.claim_era as u32 {
            0
        } else {
            self.claim_era - elapsed as u8
        }
    }

    /// Claims a badge at block `now`: turned down with
    /// [`Error::TooEarlyToClaim`] while the era is running, otherwise the
    /// profile with which the next era begins.
    pub fn claim(&self, now: u32) -> (outcome: Result<Profile, Error>)
        requires
            self.start_block <= now,
            self.remaining_at(now) == 0 ==> self.can_count_badge(),
        ensures
            outcome == if self.remaining_at(now) == 0 {
                Ok::<Profile, Error>(self.claimed_at(now))
            } else {
                Err::<Profile, Error>(Error::TooEarlyToClaim)
            },
    {
        if self.remaining(now) != 0 {
            return Err(Error::TooEarlyToClaim);
        }
        Ok(
            Profile {
                claim_era: self.claim_era,
                start_block: now,
                badges_claimed: self.badges_claimed + 1,
            },
        )
    }
}

/// No era of `entry` begins after block `now`. Blocks only advance, so this
/// holds of every record read at the current block.
pub open spec fn begun_by(entry: Option<Profile>, now: u32) -> bool {
    entry matches Some(profile) ==> profile.start_block <= now
}

/// A claim on `entry` at block `now` either is turned down or finds room for
/// one more badge in the counter.
pub open spec fn claim_fits(entry: Option<Profile>, now: u32) -> bool {
    entry matches Some(profile) ==> (profile.remaining_at(now) == 0
        ==> profile.can_count_badge())
}

/// Blocks that the owner of `entry` still has to wait at block `now`: none
/// without a profile.
pub open spec fn remaining_of(entry: Option<Profile>, now: u32) -> int {
    match entry {
        Some(profile) => profile.remaining_at(now),
        None => 0,
    }
}

/// Badges that the owner of `entry` has claimed: none without a profile.
pub open spec fn badges_of(entry: Option<Profile>) -> int {
    match entry {
        Some(profile) => profile.badges_claimed as int,
        None => 0,
    }
}

/// What a claim at block `now` by the owner of `entry` leads to: the profile
/// to store, or the reason why nothing changes.
pub open spec fn claim_outcome(entry: Option<Profile>, now: u32) -> Result<Profile, Error> {
    match entry {
        None => Err(Error::UserNotFound),
        Some(profile) => if profile.remaining_at(now) == 0 {
            Ok(profile.claimed_at(now))
        } else {
            Err(Error::TooEarlyToClaim)
        },
    }
}

/// Blocks that the owner of `entry` still has to wait at block `now`.
pub fn blocks_remaining(entry: Option<Profile>, now: u32) -> (blocks: u8)
    requires
        begun_by(entry, now),
    ensures
        blocks == remaining_of(entry, now),
{
    match entry {
        Some(profile) => profile.remaining(now),
        None => 0,
    }
}

/// Badges that the owner of `entry` has claimed.
pub fn badge_count(entry: Option<Profile>) -> (badges: u8)
    ensures
        badges == badges_of(entry),
{
    match entry {
        Some(profile) => profile.badges_claimed,
        None => 0,
    }
}

/// Decides a claim at block `now` by the owner of `entry`.
///
/// Without a profile the claim fails with [`Error::UserNotFound`]; while the
/// era is running, with [`Error::TooEarlyToClaim`]. Otherwise the result is
/// the profile to store in place of `entry`.
pub fn claim_badge(entry: Option<Profile>, now: u32) -> (outcome: Result<Profile, Error>)
    requires
        begun_by(entry, now),
        claim_fits(entry, now),
    ensures
        outcome == claim_outcome(entry, now),
{
    match entry {
        None => Err(Error::UserNotFound),
        Some(profile) => profile.claim(now),
    }
}

} // verus!
