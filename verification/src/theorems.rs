//! What holds of every ledger, stated over the maps and rules that the
//! contracts of [`Magink`](crate::Magink) speak of.

use vstd::prelude::*;
use crate::account::AccountId;
use crate::ledger::badges_in;
use crate::ledger::claim_result;
use crate::ledger::claimed;
use crate::ledger::entry_of;
use crate::ledger::remaining_in;
use crate::ledger::settled_by;
use crate::ledger::started;
use crate::profile::Error;
use crate::profile::Profile;
use crate::profile::begun_by;
use crate::profile::claim_fits;

verus! {

/// An account that never started an era has no profile, nothing to wait for
/// and no badge, and its claim is turned down with `UserNotFound` without
/// changing the ledger.
pub proof fn unknown_account_has_nothing(
    ledger: Map<AccountId, Profile>,
    account: AccountId,
    now: u32,
)
    requires
        !ledger.contains_key(account),
    ensures
        entry_of(ledger, account) is None,
        remaining_in(ledger, account, now) == 0,
        badges_in(ledger, account) == 0,
        claim_result(ledger, account, now) == Err::<(), Error>(Error::UserNotFound),
        claimed(ledger, account, now) == ledger,
{
}

/// After an account has started an era of `era` blocks at block `begin`, it
/// has `era` blocks to wait at that block, one block less with every block
/// that passes, and none once `era` blocks have passed.
pub proof fn wait_counts_down_after_start(
    ledger: Map<AccountId, Profile>,
    account: AccountId,
    era: u8,
    begin: u32,
    now: u32,
)
    requires
        begin <= now,
    ensures
        remaining_in(started(ledger, account, era, begin), account, begin) == era,
        now - begin < era ==> remaining_in(started(ledger, account, era, begin), account, now)
            == era - (now - begin),
        now - begin >= era ==> remaining_in(started(ledger, account, era, begin), account, now)
            == 0,
{
}

/// A claim succeeds exactly when the caller has a profile and nothing left to
/// wait for, and a claim that is turned down leaves the ledger as it was.
pub proof fn claim_succeeds_exactly_when_due(
    ledger: Map<AccountId, Profile>,
    caller: AccountId,
    now: u32,
)
    ensures
        claim_result(ledger, caller, now) is Ok <==> ledger.contains_key(caller) && remaining_in(
            ledger,
            caller,
            now,
        ) == 0,
        claim_result(ledger, caller, now) == Err::<(), Error>(Error::UserNotFound)
            <==> !ledger.contains_key(caller),
        claim_result(ledger, caller, now) == Err::<(), Error>(Error::TooEarlyToClaim)
            <==> ledger.contains_key(caller) && remaining_in(ledger, caller, now) != 0,
        claim_result(ledger, caller, now) is Err ==> claimed(ledger, caller, now) == ledger,
{
}

/// A successful claim at block `now` adds exactly one badge and begins an
/// era of the same length at `now`, so that the whole era is to wait again.
pub proof fn claim_awards_one_badge_and_restarts(
    ledger: Map<AccountId, Profile>,
    caller: AccountId,
    now: u32,
)
    requires
        claim_fits(entry_of(ledger, caller), now),
        claim_result(ledger, caller, now) is Ok,
    ensures
        claimed(ledger, caller, now).contains_key(caller),
        claimed(ledger, caller, now)[caller].badges_claimed == ledger[caller].badges_claimed + 1,
        claimed(ledger, caller, now)[caller].claim_era == ledger[caller].claim_era,
        claimed(ledger, caller, now)[caller].start_block == now,
        remaining_in(claimed(ledger, caller, now), caller, now) == ledger[caller].claim_era,
{
}

/// No claim, whether it succeeds or not, takes a badge away.
pub proof fn claim_keeps_badges(ledger: Map<AccountId, Profile>, caller: AccountId, now: u32)
    requires
        claim_fits(entry_of(ledger, caller), now),
    ensures
        badges_in(claimed(ledger, caller, now), caller) >= badges_in(ledger, caller),
{
}

/// Starting an era leaves the caller without badges, however many the
/// profile that it replaces had counted.
pub proof fn start_forgets_badges(
    ledger: Map<AccountId, Profile>,
    caller: AccountId,
    era: u8,
    now: u32,
)
    ensures
        started(ledger, caller, era, now).contains_key(caller),
        badges_in(started(ledger, caller, era, now), caller) == 0,
        entry_of(started(ledger, caller, era, now), caller) == Some(Profile::started(era, now)),
{
}

/// What the caller does to their own profile shows in no other account:
/// after the caller's start or claim, the profile of `other`, the blocks it
/// has to wait at any block `at` and its badges are what they were.
pub proof fn other_accounts_are_untouched(
    ledger: Map<AccountId, Profile>,
    caller: AccountId,
    other: AccountId,
    era: u8,
    now: u32,
    at: u32,
)
    requires
        other != caller,
    ensures
        entry_of(started(ledger, caller, era, now), other) == entry_of(ledger, other),
        remaining_in(started(ledger, caller, era, now), other, at) == remaining_in(
            ledger,
            other,
            at,
        ),
        badges_in(started(ledger, caller, era, now), other) == badges_in(ledger, other),
        entry_of(claimed(ledger, caller, now), other) == entry_of(ledger, other),
        remaining_in(claimed(ledger, caller, now), other, at) == remaining_in(ledger, other, at),
        badges_in(claimed(ledger, caller, now), other) == badges_in(ledger, other),
{
}

/// What is asked about an account depends on the profile of that account
/// alone: two ledgers that agree on it give the same answers, whatever they
/// hold for the one who asks or for anyone else.
pub proof fn answers_depend_on_the_account_asked_about(
    ledger: Map<AccountId, Profile>,
    another: Map<AccountId, Profile>,
    account: AccountId,
    at: u32,
)
    requires
        entry_of(ledger, account) == entry_of(another, account),
    ensures
        remaining_in(ledger, account, at) == remaining_in(another, account, at),
        badges_in(ledger, account) == badges_in(another, account),
{
}

/// Profiles come into being by a start and in no other way, and none is
/// ever removed: after a start the ledger holds a profile for the caller and
/// for whoever had one, after a claim for exactly those who had one.
pub proof fn only_start_creates_profiles(
    ledger: Map<AccountId, Profile>,
    caller: AccountId,
    account: AccountId,
    era: u8,
    now: u32,
)
    ensures
        started(ledger, caller, era, now).contains_key(account) <==> account == caller
            || ledger.contains_key(account),
        claimed(ledger, caller, now).contains_key(account) <==> ledger.contains_key(account),
{
}

/// Blocks only advance: in a ledger where no era begins after block `now`,
/// none does after a start or a claim at `now` either, nor at any later
/// block.
pub proof fn eras_begin_in_the_past(
    ledger: Map<AccountId, Profile>,
    caller: AccountId,
    era: u8,
    now: u32,
    later: u32,
)
    requires
        settled_by(ledger, now),
        now <= later,
    ensures
        settled_by(ledger, later),
        settled_by(started(ledger, caller, era, now), later),
        settled_by(claimed(ledger, caller, now), later),
{
    assert forall|account: AccountId|
        begun_by(
            #[trigger] entry_of(started(ledger, caller, era, now), account),
            later,
        ) by {
        assert(begun_by(entry_of(ledger, account), now));
    }
    assert forall|account: AccountId|
        begun_by(
            #[trigger] entry_of(claimed(ledger, caller, now), account),
            later,
        ) by {
        assert(begun_by(entry_of(ledger, account), now));
    }
}

} // verus!
