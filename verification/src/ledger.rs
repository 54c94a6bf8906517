//! The ledger: one profile per account that ever started an era.

use vstd::prelude::*;
use crate::account::AccountId;
use crate::profile::Error;
use crate::profile::Profile;
use crate::profile::badge_count;
use crate::profile::badges_of;
use crate::profile::begun_by;
use crate::profile::blocks_remaining;
use crate::profile::claim_badge;
use crate::profile::claim_fits;
use crate::profile::claim_outcome;
use crate::profile::remaining_of;

verus! {

/// The profile that `ledger` holds for `account`, if any.
pub open spec fn entry_of(ledger: Map<AccountId, Profile>, account: AccountId) -> Option<Profile> {
    if ledger.contains_key(account) {
        Some(ledger[account])
    } else {
        None
    }
}

/// Blocks that `account` still has to wait at block `now` before claiming:
/// none without a profile.
pub open spec fn remaining_in(ledger: Map<AccountId, Profile>, account: AccountId, now: u32) -> int {
    remaining_of(entry_of(ledger, account), now)
}

/// Badges that `account` has claimed: none without a profile.
pub open spec fn badges_in(ledger: Map<AccountId, Profile>, account: AccountId) -> int {
    badges_of(entry_of(ledger, account))
}

/// No era in `ledger` begins after block `now`.
pub open spec fn settled_by(ledger: Map<AccountId, Profile>, now: u32) -> bool {
    forall|account: AccountId| begun_by(#[trigger] entry_of(ledger, account), now)
}

/// The ledger after `caller` has started an era of `era` blocks at block
/// `now`: whatever it held for `caller` is replaced.
pub open spec fn started(
    ledger: Map<AccountId, Profile>,
    caller: AccountId,
    era: u8,
    now: u32,
) -> Map<AccountId, Profile> {
    ledger.insert(caller, Profile::started(era, now))
}

/// The ledger after `caller` has tried to claim a badge at block `now`:
/// unchanged where the claim is turned down.
pub open spec fn claimed(ledger: Map<AccountId, Profile>, caller: AccountId, now: u32) -> Map<
    AccountId,
    Profile,
> {
    match claim_outcome(entry_of(ledger, caller), now) {
        Ok(profile) => ledger.insert(caller, profile),
        Err(_) => ledger,
    }
}

/// What `caller` is told on trying to claim a badge at block `now`.
pub open spec fn claim_result(ledger: Map<AccountId, Profile>, caller: AccountId, now: u32) -> Result<
    (),
    Error,
> {
    match claim_outcome(entry_of(ledger, caller), now) {
        Ok(_) => Ok(()),
        Err(error) => Err(error),
    }
}

/// One account with its profile.
struct Entry {
    account: AccountId,
    profile: Profile,
}

/// The badge ledger. Its view is the map from each account that has started
/// an era to that account's profile.
pub struct Magink {
    user: Vec<Entry>,
}

/// No account occurs twice among `entries`.
spec fn distinct(entries: Seq<Entry>) -> bool {
    forall|i: int, j: int|
        0 <= i < entries.len() && 0 <= j < entries.len() && entries[i].account
            == entries[j].account ==> i == j
}

/// Whether `entries[i]` belongs to `account`.
spec fn found_at(entries: Seq<Entry>, account: AccountId, i: int) -> bool {
    0 <= i < entries.len() && entries[i].account == account
}

/// The map from each account among `entries` to the profile that stands
/// with it.
spec fn ledger_of(entries: Seq<Entry>) -> Map<AccountId, Profile> {
    Map::new(
        |account: AccountId| exists|i: int| found_at(entries, account, i),
        |account: AccountId| entries[choose|i: int| found_at(entries, account, i)].profile,
    )
}

/// Where no account occurs twice, the map holds for the account of each
/// entry the profile of that entry.
proof fn lemma_entry_is_mapped(entries: Seq<Entry>, i: int)
    requires
        distinct(entries),
        0 <= i < entries.len(),
    ensures
        ledger_of(entries).contains_key(entries[i].account),
        ledger_of(entries)[entries[i].account] == entries[i].profile,
{
    assert(found_at(entries, entries[i].account, i));
}

/// Giving the entry at `i` another profile keeps the accounts apart and
/// changes the map at that entry's account only.
proof fn lemma_replace(entries: Seq<Entry>, i: int, profile: Profile)
    requires
        distinct(entries),
        0 <= i < entries.len(),
    ensures
        distinct(entries.update(i, Entry { account: entries[i].account, profile })),
        ledger_of(entries.update(i, Entry { account: entries[i].account, profile }))
            == ledger_of(entries).insert(entries[i].account, profile),
{
    let account = entries[i].account;
    let changed = entries.update(i, Entry { account, profile });
    let expected = ledger_of(entries).insert(account, profile);
    assert forall|j: int| 0 <= j < entries.len() implies #[trigger] changed[j].account
        == entries[j].account by {}
    assert(distinct(changed));
    assert forall|k: AccountId| ledger_of(changed).contains_key(k) == expected.contains_key(k) by {
        if ledger_of(changed).contains_key(k) {
            let j = choose|j: int| found_at(changed, k, j);
            assert(found_at(entries, k, j));
        }
        if ledger_of(entries).contains_key(k) {
            let j = choose|j: int| found_at(entries, k, j);
            assert(found_at(changed, k, j));
        }
        if k == account {
            assert(found_at(changed, k, i));
        }
    }
    assert forall|k: AccountId| ledger_of(changed).contains_key(k) implies ledger_of(changed)[k]
        == expected[k] by {
        let j = choose|j: int| found_at(changed, k, j);
        if j != i {
            lemma_entry_is_mapped(entries, j);
        }
    }
    assert(ledger_of(changed) =~= expected);
}

/// Appending an entry for an account that has none keeps the accounts apart
/// and adds that entry to the map.
proof fn lemma_append(entries: Seq<Entry>, entry: Entry)
    requires
        distinct(entries),
        !ledger_of(entries).contains_key(entry.account),
    ensures
        distinct(entries.push(entry)),
        ledger_of(entries.push(entry)) == ledger_of(entries).insert(
            entry.account,
            entry.profile,
        ),
{
    let longer = entries.push(entry);
    let expected = ledger_of(entries).insert(entry.account, entry.profile);
    let last = entries.len() as int;
    assert forall|j: int| 0 <= j < entries.len() implies #[trigger] entries[j].account
        != entry.account by {
        assert(found_at(entries, entries[j].account, j));
    }
    assert(distinct(longer));
    assert forall|k: AccountId| ledger_of(longer).contains_key(k) == expected.contains_key(k) by {
        if ledger_of(longer).contains_key(k) {
            let j = choose|j: int| found_at(longer, k, j);
            if j != last {
                assert(found_at(entries, k, j));
            }
        }
        if ledger_of(entries).contains_key(k) {
            let j = choose|j: int| found_at(entries, k, j);
            assert(found_at(longer, k, j));
        }
        if k == entry.account {
            assert(found_at(longer, k, last));
        }
    }
    assert forall|k: AccountId| ledger_of(longer).contains_key(k) implies ledger_of(longer)[k]
        == expected[k] by {
        let j = choose|j: int| found_at(longer, k, j);
        if j != last {
            lemma_entry_is_mapped(entries, j);
        }
    }
    assert(ledger_of(longer) =~= expected);
}

impl View for Magink {
    type V = Map<AccountId, Profile>;

    closed spec fn view(&self) -> Map<AccountId, Profile> {
        ledger_of(self.user@)
    }
}

impl Magink {
    /// No account occurs twice.
    #[verifier::type_invariant]
    spec fn well_formed(self) -> bool {
        distinct(self.user@)
    }

    /// Creates an empty ledger.
    pub fn new() -> (ledger: Magink)
        ensures
            ledger@ == Map::<AccountId, Profile>::empty(),
    {
        let ledger = Magink { user: Vec::new() };
        assert(ledger@ =~= Map::<AccountId, Profile>::empty());
        ledger
    }

    /// Looks `account` up: the index of its entry, if it has one.
    fn find(&self, account: &AccountId) -> (place: Option<usize>)
        ensures
            match place {
                Some(i) => i < self.user@.len() && self.user@[i as int].account == *account
                    && self@.contains_key(*account) && self@[*account]
                    == self.user@[i as int].profile,
                None => !self@.contains_key(*account),
            },
    {
        proof {
            use_type_invariant(self);
        }
        let mut i: usize = 0;
        while i < self.user.len()
            invariant
                i <= self.user@.len(),
                distinct(self.user@),
                forall|j: int| 0 <= j < i ==> self.user@[j].account != *account,
            decreases self.user@.len() - i,
        {
            if self.user[i].account == *account {
                proof {
                    lemma_entry_is_mapped(self.user@, i as int);
                }
                return Some(i);
            }
            i += 1;
        }
        None
    }

    /// Stores `profile` for `account`, in place of what was held for it.
    fn put(&mut self, account: AccountId, profile: Profile)
        ensures
            final(self)@ == old(self)@.insert(account, profile),
    {
        proof {
            use_type_invariant(&*self);
        }
        let place = self.find(&account);
        let mut user: Vec<Entry> = Vec::new();
        std::mem::swap(&mut user, &mut self.user);
        match place {
            Some(i) => {
                proof {
                    lemma_replace(user@, i as int, profile);
                }
                user[i] = Entry { account, profile };
            },
            None => {
                proof {
                    lemma_append(user@, Entry { account, profile });
                }
                user.push(Entry { account, profile });
            },
        }
        self.user = user;
    }

    /// (Re)starts the era of `caller` at block `now`, with `era` blocks to
    /// wait before each claim. A profile that `caller` already had is
    /// replaced, the badges it counted included.
    pub fn start(&mut self, caller: AccountId, era: u8, now: u32)
        ensures
            final(self)@ == started(old(self)@, caller, era, now),
    {
        self.put(caller, Profile::begin(era, now));
    }

    /// Claims a badge for `caller` at block `now`.
    ///
    /// Fails with [`Error::UserNotFound`] where `caller` never started an
    /// era, and with [`Error::TooEarlyToClaim`] while blocks remain in the
    /// current one; the ledger is then left as it was. On success `caller`
    /// has one more badge and the next era, of the same length, begins at
    /// `now`. No other account is touched either way.
    pub fn claim(&mut self, caller: AccountId, now: u32) -> (result: Result<(), Error>)
        requires
            begun_by(entry_of(old(self)@, caller), now),
            claim_fits(entry_of(old(self)@, caller), now),
        ensures
            result == claim_result(old(self)@, caller, now),
            final(self)@ == claimed(old(self)@, caller, now),
    {
        match claim_badge(self.get_profile(caller), now) {
            Ok(profile) => {
                self.put(caller, profile);
                Ok(())
            },
            Err(error) => Err(error),
        }
    }

    /// Blocks that `caller` still has to wait at block `now` before claiming:
    /// zero once the era has elapsed, and zero without a profile.
    pub fn get_remaining(&self, caller: AccountId, now: u32) -> (blocks: u8)
        requires
            begun_by(entry_of(self@, caller), now),
        ensures
            blocks == remaining_in(self@, caller, now),
    {
        blocks_remaining(self.get_profile(caller), now)
    }

    /// Blocks that `account` still has to wait at block `now` before
    /// claiming. Anyone may ask this of any account.
    pub fn get_remaining_for(&self, account: AccountId, now: u32) -> (blocks: u8)
        requires
            begun_by(entry_of(self@, account), now),
        ensures
            blocks == remaining_in(self@, account, now),
    {
        blocks_remaining(self.get_account_profile(account), now)
    }

    /// The profile of `account`, or `None` where it never started an era.
    pub fn get_account_profile(&self, account: AccountId) -> (profile: Option<Profile>)
        ensures
            profile == entry_of(self@, account),
    {
        match self.find(&account) {
            Some(i) => Some(self.user[i].profile),
            None => None,
        }
    }

    /// The profile of `caller`, or `None` where they never started an era.
    pub fn get_profile(&self, caller: AccountId) -> (profile: Option<Profile>)
        ensures
            profile == entry_of(self@, caller),
    {
        self.get_account_profile(caller)
    }

    /// Badges that `caller` has claimed: zero without a profile.
    pub fn get_badges(&self, caller: AccountId) -> (badges: u8)
        ensures
            badges == badges_in(self@, caller),
    {
        badge_count(self.get_profile(caller))
    }

    /// Badges that `account` has claimed: zero without a profile. Anyone may
    /// ask this of any account.
    pub fn get_badges_for(&self, account: AccountId) -> (badges: u8)
        ensures
            badges == badges_in(self@, account),
    {
        badge_count(self.get_account_profile(account))
    }
}

} // verus!
