//! Per-account balances, kept in a storage hash map.
//!
//! A ledger maps caller identities to signed balances. An identity without an
//! entry reads as zero; an entry appears with the first increment for its
//! identity and is never removed.

use vstd::prelude::*;
use crate::account::AccountId;

verus! {

/// The balances of all accounts that have been incremented so far.
///
/// The entries live in an `ink_storage::collections::HashMap` keyed by the
/// identity's bytes. Verus does not look inside it: what it holds is named by
/// [`ledger_entries`], and the four private functions below say what the
/// map's own operations do to that content.
#[verifier::external_body]
pub struct AccountLedger {
    balances: ink_storage::collections::HashMap<[u8; 32], i32>,
}

/// The key/value pairs that the storage map of `ledger` holds.
pub uninterp spec fn ledger_entries(ledger: AccountLedger) -> Map<Seq<u8>, i32>;

impl View for AccountLedger {
    type V = Map<Seq<u8>, int>;

    /// The ledger as a mathematical map from identity bytes to balances.
    open spec fn view(&self) -> Map<Seq<u8>, int> {
        ledger_entries(*self).map_values(|balance: i32| balance as int)
    }
}

impl AccountLedger {
    /// The ledger holds finitely many entries, and no more than the storage
    /// map can count.
    pub open spec fn wf(&self) -> bool {
        &&& self@.dom().finite()
        &&& self@.len() <= u32::MAX
    }

    /// The balance that `id` reads as: its entry, or zero without one.
    pub open spec fn balance_of(&self, id: Seq<u8>) -> int {
        if self@.contains_key(id) {
            self@[id]
        } else {
            0
        }
    }

    /// Whether the ledger can take an entry for `id`: it has one already, or
    /// the storage map has room for one more.
    pub open spec fn has_room_for(&self, id: Seq<u8>) -> bool {
        self@.contains_key(id) || self@.len() < u32::MAX
    }

    /// Whether `increment(id, by)` is defined: the new balance fits in an
    /// `i32` and the ledger has room for the entry.
    pub open spec fn accepts(&self, id: Seq<u8>, by: int) -> bool {
        &&& i32::MIN <= self.balance_of(id) + by <= i32::MAX
        &&& self.has_room_for(id)
    }

    /// `ink_storage::collections::HashMap::new`: a map created this way is
    /// empty and lives in memory only.
    #[verifier::external_body]
    fn storage_new() -> (ledger: AccountLedger)
        ensures
            ledger_entries(ledger) == (Map::<Seq<u8>, i32>::empty()),
    {
        AccountLedger { balances: ink_storage::collections::HashMap::new() }
    }

    /// `ink_storage::collections::HashMap::get`: the value stored under the
    /// key, if there is one. The content of the map stays as it is.
    #[verifier::external_body]
    fn storage_get(&self, id: &AccountId) -> (found: Option<i32>)
        ensures
            found == if ledger_entries(*self).contains_key(id@) {
                Some(ledger_entries(*self)[id@])
            } else {
                None
            },
    {
        self.balances.get(&id.0).copied()
    }

    /// `ink_storage::collections::HashMap::len`: the number of key/value
    /// pairs in the map.
    #[verifier::external_body]
    fn storage_len(&self) -> (count: u32)
        requires
            ledger_entries(*self).dom().finite(),
            ledger_entries(*self).len() <= u32::MAX,
        ensures
            count == ledger_entries(*self).len(),
    {
        self.balances.len()
    }

    /// `ink_storage::collections::HashMap::insert`: stores the value under
    /// the key, replacing the value of an entry that exists, and returns the
    /// value that was there before. A new key takes a new slot, of which the
    /// map can count `u32::MAX`; the call is left out where none is free.
    #[verifier::external_body]
    fn storage_insert(&mut self, id: &AccountId, balance: i32) -> (previous: Option<i32>)
        requires
            ledger_entries(*old(self)).dom().finite(),
            ledger_entries(*old(self)).contains_key(id@) || ledger_entries(*old(self)).len()
                < u32::MAX,
        ensures
            ledger_entries(*final(self)) == ledger_entries(*old(self)).insert(id@, balance),
            previous == if ledger_entries(*old(self)).contains_key(id@) {
                Some(ledger_entries(*old(self))[id@])
            } else {
                None
            },
    {
        self.balances.insert(id.0, balance)
    }

    /// An empty ledger: every identity reads as zero.
    pub fn new() -> (ledger: AccountLedger)
        ensures
            ledger.wf(),
            ledger@ == (Map::<Seq<u8>, int>::empty()),
    {
        let ledger = AccountLedger::storage_new();
        assert(ledger@ =~= Map::<Seq<u8>, int>::empty());
        ledger
    }

    /// The balance stored for `id`, or zero if `id` has no entry.
    pub fn get_or_zero(&self, id: &AccountId) -> (balance: i32)
        ensures
            balance == self.balance_of(id@),
    {
        match self.storage_get(id) {
            Some(balance) => balance,
            None => 0,
        }
    }

    /// Whether [`AccountLedger::increment`] may be called with `id` and `by`.
    pub fn accepts_increment(&self, id: &AccountId, by: i32) -> (ok: bool)
        requires
            self.wf(),
        ensures
            ok == self.accepts(id@, by as int),
    {
        proof {
            self.lemma_view_domain();
        }
        let found = self.storage_get(id);
        let balance: i32 = match found {
            Some(balance) => balance,
            None => 0,
        };
        let fits = balance.checked_add(by).is_some();
        let room = found.is_some() || self.storage_len() < u32::MAX;
        fits && room
    }

    /// Adds `by` to the balance of `id`. An identity without an entry gets
    /// one that holds `by`; the entries of all other identities stay as they
    /// are, and none is removed.
    pub fn increment(&mut self, id: &AccountId, by: i32)
        requires
            old(self).wf(),
            old(self).accepts(id@, by as int),
        ensures
            final(self).wf(),
            final(self)@ == old(self)@.insert(id@, old(self).balance_of(id@) + by),
    {
        proof {
            self.lemma_view_domain();
        }
        let balance = self.get_or_zero(id);
        let _ = self.storage_insert(id, balance + by);
        proof {
            self.lemma_view_domain();
            assert(self@ =~= old(self)@.insert(id@, old(self).balance_of(id@) + by));
        }
    }

    /// The view has an entry exactly where the storage map has one.
    proof fn lemma_view_domain(&self)
        ensures
            self@.dom() == ledger_entries(*self).dom(),
    {
        assert(self@.dom() =~= ledger_entries(*self).dom());
    }

}

} // verus!
