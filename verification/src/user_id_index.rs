//! The index from user-supplied order ids to exchange order ids.
//!
//! Backed by a hash map of an outside crate; its contents are modelled by
//! the uninterpreted [`user_id_index_contents`] map, and each wrapped
//! method states what it does to those contents.

use vstd::prelude::*;

verus! {

/// Maps each non-default user order id of an active order to the exchange
/// order id it was assigned.
#[verifier::external_body]
pub struct UserIdIndex {
    map: hashbrown::HashMap<u64, u64>,
}

/// What the index holds: the finite map from user order id to exchange
/// order id.
pub uninterp spec fn user_id_index_contents(index: UserIdIndex) -> Map<u64, u64>;

impl UserIdIndex {
    /// Relies on hashbrown::HashMap::new: a fresh map holds nothing.
    #[verifier::external_body]
    pub fn new() -> (r: Self)
        ensures
            user_id_index_contents(r) =~= Map::empty(),
    {
        UserIdIndex { map: hashbrown::HashMap::new() }
    }

    /// Relies on hashbrown::HashMap::insert: afterwards the key maps to the
    /// value; the previous value at the key, if any, is returned.
    #[verifier::external_body]
    pub(crate) fn insert(&mut self, key: u64, value: u64) -> (r: Option<u64>)
        ensures
            user_id_index_contents(*final(self)) == user_id_index_contents(*old(self)).insert(
                key,
                value,
            ),
            r == (if user_id_index_contents(*old(self)).dom().contains(key) {
                Some(user_id_index_contents(*old(self))[key])
            } else {
                None::<u64>
            }),
    {
        self.map.insert(key, value)
    }

    /// Relies on hashbrown::HashMap::remove: afterwards the key maps to
    /// nothing; the value it mapped to, if any, is returned.
    #[verifier::external_body]
    pub(crate) fn remove(&mut self, key: u64) -> (r: Option<u64>)
        ensures
            user_id_index_contents(*final(self)) == user_id_index_contents(*old(self)).remove(key),
            r == (if user_id_index_contents(*old(self)).dom().contains(key) {
                Some(user_id_index_contents(*old(self))[key])
            } else {
                None::<u64>
            }),
    {
        self.map.remove(&key)
    }

    /// Relies on hashbrown::HashMap::get: returns the value the key maps
    /// to, if any.
    #[verifier::external_body]
    pub fn get(&self, key: u64) -> (r: Option<u64>)
        ensures
            r == (if user_id_index_contents(*self).dom().contains(key) {
                Some(user_id_index_contents(*self)[key])
            } else {
                None::<u64>
            }),
    {
        match self.map.get(&key) {
            Some(v) => Some(*v),
            None => None,
        }
    }
}

} // verus!
