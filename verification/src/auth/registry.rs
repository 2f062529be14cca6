//! The two maps of the manager: `dashmap::DashMap`, with what each call does to its contents.
//!
//! `DashMap` changes through shared references. Here a change always goes through an exclusive
//! one, so what a map holds depends on nothing but the calls that were made on it.

use crate::auth::role::UserRole;
use crate::ids::UserId;
use dashmap::DashMap;
use vstd::prelude::*;

verus! {

/// A concurrent map.
#[verifier::external_type_specification]
#[verifier::external_body]
#[verifier::reject_recursive_types(K)]
#[verifier::reject_recursive_types(V)]
#[verifier::reject_recursive_types(S)]
pub struct ExDashMap<K, V, S>(dashmap::DashMap<K, V, S>);

/// A resolved user identity.
#[derive(Debug)]
pub struct UserIdentity {
    /// OpenFang user ID.
    pub id: UserId,
    /// Display name.
    pub name: String,
    /// Role.
    pub role: UserRole,
}

/// What an identity holds.
pub struct IdentityView {
    pub id: UserId,
    pub name: Seq<char>,
    pub role: UserRole,
}

impl View for UserIdentity {
    type V = IdentityView;

    open spec fn view(&self) -> IdentityView {
        IdentityView { id: self.id, name: self.name@, role: self.role }
    }
}

impl Clone for UserIdentity {
    fn clone(&self) -> (r: Self)
        ensures
            r@ == self@,
    {
        UserIdentity { id: self.id, name: self.name.clone(), role: self.role }
    }
}

/// What an optional identity holds.
pub open spec fn optional_identity(identity: Option<UserIdentity>) -> Option<IdentityView> {
    match identity {
        Some(i) => Some(i@),
        None => None,
    }
}

/// The identities that a map holds, by the bits of their user ids.
pub uninterp spec fn users_in(map: DashMap<u128, UserIdentity>) -> Map<u128, IdentityView>;

/// The user ids that a map holds, by channel key.
pub uninterp spec fn channels_in(map: DashMap<String, u128>) -> Map<Seq<char>, u128>;

/// The entry of a map, if it has one.
pub open spec fn entry_of<K, V>(map: Map<K, V>, key: K) -> Option<V> {
    if map.contains_key(key) {
        Some(map[key])
    } else {
        None
    }
}

/// Whether a map has no entry.
pub open spec fn is_vacant<K, V>(map: Map<K, V>) -> bool {
    map == Map::<K, V>::empty()
}

/// Whether a map has exactly `n` entries.
pub open spec fn has_size<K, V>(map: Map<K, V>, n: nat) -> bool {
    map.dom().finite() && map.dom().len() == n
}

/// `DashMap::new`: an empty map.
#[verifier::external_body]
pub(crate) fn new_users() -> (r: DashMap<u128, UserIdentity>)
    ensures
        is_vacant(users_in(r)),
{
    DashMap::new()
}

/// `DashMap::insert`: the entry is added, or replaces the one with the same key.
#[verifier::external_body]
pub(crate) fn insert_user(map: &mut DashMap<u128, UserIdentity>, key: u128, identity: UserIdentity)
    ensures
        users_in(*final(map)) == users_in(*old(map)).insert(key, identity@),
{
    map.insert(key, identity);
}

/// `DashMap::get`, with a copy of the value: the entry with the key, if there is one.
#[verifier::external_body]
pub(crate) fn get_user(map: &DashMap<u128, UserIdentity>, key: u128) -> (r: Option<UserIdentity>)
    ensures
        optional_identity(r) == entry_of(users_in(*map), key),
{
    map.get(&key).map(|entry| entry.value().clone())
}

/// `DashMap::len`: the number of entries.
#[verifier::external_body]
pub(crate) fn count_users(map: &DashMap<u128, UserIdentity>) -> (r: usize)
    ensures
        has_size(users_in(*map), r as nat),
{
    map.len()
}

/// `DashMap::is_empty`: whether there is no entry.
#[verifier::external_body]
pub(crate) fn no_users(map: &DashMap<u128, UserIdentity>) -> (r: bool)
    ensures
        r == is_vacant(users_in(*map)),
{
    map.is_empty()
}

/// The keys of a list of entries.
pub open spec fn keys_of(entries: Seq<(u128, UserIdentity)>) -> Seq<u128> {
    entries.map_values(|e: (u128, UserIdentity)| e.0)
}

/// `DashMap::iter`, with copies: every entry once. Nothing is stated of the order.
#[verifier::external_body]
pub(crate) fn all_users(map: &DashMap<u128, UserIdentity>) -> (r: Vec<(u128, UserIdentity)>)
    ensures
        keys_of(r@).no_duplicates(),
        keys_of(r@).to_set() == users_in(*map).dom(),
        forall|i: int| 0 <= i < r@.len() ==> (#[trigger] r@[i]).1@ == users_in(*map)[r@[i].0],
{
    map.iter().map(|entry| (*entry.key(), entry.value().clone())).collect()
}

/// `DashMap::new`: an empty map.
#[verifier::external_body]
pub(crate) fn new_channels() -> (r: DashMap<String, u128>)
    ensures
        is_vacant(channels_in(r)),
{
    DashMap::new()
}

/// `DashMap::insert`: the entry is added, or replaces the one with the same key.
#[verifier::external_body]
pub(crate) fn insert_channel(map: &mut DashMap<String, u128>, key: String, user: u128)
    ensures
        channels_in(*final(map)) == channels_in(*old(map)).insert(key@, user),
{
    map.insert(key, user);
}

/// `DashMap::get`, with a copy of the value: the entry with the key, if there is one.
#[verifier::external_body]
pub(crate) fn get_channel(map: &DashMap<String, u128>, key: &String) -> (r: Option<u128>)
    ensures
        r == entry_of(channels_in(*map), key@),
{
    map.get(key).map(|entry| *entry.value())
}

} // verus!
