//! The registry of tenants.

use std::collections::HashMap;
use vstd::prelude::*;
use crate::manager::MusicManager;
use crate::state::ManagerState;

verus! {

/// What one tenant owns.
pub struct GuildData<H> {
    pub music: MusicManager<H>,
}

impl<H> Default for GuildData<H> {
    /// A tenant that was never used: nothing queued, nothing playing, no handler.
    fn default() -> (data: Self)
        ensures
            data.music@ == ManagerState::fresh(),
            data.music.handler() is None,
    {
        GuildData { music: MusicManager::new() }
    }
}

/// The tenants that were referred to so far, each under its identifier.
///
/// A tenant comes into being when it is first asked for, and stays. What a tenant
/// owns is the registry's to hand out, one tenant at a time; where tenants are to
/// be used side by side, `T` is a shared, lockable handle to what the tenant owns.
pub struct GuildManager<T> {
    guilds: HashMap<u64, T>,
}

impl<T> View for GuildManager<T> {
    type V = Map<u64, T>;

    closed spec fn view(&self) -> Map<u64, T> {
        self.guilds@
    }
}

impl<T: Default> GuildManager<T> {
    /// A registry without tenants.
    pub fn new() -> (registry: Self)
        ensures
            registry@ == Map::<u64, T>::empty(),
    {
        GuildManager { guilds: HashMap::new() }
    }

    /// What the tenant `guild_id` owns. A tenant that was never asked for before is
    /// made on the spot, as `T::default()` makes it. No other tenant is touched:
    /// whatever is done through the reference that is handed out, the registry
    /// differs afterwards in the entry of `guild_id` alone.
    pub fn get(&mut self, guild_id: u64) -> (data: &mut T)
        ensures
            old(self)@.contains_key(guild_id) ==> *data == old(self)@[guild_id],
            !old(self)@.contains_key(guild_id) ==> call_ensures(T::default, (), *data),
            final(self)@ == old(self)@.insert(guild_id, *final(data)),
    {
        self.guilds.entry(guild_id).or_insert(T::default())
    }

    /// Whether the tenant `guild_id` was asked for before.
    pub fn contains(&self, guild_id: u64) -> (known: bool)
        ensures
            known == self@.contains_key(guild_id),
    {
        self.guilds.contains_key(&guild_id)
    }

    /// How many tenants there are.
    pub fn len(&self) -> (count: usize)
        ensures
            count == self@.len(),
    {
        self.guilds.len()
    }
}

/// Tenants are independent. Whatever becomes of one tenant, every other tenant is
/// in the registry as before, with what it owned before.
pub proof fn lemma_tenants_independent<T>(tenants: Map<u64, T>, touched: u64, other: u64, after: T)
    requires
        touched != other,
    ensures
        tenants.insert(touched, after).contains_key(other) == tenants.contains_key(other),
        tenants.contains_key(other) ==> tenants.insert(touched, after)[other] == tenants[other],
        tenants.insert(touched, after).remove(touched) == tenants.remove(touched),
{
}

} // verus!
