//! The keyed stores of the programs. Each holds a hashbrown map, whose
//! contents the contracts below speak of by name.
use vstd::prelude::*;

use crate::curve::BondingCurve;
use crate::ids::Principal;
use crate::session::SessionRecord;

verus! {

/// The record of each principal, held in gstd's `collections::HashMap` (hashbrown).
#[verifier::external_body]
pub struct PlayerMap {
    inner: gstd::collections::HashMap<Principal, SessionRecord>,
}

/// What a `PlayerMap` holds.
pub uninterp spec fn player_entries(m: PlayerMap) -> Map<Principal, SessionRecord>;

impl PlayerMap {
    /// Relies on hashbrown's `HashMap::new`: the map starts empty.
    #[verifier::external_body]
    pub fn new() -> (r: PlayerMap)
        ensures
            player_entries(r).dom() == Set::<Principal>::empty(),
    {
        PlayerMap { inner: gstd::collections::HashMap::new() }
    }

    /// Relies on hashbrown's `HashMap::get`: the value bound to the key, if any.
    #[verifier::external_body]
    pub fn get(&self, k: &Principal) -> (r: Option<&SessionRecord>)
        ensures
            match r {
                Some(v) => player_entries(*self).contains_key(*k) && player_entries(*self)[*k] == *v,
                None => !player_entries(*self).contains_key(*k),
            },
    {
        self.inner.get(k)
    }

    /// Relies on hashbrown's `HashMap::insert`: binds the key to the value,
    /// replacing what it was bound to.
    #[verifier::external_body]
    pub fn insert(&mut self, k: Principal, v: SessionRecord)
        ensures
            player_entries(*final(self)) == player_entries(*old(self)).insert(k, v),
    {
        self.inner.insert(k, v);
    }

    /// Relies on hashbrown's `HashMap::remove`: unbinds the key and hands back
    /// what it was bound to.
    #[verifier::external_body]
    pub fn remove(&mut self, k: &Principal) -> (r: Option<SessionRecord>)
        ensures
            player_entries(*final(self)) == player_entries(*old(self)).remove(*k),
            match r {
                Some(v) => player_entries(*old(self)).contains_key(*k) && player_entries(*old(self))[*k] == v,
                None => !player_entries(*old(self)).contains_key(*k),
            },
    {
        self.inner.remove(k)
    }
}

/// The secret word of each player, held in gstd's `collections::HashMap` (hashbrown).
#[verifier::external_body]
pub struct GameMap {
    inner: gstd::collections::HashMap<Principal, String>,
}

/// What a `GameMap` holds.
pub uninterp spec fn game_entries(m: GameMap) -> Map<Principal, String>;

impl GameMap {
    /// Relies on hashbrown's `HashMap::new`: the map starts empty.
    #[verifier::external_body]
    pub fn new() -> (r: GameMap)
        ensures
            game_entries(r).dom() == Set::<Principal>::empty(),
    {
        GameMap { inner: gstd::collections::HashMap::new() }
    }

    /// Relies on hashbrown's `HashMap::get`: the value bound to the key, if any.
    #[verifier::external_body]
    pub fn get(&self, k: &Principal) -> (r: Option<&String>)
        ensures
            match r {
                Some(v) => game_entries(*self).contains_key(*k) && game_entries(*self)[*k] == *v,
                None => !game_entries(*self).contains_key(*k),
            },
    {
        self.inner.get(k)
    }

    /// Relies on hashbrown's `HashMap::insert`: binds the key to the value,
    /// replacing what it was bound to.
    #[verifier::external_body]
    pub fn insert(&mut self, k: Principal, v: String)
        ensures
            game_entries(*final(self)) == game_entries(*old(self)).insert(k, v),
    {
        self.inner.insert(k, v);
    }
}

/// The coin listed under each symbol, held in gstd's `collections::HashMap` (hashbrown).
#[verifier::external_body]
pub struct CoinMap {
    inner: gstd::collections::HashMap<String, BondingCurve>,
}

/// What a `CoinMap` holds, keyed by the symbols' characters.
pub uninterp spec fn coin_entries(m: CoinMap) -> Map<Seq<char>, BondingCurve>;

impl CoinMap {
    /// Relies on hashbrown's `HashMap::new`: the map starts empty.
    #[verifier::external_body]
    pub fn new() -> (r: CoinMap)
        ensures
            coin_entries(r).dom() == Set::<Seq<char>>::empty(),
    {
        CoinMap { inner: gstd::collections::HashMap::new() }
    }

    /// Relies on hashbrown's `HashMap::contains_key`: whether the key is bound.
    #[verifier::external_body]
    pub fn contains(&self, k: &String) -> (r: bool)
        ensures
            r == coin_entries(*self).contains_key(k@),
    {
        self.inner.contains_key(k)
    }

    /// Relies on hashbrown's `HashMap::get`: the value bound to the key, if any.
    #[verifier::external_body]
    pub fn get(&self, k: &String) -> (r: Option<&BondingCurve>)
        ensures
            match r {
                Some(v) => coin_entries(*self).contains_key(k@) && coin_entries(*self)[k@] == *v,
                None => !coin_entries(*self).contains_key(k@),
            },
    {
        self.inner.get(k)
    }

    /// Relies on hashbrown's `HashMap::insert`: binds the key to the value,
    /// replacing what it was bound to.
    #[verifier::external_body]
    pub fn insert(&mut self, k: String, v: BondingCurve)
        ensures
            coin_entries(*final(self)) == coin_entries(*old(self)).insert(k@, v),
    {
        self.inner.insert(k, v);
    }

    /// Relies on hashbrown's `HashMap::remove`: unbinds the key and hands back
    /// what it was bound to.
    #[verifier::external_body]
    pub fn remove(&mut self, k: &String) -> (r: Option<BondingCurve>)
        ensures
            coin_entries(*final(self)) == coin_entries(*old(self)).remove(k@),
            match r {
                Some(v) => coin_entries(*old(self)).contains_key(k@) && coin_entries(*old(self))[k@] == v,
                None => !coin_entries(*old(self)).contains_key(k@),
            },
    {
        self.inner.remove(k)
    }
}

} // verus!
