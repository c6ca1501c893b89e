//! The durable key/value namespace that credentials are persisted in.
//!
//! The device's non-volatile storage is modelled as one namespace holding
//! three string values, a provisioned byte, and an explicit commit. The
//! `healthy` field models a store whose writes fail — a write or commit on an
//! unhealthy store returns an error and changes nothing — so that callers'
//! rollback paths are verified and exercised rather than dead.

use vstd::prelude::*;

verus! {

/// The logical names of the string values in the namespace.
#[derive(Clone, Copy, Debug, PartialEq, Eq, Structural)]
pub enum StrKey {
    /// The administrator's username.
    Username,
    /// The hex-encoded password hash.
    PasswordHash,
    /// The hex-encoded salt.
    Salt,
}

/// A failed write or commit against the durable store.
#[derive(Clone, Copy, Debug, PartialEq, Eq, Structural)]
pub struct StoreError;

/// An in-memory image of the durable namespace.
pub struct NvsStore {
    /// The value stored under [`StrKey::Username`], if any.
    pub username: Option<String>,
    /// The value stored under [`StrKey::PasswordHash`], if any.
    pub password_hash: Option<String>,
    /// The value stored under [`StrKey::Salt`], if any.
    pub salt_hex: Option<String>,
    /// The provisioned marker byte, if any; zero means not provisioned.
    pub provisioned: Option<u8>,
    /// Whether writes and commits succeed; models device-storage failure.
    pub healthy: bool,
}

impl NvsStore {
    /// The string value stored under a key.
    pub open spec fn str_entry(self, key: StrKey) -> Option<String> {
        match key {
            StrKey::Username => self.username,
            StrKey::PasswordHash => self.password_hash,
            StrKey::Salt => self.salt_hex,
        }
    }

    /// The character content stored under a key.
    pub open spec fn str_entry_view(self, key: StrKey) -> Option<Seq<char>> {
        match self.str_entry(key) {
            Some(s) => Some(s@),
            None => None,
        }
    }

    /// An empty, healthy namespace.
    pub fn new() -> (r: Self)
        ensures
            r.username is None,
            r.password_hash is None,
            r.salt_hex is None,
            r.provisioned is None,
            r.healthy,
    {
        NvsStore {
            username: None,
            password_hash: None,
            salt_hex: None,
            provisioned: None,
            healthy: true,
        }
    }

    /// Reads the string value under a key.
    pub fn get_str(&self, key: StrKey) -> (r: Option<String>)
        ensures
            r == self.str_entry(key),
    {
        let entry = match key {
            StrKey::Username => &self.username,
            StrKey::PasswordHash => &self.password_hash,
            StrKey::Salt => &self.salt_hex,
        };
        match entry {
            Some(s) => Some(s.clone()),
            None => None,
        }
    }

    /// Writes the string value under a key; on an unhealthy store the write
    /// fails and nothing changes.
    pub fn set_str(&mut self, key: StrKey, value: &str) -> (r: Result<(), StoreError>)
        ensures
            r is Ok <==> old(self).healthy,
            r is Ok ==> final(self).str_entry_view(key) == Some(value@),
            r is Ok ==> forall|k: StrKey|
                k != key ==> #[trigger] final(self).str_entry(k) == old(self).str_entry(k),
            r is Ok ==> final(self).provisioned == old(self).provisioned,
            r is Err ==> *final(self) == *old(self),
            final(self).healthy == old(self).healthy,
    {
        if !self.healthy {
            return Err(StoreError);
        }
        let owned = value.to_owned();
        match key {
            StrKey::Username => {
                self.username = Some(owned);
            },
            StrKey::PasswordHash => {
                self.password_hash = Some(owned);
            },
            StrKey::Salt => {
                self.salt_hex = Some(owned);
            },
        }
        Ok(())
    }

    /// Removes the string value under a key, whether or not it was set; on
    /// an unhealthy store the removal fails and nothing changes.
    pub fn remove(&mut self, key: StrKey) -> (r: Result<(), StoreError>)
        ensures
            r is Ok <==> old(self).healthy,
            r is Ok ==> final(self).str_entry(key) is None,
            r is Ok ==> forall|k: StrKey|
                k != key ==> #[trigger] final(self).str_entry(k) == old(self).str_entry(k),
            r is Ok ==> final(self).provisioned == old(self).provisioned,
            r is Err ==> *final(self) == *old(self),
            final(self).healthy == old(self).healthy,
    {
        if !self.healthy {
            return Err(StoreError);
        }
        match key {
            StrKey::Username => {
                self.username = None;
            },
            StrKey::PasswordHash => {
                self.password_hash = None;
            },
            StrKey::Salt => {
                self.salt_hex = None;
            },
        }
        Ok(())
    }

    /// Reads the provisioned marker byte.
    pub fn get_provisioned(&self) -> (r: Option<u8>)
        ensures
            r == self.provisioned,
    {
        self.provisioned
    }

    /// Writes the provisioned marker byte; on an unhealthy store the write
    /// fails and nothing changes.
    pub fn set_provisioned(&mut self, value: u8) -> (r: Result<(), StoreError>)
        ensures
            r is Ok <==> old(self).healthy,
            r is Ok ==> final(self).provisioned == Some(value),
            r is Ok ==> forall|k: StrKey|
                #[trigger] final(self).str_entry(k) == old(self).str_entry(k),
            r is Err ==> *final(self) == *old(self),
            final(self).healthy == old(self).healthy,
    {
        if !self.healthy {
            return Err(StoreError);
        }
        self.provisioned = Some(value);
        Ok(())
    }

    /// Commits pending writes to durable storage. The in-memory image is
    /// already current, so a successful commit changes nothing; an unhealthy
    /// store fails the commit.
    pub fn commit(&mut self) -> (r: Result<(), StoreError>)
        ensures
            r is Ok <==> old(self).healthy,
            *final(self) == *old(self),
    {
        if !self.healthy {
            return Err(StoreError);
        }
        Ok(())
    }
}

} // verus!
