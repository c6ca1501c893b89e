//! The persistence gateway: serializing credentials to the durable store and
//! reading them back.
//!
//! The durable record is `{username, password hash, salt (hex), provisioned}`.
//! Either all of it is present and consistent, or loading reports "not
//! provisioned": a half-written or corrupt record is never interpreted as a
//! valid credential, and never stops the system from booting.

use vstd::prelude::*;

use crate::credentials::Credentials;
use crate::crypto::SALT_LEN;
use crate::hex::{bytes_of_hex, hex_decode, hex_encode, hex_of, is_hex_digit,
    lemma_bytes_of_hex_len, lemma_hex_of_digits, lemma_hex_of_len, lemma_hex_round_trip};
use crate::store::{NvsStore, StoreError, StrKey};

verus! {

/// What the durable store said at boot: a credential and whether the device
/// was provisioned.
pub struct PersistentState {
    /// The credential read back, with no active session.
    pub credentials: Credentials,
    /// The provisioned marker.
    pub provisioned: bool,
}

/// Whether a store image holds a complete, consistent credential record:
/// the provisioned marker is set and non-zero, all three string values are
/// present, and the salt is exactly the hex of a full-length salt.
pub open spec fn loadable(store: NvsStore) -> bool {
    &&& store.provisioned matches Some(p) && p != 0
    &&& store.username is Some
    &&& store.password_hash is Some
    &&& store.salt_hex matches Some(sh) && sh@.len() == 2 * SALT_LEN && (forall|i: int|
        0 <= i < sh@.len() ==> is_hex_digit(#[trigger] sh@[i]))
}

/// Whether a store image records exactly this credential and provisioned
/// flag: what a successful persist leaves behind.
pub open spec fn holds_record(store: NvsStore, credentials: Credentials, provisioned: bool) -> bool {
    &&& store.username matches Some(u) && u@ == credentials.username@
    &&& store.password_hash matches Some(h) && h@ == credentials.password_hash@
    &&& store.salt_hex matches Some(sh) && sh@ == hex_of(credentials.salt@)
    &&& store.provisioned == Some(if provisioned { 1u8 } else { 0u8 })
}

/// Writes the credential record and the provisioned marker to the store and
/// commits. On failure nothing has changed, so the caller's in-memory state
/// and the durable state still agree.
pub fn persist_credentials_state(
    credentials: &Credentials,
    provisioned: bool,
    store: &mut NvsStore,
) -> (r: Result<(), StoreError>)
    ensures
        r is Ok <==> old(store).healthy,
        r is Ok ==> holds_record(*final(store), *credentials, provisioned),
        r is Err ==> *final(store) == *old(store),
        final(store).healthy == old(store).healthy,
{
    let salt_hex = hex_encode(credentials.salt.as_slice());
    store.set_str(StrKey::Username, credentials.username.as_str())?;
    store.set_str(StrKey::PasswordHash, credentials.password_hash.as_str())?;
    store.set_str(StrKey::Salt, salt_hex.as_str())?;
    store.set_provisioned(if provisioned { 1 } else { 0 })?;
    store.commit()?;
    proof {
        assert(store.str_entry_view(StrKey::Username) == Some(credentials.username@));
        assert(store.str_entry_view(StrKey::PasswordHash) == Some(credentials.password_hash@));
        assert(store.str_entry_view(StrKey::Salt) == Some(salt_hex@));
    }
    Ok(())
}

/// Reads the credential record back from the store. Returns `None` — never
/// partial data — when the provisioned marker is absent or zero, any string
/// value is missing, or the stored salt is not the hex of a full-length
/// salt; the caller then falls back to an unprovisioned default.
pub fn load_persistent_state(store: &NvsStore) -> (r: Option<PersistentState>)
    ensures
        r is Some <==> loadable(*store),
        r matches Some(st) ==> st.provisioned == true && st.credentials.wf()
            && st.credentials.token is None && st.credentials.username == store.username->0
            && st.credentials.password_hash == store.password_hash->0 && st.credentials.salt@
            == bytes_of_hex(store.salt_hex->0@),
{
    let provisioned = match store.get_provisioned() {
        Some(value) => value != 0,
        None => false,
    };
    if !provisioned {
        return None;
    }
    let username = match store.get_str(StrKey::Username) {
        Some(value) => value,
        None => {
            return None;
        },
    };
    let password_hash = match store.get_str(StrKey::PasswordHash) {
        Some(value) => value,
        None => {
            return None;
        },
    };
    let salt_hex = match store.get_str(StrKey::Salt) {
        Some(value) => value,
        None => {
            return None;
        },
    };
    let salt = match hex_decode(salt_hex.as_str()) {
        Ok(value) => value,
        Err(_) => {
            return None;
        },
    };
    proof {
        lemma_bytes_of_hex_len(salt_hex@);
    }
    if salt.len() != SALT_LEN {
        return None;
    }
    Some(
        PersistentState {
            credentials: Credentials { username, password_hash, salt, token: None },
            provisioned: true,
        },
    )
}

/// Removes the credential record: all three string values go, the
/// provisioned marker is reset to zero, and the result is committed. Values
/// that were never set are tolerated. On failure nothing has changed.
pub fn clear_persistent_credentials(store: &mut NvsStore) -> (r: Result<(), StoreError>)
    ensures
        r is Ok <==> old(store).healthy,
        r is Ok ==> final(store).username is None && final(store).password_hash is None
            && final(store).salt_hex is None && final(store).provisioned == Some(0u8),
        r is Err ==> *final(store) == *old(store),
        final(store).healthy == old(store).healthy,
{
    let _ = store.remove(StrKey::Username);
    let _ = store.remove(StrKey::PasswordHash);
    let _ = store.remove(StrKey::Salt);
    store.set_provisioned(0)?;
    store.commit()?;
    proof {
        assert(store.str_entry(StrKey::Username) is None);
        assert(store.str_entry(StrKey::PasswordHash) is None);
        assert(store.str_entry(StrKey::Salt) is None);
    }
    Ok(())
}

/// Persistence round trip: a store that records a well-formed credential as
/// provisioned is loadable, and what it yields — the username, the hash, and
/// the decoded salt — equals what was stored.
pub proof fn lemma_store_load_round_trip(store: NvsStore, credentials: Credentials)
    requires
        credentials.wf(),
        holds_record(store, credentials, true),
    ensures
        loadable(store),
        store.username->0@ == credentials.username@,
        store.password_hash->0@ == credentials.password_hash@,
        bytes_of_hex(store.salt_hex->0@) == credentials.salt@,
{
    lemma_hex_of_len(credentials.salt@);
    lemma_hex_of_digits(credentials.salt@);
    lemma_hex_round_trip(credentials.salt@);
}

/// A cleared store loads nothing: its provisioned marker is zero, so it is
/// not loadable.
pub proof fn lemma_cleared_store_loads_nothing(store: NvsStore)
    requires
        store.provisioned == Some(0u8),
    ensures
        !loadable(store),
{
}

} // verus!
