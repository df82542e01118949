use vstd::prelude::*;
use crate::errors::StoreError;
use crate::record::{decode_record, decode_record_seq};
use crate::session::AuthToken;

verus! {

/// The manager's own record of the platform store's three slots: what it has
/// placed there, slot name to value. What the platform itself holds is
/// outside the model — another process, or a store that the platform cannot
/// reach, can make the two differ on the read side — so this map carries
/// exactly the writes and removals this manager has made.
pub struct CredentialStore {
    written: Ghost<Map<Seq<char>, Seq<char>>>,
}

impl View for CredentialStore {
    type V = Map<Seq<char>, Seq<char>>;

    closed spec fn view(&self) -> Map<Seq<char>, Seq<char>> {
        self.written@
    }
}

impl CredentialStore {
    /// A record with nothing written yet.
    pub fn new() -> (r: CredentialStore)
        ensures
            r@ == Map::<Seq<char>, Seq<char>>::empty(),
    {
        CredentialStore { written: Ghost(Map::empty()) }
    }

    /// Writes the value under the named slot. On success the record notes
    /// the slot's new value; on failure the platform reported that the write
    /// did not happen, and the record is unchanged.
    pub fn set(&mut self, slot: &str, value: &str) -> (r: Result<(), StoreError>)
        ensures
            r is Ok ==> final(self)@ == old(self)@.insert(slot@, value@),
            r is Err ==> final(self)@ == old(self)@,
    {
        let r = keyring_set("jamu", slot, value);
        if r.is_ok() {
            self.written = Ghost(self.written@.insert(slot@, value@));
        }
        r
    }

    /// Discards the named slot. The record drops it whatever the platform
    /// answered: removal is best-effort by design, and the manager stops
    /// counting the credential as its own either way.
    pub fn delete(&mut self, slot: &str) -> (r: Result<(), StoreError>)
        ensures
            final(self)@ == old(self)@.remove(slot@),
    {
        let r = keyring_delete("jamu", slot);
        self.written = Ghost(self.written@.remove(slot@));
        r
    }

    /// Reads the named slot back from the platform. What comes back is the
    /// platform's answer, not this record's: nothing ties the two together.
    pub fn get(&self, slot: &str) -> (r: Result<String, StoreError>) {
        keyring_get("jamu", slot)
    }
}

/// The secret store: three named slots under one service, kept by the
/// platform keychain. What the store holds between calls is outside this
/// library's model, so the wrappers promise nothing about the values that
/// come back; the callers state what they do with whatever came back.

/// Relies on keyring's `Entry::new` and `Entry::set_password`: writes the
/// value under the named slot, or reports the backend's failure.
#[verifier::external_body]
pub(crate) fn keyring_set(service: &str, slot: &str, value: &str) -> (r: Result<(), StoreError>) {
    match keyring::Entry::new(service, slot) {
        Ok(entry) => match entry.set_password(value) {
            Ok(()) => Ok(()),
            Err(e) => Err(StoreError { message: format!("{e}") }),
        },
        Err(e) => Err(StoreError { message: format!("{e}") }),
    }
}

/// Relies on keyring's `Entry::new` and `Entry::get_password`: reads the
/// value under the named slot, or reports the backend's failure.
#[verifier::external_body]
pub(crate) fn keyring_get(service: &str, slot: &str) -> (r: Result<String, StoreError>) {
    match keyring::Entry::new(service, slot) {
        Ok(entry) => match entry.get_password() {
            Ok(v) => Ok(v),
            Err(e) => Err(StoreError { message: format!("{e}") }),
        },
        Err(e) => Err(StoreError { message: format!("{e}") }),
    }
}

/// Relies on keyring's `Entry::new` and `Entry::delete_credential`: removes
/// the named slot, or reports the backend's failure.
#[verifier::external_body]
pub(crate) fn keyring_delete(service: &str, slot: &str) -> (r: Result<(), StoreError>) {
    match keyring::Entry::new(service, slot) {
        Ok(entry) => match entry.delete_credential() {
            Ok(()) => Ok(()),
            Err(e) => Err(StoreError { message: format!("{e}") }),
        },
        Err(e) => Err(StoreError { message: format!("{e}") }),
    }
}

/// Rebuilds a session from the three stored slot values: the two credentials
/// verbatim, the expiry and the profile from the record text — or nothing
/// when the record does not read back.
pub fn token_from_store_parts(access_token: String, refresh_token: String, data: &str)
    -> (r: Option<AuthToken>)
    ensures
        r matches Some(t) ==> (decode_record_seq(data@) == Some((t@.expires_at, t@.user))
            && t@.access_token == access_token@
            && t@.refresh_token == refresh_token@),
        r is None ==> decode_record_seq(data@) is None,
{
    match decode_record(data) {
        Some((expires_at, user)) => Some(AuthToken {
            access_token,
            refresh_token,
            expires_at,
            user,
        }),
        None => None,
    }
}

} // verus!
