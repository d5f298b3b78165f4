//! What the service exchanges with the key store.

use crate::api::Domain;
use crate::keymint::SecurityLevel;
use vstd::prelude::*;

verus! {

/// The exclusive hold on one key id. Whoever holds the value may replace
/// parts of that entry; the hold ends when the value is dropped, so it is
/// neither copied nor cloned.
#[derive(Debug, PartialEq, Eq)]
pub struct KeyIdGuard(i64);

impl KeyIdGuard {
    /// The key id the guard holds.
    pub closed spec fn spec_id(&self) -> i64 {
        self.0
    }

    /// Wraps the key id that the key store has locked for this request.
    pub fn new(id: i64) -> (g: Self)
        ensures
            g.spec_id() == id,
    {
        KeyIdGuard(id)
    }

    #[verifier::when_used_as_spec(spec_id)]
    pub fn id(&self) -> (id: i64)
        ensures
            id == self.spec_id(),
    {
        self.0
    }
}

/// The parts of a stored key entry.
#[derive(Clone, Copy, Debug, PartialEq, Eq, Structural)]
pub enum SubComponentType {
    /// The engine's key blob.
    KmBlob,
    /// The leaf certificate.
    Cert,
    /// The certificates that issued the leaf, concatenated.
    CertChain,
}

/// Which parts of an entry a load brings.
#[derive(Clone, Copy, Debug, PartialEq, Eq, Structural)]
pub enum KeyEntryLoadBits {
    /// No blob at all.
    Nothing,
    /// The engine's key blob.
    Km,
    /// The certificate and the certificate chain.
    Public,
    /// Everything.
    Both,
}

/// A stored key as the key store hands it out.
#[derive(Debug, PartialEq, Eq)]
pub struct KeyEntry {
    pub id: i64,
    pub km_blob: Option<Vec<u8>>,
    pub cert: Option<Vec<u8>>,
    pub cert_chain: Option<Vec<u8>>,
    pub sec_level: SecurityLevel,
    pub parameters: Vec<crate::key_parameter::KeyParameter>,
}

/// What a [`KeyEntry`] holds, as mathematical values.
pub struct KeyEntryView {
    pub id: i64,
    pub km_blob: Option<Seq<u8>>,
    pub cert: Option<Seq<u8>>,
    pub cert_chain: Option<Seq<u8>>,
    pub sec_level: SecurityLevel,
    pub parameters: Seq<crate::key_parameter::KeyParameterView>,
}

impl DeepView for KeyEntry {
    type V = KeyEntryView;

    open spec fn deep_view(&self) -> KeyEntryView {
        KeyEntryView {
            id: self.id,
            km_blob: self.km_blob.deep_view(),
            cert: self.cert.deep_view(),
            cert_chain: self.cert_chain.deep_view(),
            sec_level: self.sec_level,
            parameters: self.parameters.deep_view(),
        }
    }
}

impl KeyEntry {
    /// Takes the engine's key blob out of the entry.
    pub fn take_km_blob(&mut self) -> (blob: Option<Vec<u8>>)
        ensures
            blob.deep_view() == old(self).km_blob.deep_view(),
            final(self).deep_view() == (KeyEntryView { km_blob: None, ..old(self).deep_view() }),
    {
        self.km_blob.take()
    }
}

/// What the key store holds under one key id.
pub struct StoredKey {
    pub domain: Domain,
    pub nspace: i64,
    pub km_blob: Option<Seq<u8>>,
    pub cert: Option<Seq<u8>>,
    pub cert_chain: Option<Seq<u8>>,
    pub parameters: Seq<crate::key_parameter::KeyParameterView>,
}

/// The key store as the service reasons about it: the entries by key id, and
/// the key id each alias of a domain and namespace is bound to. A call that
/// the key store answers with an error leaves it as it was.
pub struct KeyStoreModel {
    pub entries: Map<i64, StoredKey>,
    pub aliases: Map<(Domain, i64, Seq<char>), i64>,
}

impl KeyStoreModel {
    /// The entry under `key_id`, or an entry without any part where the
    /// store has none.
    pub open spec fn entry(self, key_id: i64) -> StoredKey {
        if self.entries.contains_key(key_id) {
            self.entries[key_id]
        } else {
            StoredKey {
                domain: Domain::KeyId,
                nspace: key_id,
                km_blob: None,
                cert: None,
                cert_chain: None,
                parameters: Seq::empty(),
            }
        }
    }

    /// The current key blob of the entry `key_id`.
    pub open spec fn km_blob(self, key_id: i64) -> Option<Seq<u8>> {
        self.entry(key_id).km_blob
    }

    /// The key id that `alias` names in the domain and namespace.
    pub open spec fn lookup(self, domain: Domain, nspace: i64, alias: Seq<char>) -> Option<i64> {
        if self.aliases.contains_key((domain, nspace, alias)) {
            Some(self.aliases[(domain, nspace, alias)])
        } else {
            None
        }
    }

    /// The store after a fresh entry was created under `key_id`.
    pub open spec fn create_key_entry(self, key_id: i64, domain: Domain, nspace: i64) -> Self {
        KeyStoreModel {
            entries: self.entries.insert(
                key_id,
                StoredKey {
                    domain,
                    nspace,
                    km_blob: None,
                    cert: None,
                    cert_chain: None,
                    parameters: Seq::empty(),
                },
            ),
            ..self
        }
    }

    /// The store after one part of the entry `key_id` was set; the part it
    /// had before is gone.
    pub open spec fn insert_blob(self, key_id: i64, kind: SubComponentType, blob: Seq<u8>) -> Self {
        let entry = self.entry(key_id);
        let entry = match kind {
            SubComponentType::KmBlob => StoredKey { km_blob: Some(blob), ..entry },
            SubComponentType::Cert => StoredKey { cert: Some(blob), ..entry },
            SubComponentType::CertChain => StoredKey { cert_chain: Some(blob), ..entry },
        };
        KeyStoreModel { entries: self.entries.insert(key_id, entry), ..self }
    }

    /// The store after the parameters of the entry `key_id` were set.
    pub open spec fn insert_keyparameter(
        self,
        key_id: i64,
        parameters: Seq<crate::key_parameter::KeyParameterView>,
    ) -> Self {
        let entry = StoredKey { parameters, ..self.entry(key_id) };
        KeyStoreModel { entries: self.entries.insert(key_id, entry), ..self }
    }

    /// The store after `alias` was bound to `key_id`.
    pub open spec fn rebind_alias(
        self,
        key_id: i64,
        alias: Seq<char>,
        domain: Domain,
        nspace: i64,
    ) -> Self {
        KeyStoreModel { aliases: self.aliases.insert((domain, nspace, alias), key_id), ..self }
    }
}

} // verus!
