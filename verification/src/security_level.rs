//! The service of one security level and its requests.
//!
//! A request starts with one of the methods of [`KeystoreSecurityLevel`], which
//! checks what can be checked without asking anyone and returns the first
//! step. Whoever drives the request makes the call a step names, hands the
//! answer to `resume` on the state of that step, and goes on until a step is
//! the end of the request.

use crate::api::{AuthenticatorSpec, Domain, KeyDescriptor};
use crate::database::{KeyEntryLoadBits, KeyIdGuard};
use crate::error::Error;
use crate::exchange::{Action, Step};
use crate::key_creation::{
    generate_key_start, import_key_start, import_wrapped_key_start, lacks_alias,
    resolved_descriptor, KeyCreationState, KeyCreationStep,
};
use crate::keymint::{
    clone_optional_bytes, Certificate, KeyCharacteristics, KeyParameter, SecurityLevel,
};
use crate::operation_creation::{
    create_operation_start, CreateOperationState, CreateOperationStep,
};
use crate::permission::KeyPerm;
use crate::persistence::{store_new_key_start, StoreNewKeyState, StoreNewKeyStep};
use crate::upgrade::{upgrade_start, UpgradeState, UpgradeStep};
use vstd::prelude::*;
use vstd::slice::slice_to_vec;

verus! {

/// The key management service of one security level. One instance serves
/// every caller of that level; it holds no state of a request.
#[derive(Debug, PartialEq, Eq)]
pub struct KeystoreSecurityLevel {
    security_level: SecurityLevel,
}

/// An owned copy of a byte string.
fn bytes_to_vec(bytes: &[u8]) -> (r: Vec<u8>)
    ensures
        r.deep_view() == bytes.deep_view(),
{
    let r = slice_to_vec(bytes);
    assert(r.deep_view() =~= bytes.deep_view());
    r
}

/// An owned copy of a parameter list.
fn parameters_to_vec(params: &[KeyParameter]) -> (r: Vec<KeyParameter>)
    ensures
        r.deep_view() == params.deep_view(),
{
    let mut r: Vec<KeyParameter> = Vec::new();
    let mut i: usize = 0;
    while i < params.len()
        invariant
            i <= params.len(),
            r.len() == i,
            forall|j: int| 0 <= j < i ==> (#[trigger] r@[j]).deep_view() == params@[j].deep_view(),
        decreases params.len() - i,
    {
        r.push(params[i].clone());
        i += 1;
    }
    assert(r.deep_view() =~= params.deep_view());
    r
}

fn resolve(key: &KeyDescriptor, caller_uid: u32) -> (r: KeyDescriptor)
    ensures
        r.deep_view() == resolved_descriptor(key.deep_view(), caller_uid),
{
    match key.domain {
        Domain::App => KeyDescriptor {
            domain: Domain::App,
            nspace: caller_uid as i64,
            alias: crate::api::clone_optional_string(&key.alias),
            blob: None,
        },
        _ => key.clone(),
    }
}

fn needs_alias(key: &KeyDescriptor) -> (b: bool)
    ensures
        b == lacks_alias(key.deep_view()),
{
    let stored = match key.domain {
        Domain::Blob => false,
        _ => true,
    };
    stored && key.alias.is_none()
}

impl KeystoreSecurityLevel {
    /// The security level the service stands for.
    pub closed spec fn level(&self) -> SecurityLevel {
        self.security_level
    }

    /// The service of `security_level`.
    pub fn new(security_level: SecurityLevel) -> (service: Self)
        ensures
            service.level() == security_level,
    {
        KeystoreSecurityLevel { security_level }
    }

    /// The security level the service stands for.
    pub fn security_level(&self) -> (security_level: SecurityLevel)
        ensures
            security_level == self.level(),
    {
        self.security_level
    }

    /// Starts the persistence of a key the engine has created: `blob` is its
    /// key blob, `key_characteristics` its parameters, `km_cert_chain` its
    /// certificate chain if the engine returned one, and `key` the descriptor
    /// under which the caller wants to find it. In the blob domain nothing is
    /// stored and the request ends with a descriptor that carries the blob;
    /// otherwise the first call creates the entry, and what follows is
    /// decided by [`StoreNewKeyState::resume`].
    pub fn store_new_key(
        &self,
        key: KeyDescriptor,
        key_characteristics: KeyCharacteristics,
        km_cert_chain: Option<Vec<Certificate>>,
        blob: Vec<u8>,
    ) -> (step: StoreNewKeyStep)
        ensures
            step.deep_view() == store_new_key_start(
                self.level(),
                key.deep_view(),
                key_characteristics.deep_view(),
                km_cert_chain.deep_view(),
                blob.deep_view(),
            ),
    {
        StoreNewKeyState::start(self.security_level, key, key_characteristics, km_cert_chain, blob)
    }

    /// Starts the creation of an operation on `key` for the caller
    /// `caller_uid`. The first call resolves the key: for a blob the caller
    /// holds itself, the access gate is asked for the permission to use it;
    /// any other key is loaded from the key store, which admits the caller
    /// only with the permission to use the key found. What follows is decided
    /// by [`CreateOperationState::resume`]. `forced` has no bearing yet.
    #[allow(unused_variables)]
    pub fn create_operation(
        &self,
        caller_uid: u32,
        key: &KeyDescriptor,
        operation_parameters: &[KeyParameter],
        forced: bool,
    ) -> (step: CreateOperationStep)
        ensures
            step.deep_view() == create_operation_start(
                self.level(),
                caller_uid,
                key.deep_view(),
                operation_parameters.deep_view(),
            ),
    {
        let operation_parameters = parameters_to_vec(operation_parameters);
        match key.domain {
            Domain::Blob => Step::Perform(
                CreateOperationState::CheckingPermission {
                    security_level: self.security_level,
                    caller_uid,
                    blob: clone_optional_bytes(&key.blob),
                    operation_parameters,
                },
                Action::CheckKeyPermission { perm: KeyPerm::Use, key: key.clone() },
            ),
            _ => Step::Perform(
                CreateOperationState::LoadingKey {
                    security_level: self.security_level,
                    caller_uid,
                    operation_parameters,
                },
                Action::LoadKeyEntry {
                    key: key.clone(),
                    load_bits: KeyEntryLoadBits::Km,
                    caller_uid,
                    perm: KeyPerm::Use,
                },
            ),
        }
    }

    /// Starts the generation of a key under `key` for the caller
    /// `caller_uid`, with `entropy` for the engine's random number generator.
    /// A descriptor that asks for a stored key and names no alias is refused
    /// with the argument error. Otherwise the first call asks the access gate
    /// for the rebind permission on the descriptor, whose namespace is the
    /// caller's own in the domain of calling principals. What follows is
    /// decided by [`KeyCreationState::resume`]. `attestation_key` and `flags`
    /// have no bearing yet.
    #[allow(unused_variables)]
    pub fn generate_key(
        &self,
        caller_uid: u32,
        key: &KeyDescriptor,
        attestation_key: Option<&KeyDescriptor>,
        params: &[KeyParameter],
        flags: i32,
        entropy: &[u8],
    ) -> (step: KeyCreationStep)
        ensures
            step.deep_view() == generate_key_start(
                self.level(),
                caller_uid,
                key.deep_view(),
                params.deep_view(),
                entropy.deep_view(),
            ),
    {
        if needs_alias(key) {
            return Step::Done(Err(Error::invalid_argument()));
        }
        let key = resolve(key, caller_uid);
        let action = Action::CheckKeyPermission { perm: KeyPerm::Rebind, key: key.clone() };
        Step::Perform(
            KeyCreationState::AuthorizingGeneration {
                security_level: self.security_level,
                key,
                params: parameters_to_vec(params),
                entropy: bytes_to_vec(entropy),
            },
            action,
        )
    }

    /// Starts the import of the key material `key_data` under `key` for the
    /// caller `caller_uid`. A descriptor that asks for a stored key and names
    /// no alias is refused with the argument error. Otherwise the first call
    /// asks the access gate for the rebind permission on the descriptor,
    /// whose namespace is the caller's own in the domain of calling
    /// principals. What follows is decided by [`KeyCreationState::resume`].
    /// `attestation_key` and `flags` have no bearing yet.
    #[allow(unused_variables)]
    pub fn import_key(
        &self,
        caller_uid: u32,
        key: &KeyDescriptor,
        attestation_key: Option<&KeyDescriptor>,
        params: &[KeyParameter],
        flags: i32,
        key_data: &[u8],
    ) -> (step: KeyCreationStep)
        ensures
            step.deep_view() == import_key_start(
                self.level(),
                caller_uid,
                key.deep_view(),
                params.deep_view(),
                key_data.deep_view(),
            ),
    {
        if needs_alias(key) {
            return Step::Done(Err(Error::invalid_argument()));
        }
        let key = resolve(key, caller_uid);
        let action = Action::CheckKeyPermission { perm: KeyPerm::Rebind, key: key.clone() };
        Step::Perform(
            KeyCreationState::AuthorizingImport {
                security_level: self.security_level,
                key,
                params: parameters_to_vec(params),
                key_data: bytes_to_vec(key_data),
            },
            action,
        )
    }

    /// Starts the import of the wrapped key that `key` carries as its blob,
    /// to be unwrapped with the stored key `wrapping_key`, for the caller
    /// `caller_uid`. The request is refused with the argument error if `key`
    /// asks for a stored key and names no alias, if `wrapping_key` is a blob
    /// the caller holds, or if `key` carries no blob. Otherwise the first
    /// call asks the access gate for the rebind permission on the descriptor
    /// of the new key. What follows is decided by
    /// [`KeyCreationState::resume`].
    pub fn import_wrapped_key(
        &self,
        caller_uid: u32,
        key: &KeyDescriptor,
        wrapping_key: &KeyDescriptor,
        masking_key: Option<&[u8]>,
        params: &[KeyParameter],
        authenticators: &[AuthenticatorSpec],
    ) -> (step: KeyCreationStep)
        ensures
            step.deep_view() == import_wrapped_key_start(
                self.level(),
                caller_uid,
                key.deep_view(),
                wrapping_key.deep_view(),
                masking_key.deep_view(),
                params.deep_view(),
                authenticators@,
            ),
    {
        if needs_alias(key) {
            return Step::Done(Err(Error::invalid_argument()));
        }
        match wrapping_key.domain {
            Domain::Blob => {
                return Step::Done(Err(Error::invalid_argument()));
            },
            _ => {},
        }
        let wrapped_data = match &key.blob {
            Some(data) => crate::keymint::clone_bytes(data),
            None => {
                return Step::Done(Err(Error::invalid_argument()));
            },
        };
        let key = resolve(key, caller_uid);
        let action = Action::CheckKeyPermission { perm: KeyPerm::Rebind, key: key.clone() };
        let masking_key = match masking_key {
            Some(masking_key) => Some(bytes_to_vec(masking_key)),
            None => None,
        };
        Step::Perform(
            KeyCreationState::AuthorizingUnwrap {
                security_level: self.security_level,
                caller_uid,
                key,
                wrapped_data,
                wrapping_key: wrapping_key.clone(),
                masking_key,
                params: parameters_to_vec(params),
                authenticators: slice_to_vec(authenticators),
            },
            action,
        )
    }

    /// Starts the upgrade-retry protocol for an engine call that takes the
    /// key blob `blob`. `key_id_guard` is the hold on the key id under which
    /// the blob is stored, or `None` where the caller holds the blob itself;
    /// `params` are handed to the engine if the blob has to be upgraded. The
    /// first step asks for the call on the blob as given; what follows is
    /// decided by [`UpgradeState::resume`].
    pub fn upgrade_keyblob_if_required_with<T: DeepView>(
        &self,
        key_id_guard: Option<KeyIdGuard>,
        blob: &[u8],
        params: &[KeyParameter],
    ) -> (step: UpgradeStep<T>)
        ensures
            step.deep_view() == upgrade_start::<T::V>(
                self.level(),
                key_id_guard,
                blob.deep_view(),
                params.deep_view(),
            ),
    {
        UpgradeState::start(
            self.security_level,
            key_id_guard,
            bytes_to_vec(blob),
            parameters_to_vec(params),
        )
    }
}

} // verus!
