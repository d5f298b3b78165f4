//! The creation of a key: generation, import and the import of a wrapped key.
//! Each request asks the access gate first, then the engine, and ends with the
//! persistence of what the engine returned.

use crate::api::{AuthenticatorSpec, Domain, KeyDescriptor, KeyDescriptorView, KeyMetadata, KeyMetadataView};
use crate::database::{KeyEntryLoadBits, SubComponentType};
use crate::error::Error;
use crate::database::KeyStoreModel;
use crate::exchange::{
    performed, run, store_after, store_effect, writes_under_holds, Action, ActionView, Event,
    EventView, Step, StepView,
};
use crate::keymint::{
    find_integer, integer_of_tag, HardwareAuthenticatorType, KeyCreationResult,
    AUTHENTICATOR_FINGERPRINT, AUTHENTICATOR_PASSWORD,
    KeyCreationResultView, KeyFormat, KeyParameter, KeyParameterView, SecurityLevel, Tag,
    ALGORITHM_AES, ALGORITHM_EC, ALGORITHM_HMAC, ALGORITHM_RSA, ALGORITHM_TRIPLE_DES,
    TAG_ALGORITHM,
};
use crate::permission::KeyPerm;
use crate::persistence::{
    store_new_key_run, store_new_key_start, store_new_key_store_after,
    stored_key_is_what_the_engine_returned, StoreNewKeyState, StoreNewKeyStateView,
    StoreNewKeyStep, StoreNewKeyStepView, StoreStage,
};
use crate::upgrade::{
    upgrade_start, UpgradeAction, UpgradeActionView, UpgradeEvent, UpgradeEventView, UpgradeState,
    UpgradeStateView, UpgradeStep, UpgradeStepView,
};
use vstd::prelude::*;

verus! {

/// The descriptor asks for a stored key but names no alias for it.
pub open spec fn lacks_alias(key: KeyDescriptorView) -> bool {
    key.domain != Domain::Blob && key.alias is None
}

/// The descriptor under which a new key is created for the caller
/// `caller_uid`: in the domain of the calling principal the namespace is the
/// caller's own identity and no blob is carried; any other descriptor stands
/// as given.
pub open spec fn resolved_descriptor(key: KeyDescriptorView, caller_uid: u32) -> KeyDescriptorView {
    if key.domain == Domain::App {
        KeyDescriptorView { domain: Domain::App, nspace: caller_uid as i64, alias: key.alias, blob: None }
    } else {
        key
    }
}

/// The wire format for key material of an algorithm: raw bytes for the
/// symmetric and MAC algorithms, a structured private key for the asymmetric
/// ones, and no format for any other value.
pub open spec fn format_of_algorithm(algorithm: i32) -> Option<KeyFormat> {
    if algorithm == ALGORITHM_AES || algorithm == ALGORITHM_HMAC || algorithm
        == ALGORITHM_TRIPLE_DES {
        Some(KeyFormat::Raw)
    } else if algorithm == ALGORITHM_RSA || algorithm == ALGORITHM_EC {
        Some(KeyFormat::Pkcs8)
    } else {
        None
    }
}

/// The wire format of an import: that of the algorithm the first parameter
/// with the algorithm tag names. Without such a parameter, or with an
/// algorithm that has no format, the import is refused with the argument
/// error.
pub open spec fn import_format(params: Seq<KeyParameterView>) -> Result<KeyFormat, Error> {
    match integer_of_tag(params, Tag(TAG_ALGORITHM)) {
        Some(algorithm) => match format_of_algorithm(algorithm) {
            Some(format) => Ok(format),
            None => Err(Error::spec_invalid_argument()),
        },
        None => Err(Error::spec_invalid_argument()),
    }
}

/// Derives the wire format of an import from the parameters of the key.
pub fn find_import_format(params: &Vec<KeyParameter>) -> (format: Result<KeyFormat, Error>)
    ensures
        format == import_format(params.deep_view()),
{
    match find_integer(params, Tag(TAG_ALGORITHM)) {
        Some(algorithm) => {
            if algorithm == ALGORITHM_AES || algorithm == ALGORITHM_HMAC || algorithm
                == ALGORITHM_TRIPLE_DES {
                Ok(KeyFormat::Raw)
            } else if algorithm == ALGORITHM_RSA || algorithm == ALGORITHM_EC {
                Ok(KeyFormat::Pkcs8)
            } else {
                Err(Error::invalid_argument())
            }
        },
        None => Err(Error::invalid_argument()),
    }
}

/// Some authenticator of the list is of the kind.
pub open spec fn has_authenticator(
    authenticators: Seq<AuthenticatorSpec>,
    kind: HardwareAuthenticatorType,
) -> bool {
    exists|i: int|
        0 <= i < authenticators.len() && (#[trigger] authenticators[i]).authenticator_type == kind
}

/// The authenticator at `i` is of the kind and none before it is.
pub open spec fn is_first_authenticator(
    authenticators: Seq<AuthenticatorSpec>,
    kind: HardwareAuthenticatorType,
    i: int,
) -> bool {
    &&& 0 <= i < authenticators.len()
    &&& authenticators[i].authenticator_type == kind
    &&& forall|j: int| 0 <= j < i ==> (#[trigger] authenticators[j]).authenticator_type != kind
}

/// The secure id of the first authenticator of the kind.
pub open spec fn first_sid(
    authenticators: Seq<AuthenticatorSpec>,
    kind: HardwareAuthenticatorType,
) -> Option<i64> {
    if has_authenticator(authenticators, kind) {
        Some(
            authenticators[choose|i: int|
                is_first_authenticator(authenticators, kind, i)].authenticator_id,
        )
    } else {
        None
    }
}

/// Finds the secure id of the first authenticator of the kind.
pub fn find_sid(authenticators: &Vec<AuthenticatorSpec>, kind: HardwareAuthenticatorType) -> (sid:
    Option<i64>)
    ensures
        sid == first_sid(authenticators@, kind),
{
    let mut i: usize = 0;
    while i < authenticators.len()
        invariant
            i <= authenticators.len(),
            forall|j: int| 0 <= j < i ==> (#[trigger] authenticators@[j]).authenticator_type != kind,
        decreases authenticators.len() - i,
    {
        if authenticators[i].authenticator_type == kind {
            proof {
                let s = authenticators@;
                assert(is_first_authenticator(s, kind, i as int));
                let k = choose|k: int| is_first_authenticator(s, kind, k);
                assert(is_first_authenticator(s, kind, k));
                if k < i {
                    assert(s[k].authenticator_type != kind);
                }
                if i < k {
                    assert(s[i as int].authenticator_type != kind);
                }
            }
            return Some(authenticators[i].authenticator_id);
        }
        i += 1;
    }
    None
}

/// The masking key of an unwrap: the one supplied, or 32 zero bytes.
pub open spec fn masking_key_or_zeros(masking_key: Option<Seq<u8>>) -> Seq<u8> {
    match masking_key {
        Some(masking_key) => masking_key,
        None => Seq::new(32, |i: int| 0u8),
    }
}

fn or_zeros(masking_key: Option<Vec<u8>>) -> (r: Vec<u8>)
    ensures
        r.deep_view() == masking_key_or_zeros(masking_key.deep_view()),
{
    match masking_key {
        Some(masking_key) => masking_key,
        None => {
            let mut zeros: Vec<u8> = Vec::new();
            let mut i: usize = 0;
            while i < 32
                invariant
                    i <= 32,
                    zeros.len() == i,
                    forall|j: int| 0 <= j < i ==> zeros@[j] == 0u8,
                decreases 32 - i,
            {
                zeros.push(0u8);
                i += 1;
            }
            assert(zeros.deep_view() =~= Seq::new(32, |i: int| 0u8));
            zeros
        },
    }
}

/// What every attempt of one unwrap has in common.
#[derive(Debug, PartialEq, Eq)]
pub struct UnwrapContext {
    pub security_level: SecurityLevel,
    /// The descriptor under which the unwrapped key is created.
    pub key: KeyDescriptor,
    pub wrapped_data: Vec<u8>,
    pub masking_key: Vec<u8>,
    pub params: Vec<KeyParameter>,
    pub password_sid: i64,
    pub biometric_sid: i64,
}

/// What an [`UnwrapContext`] holds, as mathematical values.
pub struct UnwrapContextView {
    pub security_level: SecurityLevel,
    pub key: KeyDescriptorView,
    pub wrapped_data: Seq<u8>,
    pub masking_key: Seq<u8>,
    pub params: Seq<KeyParameterView>,
    pub password_sid: i64,
    pub biometric_sid: i64,
}

impl DeepView for UnwrapContext {
    type V = UnwrapContextView;

    open spec fn deep_view(&self) -> UnwrapContextView {
        UnwrapContextView {
            security_level: self.security_level,
            key: self.key.deep_view(),
            wrapped_data: self.wrapped_data.deep_view(),
            masking_key: self.masking_key.deep_view(),
            params: self.params.deep_view(),
            password_sid: self.password_sid,
            biometric_sid: self.biometric_sid,
        }
    }
}

/// How far the creation of a key has come.
#[allow(inconsistent_fields)]
#[derive(Debug, PartialEq, Eq)]
pub enum KeyCreationState {
    /// Generation: the access gate is deciding on the rebind permission.
    AuthorizingGeneration {
        security_level: SecurityLevel,
        key: KeyDescriptor,
        params: Vec<KeyParameter>,
        entropy: Vec<u8>,
    },
    /// Generation: the engine is taking the caller's entropy.
    AddingEntropy { security_level: SecurityLevel, key: KeyDescriptor, params: Vec<KeyParameter> },
    /// Generation or import: the engine is creating the key.
    Creating { security_level: SecurityLevel, key: KeyDescriptor },
    /// Import: the access gate is deciding on the rebind permission.
    AuthorizingImport {
        security_level: SecurityLevel,
        key: KeyDescriptor,
        params: Vec<KeyParameter>,
        key_data: Vec<u8>,
    },
    /// Wrapped import: the access gate is deciding on the rebind permission
    /// for the new key.
    AuthorizingUnwrap {
        security_level: SecurityLevel,
        caller_uid: u32,
        key: KeyDescriptor,
        wrapped_data: Vec<u8>,
        wrapping_key: KeyDescriptor,
        masking_key: Option<Vec<u8>>,
        params: Vec<KeyParameter>,
        authenticators: Vec<AuthenticatorSpec>,
    },
    /// Wrapped import: the key store is loading the wrapping key.
    LoadingWrappingKey {
        security_level: SecurityLevel,
        key: KeyDescriptor,
        wrapped_data: Vec<u8>,
        masking_key: Option<Vec<u8>>,
        params: Vec<KeyParameter>,
        authenticators: Vec<AuthenticatorSpec>,
    },
    /// Wrapped import: the engine is unwrapping, inside the upgrade-retry
    /// protocol on the blob of the wrapping key.
    Unwrapping { upgrade: UpgradeState, context: UnwrapContext },
    /// The key store is taking the new key.
    Storing(StoreNewKeyState),
}

/// What a [`KeyCreationState`] holds, as mathematical values.
#[allow(inconsistent_fields)]
pub enum KeyCreationStateView {
    AuthorizingGeneration {
        security_level: SecurityLevel,
        key: KeyDescriptorView,
        params: Seq<KeyParameterView>,
        entropy: Seq<u8>,
    },
    AddingEntropy { security_level: SecurityLevel, key: KeyDescriptorView, params: Seq<KeyParameterView> },
    Creating { security_level: SecurityLevel, key: KeyDescriptorView },
    AuthorizingImport {
        security_level: SecurityLevel,
        key: KeyDescriptorView,
        params: Seq<KeyParameterView>,
        key_data: Seq<u8>,
    },
    AuthorizingUnwrap {
        security_level: SecurityLevel,
        caller_uid: u32,
        key: KeyDescriptorView,
        wrapped_data: Seq<u8>,
        wrapping_key: KeyDescriptorView,
        masking_key: Option<Seq<u8>>,
        params: Seq<KeyParameterView>,
        authenticators: Seq<AuthenticatorSpec>,
    },
    LoadingWrappingKey {
        security_level: SecurityLevel,
        key: KeyDescriptorView,
        wrapped_data: Seq<u8>,
        masking_key: Option<Seq<u8>>,
        params: Seq<KeyParameterView>,
        authenticators: Seq<AuthenticatorSpec>,
    },
    Unwrapping { upgrade: UpgradeStateView, context: UnwrapContextView },
    Storing(StoreNewKeyStateView),
}

impl DeepView for KeyCreationState {
    type V = KeyCreationStateView;

    open spec fn deep_view(&self) -> KeyCreationStateView {
        match self {
            KeyCreationState::AuthorizingGeneration {
                security_level,
                key,
                params,
                entropy,
            } => KeyCreationStateView::AuthorizingGeneration {
                security_level: *security_level,
                key: key.deep_view(),
                params: params.deep_view(),
                entropy: entropy.deep_view(),
            },
            KeyCreationState::AddingEntropy {
                security_level,
                key,
                params,
            } => KeyCreationStateView::AddingEntropy {
                security_level: *security_level,
                key: key.deep_view(),
                params: params.deep_view(),
            },
            KeyCreationState::Creating { security_level, key } => KeyCreationStateView::Creating {
                security_level: *security_level,
                key: key.deep_view(),
            },
            KeyCreationState::AuthorizingImport {
                security_level,
                key,
                params,
                key_data,
            } => KeyCreationStateView::AuthorizingImport {
                security_level: *security_level,
                key: key.deep_view(),
                params: params.deep_view(),
                key_data: key_data.deep_view(),
            },
            KeyCreationState::AuthorizingUnwrap {
                security_level,
                caller_uid,
                key,
                wrapped_data,
                wrapping_key,
                masking_key,
                params,
                authenticators,
            } => KeyCreationStateView::AuthorizingUnwrap {
                security_level: *security_level,
                caller_uid: *caller_uid,
                key: key.deep_view(),
                wrapped_data: wrapped_data.deep_view(),
                wrapping_key: wrapping_key.deep_view(),
                masking_key: masking_key.deep_view(),
                params: params.deep_view(),
                authenticators: authenticators@,
            },
            KeyCreationState::LoadingWrappingKey {
                security_level,
                key,
                wrapped_data,
                masking_key,
                params,
                authenticators,
            } => KeyCreationStateView::LoadingWrappingKey {
                security_level: *security_level,
                key: key.deep_view(),
                wrapped_data: wrapped_data.deep_view(),
                masking_key: masking_key.deep_view(),
                params: params.deep_view(),
                authenticators: authenticators@,
            },
            KeyCreationState::Unwrapping { upgrade, context } => KeyCreationStateView::Unwrapping {
                upgrade: upgrade.deep_view(),
                context: context.deep_view(),
            },
            KeyCreationState::Storing(state) => KeyCreationStateView::Storing(state.deep_view()),
        }
    }
}

/// A step of the creation of a key.
pub type KeyCreationStep = Step<KeyCreationState, Action, KeyMetadata>;

pub type KeyCreationStepView = StepView<KeyCreationStateView, ActionView, KeyMetadataView>;

/// The question every creation puts to the access gate first: may the caller
/// rebind the alias of the new key?
pub open spec fn rebind_check(key: KeyDescriptorView) -> ActionView {
    ActionView::CheckKeyPermission { perm: KeyPerm::Rebind, key }
}

/// The first step of a generation by the caller `caller_uid`. A descriptor
/// that asks for a stored key without an alias is refused with the argument
/// error before anyone is asked anything.
pub open spec fn generate_key_start(
    security_level: SecurityLevel,
    caller_uid: u32,
    key: KeyDescriptorView,
    params: Seq<KeyParameterView>,
    entropy: Seq<u8>,
) -> KeyCreationStepView {
    if lacks_alias(key) {
        StepView::Done(Err(Error::spec_invalid_argument()))
    } else {
        let key = resolved_descriptor(key, caller_uid);
        StepView::Perform(
            KeyCreationStateView::AuthorizingGeneration { security_level, key, params, entropy },
            rebind_check(key),
        )
    }
}

/// The first step of an import by the caller `caller_uid`. A descriptor that
/// asks for a stored key without an alias is refused with the argument error
/// before anyone is asked anything.
pub open spec fn import_key_start(
    security_level: SecurityLevel,
    caller_uid: u32,
    key: KeyDescriptorView,
    params: Seq<KeyParameterView>,
    key_data: Seq<u8>,
) -> KeyCreationStepView {
    if lacks_alias(key) {
        StepView::Done(Err(Error::spec_invalid_argument()))
    } else {
        let key = resolved_descriptor(key, caller_uid);
        StepView::Perform(
            KeyCreationStateView::AuthorizingImport { security_level, key, params, key_data },
            rebind_check(key),
        )
    }
}

/// The first step of the import of a wrapped key by the caller `caller_uid`.
/// The request is refused with the argument error, before anyone is asked
/// anything, if the descriptor asks for a stored key without an alias, if the
/// wrapping key is a blob the caller holds, or if the descriptor carries no
/// wrapped key data.
pub open spec fn import_wrapped_key_start(
    security_level: SecurityLevel,
    caller_uid: u32,
    key: KeyDescriptorView,
    wrapping_key: KeyDescriptorView,
    masking_key: Option<Seq<u8>>,
    params: Seq<KeyParameterView>,
    authenticators: Seq<AuthenticatorSpec>,
) -> KeyCreationStepView {
    if lacks_alias(key) || wrapping_key.domain == Domain::Blob {
        StepView::Done(Err(Error::spec_invalid_argument()))
    } else {
        match key.blob {
            None => StepView::Done(Err(Error::spec_invalid_argument())),
            Some(wrapped_data) => {
                let key = resolved_descriptor(key, caller_uid);
                StepView::Perform(
                    KeyCreationStateView::AuthorizingUnwrap {
                        security_level,
                        caller_uid,
                        key,
                        wrapped_data,
                        wrapping_key,
                        masking_key,
                        params,
                        authenticators,
                    },
                    rebind_check(key),
                )
            },
        }
    }
}

/// A step of the persistence, as a step of the creation.
pub open spec fn storing_step(step: StoreNewKeyStepView) -> KeyCreationStepView {
    match step {
        StepView::Perform(state, action) => StepView::Perform(
            KeyCreationStateView::Storing(state),
            action,
        ),
        StepView::Done(result) => StepView::Done(result),
    }
}

/// What follows the creation of a key by the engine: its persistence under
/// the descriptor of the request, with the certificate chain it came with.
pub open spec fn key_created(
    security_level: SecurityLevel,
    key: KeyDescriptorView,
    created: KeyCreationResultView,
) -> KeyCreationStepView {
    storing_step(
        store_new_key_start(
            security_level,
            key,
            created.key_characteristics,
            Some(created.certificate_chain),
            created.key_blob,
        ),
    )
}

/// The unwrap on the wrapping key blob `wrapping_key_blob`.
pub open spec fn unwrap_action(context: UnwrapContextView, wrapping_key_blob: Seq<u8>) -> ActionView {
    ActionView::ImportWrappedKey {
        wrapped_key_data: context.wrapped_data,
        wrapping_key_blob,
        masking_key: context.masking_key,
        params: context.params,
        password_sid: context.password_sid,
        biometric_sid: context.biometric_sid,
    }
}

/// What a wrapped import does with a step of the upgrade-retry protocol: an
/// attempt is an unwrap with the blob of the attempt as the wrapping key; an
/// upgrade and the write of the upgraded blob are passed on; once the
/// protocol has ended with the engine's answer, the unwrapped key is
/// persisted, without certificates.
pub open spec fn unwrap_step(
    context: UnwrapContextView,
    step: UpgradeStepView<KeyCreationResultView>,
) -> KeyCreationStepView {
    match step {
        StepView::Perform(upgrade, UpgradeActionView::Attempt { blob }) => StepView::Perform(
            KeyCreationStateView::Unwrapping { upgrade, context },
            unwrap_action(context, blob),
        ),
        StepView::Perform(upgrade, UpgradeActionView::UpgradeKey { blob, params }) => StepView::Perform(
            KeyCreationStateView::Unwrapping { upgrade, context },
            ActionView::UpgradeKey { key_blob: blob, params },
        ),
        StepView::Perform(
            upgrade,
            UpgradeActionView::InsertBlob { key_id, blob, security_level },
        ) => StepView::Perform(
            KeyCreationStateView::Unwrapping { upgrade, context },
            ActionView::InsertBlob { key_id, kind: SubComponentType::KmBlob, blob, security_level },
        ),
        StepView::Done(Ok((created, _))) => storing_step(
            store_new_key_start(
                context.security_level,
                context.key,
                created.key_characteristics,
                None,
                created.key_blob,
            ),
        ),
        StepView::Done(Err(e)) => StepView::Done(Err(e)),
    }
}

impl KeyCreationStateView {
    /// The step that follows when `event` answers the call of this state.
    ///
    /// - A denied rebind permission ends the request with that error.
    /// - A generation hands the caller's entropy to the engine and then has
    ///   it generate the key; an engine error ends the request unchanged.
    /// - An import derives the wire format from the parameters; where they
    ///   give none the request fails with the argument error and the engine
    ///   is not asked.
    /// - A wrapped import loads the wrapping key, for which the caller needs
    ///   the use permission; a wrapping key without a blob is an internal
    ///   error; without a password or without a fingerprint authenticator
    ///   the request fails with the argument error. Then the unwrap runs in
    ///   the upgrade-retry protocol on the blob of the wrapping key, under
    ///   the hold on its key id and with no parameters for an upgrade.
    /// - What the engine created is persisted.
    /// - An answer to another call ends the request with the internal error.
    pub open spec fn resume(self, event: EventView) -> KeyCreationStepView {
        match (self, event) {
            (
                KeyCreationStateView::AuthorizingGeneration { security_level, key, params, entropy },
                EventView::Completed(Ok(_)),
            ) => StepView::Perform(
                KeyCreationStateView::AddingEntropy { security_level, key, params },
                ActionView::AddRngEntropy { entropy },
            ),
            (
                KeyCreationStateView::AuthorizingGeneration { .. },
                EventView::Completed(Err(e)),
            ) => StepView::Done(Err(e)),
            (
                KeyCreationStateView::AddingEntropy { security_level, key, params },
                EventView::Completed(Ok(_)),
            ) => StepView::Perform(
                KeyCreationStateView::Creating { security_level, key },
                ActionView::GenerateKey { params },
            ),
            (
                KeyCreationStateView::AddingEntropy { .. },
                EventView::Completed(Err(e)),
            ) => StepView::Done(Err(e)),
            (
                KeyCreationStateView::AuthorizingImport { security_level, key, params, key_data },
                EventView::Completed(Ok(_)),
            ) => match import_format(params) {
                Ok(format) => StepView::Perform(
                    KeyCreationStateView::Creating { security_level, key },
                    ActionView::ImportKey { params, format, key_data },
                ),
                Err(e) => StepView::Done(Err(e)),
            },
            (
                KeyCreationStateView::AuthorizingImport { .. },
                EventView::Completed(Err(e)),
            ) => StepView::Done(Err(e)),
            (
                KeyCreationStateView::Creating { security_level, key },
                EventView::KeyCreated(Ok(created)),
            ) => key_created(security_level, key, created),
            (
                KeyCreationStateView::Creating { .. },
                EventView::KeyCreated(Err(e)),
            ) => StepView::Done(Err(e)),
            (
                KeyCreationStateView::AuthorizingUnwrap {
                    security_level,
                    caller_uid,
                    key,
                    wrapped_data,
                    wrapping_key,
                    masking_key,
                    params,
                    authenticators,
                },
                EventView::Completed(Ok(_)),
            ) => StepView::Perform(
                KeyCreationStateView::LoadingWrappingKey {
                    security_level,
                    key,
                    wrapped_data,
                    masking_key,
                    params,
                    authenticators,
                },
                ActionView::LoadKeyEntry {
                    key: wrapping_key,
                    load_bits: KeyEntryLoadBits::Km,
                    caller_uid,
                    perm: KeyPerm::Use,
                },
            ),
            (
                KeyCreationStateView::AuthorizingUnwrap { .. },
                EventView::Completed(Err(e)),
            ) => StepView::Done(Err(e)),
            (
                KeyCreationStateView::LoadingWrappingKey {
                    security_level,
                    key,
                    wrapped_data,
                    masking_key,
                    params,
                    authenticators,
                },
                EventView::KeyEntryLoaded(Ok((guard, entry))),
            ) => match (
                entry.km_blob,
                first_sid(authenticators, HardwareAuthenticatorType(AUTHENTICATOR_PASSWORD)),
                first_sid(
                    authenticators,
                    HardwareAuthenticatorType(AUTHENTICATOR_FINGERPRINT),
                ),
            ) {
                (None, _, _) => StepView::Done(Err(Error::spec_sys())),
                (Some(wrapping_key_blob), Some(password_sid), Some(biometric_sid)) => unwrap_step(
                    UnwrapContextView {
                        security_level,
                        key,
                        wrapped_data,
                        masking_key: masking_key_or_zeros(masking_key),
                        params,
                        password_sid,
                        biometric_sid,
                    },
                    upgrade_start(security_level, Some(guard), wrapping_key_blob, Seq::empty()),
                ),
                _ => StepView::Done(Err(Error::spec_invalid_argument())),
            },
            (
                KeyCreationStateView::LoadingWrappingKey { .. },
                EventView::KeyEntryLoaded(Err(e)),
            ) => StepView::Done(Err(e)),
            (
                KeyCreationStateView::Unwrapping { upgrade, context },
                EventView::KeyCreated(result),
            ) => unwrap_step(context, upgrade.resume(UpgradeEventView::Attempted(result))),
            (
                KeyCreationStateView::Unwrapping { upgrade, context },
                EventView::KeyUpgraded(result),
            ) => unwrap_step(context, upgrade.resume(UpgradeEventView::Upgraded(result))),
            (
                KeyCreationStateView::Unwrapping { upgrade, context },
                EventView::Completed(result),
            ) => unwrap_step(context, upgrade.resume(UpgradeEventView::Persisted(result))),
            (KeyCreationStateView::Storing(state), event) => storing_step(state.resume(event)),
            _ => StepView::Done(Err(Error::spec_sys())),
        }
    }
}

fn storing(step: StoreNewKeyStep) -> (r: KeyCreationStep)
    ensures
        r.deep_view() == storing_step(step.deep_view()),
{
    match step {
        Step::Perform(state, action) => Step::Perform(KeyCreationState::Storing(state), action),
        Step::Done(result) => Step::Done(result),
    }
}

fn unwrap_of(context: &UnwrapContext, wrapping_key_blob: Vec<u8>) -> (action: Action)
    ensures
        action.deep_view() == unwrap_action(context.deep_view(), wrapping_key_blob.deep_view()),
{
    Action::ImportWrappedKey {
        wrapped_key_data: crate::keymint::clone_bytes(&context.wrapped_data),
        wrapping_key_blob,
        masking_key: crate::keymint::clone_bytes(&context.masking_key),
        params: crate::keymint::clone_parameters(&context.params),
        password_sid: context.password_sid,
        biometric_sid: context.biometric_sid,
    }
}

fn follow(context: UnwrapContext, step: UpgradeStep<KeyCreationResult>) -> (r: KeyCreationStep)
    ensures
        r.deep_view() == unwrap_step(context.deep_view(), step.deep_view()),
{
    match step {
        Step::Perform(upgrade, UpgradeAction::Attempt { blob }) => {
            let action = unwrap_of(&context, blob);
            Step::Perform(KeyCreationState::Unwrapping { upgrade, context }, action)
        },
        Step::Perform(upgrade, UpgradeAction::UpgradeKey { blob, params }) => Step::Perform(
            KeyCreationState::Unwrapping { upgrade, context },
            Action::UpgradeKey { key_blob: blob, params },
        ),
        Step::Perform(upgrade, UpgradeAction::InsertBlob { key_id, blob, security_level }) => {
            Step::Perform(
                KeyCreationState::Unwrapping { upgrade, context },
                Action::InsertBlob { key_id, kind: SubComponentType::KmBlob, blob, security_level },
            )
        },
        Step::Done(Ok((created, _))) => storing(
            StoreNewKeyState::start(
                context.security_level,
                context.key,
                created.key_characteristics,
                None,
                created.key_blob,
            ),
        ),
        Step::Done(Err(e)) => Step::Done(Err(e)),
    }
}

impl KeyCreationState {
    /// Resumes the request with the answer to the call it asked for.
    pub fn resume(self, event: Event) -> (step: KeyCreationStep)
        ensures
            step.deep_view() == self.deep_view().resume(event.deep_view()),
    {
        match self {
            KeyCreationState::AuthorizingGeneration {
                security_level,
                key,
                params,
                entropy,
            } => match event {
                Event::Completed(Ok(_)) => Step::Perform(
                    KeyCreationState::AddingEntropy { security_level, key, params },
                    Action::AddRngEntropy { entropy },
                ),
                Event::Completed(Err(e)) => Step::Done(Err(e)),
                _ => Step::Done(Err(Error::sys())),
            },
            KeyCreationState::AddingEntropy { security_level, key, params } => match event {
                Event::Completed(Ok(_)) => Step::Perform(
                    KeyCreationState::Creating { security_level, key },
                    Action::GenerateKey { params },
                ),
                Event::Completed(Err(e)) => Step::Done(Err(e)),
                _ => Step::Done(Err(Error::sys())),
            },
            KeyCreationState::AuthorizingImport {
                security_level,
                key,
                params,
                key_data,
            } => match event {
                Event::Completed(Ok(_)) => match find_import_format(&params) {
                    Ok(format) => Step::Perform(
                        KeyCreationState::Creating { security_level, key },
                        Action::ImportKey { params, format, key_data },
                    ),
                    Err(e) => Step::Done(Err(e)),
                },
                Event::Completed(Err(e)) => Step::Done(Err(e)),
                _ => Step::Done(Err(Error::sys())),
            },
            KeyCreationState::Creating { security_level, key } => match event {
                Event::KeyCreated(Ok(created)) => storing(
                    StoreNewKeyState::start(
                        security_level,
                        key,
                        created.key_characteristics,
                        Some(created.certificate_chain),
                        created.key_blob,
                    ),
                ),
                Event::KeyCreated(Err(e)) => Step::Done(Err(e)),
                _ => Step::Done(Err(Error::sys())),
            },
            KeyCreationState::AuthorizingUnwrap {
                security_level,
                caller_uid,
                key,
                wrapped_data,
                wrapping_key,
                masking_key,
                params,
                authenticators,
            } => match event {
                Event::Completed(Ok(_)) => Step::Perform(
                    KeyCreationState::LoadingWrappingKey {
                        security_level,
                        key,
                        wrapped_data,
                        masking_key,
                        params,
                        authenticators,
                    },
                    Action::LoadKeyEntry {
                        key: wrapping_key,
                        load_bits: KeyEntryLoadBits::Km,
                        caller_uid,
                        perm: KeyPerm::Use,
                    },
                ),
                Event::Completed(Err(e)) => Step::Done(Err(e)),
                _ => Step::Done(Err(Error::sys())),
            },
            KeyCreationState::LoadingWrappingKey {
                security_level,
                key,
                wrapped_data,
                masking_key,
                params,
                authenticators,
            } => match event {
                Event::KeyEntryLoaded(Ok((guard, entry))) => {
                    let mut entry = entry;
                    let wrapping_key_blob = match entry.take_km_blob() {
                        Some(blob) => blob,
                        None => {
                            return Step::Done(Err(Error::sys()));
                        },
                    };
                    let password_sid = match find_sid(
                        &authenticators,
                        HardwareAuthenticatorType(AUTHENTICATOR_PASSWORD),
                    ) {
                        Some(sid) => sid,
                        None => {
                            return Step::Done(Err(Error::invalid_argument()));
                        },
                    };
                    let biometric_sid = match find_sid(
                        &authenticators,
                        HardwareAuthenticatorType(AUTHENTICATOR_FINGERPRINT),
                    ) {
                        Some(sid) => sid,
                        None => {
                            return Step::Done(Err(Error::invalid_argument()));
                        },
                    };
                    let context = UnwrapContext {
                        security_level,
                        key,
                        wrapped_data,
                        masking_key: or_zeros(masking_key),
                        params,
                        password_sid,
                        biometric_sid,
                    };
                    let no_parameters: Vec<KeyParameter> = Vec::new();
                    assert(no_parameters.deep_view() =~= Seq::<KeyParameterView>::empty());
                    follow(
                        context,
                        UpgradeState::start(
                            security_level,
                            Some(guard),
                            wrapping_key_blob,
                            no_parameters,
                        ),
                    )
                },
                Event::KeyEntryLoaded(Err(e)) => Step::Done(Err(e)),
                _ => Step::Done(Err(Error::sys())),
            },
            KeyCreationState::Unwrapping { upgrade, context } => match event {
                Event::KeyCreated(result) => follow(
                    context,
                    upgrade.resume(UpgradeEvent::Attempted(result)),
                ),
                Event::KeyUpgraded(result) => follow(
                    context,
                    upgrade.resume(UpgradeEvent::Upgraded(result)),
                ),
                Event::Completed(result) => follow(
                    context,
                    upgrade.resume(UpgradeEvent::Persisted(result)),
                ),
                _ => Step::Done(Err(Error::sys())),
            },
            KeyCreationState::Storing(state) => storing(state.resume(event)),
        }
    }
}

/// The step a creation has reached after the answers `events`.
pub open spec fn key_creation_run(step: KeyCreationStepView, events: Seq<EventView>) -> KeyCreationStepView {
    run(|s: KeyCreationStateView, e: EventView| s.resume(e), step, events)
}

/// The calls a creation has asked for while it took the answers `events`.
pub open spec fn key_creation_performed(step: KeyCreationStepView, events: Seq<EventView>) -> Seq<
    ActionView,
> {
    performed(|s: KeyCreationStateView, e: EventView| s.resume(e), step, events)
}

/// The key store after a creation took the answers `events`.
pub open spec fn key_creation_store_after(
    store: KeyStoreModel,
    step: KeyCreationStepView,
    events: Seq<EventView>,
) -> KeyStoreModel {
    store_after(
        |s: KeyCreationStateView, e: EventView| s.resume(e),
        |st: KeyStoreModel, a: ActionView, e: EventView| store_effect(st, a, e),
        store,
        step,
        events,
    )
}

/// A creation under a descriptor that asks for a stored key without naming an
/// alias fails with the argument error, be it a generation, an import or a
/// wrapped import, and whatever else the request holds. It fails at its first
/// step: no collaborator is asked anything, so the engine is never called.
pub proof fn creation_without_alias_is_refused(
    security_level: SecurityLevel,
    caller_uid: u32,
    key: KeyDescriptorView,
    wrapping_key: KeyDescriptorView,
    masking_key: Option<Seq<u8>>,
    params: Seq<KeyParameterView>,
    data: Seq<u8>,
    authenticators: Seq<AuthenticatorSpec>,
    events: Seq<EventView>,
)
    requires
        key.domain != Domain::Blob,
        key.alias is None,
    ensures
        ({
            let refused = KeyCreationStepView::Done(Err(Error::spec_invalid_argument()));
            let generation = generate_key_start(security_level, caller_uid, key, params, data);
            let import = import_key_start(security_level, caller_uid, key, params, data);
            let unwrap = import_wrapped_key_start(
                security_level,
                caller_uid,
                key,
                wrapping_key,
                masking_key,
                params,
                authenticators,
            );
            &&& generation == refused
            &&& import == refused
            &&& unwrap == refused
            &&& key_creation_run(generation, events) == refused
            &&& key_creation_run(import, events) == refused
            &&& key_creation_run(unwrap, events) == refused
            &&& key_creation_performed(generation, events).len() == 0
            &&& key_creation_performed(import, events).len() == 0
            &&& key_creation_performed(unwrap, events).len() == 0
        }),
{
    reveal_with_fuel(run, 2);
    reveal_with_fuel(performed, 2);
}

/// The first answer grants the permission asked for, and the second is a key
/// entry that was loaded with its key blob.
pub open spec fn granted_and_loaded(events: Seq<EventView>) -> bool {
    &&& events.len() >= 2
    &&& events[0] matches EventView::Completed(Ok(_))
    &&& events[1] matches EventView::KeyEntryLoaded(Ok(loaded))
    &&& loaded.1.km_blob is Some
}

/// A wrapped import whose authenticators lack a password secure id or a
/// fingerprint secure id never reaches the engine, writes nothing to the key
/// store and never succeeds, whatever its other arguments and whatever the
/// collaborators answer. The rebind permission and the wrapping key are asked
/// for first; once the permission is granted and the wrapping key is loaded
/// with its blob, the request fails with the argument error.
pub proof fn unwrap_without_authenticator_is_refused(
    security_level: SecurityLevel,
    caller_uid: u32,
    key: KeyDescriptorView,
    wrapping_key: KeyDescriptorView,
    masking_key: Option<Seq<u8>>,
    params: Seq<KeyParameterView>,
    authenticators: Seq<AuthenticatorSpec>,
    events: Seq<EventView>,
)
    requires
        first_sid(authenticators, HardwareAuthenticatorType(AUTHENTICATOR_PASSWORD)) is None
            || first_sid(authenticators, HardwareAuthenticatorType(AUTHENTICATOR_FINGERPRINT))
            is None,
    ensures
        ({
            let start = import_wrapped_key_start(
                security_level,
                caller_uid,
                key,
                wrapping_key,
                masking_key,
                params,
                authenticators,
            );
            let calls = key_creation_performed(start, events);
            let end = key_creation_run(start, events);
            &&& !(end matches StepView::Done(Ok(_)))
            &&& forall|i: int|
                0 <= i < calls.len() ==> !(#[trigger] calls[i]).is_engine_call()
                    && !calls[i].is_store_write()
            &&& start is Perform && granted_and_loaded(events) ==> end
                == KeyCreationStepView::Done(Err(Error::spec_invalid_argument()))
        }),
{
    reveal_with_fuel(run, 4);
    reveal_with_fuel(performed, 4);
}

/// While a creation is storing its key, it is the persistence of that key:
/// it takes the same steps and leaves the key store the same.
pub proof fn storing_is_persistence(
    step: StoreNewKeyStepView,
    store: KeyStoreModel,
    events: Seq<EventView>,
)
    ensures
        key_creation_run(storing_step(step), events) == storing_step(
            store_new_key_run(step, events),
        ),
        key_creation_store_after(store, storing_step(step), events) == store_new_key_store_after(
            store,
            step,
            events,
        ),
    decreases events.len(),
{
    reveal_with_fuel(run, 2);
    reveal_with_fuel(store_after, 2);
    if events.len() > 0 {
        match step {
            StepView::Perform(state, action) => {
                storing_is_persistence(
                    state.resume(events[0]),
                    store_effect(store, action, events[0]),
                    events.drop_first(),
                );
            },
            StepView::Done(_) => {},
        }
    }
}

/// What holds of a key that was created and stored: it is named in the key-id
/// domain, the key store holds the engine's blob under that id, and the alias
/// of the request names that id.
pub open spec fn created_key_is_stored(
    requested: KeyDescriptorView,
    created: KeyCreationResultView,
    metadata: KeyMetadataView,
    after: KeyStoreModel,
) -> bool {
    &&& metadata.key.domain == Domain::KeyId
    &&& after.km_blob(metadata.key.nspace) == Some(created.key_blob)
    &&& requested.alias is Some
    &&& after.lookup(requested.domain, requested.nspace, requested.alias->Some_0) == Some(
        metadata.key.nspace,
    )
}

/// Whenever the generation of a key outside the blob domain succeeds, the
/// engine's answer was the third answer taken, the key is named in the key-id
/// domain, loading that id from the key store yields the blob the engine
/// returned, and the alias names it in the namespace of the request, which
/// for the domain of calling principals is the caller's own.
pub proof fn generated_key_is_stored(
    security_level: SecurityLevel,
    caller_uid: u32,
    key: KeyDescriptorView,
    params: Seq<KeyParameterView>,
    entropy: Seq<u8>,
    store: KeyStoreModel,
    events: Seq<EventView>,
)
    requires
        key.domain != Domain::Blob,
        key_creation_run(
            generate_key_start(security_level, caller_uid, key, params, entropy),
            events,
        ) matches StepView::Done(Ok(_)),
    ensures
        ({
            let start = generate_key_start(security_level, caller_uid, key, params, entropy);
            &&& events.len() >= 3
            &&& events[2] matches EventView::KeyCreated(Ok(created))
            &&& created_key_is_stored(
                resolved_descriptor(key, caller_uid),
                created,
                key_creation_run(start, events)->Done_0->Ok_0,
                key_creation_store_after(store, start, events),
            )
        }),
{
    reveal_with_fuel(run, 4);
    reveal_with_fuel(store_after, 4);
    let e1 = events.drop_first();
    let e2 = e1.drop_first();
    let e3 = e2.drop_first();
    let created = events[2]->KeyCreated_0->Ok_0;
    let requested = resolved_descriptor(key, caller_uid);
    let persistence = store_new_key_start(
        security_level,
        requested,
        created.key_characteristics,
        Some(created.certificate_chain),
        created.key_blob,
    );
    storing_is_persistence(persistence, store, e3);
    stored_key_is_what_the_engine_returned(
        security_level,
        requested,
        created.key_characteristics,
        Some(created.certificate_chain),
        created.key_blob,
        store,
        e3,
    );
}

/// Whenever the import of a key outside the blob domain succeeds, the
/// engine's answer was the second answer taken, the key is named in the
/// key-id domain, loading that id from the key store yields the blob the
/// engine returned, and the alias names it.
pub proof fn imported_key_is_stored(
    security_level: SecurityLevel,
    caller_uid: u32,
    key: KeyDescriptorView,
    params: Seq<KeyParameterView>,
    key_data: Seq<u8>,
    store: KeyStoreModel,
    events: Seq<EventView>,
)
    requires
        key.domain != Domain::Blob,
        key_creation_run(
            import_key_start(security_level, caller_uid, key, params, key_data),
            events,
        ) matches StepView::Done(Ok(_)),
    ensures
        ({
            let start = import_key_start(security_level, caller_uid, key, params, key_data);
            &&& events.len() >= 2
            &&& events[1] matches EventView::KeyCreated(Ok(created))
            &&& created_key_is_stored(
                resolved_descriptor(key, caller_uid),
                created,
                key_creation_run(start, events)->Done_0->Ok_0,
                key_creation_store_after(store, start, events),
            )
        }),
{
    reveal_with_fuel(run, 3);
    reveal_with_fuel(store_after, 3);
    let e1 = events.drop_first();
    let e2 = e1.drop_first();
    let created = events[1]->KeyCreated_0->Ok_0;
    let requested = resolved_descriptor(key, caller_uid);
    let persistence = store_new_key_start(
        security_level,
        requested,
        created.key_characteristics,
        Some(created.certificate_chain),
        created.key_blob,
    );
    storing_is_persistence(persistence, store, e2);
    stored_key_is_what_the_engine_returned(
        security_level,
        requested,
        created.key_characteristics,
        Some(created.certificate_chain),
        created.key_blob,
        store,
        e2,
    );
}

/// The answer at `position` is a key the engine created, and that key is
/// stored as `created_key_is_stored` says.
pub open spec fn stored_as_created_at(
    events: Seq<EventView>,
    position: int,
    requested: KeyDescriptorView,
    metadata: KeyMetadataView,
    after: KeyStoreModel,
) -> bool {
    &&& 0 <= position < events.len()
    &&& events[position] matches EventView::KeyCreated(Ok(created))
    &&& created_key_is_stored(requested, created, metadata, after)
}

/// Whenever the import of a wrapped key outside the blob domain succeeds, the
/// key is named in the key-id domain, loading that id from the key store
/// yields the blob the engine returned for the unwrap that succeeded, and the
/// alias names it. The unwrap that succeeded was either the first, answered
/// third, or the one retried after the upgrade of the wrapping key blob,
/// answered sixth.
pub proof fn unwrapped_key_is_stored(
    security_level: SecurityLevel,
    caller_uid: u32,
    key: KeyDescriptorView,
    wrapping_key: KeyDescriptorView,
    masking_key: Option<Seq<u8>>,
    params: Seq<KeyParameterView>,
    authenticators: Seq<AuthenticatorSpec>,
    store: KeyStoreModel,
    events: Seq<EventView>,
)
    requires
        key.domain != Domain::Blob,
        key_creation_run(
            import_wrapped_key_start(
                security_level,
                caller_uid,
                key,
                wrapping_key,
                masking_key,
                params,
                authenticators,
            ),
            events,
        ) matches StepView::Done(Ok(_)),
    ensures
        ({
            let start = import_wrapped_key_start(
                security_level,
                caller_uid,
                key,
                wrapping_key,
                masking_key,
                params,
                authenticators,
            );
            let requested = resolved_descriptor(key, caller_uid);
            let metadata = key_creation_run(start, events)->Done_0->Ok_0;
            let after = key_creation_store_after(store, start, events);
            ||| stored_as_created_at(events, 2, requested, metadata, after)
            ||| stored_as_created_at(events, 5, requested, metadata, after)
        }),
{
    reveal_with_fuel(run, 7);
    reveal_with_fuel(store_after, 7);
    let e1 = events.drop_first();
    let e2 = e1.drop_first();
    let e3 = e2.drop_first();
    let requested = resolved_descriptor(key, caller_uid);
    if events[2] matches EventView::KeyCreated(Ok(_)) {
        let created = events[2]->KeyCreated_0->Ok_0;
        let persistence = store_new_key_start(
            security_level,
            requested,
            created.key_characteristics,
            None,
            created.key_blob,
        );
        storing_is_persistence(persistence, store, e3);
        stored_key_is_what_the_engine_returned(
            security_level,
            requested,
            created.key_characteristics,
            None,
            created.key_blob,
            store,
            e3,
        );
    } else {
        let e4 = e3.drop_first();
        let e5 = e4.drop_first();
        let e6 = e5.drop_first();
        let guard = events[1]->KeyEntryLoaded_0->Ok_0.0;
        let upgraded_blob = events[3]->KeyUpgraded_0->Ok_0;
        let created = events[5]->KeyCreated_0->Ok_0;
        let upgraded = store.insert_blob(guard.id(), SubComponentType::KmBlob, upgraded_blob);
        let persistence = store_new_key_start(
            security_level,
            requested,
            created.key_characteristics,
            None,
            created.key_blob,
        );
        storing_is_persistence(persistence, upgraded, e6);
        stored_key_is_what_the_engine_returned(
            security_level,
            requested,
            created.key_characteristics,
            None,
            created.key_blob,
            upgraded,
            e6,
        );
    }
}

impl KeyCreationStateView {
    /// The key ids the creation holds in this state: that of the wrapping
    /// key while it unwraps, that of the new entry while it stores.
    pub open spec fn holds(self) -> Set<i64> {
        match self {
            KeyCreationStateView::Unwrapping { upgrade, .. } => match upgrade.hold() {
                Some(guard) => set![guard.id()],
                None => Set::empty(),
            },
            KeyCreationStateView::Storing(state) => match state.stage {
                StoreStage::CreatingEntry => Set::empty(),
                StoreStage::InsertingBlob(guard) => set![guard.id()],
                StoreStage::InsertingCert(guard) => set![guard.id()],
                StoreStage::InsertingCertChain(guard) => set![guard.id()],
                StoreStage::InsertingParameters(guard) => set![guard.id()],
                StoreStage::RebindingAlias(guard) => set![guard.id()],
            },
            _ => Set::empty(),
        }
    }
}

/// The step asks for a call that writes only to an entry the state holds, and
/// the state holds nothing that is not in `held`.
pub open spec fn step_within_holds(step: KeyCreationStepView, held: Set<i64>) -> bool {
    match step {
        StepView::Done(_) => true,
        StepView::Perform(state, action) => {
            &&& state.holds().subset_of(held)
            &&& action.writes_within(state.holds())
        },
    }
}

/// From a step whose call writes only where the state holds, every later
/// call of the creation writes only to an entry whose key id is held at the
/// time of the call.
pub proof fn creation_keeps_within_holds(
    step: KeyCreationStepView,
    held: Set<i64>,
    events: Seq<EventView>,
)
    requires
        step_within_holds(step, held),
    ensures
        writes_under_holds(
            |s: KeyCreationStateView, e: EventView| s.resume(e),
            held,
            step,
            events,
        ),
    decreases events.len(),
{
    reveal_with_fuel(writes_under_holds, 2);
    if events.len() > 0 {
        match step {
            StepView::Done(_) => {},
            StepView::Perform(state, action) => {
                let next = state.resume(events[0]);
                creation_keeps_within_holds(next, events[0].held_with(held), events.drop_first());
            },
        }
    }
}

/// Every creation writes to the key store only under a hold: whatever the
/// collaborators answer, each insertion of a blob, of parameters or of an
/// alias names the key id of a hold that an earlier answer of the same
/// request has handed out, be it the hold on the new entry or the hold on the
/// wrapping key.
pub proof fn creations_write_only_under_holds(
    security_level: SecurityLevel,
    caller_uid: u32,
    key: KeyDescriptorView,
    wrapping_key: KeyDescriptorView,
    masking_key: Option<Seq<u8>>,
    params: Seq<KeyParameterView>,
    data: Seq<u8>,
    authenticators: Seq<AuthenticatorSpec>,
    events: Seq<EventView>,
)
    ensures
        writes_under_holds(
            |s: KeyCreationStateView, e: EventView| s.resume(e),
            Set::empty(),
            generate_key_start(security_level, caller_uid, key, params, data),
            events,
        ),
        writes_under_holds(
            |s: KeyCreationStateView, e: EventView| s.resume(e),
            Set::empty(),
            import_key_start(security_level, caller_uid, key, params, data),
            events,
        ),
        writes_under_holds(
            |s: KeyCreationStateView, e: EventView| s.resume(e),
            Set::empty(),
            import_wrapped_key_start(
                security_level,
                caller_uid,
                key,
                wrapping_key,
                masking_key,
                params,
                authenticators,
            ),
            events,
        ),
{
    creation_keeps_within_holds(
        generate_key_start(security_level, caller_uid, key, params, data),
        Set::empty(),
        events,
    );
    creation_keeps_within_holds(
        import_key_start(security_level, caller_uid, key, params, data),
        Set::empty(),
        events,
    );
    creation_keeps_within_holds(
        import_wrapped_key_start(
            security_level,
            caller_uid,
            key,
            wrapping_key,
            masking_key,
            params,
            authenticators,
        ),
        Set::empty(),
        events,
    );
}

} // verus!
