//! The exchange between the service and its collaborators. The service never
//! calls the access gate, the key store, the crypto engine or the operation
//! registry itself: a request is a state machine whose every step either names
//! the one call to make next or ends the request, and which is resumed with
//! the answer to that call.

use crate::api::{Domain, KeyDescriptor, KeyDescriptorView, OperationSession};
use crate::database::{
    KeyEntry, KeyEntryLoadBits, KeyEntryView, KeyIdGuard, KeyStoreModel, SubComponentType,
};
use crate::error::Error;
use crate::keymint::{
    BeginResult, BeginResultView, EngineOperation, KeyCreationResult, KeyCreationResultView,
    KeyFormat, KeyParameter, KeyParameterView, KeyPurpose, SecurityLevel,
};
use crate::permission::KeyPerm;
use vstd::prelude::*;

verus! {

/// A call on a collaborator.
#[allow(inconsistent_fields)]
#[derive(Debug, PartialEq, Eq)]
pub enum Action {
    /// Access gate: may the caller use `perm` on `key`? No access vector is
    /// handed along.
    CheckKeyPermission { perm: KeyPerm, key: KeyDescriptor },
    /// Key store: load the entry `key` names with the parts `load_bits`
    /// selects, for the caller `caller_uid`, provided that the access gate
    /// lets the caller use `perm` on the key found, given its access vector.
    LoadKeyEntry { key: KeyDescriptor, load_bits: KeyEntryLoadBits, caller_uid: u32, perm: KeyPerm },
    /// Key store: create an entry in this domain and namespace.
    CreateKeyEntry { domain: Domain, nspace: i64 },
    /// Key store: set one part of the entry `key_id`.
    InsertBlob { key_id: i64, kind: SubComponentType, blob: Vec<u8>, security_level: SecurityLevel },
    /// Key store: set the parameters of the entry `key_id`.
    InsertKeyParameters { key_id: i64, params: Vec<crate::key_parameter::KeyParameter> },
    /// Key store: make `alias` in this domain and namespace name the entry
    /// `key_id`.
    RebindAlias { key_id: i64, alias: String, domain: Domain, nspace: i64 },
    /// Crypto engine: mix these bytes into the random number generator.
    AddRngEntropy { entropy: Vec<u8> },
    /// Crypto engine: generate a key.
    GenerateKey { params: Vec<KeyParameter> },
    /// Crypto engine: import key material given in `format`.
    ImportKey { params: Vec<KeyParameter>, format: KeyFormat, key_data: Vec<u8> },
    /// Crypto engine: unwrap and import a wrapped key.
    ImportWrappedKey {
        wrapped_key_data: Vec<u8>,
        wrapping_key_blob: Vec<u8>,
        masking_key: Vec<u8>,
        params: Vec<KeyParameter>,
        password_sid: i64,
        biometric_sid: i64,
    },
    /// Crypto engine: begin an operation, with an empty authentication token.
    Begin { purpose: KeyPurpose, key_blob: Vec<u8>, params: Vec<KeyParameter> },
    /// Crypto engine: upgrade a key blob to the current format.
    UpgradeKey { key_blob: Vec<u8>, params: Vec<KeyParameter> },
    /// Operation registry: evict an operation of the caller `caller_uid`.
    Prune { caller_uid: u32 },
    /// Operation registry: register the engine's operation for the caller
    /// `caller_uid` and wrap it into a session object.
    CreateOperation { operation: EngineOperation, caller_uid: u32 },
}

/// What an [`Action`] holds, as mathematical values.
#[allow(inconsistent_fields)]
pub enum ActionView {
    CheckKeyPermission { perm: KeyPerm, key: KeyDescriptorView },
    LoadKeyEntry {
        key: KeyDescriptorView,
        load_bits: KeyEntryLoadBits,
        caller_uid: u32,
        perm: KeyPerm,
    },
    CreateKeyEntry { domain: Domain, nspace: i64 },
    InsertBlob { key_id: i64, kind: SubComponentType, blob: Seq<u8>, security_level: SecurityLevel },
    InsertKeyParameters { key_id: i64, params: Seq<crate::key_parameter::KeyParameterView> },
    RebindAlias { key_id: i64, alias: Seq<char>, domain: Domain, nspace: i64 },
    AddRngEntropy { entropy: Seq<u8> },
    GenerateKey { params: Seq<KeyParameterView> },
    ImportKey { params: Seq<KeyParameterView>, format: KeyFormat, key_data: Seq<u8> },
    ImportWrappedKey {
        wrapped_key_data: Seq<u8>,
        wrapping_key_blob: Seq<u8>,
        masking_key: Seq<u8>,
        params: Seq<KeyParameterView>,
        password_sid: i64,
        biometric_sid: i64,
    },
    Begin { purpose: KeyPurpose, key_blob: Seq<u8>, params: Seq<KeyParameterView> },
    UpgradeKey { key_blob: Seq<u8>, params: Seq<KeyParameterView> },
    Prune { caller_uid: u32 },
    CreateOperation { operation: EngineOperation, caller_uid: u32 },
}

impl DeepView for Action {
    type V = ActionView;

    open spec fn deep_view(&self) -> ActionView {
        match self {
            Action::CheckKeyPermission { perm, key } => ActionView::CheckKeyPermission {
                perm: *perm,
                key: key.deep_view(),
            },
            Action::LoadKeyEntry { key, load_bits, caller_uid, perm } => ActionView::LoadKeyEntry {
                key: key.deep_view(),
                load_bits: *load_bits,
                caller_uid: *caller_uid,
                perm: *perm,
            },
            Action::CreateKeyEntry { domain, nspace } => ActionView::CreateKeyEntry {
                domain: *domain,
                nspace: *nspace,
            },
            Action::InsertBlob { key_id, kind, blob, security_level } => ActionView::InsertBlob {
                key_id: *key_id,
                kind: *kind,
                blob: blob.deep_view(),
                security_level: *security_level,
            },
            Action::InsertKeyParameters { key_id, params } => ActionView::InsertKeyParameters {
                key_id: *key_id,
                params: params.deep_view(),
            },
            Action::RebindAlias { key_id, alias, domain, nspace } => ActionView::RebindAlias {
                key_id: *key_id,
                alias: alias@,
                domain: *domain,
                nspace: *nspace,
            },
            Action::AddRngEntropy { entropy } => ActionView::AddRngEntropy { entropy: entropy.deep_view() },
            Action::GenerateKey { params } => ActionView::GenerateKey {
                params: params.deep_view(),
            },
            Action::ImportKey { params, format, key_data } => ActionView::ImportKey {
                params: params.deep_view(),
                format: *format,
                key_data: key_data.deep_view(),
            },
            Action::ImportWrappedKey {
                wrapped_key_data,
                wrapping_key_blob,
                masking_key,
                params,
                password_sid,
                biometric_sid,
            } => ActionView::ImportWrappedKey {
                wrapped_key_data: wrapped_key_data.deep_view(),
                wrapping_key_blob: wrapping_key_blob.deep_view(),
                masking_key: masking_key.deep_view(),
                params: params.deep_view(),
                password_sid: *password_sid,
                biometric_sid: *biometric_sid,
            },
            Action::Begin { purpose, key_blob, params } => ActionView::Begin {
                purpose: *purpose,
                key_blob: key_blob.deep_view(),
                params: params.deep_view(),
            },
            Action::UpgradeKey { key_blob, params } => ActionView::UpgradeKey {
                key_blob: key_blob.deep_view(),
                params: params.deep_view(),
            },
            Action::Prune { caller_uid } => ActionView::Prune { caller_uid: *caller_uid },
            Action::CreateOperation { operation, caller_uid } => ActionView::CreateOperation {
                operation: *operation,
                caller_uid: *caller_uid,
            },
        }
    }
}

impl ActionView {
    /// The call goes to the crypto engine.
    pub open spec fn is_engine_call(self) -> bool {
        ||| self is AddRngEntropy
        ||| self is GenerateKey
        ||| self is ImportKey
        ||| self is ImportWrappedKey
        ||| self is Begin
        ||| self is UpgradeKey
    }

    /// The call goes to the key store and may change it.
    pub open spec fn is_store_write(self) -> bool {
        ||| self is CreateKeyEntry
        ||| self is InsertBlob
        ||| self is InsertKeyParameters
        ||| self is RebindAlias
    }

    /// The key id of the entry the call writes to, if it writes to one.
    pub open spec fn written_key_id(self) -> Option<i64> {
        match self {
            ActionView::InsertBlob { key_id, .. } => Some(key_id),
            ActionView::InsertKeyParameters { key_id, .. } => Some(key_id),
            ActionView::RebindAlias { key_id, .. } => Some(key_id),
            _ => None,
        }
    }

    /// The call writes to no entry but those whose key ids are in `held`.
    pub open spec fn writes_within(self, held: Set<i64>) -> bool {
        self.written_key_id() matches Some(key_id) ==> held.contains(key_id)
    }
}

/// The answer of a collaborator to the call that was asked for.
#[derive(Debug, PartialEq, Eq)]
pub enum Event {
    /// The answer to a call that returns nothing: a permission check, added
    /// entropy, an insertion, a rebound alias, a pruning.
    Completed(Result<(), Error>),
    /// The answer to `LoadKeyEntry`: the entry, and the hold on its key id.
    KeyEntryLoaded(Result<(KeyIdGuard, KeyEntry), Error>),
    /// The answer to `CreateKeyEntry`: the hold on the new key id.
    KeyEntryCreated(Result<KeyIdGuard, Error>),
    /// The answer to `GenerateKey`, `ImportKey` and `ImportWrappedKey`.
    KeyCreated(Result<KeyCreationResult, Error>),
    /// The answer to `UpgradeKey`: the upgraded blob.
    KeyUpgraded(Result<Vec<u8>, Error>),
    /// The answer to `Begin`.
    OperationBegun(Result<BeginResult, Error>),
    /// The answer to `CreateOperation`: the session object for the caller.
    OperationCreated(Result<OperationSession, Error>),
}

/// What an [`Event`] holds, as mathematical values.
pub enum EventView {
    Completed(Result<(), Error>),
    KeyEntryLoaded(Result<(KeyIdGuard, KeyEntryView), Error>),
    KeyEntryCreated(Result<KeyIdGuard, Error>),
    KeyCreated(Result<KeyCreationResultView, Error>),
    KeyUpgraded(Result<Seq<u8>, Error>),
    OperationBegun(Result<BeginResultView, Error>),
    OperationCreated(Result<OperationSession, Error>),
}

impl DeepView for Event {
    type V = EventView;

    open spec fn deep_view(&self) -> EventView {
        match self {
            Event::Completed(r) => EventView::Completed(*r),
            Event::KeyEntryLoaded(r) => EventView::KeyEntryLoaded(
                match r {
                    Ok((guard, entry)) => Ok((*guard, entry.deep_view())),
                    Err(e) => Err(*e),
                },
            ),
            Event::KeyEntryCreated(r) => EventView::KeyEntryCreated(*r),
            Event::KeyCreated(r) => EventView::KeyCreated(
                match r {
                    Ok(created) => Ok(created.deep_view()),
                    Err(e) => Err(*e),
                },
            ),
            Event::KeyUpgraded(r) => EventView::KeyUpgraded(
                match r {
                    Ok(blob) => Ok(blob.deep_view()),
                    Err(e) => Err(*e),
                },
            ),
            Event::OperationBegun(r) => EventView::OperationBegun(
                match r {
                    Ok(begun) => Ok(begun.deep_view()),
                    Err(e) => Err(*e),
                },
            ),
            Event::OperationCreated(r) => EventView::OperationCreated(*r),
        }
    }
}

impl EventView {
    /// The key ids in `held`, and the key id of the hold this answer hands
    /// out, if it hands one out.
    pub open spec fn held_with(self, held: Set<i64>) -> Set<i64> {
        match self {
            EventView::KeyEntryLoaded(Ok(loaded)) => held.insert(loaded.0.id()),
            EventView::KeyEntryCreated(Ok(guard)) => held.insert(guard.id()),
            _ => held,
        }
    }
}

/// One step of a request: either the next call to make, with the state to
/// resume with its answer, or the end of the request.
#[derive(Debug, PartialEq, Eq)]
pub enum Step<S, A, T> {
    Perform(S, A),
    Done(Result<T, Error>),
}

/// What a [`Step`] holds, as mathematical values.
pub enum StepView<S, A, T> {
    Perform(S, A),
    Done(Result<T, Error>),
}

impl<S: DeepView, A: DeepView, T: DeepView> DeepView for Step<S, A, T> {
    type V = StepView<S::V, A::V, T::V>;

    open spec fn deep_view(&self) -> StepView<S::V, A::V, T::V> {
        match self {
            Step::Perform(state, action) => StepView::Perform(
                state.deep_view(),
                action.deep_view(),
            ),
            Step::Done(Ok(value)) => StepView::Done(Ok(value.deep_view())),
            Step::Done(Err(e)) => StepView::Done(Err(*e)),
        }
    }
}

/// The step a request has reached once its collaborators have given the
/// answers `events`, in that order, starting from `step`. A finished request
/// takes no further answers.
pub open spec fn run<S, A, E, T>(
    resume: spec_fn(S, E) -> StepView<S, A, T>,
    step: StepView<S, A, T>,
    events: Seq<E>,
) -> StepView<S, A, T>
    decreases events.len(),
{
    if events.len() == 0 {
        step
    } else {
        match step {
            StepView::Done(_) => step,
            StepView::Perform(state, _) => run(
                resume,
                resume(state, events[0]),
                events.drop_first(),
            ),
        }
    }
}

/// The calls that were made, in order, while the request took the answers
/// `events` starting from `step`.
pub open spec fn performed<S, A, E, T>(
    resume: spec_fn(S, E) -> StepView<S, A, T>,
    step: StepView<S, A, T>,
    events: Seq<E>,
) -> Seq<A>
    decreases events.len(),
{
    if events.len() == 0 {
        Seq::empty()
    } else {
        match step {
            StepView::Done(_) => Seq::empty(),
            StepView::Perform(state, action) => seq![action] + performed(
                resume,
                resume(state, events[0]),
                events.drop_first(),
            ),
        }
    }
}

/// The key store after the call `action` was answered with `event`. Only a
/// write that the key store answered with success changes it.
pub open spec fn store_effect(store: KeyStoreModel, action: ActionView, event: EventView) -> KeyStoreModel {
    match (action, event) {
        (
            ActionView::CreateKeyEntry { domain, nspace },
            EventView::KeyEntryCreated(Ok(guard)),
        ) => store.create_key_entry(guard.id(), domain, nspace),
        (
            ActionView::InsertBlob { key_id, kind, blob, security_level },
            EventView::Completed(Ok(_)),
        ) => store.insert_blob(key_id, kind, blob),
        (ActionView::InsertKeyParameters { key_id, params }, EventView::Completed(Ok(_))) => {
            store.insert_keyparameter(key_id, params)
        },
        (
            ActionView::RebindAlias { key_id, alias, domain, nspace },
            EventView::Completed(Ok(_)),
        ) => store.rebind_alias(key_id, alias, domain, nspace),
        _ => store,
    }
}

/// The key store once the request has taken the answers `events` starting
/// from `step`, where `effect` says what one answered call does to it.
pub open spec fn store_after<S, A, E, T>(
    resume: spec_fn(S, E) -> StepView<S, A, T>,
    effect: spec_fn(KeyStoreModel, A, E) -> KeyStoreModel,
    store: KeyStoreModel,
    step: StepView<S, A, T>,
    events: Seq<E>,
) -> KeyStoreModel
    decreases events.len(),
{
    if events.len() == 0 {
        store
    } else {
        match step {
            StepView::Done(_) => store,
            StepView::Perform(state, action) => store_after(
                resume,
                effect,
                effect(store, action, events[0]),
                resume(state, events[0]),
                events.drop_first(),
            ),
        }
    }
}

/// Every call that the request makes while it takes the answers `events`,
/// starting from `step`, writes only to entries whose key ids are held at
/// the time of the call: those in `held`, and those of the holds that the
/// answers before the call have handed out.
pub open spec fn writes_under_holds<S, T>(
    resume: spec_fn(S, EventView) -> StepView<S, ActionView, T>,
    held: Set<i64>,
    step: StepView<S, ActionView, T>,
    events: Seq<EventView>,
) -> bool
    decreases events.len(),
{
    if events.len() == 0 {
        true
    } else {
        match step {
            StepView::Done(_) => true,
            StepView::Perform(state, action) => {
                &&& action.writes_within(held)
                &&& writes_under_holds(
                    resume,
                    events[0].held_with(held),
                    resume(state, events[0]),
                    events.drop_first(),
                )
            },
        }
    }
}

} // verus!
