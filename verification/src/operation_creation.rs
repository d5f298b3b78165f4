//! The creation of an operation: the key is resolved to a blob, the purpose is
//! read from the operation parameters, and the engine is asked to begin,
//! inside the upgrade-retry protocol and with an eviction of one of the
//! caller's operations whenever the engine has no free slot.

use crate::api::{
    CreateOperationResponse, CreateOperationResponseView, Domain, KeyDescriptorView,
    OperationSession,
};
use crate::database::{KeyEntryLoadBits, KeyIdGuard, KeyStoreModel, SubComponentType};
use crate::error::Error;
use crate::exchange::{
    performed, run, store_after, store_effect, Action, ActionView, Event, EventView, Step,
    StepView,
};
use crate::keymint::{
    clone_bytes, clone_parameters, find_integer, integer_of_tag, BeginResult, BeginResultView,
    KeyParameter, KeyParameterView, KeyPurpose, SecurityLevel, Tag, TAG_PURPOSE,
};
use crate::permission::KeyPerm;
use crate::upgrade::{
    upgrade_start, UpgradeAction, UpgradeActionView, UpgradeEvent, UpgradeEventView, UpgradeState,
    UpgradeStateView, UpgradeStep, UpgradeStepView,
};
use vstd::prelude::*;

verus! {

/// The purpose of an operation: the value of the first parameter that carries
/// the purpose tag.
pub open spec fn operation_purpose(operation_parameters: Seq<KeyParameterView>) -> Option<
    KeyPurpose,
> {
    match integer_of_tag(operation_parameters, Tag(TAG_PURPOSE)) {
        Some(purpose) => Some(KeyPurpose(purpose)),
        None => None,
    }
}

/// Reads the purpose of an operation from its parameters.
pub fn find_purpose(operation_parameters: &Vec<KeyParameter>) -> (purpose: Option<KeyPurpose>)
    ensures
        purpose == operation_purpose(operation_parameters.deep_view()),
{
    match find_integer(operation_parameters, Tag(TAG_PURPOSE)) {
        Some(purpose) => Some(KeyPurpose(purpose)),
        None => None,
    }
}

/// What every begin of one request has in common.
#[derive(Debug, PartialEq, Eq)]
pub struct OperationContext {
    /// The calling principal.
    pub caller_uid: u32,
    pub purpose: KeyPurpose,
    pub operation_parameters: Vec<KeyParameter>,
}

/// What an [`OperationContext`] holds, as mathematical values.
pub struct OperationContextView {
    pub caller_uid: u32,
    pub purpose: KeyPurpose,
    pub operation_parameters: Seq<KeyParameterView>,
}

impl DeepView for OperationContext {
    type V = OperationContextView;

    open spec fn deep_view(&self) -> OperationContextView {
        OperationContextView {
            caller_uid: self.caller_uid,
            purpose: self.purpose,
            operation_parameters: self.operation_parameters.deep_view(),
        }
    }
}

/// How far the creation of an operation has come.
#[allow(inconsistent_fields)]
#[derive(Debug, PartialEq, Eq)]
pub enum CreateOperationState {
    /// The access gate is deciding whether the caller may use the blob it
    /// holds itself.
    CheckingPermission {
        security_level: SecurityLevel,
        caller_uid: u32,
        blob: Option<Vec<u8>>,
        operation_parameters: Vec<KeyParameter>,
    },
    /// The key store is loading the entry of the key.
    LoadingKey {
        security_level: SecurityLevel,
        caller_uid: u32,
        operation_parameters: Vec<KeyParameter>,
    },
    /// The engine was asked to begin the operation on `blob`.
    Beginning { upgrade: UpgradeState, context: OperationContext, blob: Vec<u8> },
    /// The engine had no free slot and the registry was asked to evict an
    /// operation of the caller; `blob` is what the begin was asked on.
    Pruning { upgrade: UpgradeState, context: OperationContext, blob: Vec<u8> },
    /// The blob is being upgraded or the upgraded blob is being stored.
    Upgrading { upgrade: UpgradeState, context: OperationContext },
    /// The registry is taking the engine's operation; `parameters` are what
    /// the engine returned with it.
    Registering { parameters: Vec<KeyParameter> },
}

/// What a [`CreateOperationState`] holds, as mathematical values.
#[allow(inconsistent_fields)]
pub enum CreateOperationStateView {
    CheckingPermission {
        security_level: SecurityLevel,
        caller_uid: u32,
        blob: Option<Seq<u8>>,
        operation_parameters: Seq<KeyParameterView>,
    },
    LoadingKey {
        security_level: SecurityLevel,
        caller_uid: u32,
        operation_parameters: Seq<KeyParameterView>,
    },
    Beginning { upgrade: UpgradeStateView, context: OperationContextView, blob: Seq<u8> },
    Pruning { upgrade: UpgradeStateView, context: OperationContextView, blob: Seq<u8> },
    Upgrading { upgrade: UpgradeStateView, context: OperationContextView },
    Registering { parameters: Seq<KeyParameterView> },
}

impl DeepView for CreateOperationState {
    type V = CreateOperationStateView;

    open spec fn deep_view(&self) -> CreateOperationStateView {
        match self {
            CreateOperationState::CheckingPermission {
                security_level,
                caller_uid,
                blob,
                operation_parameters,
            } => CreateOperationStateView::CheckingPermission {
                security_level: *security_level,
                caller_uid: *caller_uid,
                blob: blob.deep_view(),
                operation_parameters: operation_parameters.deep_view(),
            },
            CreateOperationState::LoadingKey {
                security_level,
                caller_uid,
                operation_parameters,
            } => CreateOperationStateView::LoadingKey {
                security_level: *security_level,
                caller_uid: *caller_uid,
                operation_parameters: operation_parameters.deep_view(),
            },
            CreateOperationState::Beginning {
                upgrade,
                context,
                blob,
            } => CreateOperationStateView::Beginning {
                upgrade: upgrade.deep_view(),
                context: context.deep_view(),
                blob: blob.deep_view(),
            },
            CreateOperationState::Pruning { upgrade, context, blob } => CreateOperationStateView::Pruning {
                upgrade: upgrade.deep_view(),
                context: context.deep_view(),
                blob: blob.deep_view(),
            },
            CreateOperationState::Upgrading { upgrade, context } => CreateOperationStateView::Upgrading {
                upgrade: upgrade.deep_view(),
                context: context.deep_view(),
            },
            CreateOperationState::Registering { parameters } => CreateOperationStateView::Registering {
                parameters: parameters.deep_view(),
            },
        }
    }
}

/// A step of the creation of an operation.
pub type CreateOperationStep = Step<CreateOperationState, Action, CreateOperationResponse>;

pub type CreateOperationStepView = StepView<
    CreateOperationStateView,
    ActionView,
    CreateOperationResponseView,
>;

/// The first step: the key is resolved. A caller that holds the blob itself
/// needs the permission to use it; any other key is loaded from the key store,
/// which admits the caller only with the permission to use the key found.
pub open spec fn create_operation_start(
    security_level: SecurityLevel,
    caller_uid: u32,
    key: KeyDescriptorView,
    operation_parameters: Seq<KeyParameterView>,
) -> CreateOperationStepView {
    if key.domain == Domain::Blob {
        StepView::Perform(
            CreateOperationStateView::CheckingPermission {
                security_level,
                caller_uid,
                blob: key.blob,
                operation_parameters,
            },
            ActionView::CheckKeyPermission { perm: KeyPerm::Use, key },
        )
    } else {
        StepView::Perform(
            CreateOperationStateView::LoadingKey { security_level, caller_uid, operation_parameters },
            ActionView::LoadKeyEntry {
                key,
                load_bits: KeyEntryLoadBits::Km,
                caller_uid,
                perm: KeyPerm::Use,
            },
        )
    }
}

/// The begin of the operation on `blob`.
pub open spec fn begin_action(context: OperationContextView, blob: Seq<u8>) -> ActionView {
    ActionView::Begin {
        purpose: context.purpose,
        key_blob: blob,
        params: context.operation_parameters,
    }
}

/// The answer to the caller: the session object, no challenge, and the
/// parameters the engine returned, if it returned any.
pub open spec fn operation_response(
    session: OperationSession,
    parameters: Seq<KeyParameterView>,
) -> CreateOperationResponseView {
    CreateOperationResponseView {
        operation: Some(session),
        operation_challenge: None,
        parameters: if parameters.len() == 0 {
            None
        } else {
            Some(parameters)
        },
    }
}

/// What the request does with a step of the upgrade-retry protocol: an
/// attempt is a begin on the blob of the attempt; an upgrade and the write of
/// the upgraded blob are passed on; once the protocol has ended with the
/// engine's answer, the engine's operation is registered for the caller, and
/// an answer without an operation is an internal error.
pub open spec fn operation_step(
    context: OperationContextView,
    step: UpgradeStepView<BeginResultView>,
) -> CreateOperationStepView {
    match step {
        StepView::Perform(upgrade, UpgradeActionView::Attempt { blob }) => StepView::Perform(
            CreateOperationStateView::Beginning { upgrade, context, blob },
            begin_action(context, blob),
        ),
        StepView::Perform(upgrade, UpgradeActionView::UpgradeKey { blob, params }) => StepView::Perform(
            CreateOperationStateView::Upgrading { upgrade, context },
            ActionView::UpgradeKey { key_blob: blob, params },
        ),
        StepView::Perform(
            upgrade,
            UpgradeActionView::InsertBlob { key_id, blob, security_level },
        ) => StepView::Perform(
            CreateOperationStateView::Upgrading { upgrade, context },
            ActionView::InsertBlob { key_id, kind: SubComponentType::KmBlob, blob, security_level },
        ),
        StepView::Done(Ok((begun, _))) => match begun.operation {
            Some(operation) => StepView::Perform(
                CreateOperationStateView::Registering { parameters: begun.params },
                ActionView::CreateOperation { operation, caller_uid: context.caller_uid },
            ),
            None => StepView::Done(Err(Error::spec_sys())),
        },
        StepView::Done(Err(e)) => StepView::Done(Err(e)),
    }
}

/// What follows the resolution of the key to `blob`, held under
/// `key_id_guard` if it is stored: without a purpose among the operation
/// parameters the request fails with the argument error; with one, the
/// upgrade-retry protocol starts, with the operation parameters as the
/// parameters of an upgrade.
pub open spec fn key_resolved(
    security_level: SecurityLevel,
    caller_uid: u32,
    operation_parameters: Seq<KeyParameterView>,
    blob: Seq<u8>,
    key_id_guard: Option<KeyIdGuard>,
) -> CreateOperationStepView {
    match operation_purpose(operation_parameters) {
        None => StepView::Done(Err(Error::spec_invalid_argument())),
        Some(purpose) => operation_step(
            OperationContextView { caller_uid, purpose, operation_parameters },
            upgrade_start(security_level, key_id_guard, blob, operation_parameters),
        ),
    }
}

impl CreateOperationStateView {
    /// The step that follows when `event` answers the call of this state.
    ///
    /// - A denied permission or a failed load ends the request with that
    ///   error; a resolved key without a blob is an internal error.
    /// - When the engine answers a begin with "too many operations", the
    ///   registry is asked to evict an operation of the calling principal;
    ///   after a successful eviction the same begin is asked again, without
    ///   any bound on the number of rounds. A failed eviction counts as the
    ///   result of the attempt.
    /// - Every other answer to a begin is the result of the attempt of the
    ///   upgrade-retry protocol, whose next step the request follows.
    /// - Once the registry has taken the operation, the request ends with
    ///   the session object and the engine's parameters.
    /// - An answer to another call ends the request with the internal error.
    pub open spec fn resume(self, event: EventView) -> CreateOperationStepView {
        match (self, event) {
            (
                CreateOperationStateView::CheckingPermission {
                    security_level,
                    caller_uid,
                    blob,
                    operation_parameters,
                },
                EventView::Completed(Ok(_)),
            ) => match blob {
                Some(blob) => key_resolved(
                    security_level,
                    caller_uid,
                    operation_parameters,
                    blob,
                    None,
                ),
                None => StepView::Done(Err(Error::spec_sys())),
            },
            (
                CreateOperationStateView::CheckingPermission { .. },
                EventView::Completed(Err(e)),
            ) => StepView::Done(Err(e)),
            (
                CreateOperationStateView::LoadingKey {
                    security_level,
                    caller_uid,
                    operation_parameters,
                },
                EventView::KeyEntryLoaded(Ok((guard, entry))),
            ) => match entry.km_blob {
                Some(blob) => key_resolved(
                    security_level,
                    caller_uid,
                    operation_parameters,
                    blob,
                    Some(guard),
                ),
                None => StepView::Done(Err(Error::spec_sys())),
            },
            (
                CreateOperationStateView::LoadingKey { .. },
                EventView::KeyEntryLoaded(Err(e)),
            ) => StepView::Done(Err(e)),
            (
                CreateOperationStateView::Beginning { upgrade, context, blob },
                EventView::OperationBegun(result),
            ) => if result == Err::<BeginResultView, Error>(Error::spec_too_many_operations()) {
                StepView::Perform(
                    CreateOperationStateView::Pruning { upgrade, context, blob },
                    ActionView::Prune { caller_uid: context.caller_uid },
                )
            } else {
                operation_step(context, upgrade.resume(UpgradeEventView::Attempted(result)))
            },
            (
                CreateOperationStateView::Pruning { upgrade, context, blob },
                EventView::Completed(Ok(_)),
            ) => StepView::Perform(
                CreateOperationStateView::Beginning { upgrade, context, blob },
                begin_action(context, blob),
            ),
            (
                CreateOperationStateView::Pruning { upgrade, context, blob },
                EventView::Completed(Err(e)),
            ) => operation_step(
                context,
                upgrade.resume(UpgradeEventView::<BeginResultView>::Attempted(Err(e))),
            ),
            (
                CreateOperationStateView::Upgrading { upgrade, context },
                EventView::KeyUpgraded(result),
            ) => operation_step(context, upgrade.resume(UpgradeEventView::Upgraded(result))),
            (
                CreateOperationStateView::Upgrading { upgrade, context },
                EventView::Completed(result),
            ) => operation_step(context, upgrade.resume(UpgradeEventView::Persisted(result))),
            (
                CreateOperationStateView::Registering { parameters },
                EventView::OperationCreated(Ok(session)),
            ) => StepView::Done(Ok(operation_response(session, parameters))),
            (
                CreateOperationStateView::Registering { parameters },
                EventView::OperationCreated(Err(e)),
            ) => StepView::Done(Err(e)),
            _ => StepView::Done(Err(Error::spec_sys())),
        }
    }
}

fn begin_of(context: &OperationContext, blob: &Vec<u8>) -> (action: Action)
    ensures
        action.deep_view() == begin_action(context.deep_view(), blob.deep_view()),
{
    Action::Begin {
        purpose: context.purpose,
        key_blob: clone_bytes(blob),
        params: clone_parameters(&context.operation_parameters),
    }
}

fn follow(context: OperationContext, step: UpgradeStep<BeginResult>) -> (r: CreateOperationStep)
    ensures
        r.deep_view() == operation_step(context.deep_view(), step.deep_view()),
{
    match step {
        Step::Perform(upgrade, UpgradeAction::Attempt { blob }) => {
            let action = begin_of(&context, &blob);
            Step::Perform(CreateOperationState::Beginning { upgrade, context, blob }, action)
        },
        Step::Perform(upgrade, UpgradeAction::UpgradeKey { blob, params }) => Step::Perform(
            CreateOperationState::Upgrading { upgrade, context },
            Action::UpgradeKey { key_blob: blob, params },
        ),
        Step::Perform(upgrade, UpgradeAction::InsertBlob { key_id, blob, security_level }) => {
            Step::Perform(
                CreateOperationState::Upgrading { upgrade, context },
                Action::InsertBlob { key_id, kind: SubComponentType::KmBlob, blob, security_level },
            )
        },
        Step::Done(Ok((begun, _))) => match begun.operation {
            Some(operation) => Step::Perform(
                CreateOperationState::Registering { parameters: begun.params },
                Action::CreateOperation { operation, caller_uid: context.caller_uid },
            ),
            None => Step::Done(Err(Error::sys())),
        },
        Step::Done(Err(e)) => Step::Done(Err(e)),
    }
}

fn resolved(
    security_level: SecurityLevel,
    caller_uid: u32,
    operation_parameters: Vec<KeyParameter>,
    blob: Vec<u8>,
    key_id_guard: Option<KeyIdGuard>,
) -> (r: CreateOperationStep)
    ensures
        r.deep_view() == key_resolved(
            security_level,
            caller_uid,
            operation_parameters.deep_view(),
            blob.deep_view(),
            key_id_guard,
        ),
{
    match find_purpose(&operation_parameters) {
        None => Step::Done(Err(Error::invalid_argument())),
        Some(purpose) => {
            let step: UpgradeStep<BeginResult> = UpgradeState::start(
                security_level,
                key_id_guard,
                blob,
                clone_parameters(&operation_parameters),
            );
            follow(OperationContext { caller_uid, purpose, operation_parameters }, step)
        },
    }
}

impl CreateOperationState {
    /// Resumes the request with the answer to the call it asked for.
    pub fn resume(self, event: Event) -> (step: CreateOperationStep)
        ensures
            step.deep_view() == self.deep_view().resume(event.deep_view()),
    {
        match self {
            CreateOperationState::CheckingPermission {
                security_level,
                caller_uid,
                blob,
                operation_parameters,
            } => match event {
                Event::Completed(Ok(_)) => match blob {
                    Some(blob) => resolved(
                        security_level,
                        caller_uid,
                        operation_parameters,
                        blob,
                        None,
                    ),
                    None => Step::Done(Err(Error::sys())),
                },
                Event::Completed(Err(e)) => Step::Done(Err(e)),
                _ => Step::Done(Err(Error::sys())),
            },
            CreateOperationState::LoadingKey {
                security_level,
                caller_uid,
                operation_parameters,
            } => match event {
                Event::KeyEntryLoaded(Ok((guard, entry))) => {
                    let mut entry = entry;
                    match entry.take_km_blob() {
                        Some(blob) => resolved(
                            security_level,
                            caller_uid,
                            operation_parameters,
                            blob,
                            Some(guard),
                        ),
                        None => Step::Done(Err(Error::sys())),
                    }
                },
                Event::KeyEntryLoaded(Err(e)) => Step::Done(Err(e)),
                _ => Step::Done(Err(Error::sys())),
            },
            CreateOperationState::Beginning { upgrade, context, blob } => match event {
                Event::OperationBegun(Err(e)) => {
                    if e.is_too_many_operations() {
                        let caller_uid = context.caller_uid;
                        Step::Perform(
                            CreateOperationState::Pruning { upgrade, context, blob },
                            Action::Prune { caller_uid },
                        )
                    } else {
                        follow(context, upgrade.resume(UpgradeEvent::Attempted(Err(e))))
                    }
                },
                Event::OperationBegun(Ok(begun)) => follow(
                    context,
                    upgrade.resume(UpgradeEvent::Attempted(Ok(begun))),
                ),
                _ => Step::Done(Err(Error::sys())),
            },
            CreateOperationState::Pruning { upgrade, context, blob } => match event {
                Event::Completed(Ok(_)) => {
                    let action = begin_of(&context, &blob);
                    Step::Perform(CreateOperationState::Beginning { upgrade, context, blob }, action)
                },
                Event::Completed(Err(e)) => follow(
                    context,
                    upgrade.resume(UpgradeEvent::Attempted(Err(e))),
                ),
                _ => Step::Done(Err(Error::sys())),
            },
            CreateOperationState::Upgrading { upgrade, context } => match event {
                Event::KeyUpgraded(result) => follow(
                    context,
                    upgrade.resume(UpgradeEvent::Upgraded(result)),
                ),
                Event::Completed(result) => follow(
                    context,
                    upgrade.resume(UpgradeEvent::Persisted(result)),
                ),
                _ => Step::Done(Err(Error::sys())),
            },
            CreateOperationState::Registering { parameters } => match event {
                Event::OperationCreated(Ok(session)) => Step::Done(
                    Ok(
                        CreateOperationResponse {
                            operation: Some(session),
                            operation_challenge: None,
                            parameters: if parameters.len() == 0 {
                                None
                            } else {
                                Some(parameters)
                            },
                        },
                    ),
                ),
                Event::OperationCreated(Err(e)) => Step::Done(Err(e)),
                _ => Step::Done(Err(Error::sys())),
            },
        }
    }
}

/// The step the creation of an operation has reached after the answers
/// `events`.
pub open spec fn create_operation_run(
    step: CreateOperationStepView,
    events: Seq<EventView>,
) -> CreateOperationStepView {
    run(|s: CreateOperationStateView, e: EventView| s.resume(e), step, events)
}

/// The calls the creation of an operation has asked for while it took the
/// answers `events`.
pub open spec fn create_operation_performed(
    step: CreateOperationStepView,
    events: Seq<EventView>,
) -> Seq<ActionView> {
    performed(|s: CreateOperationStateView, e: EventView| s.resume(e), step, events)
}

/// The key store after the creation of an operation took the answers
/// `events`.
pub open spec fn create_operation_store_after(
    store: KeyStoreModel,
    step: CreateOperationStepView,
    events: Seq<EventView>,
) -> KeyStoreModel {
    store_after(
        |s: CreateOperationStateView, e: EventView| s.resume(e),
        |st: KeyStoreModel, a: ActionView, e: EventView| store_effect(st, a, e),
        store,
        step,
        events,
    )
}

/// The first answer resolves the key to a blob: for a blob the caller holds,
/// the permission to use it is granted and the descriptor carries it; for any
/// other key, the entry is loaded with its key blob.
pub open spec fn key_is_resolved(key: KeyDescriptorView, events: Seq<EventView>) -> bool {
    &&& events.len() >= 1
    &&& if key.domain == Domain::Blob {
        &&& events[0] matches EventView::Completed(Ok(_))
        &&& key.blob is Some
    } else {
        &&& events[0] matches EventView::KeyEntryLoaded(Ok(loaded))
        &&& loaded.1.km_blob is Some
    }
}

/// The creation of an operation whose parameters carry no purpose never
/// succeeds, whatever the collaborators answer, and asks for nothing but the
/// resolution of the key: the engine, the operation registry and the writing
/// side of the key store are never reached. Once the key is resolved, the
/// request fails with the argument error.
pub proof fn operation_without_purpose_is_refused(
    security_level: SecurityLevel,
    caller_uid: u32,
    key: KeyDescriptorView,
    operation_parameters: Seq<KeyParameterView>,
    events: Seq<EventView>,
)
    requires
        operation_purpose(operation_parameters) is None,
    ensures
        ({
            let start = create_operation_start(
                security_level,
                caller_uid,
                key,
                operation_parameters,
            );
            let calls = create_operation_performed(start, events);
            let end = create_operation_run(start, events);
            &&& !(end matches StepView::Done(Ok(_)))
            &&& calls.len() <= 1
            &&& forall|i: int|
                0 <= i < calls.len() ==> (#[trigger] calls[i]) is CheckKeyPermission
                    || calls[i] is LoadKeyEntry
            &&& key_is_resolved(key, events) ==> end == CreateOperationStepView::Done(
                Err(Error::spec_invalid_argument()),
            )
        }),
{
    reveal_with_fuel(run, 3);
    reveal_with_fuel(performed, 3);
}

/// The answers of `rounds` rounds in each of which the engine reports that it
/// has no free operation slot and the registry then evicts an operation.
pub open spec fn eviction_rounds(rounds: nat) -> Seq<EventView>
    decreases rounds,
{
    if rounds == 0 {
        Seq::empty()
    } else {
        seq![
            EventView::OperationBegun(Err(Error::spec_too_many_operations())),
            EventView::Completed(Ok(())),
        ] + eviction_rounds((rounds - 1) as nat)
    }
}

/// The calls of `rounds` such rounds: each is a begin on `blob` followed by
/// one eviction for the calling principal.
pub open spec fn eviction_calls(context: OperationContextView, blob: Seq<u8>, rounds: nat) -> Seq<
    ActionView,
>
    decreases rounds,
{
    if rounds == 0 {
        Seq::empty()
    } else {
        seq![begin_action(context, blob), ActionView::Prune { caller_uid: context.caller_uid }]
            + eviction_calls(context, blob, (rounds - 1) as nat)
    }
}

/// However often the engine has no free slot, each such answer is followed by
/// exactly one eviction for the calling principal and by the same begin
/// again: after any number of such rounds the request is where it was before
/// them, the key store is as it was, and what follows is what would have
/// followed without them. No round is the last one by count.
pub proof fn eviction_rounds_return_to_begin(
    upgrade: UpgradeStateView,
    context: OperationContextView,
    blob: Seq<u8>,
    store: KeyStoreModel,
    rounds: nat,
    rest: Seq<EventView>,
)
    ensures
        ({
            let begin = CreateOperationStepView::Perform(
                CreateOperationStateView::Beginning { upgrade, context, blob },
                begin_action(context, blob),
            );
            let events = eviction_rounds(rounds) + rest;
            &&& create_operation_run(begin, events) == create_operation_run(begin, rest)
            &&& create_operation_performed(begin, events) == eviction_calls(context, blob, rounds)
                + create_operation_performed(begin, rest)
            &&& create_operation_store_after(store, begin, events)
                == create_operation_store_after(store, begin, rest)
        }),
    decreases rounds,
{
    if rounds > 0 {
        let fewer = (rounds - 1) as nat;
        let events = eviction_rounds(rounds) + rest;
        assert(events.drop_first().drop_first() =~= eviction_rounds(fewer) + rest);
        reveal_with_fuel(run, 3);
        reveal_with_fuel(performed, 3);
        reveal_with_fuel(store_after, 3);
        eviction_rounds_return_to_begin(upgrade, context, blob, store, fewer, rest);
    }
}

/// The upgrade of a stored key blob in the course of the creation of an
/// operation: when the key is loaded, the engine answers the first begin with
/// the demand for an upgrade, upgrades the blob, the key store takes it, the
/// second begin succeeds and the registry takes the operation, then the
/// request ends with the session object; the second begin was made on the
/// upgraded blob; and the key blob stored under the key id of the key is the
/// upgraded blob.
pub proof fn operation_on_upgraded_blob(
    security_level: SecurityLevel,
    caller_uid: u32,
    key: KeyDescriptorView,
    operation_parameters: Seq<KeyParameterView>,
    store: KeyStoreModel,
    guard: KeyIdGuard,
    entry: crate::database::KeyEntryView,
    upgraded_blob: Seq<u8>,
    begun: BeginResultView,
    session: OperationSession,
)
    requires
        key.domain != Domain::Blob,
        operation_purpose(operation_parameters) is Some,
        entry.km_blob is Some,
        begun.operation is Some,
    ensures
        ({
            let start = create_operation_start(
                security_level,
                caller_uid,
                key,
                operation_parameters,
            );
            let events = seq![
                EventView::KeyEntryLoaded(Ok((guard, entry))),
                EventView::OperationBegun(Err(Error::spec_key_requires_upgrade())),
                EventView::KeyUpgraded(Ok(upgraded_blob)),
                EventView::Completed(Ok(())),
                EventView::OperationBegun(Ok(begun)),
                EventView::OperationCreated(Ok(session)),
            ];
            let context = OperationContextView {
                caller_uid,
                purpose: operation_purpose(operation_parameters)->Some_0,
                operation_parameters,
            };
            let after = create_operation_store_after(store, start, events);
            &&& create_operation_run(start, events) == CreateOperationStepView::Done(
                Ok(operation_response(session, begun.params)),
            )
            &&& create_operation_performed(start, events) == seq![
                ActionView::LoadKeyEntry {
                    key,
                    load_bits: KeyEntryLoadBits::Km,
                    caller_uid,
                    perm: KeyPerm::Use,
                },
                begin_action(context, entry.km_blob->Some_0),
                ActionView::UpgradeKey {
                    key_blob: entry.km_blob->Some_0,
                    params: operation_parameters,
                },
                ActionView::InsertBlob {
                    key_id: guard.id(),
                    kind: SubComponentType::KmBlob,
                    blob: upgraded_blob,
                    security_level,
                },
                begin_action(context, upgraded_blob),
                ActionView::CreateOperation {
                    operation: begun.operation->Some_0,
                    caller_uid,
                },
            ]
            &&& after == store.insert_blob(guard.id(), SubComponentType::KmBlob, upgraded_blob)
            &&& after.km_blob(guard.id()) == Some(upgraded_blob)
        }),
{
    reveal_with_fuel(run, 8);
    reveal_with_fuel(performed, 8);
    reveal_with_fuel(store_after, 8);
}

/// The call keeps to the hold `held`: it writes nothing to the key store,
/// unless it sets the key blob of the very entry that is held.
pub open spec fn keeps_to_hold(action: ActionView, held: Option<KeyIdGuard>) -> bool {
    action.is_store_write() ==> {
        &&& action matches ActionView::InsertBlob { key_id, kind, .. }
        &&& kind == SubComponentType::KmBlob
        &&& held matches Some(guard)
        &&& key_id == guard.id()
    }
}

/// The step asks for a call that keeps to the hold `held`, in a state whose
/// only hold is `held`.
pub open spec fn step_keeps_to_hold(step: CreateOperationStepView, held: Option<KeyIdGuard>) -> bool {
    match step {
        StepView::Done(_) => true,
        StepView::Perform(state, action) => {
            &&& keeps_to_hold(action, held)
            &&& match state {
                CreateOperationStateView::Beginning { upgrade, .. } => upgrade.hold() == held,
                CreateOperationStateView::Pruning { upgrade, .. } => upgrade.hold() == held,
                CreateOperationStateView::Upgrading { upgrade, .. } => upgrade.hold() == held,
                CreateOperationStateView::Registering { .. } => true,
                _ => false,
            }
        },
    }
}

/// Once the key is resolved, whatever the collaborators answer and however
/// long the request runs, it writes to the key store only under the hold it
/// was given: the one thing it may write is the key blob of the held entry.
/// Without a hold it writes nothing.
pub proof fn resolved_key_is_written_only_under_its_hold(
    step: CreateOperationStepView,
    held: Option<KeyIdGuard>,
    events: Seq<EventView>,
)
    requires
        step_keeps_to_hold(step, held),
    ensures
        step_keeps_to_hold(create_operation_run(step, events), held),
        forall|i: int|
            0 <= i < create_operation_performed(step, events).len() ==> keeps_to_hold(
                #[trigger] create_operation_performed(step, events)[i],
                held,
            ),
    decreases events.len(),
{
    reveal_with_fuel(run, 2);
    reveal_with_fuel(performed, 2);
    if events.len() > 0 {
        match step {
            StepView::Done(_) => {},
            StepView::Perform(state, action) => {
                let next = state.resume(events[0]);
                resolved_key_is_written_only_under_its_hold(next, held, events.drop_first());
                let calls = create_operation_performed(step, events);
                let later = create_operation_performed(next, events.drop_first());
                assert forall|i: int| 0 <= i < calls.len() implies keeps_to_hold(
                    #[trigger] calls[i],
                    held,
                ) by {
                    if i > 0 {
                        assert(calls[i] == later[i - 1]);
                    }
                }
            },
        }
    }
}

/// The creation of an operation never creates an entry, never binds an alias
/// and never sets a certificate or a parameter; whatever the collaborators
/// answer and however often the engine has no free slot, the one thing it may
/// write is the key blob of the entry it loaded, under the hold that came
/// with that entry. For a blob the caller holds itself it writes nothing.
pub proof fn operation_writes_only_under_its_hold(
    security_level: SecurityLevel,
    caller_uid: u32,
    key: KeyDescriptorView,
    operation_parameters: Seq<KeyParameterView>,
    events: Seq<EventView>,
)
    ensures
        ({
            let start = create_operation_start(
                security_level,
                caller_uid,
                key,
                operation_parameters,
            );
            let calls = create_operation_performed(start, events);
            let held = if events.len() > 0 && key.domain != Domain::Blob {
                match events[0] {
                    EventView::KeyEntryLoaded(Ok(loaded)) => Some(loaded.0),
                    _ => None,
                }
            } else {
                None
            };
            forall|i: int| 0 <= i < calls.len() ==> keeps_to_hold(#[trigger] calls[i], held)
        }),
{
    let start = create_operation_start(security_level, caller_uid, key, operation_parameters);
    reveal_with_fuel(run, 2);
    reveal_with_fuel(performed, 2);
    if events.len() > 0 {
        let held = if key.domain != Domain::Blob {
            match events[0] {
                EventView::KeyEntryLoaded(Ok(loaded)) => Some(loaded.0),
                _ => None,
            }
        } else {
            None
        };
        let next = start->Perform_0.resume(events[0]);
        resolved_key_is_written_only_under_its_hold(next, held, events.drop_first());
        let calls = create_operation_performed(start, events);
        let later = create_operation_performed(next, events.drop_first());
        assert forall|i: int| 0 <= i < calls.len() implies keeps_to_hold(
            #[trigger] calls[i],
            held,
        ) by {
            if i > 0 {
                assert(calls[i] == later[i - 1]);
            }
        }
    }
}

} // verus!
