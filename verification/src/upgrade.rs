//! The upgrade-retry protocol: an engine call that takes a stored key blob is
//! tried on the blob as it is; if the engine answers that the blob requires an
//! upgrade, the blob is upgraded, written back under the hold on its key id,
//! and the call is tried exactly once more.

use crate::database::{KeyIdGuard, KeyStoreModel, SubComponentType};
use crate::error::Error;
use crate::exchange::{performed, run, store_after, Step, StepView};
use crate::keymint::{
    clone_bytes, KeyParameter, KeyParameterView, SecurityLevel,
};
use vstd::prelude::*;

verus! {

/// How far the protocol has come.
#[allow(inconsistent_fields)]
#[derive(Debug, PartialEq, Eq)]
pub enum UpgradeState {
    /// The call is being tried on the blob as it was given.
    FirstAttempt {
        security_level: SecurityLevel,
        key_id_guard: Option<KeyIdGuard>,
        blob: Vec<u8>,
        params: Vec<KeyParameter>,
    },
    /// The engine is upgrading the blob.
    Upgrading { security_level: SecurityLevel, key_id_guard: Option<KeyIdGuard> },
    /// The upgraded blob is being written to the key store, under the hold.
    Persisting { key_id_guard: KeyIdGuard, upgraded_blob: Vec<u8> },
    /// The call is being tried once more, on the upgraded blob.
    SecondAttempt { key_id_guard: Option<KeyIdGuard>, upgraded_blob: Vec<u8> },
}

/// What an [`UpgradeState`] holds, as mathematical values.
#[allow(inconsistent_fields)]
pub enum UpgradeStateView {
    FirstAttempt {
        security_level: SecurityLevel,
        key_id_guard: Option<KeyIdGuard>,
        blob: Seq<u8>,
        params: Seq<KeyParameterView>,
    },
    Upgrading { security_level: SecurityLevel, key_id_guard: Option<KeyIdGuard> },
    Persisting { key_id_guard: KeyIdGuard, upgraded_blob: Seq<u8> },
    SecondAttempt { key_id_guard: Option<KeyIdGuard>, upgraded_blob: Seq<u8> },
}

impl DeepView for UpgradeState {
    type V = UpgradeStateView;

    open spec fn deep_view(&self) -> UpgradeStateView {
        match self {
            UpgradeState::FirstAttempt {
                security_level,
                key_id_guard,
                blob,
                params,
            } => UpgradeStateView::FirstAttempt {
                security_level: *security_level,
                key_id_guard: *key_id_guard,
                blob: blob.deep_view(),
                params: params.deep_view(),
            },
            UpgradeState::Upgrading { security_level, key_id_guard } => UpgradeStateView::Upgrading {
                security_level: *security_level,
                key_id_guard: *key_id_guard,
            },
            UpgradeState::Persisting { key_id_guard, upgraded_blob } => UpgradeStateView::Persisting {
                key_id_guard: *key_id_guard,
                upgraded_blob: upgraded_blob.deep_view(),
            },
            UpgradeState::SecondAttempt {
                key_id_guard,
                upgraded_blob,
            } => UpgradeStateView::SecondAttempt {
                key_id_guard: *key_id_guard,
                upgraded_blob: upgraded_blob.deep_view(),
            },
        }
    }
}

/// What the protocol asks for next.
#[derive(Debug, PartialEq, Eq)]
pub enum UpgradeAction {
    /// Make the engine call on this blob.
    Attempt { blob: Vec<u8> },
    /// Have the engine upgrade this blob, with these parameters.
    UpgradeKey { blob: Vec<u8>, params: Vec<KeyParameter> },
    /// Write this blob as the key blob of the entry `key_id`.
    InsertBlob { key_id: i64, blob: Vec<u8>, security_level: SecurityLevel },
}

/// What an [`UpgradeAction`] holds, as mathematical values.
pub enum UpgradeActionView {
    Attempt { blob: Seq<u8> },
    UpgradeKey { blob: Seq<u8>, params: Seq<KeyParameterView> },
    InsertBlob { key_id: i64, blob: Seq<u8>, security_level: SecurityLevel },
}

impl DeepView for UpgradeAction {
    type V = UpgradeActionView;

    open spec fn deep_view(&self) -> UpgradeActionView {
        match self {
            UpgradeAction::Attempt { blob } => UpgradeActionView::Attempt { blob: blob.deep_view() },
            UpgradeAction::UpgradeKey { blob, params } => UpgradeActionView::UpgradeKey {
                blob: blob.deep_view(),
                params: params.deep_view(),
            },
            UpgradeAction::InsertBlob { key_id, blob, security_level } => UpgradeActionView::InsertBlob {
                key_id: *key_id,
                blob: blob.deep_view(),
                security_level: *security_level,
            },
        }
    }
}

/// The answer to what the protocol asked for.
#[derive(Debug, PartialEq, Eq)]
pub enum UpgradeEvent<T> {
    /// The result of the engine call.
    Attempted(Result<T, Error>),
    /// The engine's answer to the upgrade: the upgraded blob.
    Upgraded(Result<Vec<u8>, Error>),
    /// The key store's answer to the insertion.
    Persisted(Result<(), Error>),
}

/// What an [`UpgradeEvent`] holds, as mathematical values.
pub enum UpgradeEventView<T> {
    Attempted(Result<T, Error>),
    Upgraded(Result<Seq<u8>, Error>),
    Persisted(Result<(), Error>),
}

impl<T: DeepView> DeepView for UpgradeEvent<T> {
    type V = UpgradeEventView<T::V>;

    open spec fn deep_view(&self) -> UpgradeEventView<T::V> {
        match self {
            UpgradeEvent::Attempted(Ok(value)) => UpgradeEventView::Attempted(Ok(value.deep_view())),
            UpgradeEvent::Attempted(Err(e)) => UpgradeEventView::Attempted(Err(*e)),
            UpgradeEvent::Upgraded(Ok(blob)) => UpgradeEventView::Upgraded(Ok(blob.deep_view())),
            UpgradeEvent::Upgraded(Err(e)) => UpgradeEventView::Upgraded(Err(*e)),
            UpgradeEvent::Persisted(r) => UpgradeEventView::Persisted(*r),
        }
    }
}

/// A step of the protocol. It ends with the value of the engine call, and
/// with the upgraded blob if the blob was upgraded.
pub type UpgradeStep<T> = Step<UpgradeState, UpgradeAction, (T, Option<Vec<u8>>)>;

pub type UpgradeStepView<T> = StepView<UpgradeStateView, UpgradeActionView, (T, Option<Seq<u8>>)>;

/// The first step of the protocol: the call is tried on the blob as given.
pub open spec fn upgrade_start<T>(
    security_level: SecurityLevel,
    key_id_guard: Option<KeyIdGuard>,
    blob: Seq<u8>,
    params: Seq<KeyParameterView>,
) -> UpgradeStepView<T> {
    StepView::Perform(
        UpgradeStateView::FirstAttempt { security_level, key_id_guard, blob, params },
        UpgradeActionView::Attempt { blob },
    )
}

impl UpgradeStateView {
    /// The hold the protocol has in this state.
    pub open spec fn hold(self) -> Option<KeyIdGuard> {
        match self {
            UpgradeStateView::FirstAttempt { key_id_guard, .. } => key_id_guard,
            UpgradeStateView::Upgrading { key_id_guard, .. } => key_id_guard,
            UpgradeStateView::Persisting { key_id_guard, .. } => Some(key_id_guard),
            UpgradeStateView::SecondAttempt { key_id_guard, .. } => key_id_guard,
        }
    }

    /// The step that follows when `event` answers what the protocol asked
    /// for in this state.
    ///
    /// A first attempt that succeeds ends the protocol with its value and no
    /// upgraded blob. A first attempt that fails with the demand for an
    /// upgrade has the engine upgrade the blob, with the parameters given at
    /// the start; any other failure ends the protocol unchanged. A failed
    /// upgrade ends the protocol with the engine's error. An upgraded blob is
    /// written to the store if and only if the caller holds the key id, before
    /// anything else happens; a failed write ends the protocol with the
    /// store's error. Then the call is tried on the upgraded blob, and its
    /// result is final: a value comes with the upgraded blob, an error comes
    /// unchanged. An answer to something that was not asked for ends the
    /// protocol with the internal error.
    pub open spec fn resume<T>(self, event: UpgradeEventView<T>) -> UpgradeStepView<T> {
        match (self, event) {
            (
                UpgradeStateView::FirstAttempt { security_level, key_id_guard, blob, params },
                UpgradeEventView::Attempted(Ok(value)),
            ) => StepView::Done(Ok((value, None))),
            (
                UpgradeStateView::FirstAttempt { security_level, key_id_guard, blob, params },
                UpgradeEventView::Attempted(Err(e)),
            ) => if e == Error::spec_key_requires_upgrade() {
                StepView::Perform(
                    UpgradeStateView::Upgrading { security_level, key_id_guard },
                    UpgradeActionView::UpgradeKey { blob, params },
                )
            } else {
                StepView::Done(Err(e))
            },
            (
                UpgradeStateView::Upgrading { security_level, key_id_guard: Some(guard) },
                UpgradeEventView::Upgraded(Ok(upgraded_blob)),
            ) => StepView::Perform(
                UpgradeStateView::Persisting { key_id_guard: guard, upgraded_blob },
                UpgradeActionView::InsertBlob {
                    key_id: guard.id(),
                    blob: upgraded_blob,
                    security_level,
                },
            ),
            (
                UpgradeStateView::Upgrading { security_level, key_id_guard: None },
                UpgradeEventView::Upgraded(Ok(upgraded_blob)),
            ) => StepView::Perform(
                UpgradeStateView::SecondAttempt { key_id_guard: None, upgraded_blob },
                UpgradeActionView::Attempt { blob: upgraded_blob },
            ),
            (
                UpgradeStateView::Upgrading { security_level, key_id_guard },
                UpgradeEventView::Upgraded(Err(e)),
            ) => StepView::Done(Err(e)),
            (
                UpgradeStateView::Persisting { key_id_guard, upgraded_blob },
                UpgradeEventView::Persisted(Ok(_)),
            ) => StepView::Perform(
                UpgradeStateView::SecondAttempt { key_id_guard: Some(key_id_guard), upgraded_blob },
                UpgradeActionView::Attempt { blob: upgraded_blob },
            ),
            (
                UpgradeStateView::Persisting { key_id_guard, upgraded_blob },
                UpgradeEventView::Persisted(Err(e)),
            ) => StepView::Done(Err(e)),
            (
                UpgradeStateView::SecondAttempt { key_id_guard, upgraded_blob },
                UpgradeEventView::Attempted(Ok(value)),
            ) => StepView::Done(Ok((value, Some(upgraded_blob)))),
            (
                UpgradeStateView::SecondAttempt { key_id_guard, upgraded_blob },
                UpgradeEventView::Attempted(Err(e)),
            ) => StepView::Done(Err(e)),
            _ => StepView::Done(Err(Error::spec_sys())),
        }
    }
}

impl UpgradeState {
    /// Starts the protocol for an engine call that takes the key blob `blob`.
    /// `key_id_guard` is the hold on the key id under which the blob is
    /// stored, or `None` where the caller holds the blob itself; `params` are
    /// handed to the engine if the blob has to be upgraded, and
    /// `security_level` is recorded with an upgraded blob.
    pub fn start<T: DeepView>(
        security_level: SecurityLevel,
        key_id_guard: Option<KeyIdGuard>,
        blob: Vec<u8>,
        params: Vec<KeyParameter>,
    ) -> (step: UpgradeStep<T>)
        ensures
            step.deep_view() == upgrade_start::<T::V>(
                security_level,
                key_id_guard,
                blob.deep_view(),
                params.deep_view(),
            ),
    {
        let attempt = clone_bytes(&blob);
        Step::Perform(
            UpgradeState::FirstAttempt { security_level, key_id_guard, blob, params },
            UpgradeAction::Attempt { blob: attempt },
        )
    }

    /// Resumes the protocol with the answer to what it asked for.
    pub fn resume<T: DeepView>(self, event: UpgradeEvent<T>) -> (step: UpgradeStep<T>)
        ensures
            step.deep_view() == self.deep_view().resume(event.deep_view()),
    {
        match self {
            UpgradeState::FirstAttempt { security_level, key_id_guard, blob, params } => {
                match event {
                    UpgradeEvent::Attempted(Ok(value)) => Step::Done(Ok((value, None))),
                    UpgradeEvent::Attempted(Err(e)) => {
                        if e.is_key_requires_upgrade() {
                            Step::Perform(
                                UpgradeState::Upgrading { security_level, key_id_guard },
                                UpgradeAction::UpgradeKey { blob, params },
                            )
                        } else {
                            Step::Done(Err(e))
                        }
                    },
                    _ => Step::Done(Err(Error::sys())),
                }
            },
            UpgradeState::Upgrading { security_level, key_id_guard } => {
                match event {
                    UpgradeEvent::Upgraded(Ok(upgraded_blob)) => {
                        let blob = clone_bytes(&upgraded_blob);
                        match key_id_guard {
                            Some(guard) => {
                                let key_id = guard.id();
                                Step::Perform(
                                    UpgradeState::Persisting { key_id_guard: guard, upgraded_blob },
                                    UpgradeAction::InsertBlob { key_id, blob, security_level },
                                )
                            },
                            None => Step::Perform(
                                UpgradeState::SecondAttempt { key_id_guard: None, upgraded_blob },
                                UpgradeAction::Attempt { blob },
                            ),
                        }
                    },
                    UpgradeEvent::Upgraded(Err(e)) => Step::Done(Err(e)),
                    _ => Step::Done(Err(Error::sys())),
                }
            },
            UpgradeState::Persisting { key_id_guard, upgraded_blob } => {
                match event {
                    UpgradeEvent::Persisted(Ok(_)) => {
                        let blob = clone_bytes(&upgraded_blob);
                        Step::Perform(
                            UpgradeState::SecondAttempt {
                                key_id_guard: Some(key_id_guard),
                                upgraded_blob,
                            },
                            UpgradeAction::Attempt { blob },
                        )
                    },
                    UpgradeEvent::Persisted(Err(e)) => Step::Done(Err(e)),
                    _ => Step::Done(Err(Error::sys())),
                }
            },
            UpgradeState::SecondAttempt { key_id_guard, upgraded_blob } => {
                match event {
                    UpgradeEvent::Attempted(Ok(value)) => Step::Done(
                        Ok((value, Some(upgraded_blob))),
                    ),
                    UpgradeEvent::Attempted(Err(e)) => Step::Done(Err(e)),
                    _ => Step::Done(Err(Error::sys())),
                }
            },
        }
    }
}

/// What one answered call of the protocol does to the key store: a write of
/// the upgraded blob that the store answers with success replaces the key blob
/// of that entry; nothing else changes the store.
pub open spec fn upgrade_effect<T>(
    store: KeyStoreModel,
    action: UpgradeActionView,
    event: UpgradeEventView<T>,
) -> KeyStoreModel {
    match (action, event) {
        (
            UpgradeActionView::InsertBlob { key_id, blob, security_level },
            UpgradeEventView::Persisted(Ok(_)),
        ) => store.insert_blob(key_id, SubComponentType::KmBlob, blob),
        _ => store,
    }
}

/// The step the protocol has reached after the answers `events`.
pub open spec fn upgrade_run<T>(step: UpgradeStepView<T>, events: Seq<UpgradeEventView<T>>) -> UpgradeStepView<T> {
    run(|s: UpgradeStateView, e: UpgradeEventView<T>| s.resume(e), step, events)
}

/// The calls the protocol has asked for while it took the answers `events`.
pub open spec fn upgrade_performed<T>(
    step: UpgradeStepView<T>,
    events: Seq<UpgradeEventView<T>>,
) -> Seq<UpgradeActionView> {
    performed(|s: UpgradeStateView, e: UpgradeEventView<T>| s.resume(e), step, events)
}

/// The key store after the protocol took the answers `events`.
pub open spec fn upgrade_store_after<T>(
    store: KeyStoreModel,
    step: UpgradeStepView<T>,
    events: Seq<UpgradeEventView<T>>,
) -> KeyStoreModel {
    store_after(
        |s: UpgradeStateView, e: UpgradeEventView<T>| s.resume(e),
        |st: KeyStoreModel, a: UpgradeActionView, e: UpgradeEventView<T>| upgrade_effect(st, a, e),
        store,
        step,
        events,
    )
}

/// If the first attempt succeeds, the protocol ends with its value and
/// without an upgraded blob, whatever answers might follow: the one call made
/// is the attempt on the blob as given, the engine is never asked to upgrade,
/// and the key store is as it was.
pub proof fn first_attempt_success_changes_nothing<T>(
    security_level: SecurityLevel,
    key_id_guard: Option<KeyIdGuard>,
    blob: Seq<u8>,
    params: Seq<KeyParameterView>,
    store: KeyStoreModel,
    value: T,
    rest: Seq<UpgradeEventView<T>>,
)
    ensures
        ({
            let start = upgrade_start::<T>(security_level, key_id_guard, blob, params);
            let events = seq![UpgradeEventView::Attempted(Ok(value))] + rest;
            &&& upgrade_run(start, events) == UpgradeStepView::<T>::Done(Ok((value, None)))
            &&& upgrade_performed(start, events) == seq![UpgradeActionView::Attempt { blob }]
            &&& upgrade_store_after(store, start, events) == store
        }),
{
    reveal_with_fuel(run, 3);
    reveal_with_fuel(performed, 3);
    reveal_with_fuel(store_after, 3);
}

/// If the first attempt fails with the demand for an upgrade, the engine
/// upgrades the blob, the key store takes it, and the second attempt
/// succeeds, then the protocol ends with the value of the second attempt and
/// the upgraded blob, the second attempt was made on the upgraded blob, and
/// the key blob stored under the held key id is the upgraded blob, not the
/// one the protocol started with.
pub proof fn upgrade_then_success_stores_upgraded_blob<T>(
    security_level: SecurityLevel,
    guard: KeyIdGuard,
    blob: Seq<u8>,
    params: Seq<KeyParameterView>,
    store: KeyStoreModel,
    upgraded_blob: Seq<u8>,
    value: T,
    rest: Seq<UpgradeEventView<T>>,
)
    ensures
        ({
            let start = upgrade_start::<T>(security_level, Some(guard), blob, params);
            let events = seq![
                UpgradeEventView::Attempted(Err(Error::spec_key_requires_upgrade())),
                UpgradeEventView::Upgraded(Ok(upgraded_blob)),
                UpgradeEventView::Persisted(Ok(())),
                UpgradeEventView::Attempted(Ok(value)),
            ] + rest;
            let after = upgrade_store_after(store, start, events);
            &&& upgrade_run(start, events) == UpgradeStepView::<T>::Done(
                Ok((value, Some(upgraded_blob))),
            )
            &&& upgrade_performed(start, events) == seq![
                UpgradeActionView::Attempt { blob },
                UpgradeActionView::UpgradeKey { blob, params },
                UpgradeActionView::InsertBlob {
                    key_id: guard.id(),
                    blob: upgraded_blob,
                    security_level,
                },
                UpgradeActionView::Attempt { blob: upgraded_blob },
            ]
            &&& after == store.insert_blob(guard.id(), SubComponentType::KmBlob, upgraded_blob)
            &&& after.km_blob(guard.id()) == Some(upgraded_blob)
        }),
{
    reveal_with_fuel(run, 6);
    reveal_with_fuel(performed, 6);
    reveal_with_fuel(store_after, 6);
}

/// Where the caller holds the blob itself, nothing is stored: whatever the
/// answers, the protocol asks for no write and the key store stays as it was.
/// In particular it is unchanged when both attempts fail.
pub proof fn without_hold_store_is_unchanged<T>(
    security_level: SecurityLevel,
    blob: Seq<u8>,
    params: Seq<KeyParameterView>,
    store: KeyStoreModel,
    events: Seq<UpgradeEventView<T>>,
)
    ensures
        upgrade_store_after(
            store,
            upgrade_start::<T>(security_level, None, blob, params),
            events,
        ) == store,
        forall|i: int|
            0 <= i < upgrade_performed(
                upgrade_start::<T>(security_level, None, blob, params),
                events,
            ).len() ==> !(#[trigger] upgrade_performed(
                upgrade_start::<T>(security_level, None, blob, params),
                events,
            )[i] is InsertBlob),
{
    reveal_with_fuel(run, 6);
    reveal_with_fuel(performed, 6);
    reveal_with_fuel(store_after, 6);
}

/// How a run of the protocol can leave the key store, for every sequence of
/// answers:
/// - a run that ends without an upgraded blob has left the store as it was;
/// - a run that ends with a value and an upgraded blob has made that blob the
///   key blob under the held key id, and has changed nothing where no key id
///   is held;
/// - a run that ends in an error has left the store as it was, with one
///   exception: when the upgraded blob was already written under the hold
///   and the second attempt did not succeed, the store holds the upgraded
///   blob.
/// No other blob is ever written.
pub proof fn upgrade_run_store<T>(
    security_level: SecurityLevel,
    key_id_guard: Option<KeyIdGuard>,
    blob: Seq<u8>,
    params: Seq<KeyParameterView>,
    store: KeyStoreModel,
    events: Seq<UpgradeEventView<T>>,
)
    ensures
        ({
            let start = upgrade_start::<T>(security_level, key_id_guard, blob, params);
            let after = upgrade_store_after(store, start, events);
            match upgrade_run(start, events) {
                StepView::Done(Ok((_, None))) => after == store,
                StepView::Done(Ok((_, Some(upgraded_blob)))) => match key_id_guard {
                    Some(guard) => after == store.insert_blob(
                        guard.id(),
                        SubComponentType::KmBlob,
                        upgraded_blob,
                    ),
                    None => after == store,
                },
                StepView::Done(Err(e)) => {
                    ||| after == store
                    ||| {
                        &&& key_id_guard matches Some(guard)
                        &&& events.len() >= 4
                        &&& events[0] == UpgradeEventView::<T>::Attempted(
                            Err(Error::spec_key_requires_upgrade()),
                        )
                        &&& events[1] matches UpgradeEventView::Upgraded(Ok(upgraded_blob))
                        &&& events[2] matches UpgradeEventView::Persisted(Ok(_))
                        &&& !(events[3] matches UpgradeEventView::Attempted(Ok(_)))
                        &&& after == store.insert_blob(
                            guard.id(),
                            SubComponentType::KmBlob,
                            upgraded_blob,
                        )
                    }
                },
                StepView::Perform(state, _) => match state {
                    UpgradeStateView::SecondAttempt {
                        key_id_guard: Some(guard),
                        upgraded_blob,
                    } => after == store.insert_blob(
                        guard.id(),
                        SubComponentType::KmBlob,
                        upgraded_blob,
                    ),
                    _ => after == store,
                },
            }
        }),
{
    reveal_with_fuel(run, 6);
    reveal_with_fuel(store_after, 6);
}

/// If the protocol ends in an error before the call is tried a second time
/// (the first attempt fails for another reason than the demand for an
/// upgrade, the engine fails to upgrade, or the key store refuses the
/// upgraded blob), the key store is as it was: nothing is stored in part.
pub proof fn failure_before_retry_keeps_store<T>(
    security_level: SecurityLevel,
    key_id_guard: Option<KeyIdGuard>,
    blob: Seq<u8>,
    params: Seq<KeyParameterView>,
    store: KeyStoreModel,
    events: Seq<UpgradeEventView<T>>,
)
    requires
        upgrade_run(
            upgrade_start::<T>(security_level, key_id_guard, blob, params),
            events,
        ) is Done,
        upgrade_run(
            upgrade_start::<T>(security_level, key_id_guard, blob, params),
            events,
        )->Done_0 is Err,
        forall|i: int|
            0 <= i < upgrade_performed(
                upgrade_start::<T>(security_level, key_id_guard, blob, params),
                events,
            ).len() ==> i == 0 || !(#[trigger] upgrade_performed(
                upgrade_start::<T>(security_level, key_id_guard, blob, params),
                events,
            )[i] is Attempt),
    ensures
        upgrade_store_after(
            store,
            upgrade_start::<T>(security_level, key_id_guard, blob, params),
            events,
        ) == store,
{
    let start = upgrade_start::<T>(security_level, key_id_guard, blob, params);
    reveal_with_fuel(run, 6);
    reveal_with_fuel(performed, 6);
    reveal_with_fuel(store_after, 6);
    let calls = upgrade_performed(start, events);
    if calls.len() >= 4 {
        assert(!(calls[3] is Attempt));
    }
}

} // verus!
