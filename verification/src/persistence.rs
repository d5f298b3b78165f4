//! The persistence of a newly created key: the certificate chain is split, and
//! unless the caller keeps the blob itself, an entry is created, filled and
//! only then bound to its alias.

use crate::api::{Domain, KeyDescriptor, KeyDescriptorView, KeyMetadata, KeyMetadataView};
use crate::database::{KeyIdGuard, KeyStoreModel, SubComponentType};
use crate::error::Error;
use crate::exchange::{
    performed, run, store_after, store_effect, Action, ActionView, Event, EventView, Step,
    StepView,
};
use crate::key_parameter::clone_key_parameters;
use crate::keymint::{
    clone_bytes, lemma_bytes_view, Certificate, KeyCharacteristics, KeyCharacteristicsView,
    SecurityLevel,
};
use crate::utils::{
    authorizations, internal_parameters, key_characteristics_to_internal,
    key_parameters_to_authorizations,
};
use vstd::prelude::*;

verus! {

/// The leaf certificate of a chain: its first entry, if it has one.
pub open spec fn leaf_certificate(chain: Option<Seq<Seq<u8>>>) -> Option<Seq<u8>> {
    match chain {
        Some(chain) => if chain.len() >= 1 {
            Some(chain[0])
        } else {
            None
        },
        None => None,
    }
}

/// The issuing chain of a chain: the entries after the first, concatenated,
/// if there are any.
pub open spec fn issuing_chain(chain: Option<Seq<Seq<u8>>>) -> Option<Seq<u8>> {
    match chain {
        Some(chain) => if chain.len() >= 2 {
            Some(chain.subrange(1, chain.len() as int).flatten())
        } else {
            None
        },
        None => None,
    }
}

/// Splits the certificate chain the engine returned into the leaf certificate
/// and the concatenation of the certificates that follow it.
pub fn split_certificate_chain(km_cert_chain: Option<Vec<Certificate>>) -> (r: (
    Option<Vec<u8>>,
    Option<Vec<u8>>,
))
    ensures
        r.0.deep_view() == leaf_certificate(km_cert_chain.deep_view()),
        r.1.deep_view() == issuing_chain(km_cert_chain.deep_view()),
{
    match km_cert_chain {
        None => (None, None),
        Some(chain) => {
            if chain.len() == 0 {
                return (None, None);
            }
            let ghost certs = chain.deep_view();
            let cert = clone_bytes(&chain[0].encoded_certificate);
            if chain.len() == 1 {
                return (Some(cert), None);
            }
            let mut rest: Vec<u8> = Vec::new();
            let mut i: usize = 1;
            assert(certs.subrange(1, 1) =~= Seq::<Seq<u8>>::empty());
            while i < chain.len()
                invariant
                    1 <= i <= chain.len(),
                    certs == chain.deep_view(),
                    rest@ == certs.subrange(1, i as int).flatten(),
                decreases chain.len() - i,
            {
                let mut next = clone_bytes(&chain[i].encoded_certificate);
                proof {
                    lemma_bytes_view(chain[i as int].encoded_certificate);
                    assert(certs.subrange(1, i + 1) =~= certs.subrange(1, i as int).push(
                        certs[i as int],
                    ));
                    certs.subrange(1, i as int).lemma_flatten_push(certs[i as int]);
                }
                rest.append(&mut next);
                i += 1;
            }
            proof {
                lemma_bytes_view(rest);
            }
            (Some(cert), Some(rest))
        },
    }
}

/// The answer to a creation: the descriptor of the new key, the security
/// level of the service, the split certificates and one authorization for
/// each parameter kept.
pub open spec fn key_metadata(
    security_level: SecurityLevel,
    key: KeyDescriptorView,
    cert: Option<Seq<u8>>,
    cert_chain: Option<Seq<u8>>,
    key_parameters: Seq<crate::key_parameter::KeyParameterView>,
) -> KeyMetadataView {
    KeyMetadataView {
        key,
        key_security_level: security_level,
        certificate: cert,
        certificate_chain: cert_chain,
        authorizations: authorizations(key_parameters),
    }
}

/// The descriptor of a key whose blob the caller keeps.
pub open spec fn blob_descriptor(blob: Seq<u8>) -> KeyDescriptorView {
    KeyDescriptorView { domain: Domain::Blob, nspace: 0, alias: None, blob: Some(blob) }
}

/// The descriptor of a stored key.
pub open spec fn key_id_descriptor(key_id: i64) -> KeyDescriptorView {
    KeyDescriptorView { domain: Domain::KeyId, nspace: key_id, alias: None, blob: None }
}

/// What the key store is doing for the new key.
#[derive(Debug, PartialEq, Eq)]
pub enum StoreStage {
    /// Creating the entry.
    CreatingEntry,
    /// Taking the key blob.
    InsertingBlob(KeyIdGuard),
    /// Taking the leaf certificate.
    InsertingCert(KeyIdGuard),
    /// Taking the issuing chain.
    InsertingCertChain(KeyIdGuard),
    /// Taking the key parameters.
    InsertingParameters(KeyIdGuard),
    /// Binding the alias to the entry.
    RebindingAlias(KeyIdGuard),
}

/// A persistence under way.
#[derive(Debug, PartialEq, Eq)]
pub struct StoreNewKeyState {
    pub stage: StoreStage,
    pub security_level: SecurityLevel,
    /// The descriptor under which the key is to be found.
    pub key: KeyDescriptor,
    pub blob: Vec<u8>,
    pub cert: Option<Vec<u8>>,
    pub cert_chain: Option<Vec<u8>>,
    pub key_parameters: Vec<crate::key_parameter::KeyParameter>,
}

/// What a [`StoreNewKeyState`] holds, as mathematical values.
pub struct StoreNewKeyStateView {
    pub stage: StoreStage,
    pub security_level: SecurityLevel,
    pub key: KeyDescriptorView,
    pub blob: Seq<u8>,
    pub cert: Option<Seq<u8>>,
    pub cert_chain: Option<Seq<u8>>,
    pub key_parameters: Seq<crate::key_parameter::KeyParameterView>,
}

impl DeepView for StoreNewKeyState {
    type V = StoreNewKeyStateView;

    open spec fn deep_view(&self) -> StoreNewKeyStateView {
        StoreNewKeyStateView {
            stage: self.stage,
            security_level: self.security_level,
            key: self.key.deep_view(),
            blob: self.blob.deep_view(),
            cert: self.cert.deep_view(),
            cert_chain: self.cert_chain.deep_view(),
            key_parameters: self.key_parameters.deep_view(),
        }
    }
}

/// A step of a key creation.
pub type StoreNewKeyStep = Step<StoreNewKeyState, Action, KeyMetadata>;

pub type StoreNewKeyStepView = StepView<StoreNewKeyStateView, ActionView, KeyMetadataView>;

/// The first step of the persistence of a key that the engine returned as
/// `blob`, with `key_characteristics` and the certificate chain `chain`.
///
/// For a descriptor of the blob domain nothing is stored: the request ends
/// with a descriptor that carries the blob. For any other descriptor an entry
/// is created in its domain and namespace.
pub open spec fn store_new_key_start(
    security_level: SecurityLevel,
    key: KeyDescriptorView,
    key_characteristics: KeyCharacteristicsView,
    chain: Option<Seq<Seq<u8>>>,
    blob: Seq<u8>,
) -> StoreNewKeyStepView {
    let cert = leaf_certificate(chain);
    let cert_chain = issuing_chain(chain);
    let key_parameters = internal_parameters(key_characteristics, security_level);
    if key.domain == Domain::Blob {
        StepView::Done(
            Ok(key_metadata(security_level, blob_descriptor(blob), cert, cert_chain, key_parameters)),
        )
    } else {
        StepView::Perform(
            StoreNewKeyStateView {
                stage: StoreStage::CreatingEntry,
                security_level,
                key,
                blob,
                cert,
                cert_chain,
                key_parameters,
            },
            ActionView::CreateKeyEntry { domain: key.domain, nspace: key.nspace },
        )
    }
}

impl StoreNewKeyStateView {
    /// This persistence, at another stage.
    pub open spec fn at(self, stage: StoreStage) -> Self {
        StoreNewKeyStateView { stage, ..self }
    }

    /// The insertion of one part of the entry.
    pub open spec fn insertion(self, guard: KeyIdGuard, kind: SubComponentType, blob: Seq<u8>) -> ActionView {
        ActionView::InsertBlob {
            key_id: guard.id(),
            kind,
            blob,
            security_level: self.security_level,
        }
    }

    /// What follows the key blob: the leaf certificate if there is one.
    pub open spec fn after_blob(self, guard: KeyIdGuard) -> StoreNewKeyStepView {
        match self.cert {
            Some(cert) => StepView::Perform(
                self.at(StoreStage::InsertingCert(guard)),
                self.insertion(guard, SubComponentType::Cert, cert),
            ),
            None => self.after_cert(guard),
        }
    }

    /// What follows the leaf certificate: the issuing chain if there is one.
    pub open spec fn after_cert(self, guard: KeyIdGuard) -> StoreNewKeyStepView {
        match self.cert_chain {
            Some(cert_chain) => StepView::Perform(
                self.at(StoreStage::InsertingCertChain(guard)),
                self.insertion(guard, SubComponentType::CertChain, cert_chain),
            ),
            None => self.after_cert_chain(guard),
        }
    }

    /// What follows the certificates: the key parameters.
    pub open spec fn after_cert_chain(self, guard: KeyIdGuard) -> StoreNewKeyStepView {
        StepView::Perform(
            self.at(StoreStage::InsertingParameters(guard)),
            ActionView::InsertKeyParameters { key_id: guard.id(), params: self.key_parameters },
        )
    }

    /// What follows the key parameters: the alias is bound to the entry. A
    /// descriptor without an alias cannot have come this far by the checks of
    /// the requests; here it ends the persistence with the internal error.
    pub open spec fn after_parameters(self, guard: KeyIdGuard) -> StoreNewKeyStepView {
        match self.key.alias {
            Some(alias) => StepView::Perform(
                self.at(StoreStage::RebindingAlias(guard)),
                ActionView::RebindAlias {
                    key_id: guard.id(),
                    alias,
                    domain: self.key.domain,
                    nspace: self.key.nspace,
                },
            ),
            None => StepView::Done(Err(Error::spec_sys())),
        }
    }

    /// The answer once the alias is bound: the new key, named by its key id.
    pub open spec fn stored(self, guard: KeyIdGuard) -> StoreNewKeyStepView {
        StepView::Done(
            Ok(
                key_metadata(
                    self.security_level,
                    key_id_descriptor(guard.id()),
                    self.cert,
                    self.cert_chain,
                    self.key_parameters,
                ),
            ),
        )
    }

    /// The step that follows when `event` answers the call of this stage.
    ///
    /// The parts are written in a fixed order, all under the key id of the
    /// new entry: key blob, leaf certificate, issuing chain, key parameters,
    /// and last the alias. An error of the key store ends the persistence with
    /// that error; an answer to another call ends it with the internal error.
    pub open spec fn resume(self, event: EventView) -> StoreNewKeyStepView {
        match (self.stage, event) {
            (StoreStage::CreatingEntry, EventView::KeyEntryCreated(Ok(guard))) => StepView::Perform(
                self.at(StoreStage::InsertingBlob(guard)),
                self.insertion(guard, SubComponentType::KmBlob, self.blob),
            ),
            (StoreStage::CreatingEntry, EventView::KeyEntryCreated(Err(e))) => StepView::Done(
                Err(e),
            ),
            (StoreStage::CreatingEntry, _) => StepView::Done(Err(Error::spec_sys())),
            (_, EventView::Completed(Err(e))) => StepView::Done(Err(e)),
            (StoreStage::InsertingBlob(guard), EventView::Completed(Ok(_))) => self.after_blob(
                guard,
            ),
            (StoreStage::InsertingCert(guard), EventView::Completed(Ok(_))) => self.after_cert(
                guard,
            ),
            (
                StoreStage::InsertingCertChain(guard),
                EventView::Completed(Ok(_)),
            ) => self.after_cert_chain(guard),
            (
                StoreStage::InsertingParameters(guard),
                EventView::Completed(Ok(_)),
            ) => self.after_parameters(guard),
            (StoreStage::RebindingAlias(guard), EventView::Completed(Ok(_))) => self.stored(guard),
            _ => StepView::Done(Err(Error::spec_sys())),
        }
    }
}

impl StoreNewKeyState {
    fn insertion(&self, guard: &KeyIdGuard, kind: SubComponentType, blob: &Vec<u8>) -> (action:
        Action)
        ensures
            action.deep_view() == self.deep_view().insertion(*guard, kind, blob.deep_view()),
    {
        Action::InsertBlob {
            key_id: guard.id(),
            kind,
            blob: clone_bytes(blob),
            security_level: self.security_level,
        }
    }

    fn at(self, stage: StoreStage) -> (state: Self)
        ensures
            state.deep_view() == self.deep_view().at(stage),
    {
        StoreNewKeyState { stage, ..self }
    }

    fn after_blob(self, guard: KeyIdGuard) -> (step: StoreNewKeyStep)
        ensures
            step.deep_view() == self.deep_view().after_blob(guard),
    {
        match &self.cert {
            Some(cert) => {
                let action = self.insertion(&guard, SubComponentType::Cert, cert);
                Step::Perform(self.at(StoreStage::InsertingCert(guard)), action)
            },
            None => self.after_cert(guard),
        }
    }

    fn after_cert(self, guard: KeyIdGuard) -> (step: StoreNewKeyStep)
        ensures
            step.deep_view() == self.deep_view().after_cert(guard),
    {
        match &self.cert_chain {
            Some(cert_chain) => {
                let action = self.insertion(&guard, SubComponentType::CertChain, cert_chain);
                Step::Perform(self.at(StoreStage::InsertingCertChain(guard)), action)
            },
            None => self.after_cert_chain(guard),
        }
    }

    fn after_cert_chain(self, guard: KeyIdGuard) -> (step: StoreNewKeyStep)
        ensures
            step.deep_view() == self.deep_view().after_cert_chain(guard),
    {
        let action = Action::InsertKeyParameters {
            key_id: guard.id(),
            params: clone_key_parameters(&self.key_parameters),
        };
        Step::Perform(self.at(StoreStage::InsertingParameters(guard)), action)
    }

    fn after_parameters(self, guard: KeyIdGuard) -> (step: StoreNewKeyStep)
        ensures
            step.deep_view() == self.deep_view().after_parameters(guard),
    {
        match &self.key.alias {
            Some(alias) => {
                let action = Action::RebindAlias {
                    key_id: guard.id(),
                    alias: alias.clone(),
                    domain: self.key.domain,
                    nspace: self.key.nspace,
                };
                Step::Perform(self.at(StoreStage::RebindingAlias(guard)), action)
            },
            None => Step::Done(Err(Error::sys())),
        }
    }

    fn stored(self, guard: KeyIdGuard) -> (step: StoreNewKeyStep)
        ensures
            step.deep_view() == self.deep_view().stored(guard),
    {
        Step::Done(
            Ok(
                KeyMetadata {
                    key: KeyDescriptor {
                        domain: Domain::KeyId,
                        nspace: guard.id(),
                        alias: None,
                        blob: None,
                    },
                    key_security_level: self.security_level,
                    certificate: self.cert,
                    certificate_chain: self.cert_chain,
                    authorizations: key_parameters_to_authorizations(self.key_parameters),
                },
            ),
        )
    }

    /// Resumes the persistence with the key store's answer.
    pub fn resume(self, event: Event) -> (step: StoreNewKeyStep)
        ensures
            step.deep_view() == self.deep_view().resume(event.deep_view()),
    {
        let StoreNewKeyState {
            stage,
            security_level,
            key,
            blob,
            cert,
            cert_chain,
            key_parameters,
        } = self;
        let state = StoreNewKeyState {
            stage: StoreStage::CreatingEntry,
            security_level,
            key,
            blob,
            cert,
            cert_chain,
            key_parameters,
        };
        match stage {
            StoreStage::CreatingEntry => match event {
                Event::KeyEntryCreated(Ok(guard)) => {
                    let action = state.insertion(&guard, SubComponentType::KmBlob, &state.blob);
                    Step::Perform(state.at(StoreStage::InsertingBlob(guard)), action)
                },
                Event::KeyEntryCreated(Err(e)) => Step::Done(Err(e)),
                _ => Step::Done(Err(Error::sys())),
            },
            StoreStage::InsertingBlob(guard) => match event {
                Event::Completed(Ok(_)) => state.after_blob(guard),
                Event::Completed(Err(e)) => Step::Done(Err(e)),
                _ => Step::Done(Err(Error::sys())),
            },
            StoreStage::InsertingCert(guard) => match event {
                Event::Completed(Ok(_)) => state.after_cert(guard),
                Event::Completed(Err(e)) => Step::Done(Err(e)),
                _ => Step::Done(Err(Error::sys())),
            },
            StoreStage::InsertingCertChain(guard) => match event {
                Event::Completed(Ok(_)) => state.after_cert_chain(guard),
                Event::Completed(Err(e)) => Step::Done(Err(e)),
                _ => Step::Done(Err(Error::sys())),
            },
            StoreStage::InsertingParameters(guard) => match event {
                Event::Completed(Ok(_)) => state.after_parameters(guard),
                Event::Completed(Err(e)) => Step::Done(Err(e)),
                _ => Step::Done(Err(Error::sys())),
            },
            StoreStage::RebindingAlias(guard) => match event {
                Event::Completed(Ok(_)) => state.stored(guard),
                Event::Completed(Err(e)) => Step::Done(Err(e)),
                _ => Step::Done(Err(Error::sys())),
            },
        }
    }
}

impl StoreNewKeyState {
    /// Starts the persistence of a key the engine has created: `blob` is its
    /// key blob, `key_characteristics` its parameters, `km_cert_chain` its
    /// certificate chain if the engine returned one, `key` the descriptor
    /// under which the caller wants to find it, and `security_level` the
    /// level of the service.
    pub fn start(
        security_level: SecurityLevel,
        key: KeyDescriptor,
        key_characteristics: KeyCharacteristics,
        km_cert_chain: Option<Vec<Certificate>>,
        blob: Vec<u8>,
    ) -> (step: StoreNewKeyStep)
        ensures
            step.deep_view() == store_new_key_start(
                security_level,
                key.deep_view(),
                key_characteristics.deep_view(),
                km_cert_chain.deep_view(),
                blob.deep_view(),
            ),
    {
        let (cert, cert_chain) = split_certificate_chain(km_cert_chain);
        let key_parameters = key_characteristics_to_internal(key_characteristics, security_level);
        match key.domain {
            Domain::Blob => Step::Done(
                Ok(
                    KeyMetadata {
                        key: KeyDescriptor {
                            domain: Domain::Blob,
                            nspace: 0,
                            alias: None,
                            blob: Some(blob),
                        },
                        key_security_level: security_level,
                        certificate: cert,
                        certificate_chain: cert_chain,
                        authorizations: key_parameters_to_authorizations(key_parameters),
                    },
                ),
            ),
            _ => {
                let action = Action::CreateKeyEntry { domain: key.domain, nspace: key.nspace };
                Step::Perform(
                    StoreNewKeyState {
                        stage: StoreStage::CreatingEntry,
                        security_level,
                        key,
                        blob,
                        cert,
                        cert_chain,
                        key_parameters,
                    },
                    action,
                )
            },
        }
    }
}

/// The step a persistence has reached after the answers `events`.
pub open spec fn store_new_key_run(step: StoreNewKeyStepView, events: Seq<EventView>) -> StoreNewKeyStepView {
    run(|s: StoreNewKeyStateView, e: EventView| s.resume(e), step, events)
}

/// The calls a persistence has asked for while it took the answers `events`.
pub open spec fn store_new_key_performed(step: StoreNewKeyStepView, events: Seq<EventView>) -> Seq<
    ActionView,
> {
    performed(|s: StoreNewKeyStateView, e: EventView| s.resume(e), step, events)
}

/// The key store after a persistence took the answers `events`.
pub open spec fn store_new_key_store_after(
    store: KeyStoreModel,
    step: StoreNewKeyStepView,
    events: Seq<EventView>,
) -> KeyStoreModel {
    store_after(
        |s: StoreNewKeyStateView, e: EventView| s.resume(e),
        |st: KeyStoreModel, a: ActionView, e: EventView| store_effect(st, a, e),
        store,
        step,
        events,
    )
}

/// Whenever the persistence of a key outside the blob domain succeeds, the
/// answer names the key in the key-id domain, and the key store holds under
/// that id exactly what the engine returned: its key blob, the leaf
/// certificate and issuing chain split from its chain, and its parameters.
/// The alias of the request names that id from then on.
pub proof fn stored_key_is_what_the_engine_returned(
    security_level: SecurityLevel,
    key: KeyDescriptorView,
    key_characteristics: KeyCharacteristicsView,
    chain: Option<Seq<Seq<u8>>>,
    blob: Seq<u8>,
    store: KeyStoreModel,
    events: Seq<EventView>,
)
    requires
        key.domain != Domain::Blob,
        store_new_key_run(
            store_new_key_start(security_level, key, key_characteristics, chain, blob),
            events,
        ) matches StepView::Done(Ok(_)),
    ensures
        ({
            let start = store_new_key_start(security_level, key, key_characteristics, chain, blob);
            let metadata = store_new_key_run(start, events)->Done_0->Ok_0;
            let after = store_new_key_store_after(store, start, events);
            let key_id = metadata.key.nspace;
            &&& metadata == key_metadata(
                security_level,
                key_id_descriptor(key_id),
                leaf_certificate(chain),
                issuing_chain(chain),
                internal_parameters(key_characteristics, security_level),
            )
            &&& metadata.key.domain == Domain::KeyId
            &&& after.km_blob(key_id) == Some(blob)
            &&& after.entry(key_id).cert == leaf_certificate(chain)
            &&& after.entry(key_id).cert_chain == issuing_chain(chain)
            &&& after.entry(key_id).parameters == internal_parameters(
                key_characteristics,
                security_level,
            )
            &&& key.alias is Some
            &&& after.lookup(key.domain, key.nspace, key.alias->Some_0) == Some(key_id)
        }),
{
    reveal_with_fuel(run, 8);
    reveal_with_fuel(store_after, 8);
}

/// The alias is bound last: a persistence that has not succeeded, because it
/// failed or is still under way, has bound no alias. So what a lookup by
/// alias finds is never an entry that lacks a part.
pub proof fn alias_is_bound_last(
    security_level: SecurityLevel,
    key: KeyDescriptorView,
    key_characteristics: KeyCharacteristicsView,
    chain: Option<Seq<Seq<u8>>>,
    blob: Seq<u8>,
    store: KeyStoreModel,
    events: Seq<EventView>,
)
    requires
        !(store_new_key_run(
            store_new_key_start(security_level, key, key_characteristics, chain, blob),
            events,
        ) matches StepView::Done(Ok(_))),
    ensures
        store_new_key_store_after(
            store,
            store_new_key_start(security_level, key, key_characteristics, chain, blob),
            events,
        ).aliases == store.aliases,
{
    reveal_with_fuel(run, 8);
    reveal_with_fuel(store_after, 8);
}

} // verus!
