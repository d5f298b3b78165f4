//! The four requests, driven against collaborators that live in memory.

use keystore2::api::{
    AuthenticatorSpec, CreateOperationResponse, Domain, KeyDescriptor, KeyMetadata,
    OperationSession,
};
use keystore2::database::{KeyEntry, KeyEntryLoadBits, KeyIdGuard, SubComponentType};
use keystore2::error::{
    Error, ErrorCode, ResponseCode, INVALID_ARGUMENT, KEY_REQUIRES_UPGRADE, PERMISSION_DENIED,
    SYSTEM_ERROR, TOO_MANY_OPERATIONS,
};
use keystore2::exchange::{Action, Event, Step};
use keystore2::key_creation::KeyCreationStep;
use keystore2::keymint::{
    BeginResult, Certificate, EngineOperation, HardwareAuthenticatorType, KeyCharacteristics,
    KeyCreationResult, KeyFormat, KeyParameter, KeyPurpose, SecurityLevel, Tag, ALGORITHM_AES,
    ALGORITHM_EC, ALGORITHM_HMAC, ALGORITHM_RSA, ALGORITHM_TRIPLE_DES, AUTHENTICATOR_FINGERPRINT,
    AUTHENTICATOR_PASSWORD, TAG_ALGORITHM, TAG_PURPOSE,
};
use keystore2::operation_creation::CreateOperationStep;
use keystore2::permission::KeyPerm;
use keystore2::security_level::KeystoreSecurityLevel;
use std::collections::VecDeque;

const CALLER: u32 = 10123;

const TAG_KEY_SIZE: i32 = 805306371;

const TAG_NONCE: i32 = -1879047191;

fn integer(tag: i32, value: i32) -> KeyParameter {
    KeyParameter {
        tag: Tag(tag),
        bool_value: false,
        integer: value,
        long_integer: 0,
        date_time: 0,
        blob: None,
    }
}

fn aes_parameters() -> Vec<KeyParameter> {
    vec![integer(TAG_ALGORITHM, ALGORITHM_AES), integer(TAG_KEY_SIZE, 256)]
}

fn encrypt_parameters() -> Vec<KeyParameter> {
    vec![
        integer(TAG_KEY_SIZE, 256),
        integer(TAG_PURPOSE, 0),
        KeyParameter {
            tag: Tag(TAG_NONCE),
            bool_value: false,
            integer: 0,
            long_integer: 0,
            date_time: 0,
            blob: Some(vec![1, 2, 3]),
        },
    ]
}

fn app_key(alias: &str) -> KeyDescriptor {
    KeyDescriptor { domain: Domain::App, nspace: 0, alias: Some(alias.to_string()), blob: None }
}

fn key_id(id: i64) -> KeyDescriptor {
    KeyDescriptor { domain: Domain::KeyId, nspace: id, alias: None, blob: None }
}

fn both_authenticators() -> Vec<AuthenticatorSpec> {
    vec![
        AuthenticatorSpec {
            authenticator_type: HardwareAuthenticatorType(AUTHENTICATOR_FINGERPRINT),
            authenticator_id: 22,
        },
        AuthenticatorSpec {
            authenticator_type: HardwareAuthenticatorType(AUTHENTICATOR_PASSWORD),
            authenticator_id: 11,
        },
        AuthenticatorSpec {
            authenticator_type: HardwareAuthenticatorType(AUTHENTICATOR_PASSWORD),
            authenticator_id: 33,
        },
    ]
}

fn invalid_argument() -> Error {
    Error::Km(ErrorCode(INVALID_ARGUMENT))
}

fn system_error() -> Error {
    Error::Rc(ResponseCode(SYSTEM_ERROR))
}

fn permission_denied() -> Error {
    Error::Rc(ResponseCode(PERMISSION_DENIED))
}

/// The collaborators, in memory.
struct World {
    /// Permissions the access gate denies.
    denied: Vec<KeyPerm>,
    /// The entries of the key store.
    entries: Vec<KeyEntry>,
    /// The aliases of the key store: domain, namespace, alias, key id.
    aliases: Vec<(Domain, i64, String, i64)>,
    /// The part whose write the key store refuses, if any.
    refused_write: Option<SubComponentType>,
    /// What the engine answers to the next creations; after that, a fresh key.
    creations: VecDeque<Result<KeyCreationResult, Error>>,
    /// What the engine answers to the next begins; after that, operation 1.
    begins: VecDeque<Result<BeginResult, Error>>,
    /// What the engine answers to the next upgrades.
    upgrades: VecDeque<Result<Vec<u8>, Error>>,
    /// What the registry answers to the next evictions; after that, success.
    evictions: VecDeque<Result<(), Error>>,
    /// The operations the registry holds, with their owners.
    operations: Vec<(EngineOperation, u32)>,
    /// Every call that was made, in order.
    calls: Vec<Action>,
}

impl World {
    fn new() -> World {
        World {
            denied: Vec::new(),
            entries: Vec::new(),
            aliases: Vec::new(),
            refused_write: None,
            creations: VecDeque::new(),
            begins: VecDeque::new(),
            upgrades: VecDeque::new(),
            evictions: VecDeque::new(),
            operations: Vec::new(),
            calls: Vec::new(),
        }
    }

    fn entry(&mut self, key_id: i64) -> &mut KeyEntry {
        self.entries.iter_mut().find(|e| e.id == key_id).expect("no such entry")
    }

    fn blob_of(&self, key_id: i64) -> Option<Vec<u8>> {
        self.entries.iter().find(|e| e.id == key_id).and_then(|e| e.km_blob.clone())
    }

    fn find(&self, key: &KeyDescriptor, caller_uid: u32) -> Option<i64> {
        match key.domain {
            Domain::KeyId => self.entries.iter().find(|e| e.id == key.nspace).map(|e| e.id),
            Domain::App | Domain::SELinux => {
                let nspace = if key.domain == Domain::App { caller_uid as i64 } else { key.nspace };
                self.aliases
                    .iter()
                    .find(|a| a.0 == key.domain && a.1 == nspace && Some(&a.2) == key.alias.as_ref())
                    .map(|a| a.3)
            }
            Domain::Blob => None,
        }
    }

    fn engine_calls(&self) -> usize {
        self.calls
            .iter()
            .filter(|c| {
                matches!(
                    c,
                    Action::AddRngEntropy { .. }
                        | Action::GenerateKey { .. }
                        | Action::ImportKey { .. }
                        | Action::ImportWrappedKey { .. }
                        | Action::Begin { .. }
                        | Action::UpgradeKey { .. }
                )
            })
            .count()
    }

    fn evictions_for(&self, caller_uid: u32) -> usize {
        self.calls.iter().filter(|c| **c == Action::Prune { caller_uid }).count()
    }

    fn fresh_key() -> KeyCreationResult {
        KeyCreationResult {
            key_blob: vec![0xb1, 0x0b],
            key_characteristics: KeyCharacteristics {
                software_enforced: vec![integer(TAG_KEY_SIZE, 256)],
                hardware_enforced: vec![integer(TAG_ALGORITHM, ALGORITHM_AES)],
            },
            certificate_chain: vec![
                Certificate { encoded_certificate: vec![1, 1] },
                Certificate { encoded_certificate: vec![2, 2, 2] },
                Certificate { encoded_certificate: vec![3] },
            ],
        }
    }

    fn perform(&mut self, action: Action) -> Event {
        let event = self.answer(&action);
        self.calls.push(action);
        event
    }

    fn answer(&mut self, action: &Action) -> Event {
        match action {
            Action::CheckKeyPermission { perm, .. } => {
                if self.denied.contains(perm) {
                    Event::Completed(Err(permission_denied()))
                } else {
                    Event::Completed(Ok(()))
                }
            }
            Action::LoadKeyEntry { key, load_bits, caller_uid, perm } => {
                assert_eq!(*load_bits, KeyEntryLoadBits::Km);
                if self.denied.contains(perm) {
                    return Event::KeyEntryLoaded(Err(permission_denied()));
                }
                match self.find(key, *caller_uid) {
                    Some(id) => {
                        let stored = self.entry(id);
                        let entry = KeyEntry {
                            id,
                            km_blob: stored.km_blob.clone(),
                            cert: None,
                            cert_chain: None,
                            sec_level: stored.sec_level,
                            parameters: stored.parameters.clone(),
                        };
                        Event::KeyEntryLoaded(Ok((KeyIdGuard::new(id), entry)))
                    }
                    None => Event::KeyEntryLoaded(Err(Error::Rc(ResponseCode(7)))),
                }
            }
            Action::CreateKeyEntry { .. } => {
                let id = 1000 + self.entries.len() as i64;
                self.entries.push(KeyEntry {
                    id,
                    km_blob: None,
                    cert: None,
                    cert_chain: None,
                    sec_level: SecurityLevel::Software,
                    parameters: Vec::new(),
                });
                Event::KeyEntryCreated(Ok(KeyIdGuard::new(id)))
            }
            Action::InsertBlob { key_id, kind, blob, security_level } => {
                if self.refused_write == Some(*kind) {
                    return Event::Completed(Err(system_error()));
                }
                let entry = self.entry(*key_id);
                entry.sec_level = *security_level;
                match kind {
                    SubComponentType::KmBlob => entry.km_blob = Some(blob.clone()),
                    SubComponentType::Cert => entry.cert = Some(blob.clone()),
                    SubComponentType::CertChain => entry.cert_chain = Some(blob.clone()),
                }
                Event::Completed(Ok(()))
            }
            Action::InsertKeyParameters { key_id, params } => {
                self.entry(*key_id).parameters = params.clone();
                Event::Completed(Ok(()))
            }
            Action::RebindAlias { key_id, alias, domain, nspace } => {
                self.aliases.retain(|a| !(a.0 == *domain && a.1 == *nspace && a.2 == *alias));
                self.aliases.push((*domain, *nspace, alias.clone(), *key_id));
                Event::Completed(Ok(()))
            }
            Action::AddRngEntropy { .. } => Event::Completed(Ok(())),
            Action::GenerateKey { .. }
            | Action::ImportKey { .. }
            | Action::ImportWrappedKey { .. } => {
                Event::KeyCreated(self.creations.pop_front().unwrap_or(Ok(World::fresh_key())))
            }
            Action::Begin { .. } => Event::OperationBegun(self.begins.pop_front().unwrap_or(Ok(
                BeginResult { challenge: 0, params: Vec::new(), operation: Some(EngineOperation(1)) },
            ))),
            Action::UpgradeKey { .. } => {
                Event::KeyUpgraded(self.upgrades.pop_front().unwrap_or(Ok(vec![0x99])))
            }
            Action::Prune { .. } => Event::Completed(self.evictions.pop_front().unwrap_or(Ok(()))),
            Action::CreateOperation { operation, caller_uid } => {
                self.operations.push((*operation, *caller_uid));
                Event::OperationCreated(Ok(OperationSession(500 + operation.0)))
            }
        }
    }

    fn create_key(&mut self, first: KeyCreationStep) -> Result<KeyMetadata, Error> {
        let mut step = first;
        loop {
            match step {
                Step::Done(result) => return result,
                Step::Perform(state, action) => {
                    let event = self.perform(action);
                    step = state.resume(event);
                }
            }
        }
    }

    fn create_operation(&mut self, first: CreateOperationStep) -> Result<CreateOperationResponse, Error> {
        let mut step = first;
        loop {
            match step {
                Step::Done(result) => return result,
                Step::Perform(state, action) => {
                    let event = self.perform(action);
                    step = state.resume(event);
                }
            }
        }
    }
}

fn service() -> KeystoreSecurityLevel {
    KeystoreSecurityLevel::new(SecurityLevel::TrustedEnvironment)
}

#[test]
fn generate_key_without_alias_is_an_argument_error() {
    for domain in [Domain::App, Domain::SELinux, Domain::KeyId] {
        let key = KeyDescriptor { domain, nspace: 0, alias: None, blob: None };
        let step = service().generate_key(CALLER, &key, None, &aes_parameters(), 0, &[7]);
        assert_eq!(step, Step::Done(Err(invalid_argument())));
    }
}

#[test]
fn import_key_without_alias_is_an_argument_error() {
    let key = KeyDescriptor { domain: Domain::SELinux, nspace: 4, alias: None, blob: None };
    let step = service().import_key(CALLER, &key, None, &aes_parameters(), 0, &[1, 2]);
    assert_eq!(step, Step::Done(Err(invalid_argument())));
}

#[test]
fn import_wrapped_key_without_alias_is_an_argument_error() {
    let key = KeyDescriptor { domain: Domain::App, nspace: 0, alias: None, blob: Some(vec![1]) };
    let step = service().import_wrapped_key(
        CALLER,
        &key,
        &key_id(1000),
        None,
        &aes_parameters(),
        &both_authenticators(),
    );
    assert_eq!(step, Step::Done(Err(invalid_argument())));
}

#[test]
fn generate_key_asks_for_rebind_in_the_namespace_of_the_caller() {
    let key = KeyDescriptor {
        domain: Domain::App,
        nspace: 77,
        alias: Some("k1".to_string()),
        blob: Some(vec![9]),
    };
    let step = service().generate_key(CALLER, &key, None, &aes_parameters(), 0, &[7]);
    match step {
        Step::Perform(_, action) => assert_eq!(
            action,
            Action::CheckKeyPermission {
                perm: KeyPerm::Rebind,
                key: KeyDescriptor {
                    domain: Domain::App,
                    nspace: CALLER as i64,
                    alias: Some("k1".to_string()),
                    blob: None,
                },
            }
        ),
        Step::Done(_) => panic!("the request ended early"),
    }
}

#[test]
fn generate_key_keeps_the_namespace_of_other_domains() {
    let key = KeyDescriptor {
        domain: Domain::SELinux,
        nspace: 77,
        alias: Some("k1".to_string()),
        blob: None,
    };
    let step = service().generate_key(CALLER, &key, None, &aes_parameters(), 0, &[7]);
    match step {
        Step::Perform(_, action) => {
            assert_eq!(action, Action::CheckKeyPermission { perm: KeyPerm::Rebind, key })
        }
        Step::Done(_) => panic!("the request ended early"),
    }
}

#[test]
fn generate_key_stores_what_the_engine_returned() {
    let mut world = World::new();
    let first = service().generate_key(CALLER, &app_key("k1"), None, &aes_parameters(), 0, &[7, 8]);
    let metadata = world.create_key(first).expect("generation failed");
    assert_eq!(metadata.key, key_id(1000));
    assert_eq!(metadata.key_security_level, SecurityLevel::TrustedEnvironment);
    assert_eq!(metadata.certificate, Some(vec![1, 1]));
    assert_eq!(metadata.certificate_chain, Some(vec![2, 2, 2, 3]));
    assert_eq!(metadata.authorizations.len(), 2);
    assert_eq!(metadata.authorizations[0].security_level, SecurityLevel::TrustedEnvironment);
    assert_eq!(metadata.authorizations[0].key_parameter, integer(TAG_ALGORITHM, ALGORITHM_AES));
    assert_eq!(metadata.authorizations[1].security_level, SecurityLevel::Software);
    assert_eq!(metadata.authorizations[1].key_parameter, integer(TAG_KEY_SIZE, 256));
    assert_eq!(world.blob_of(1000), Some(vec![0xb1, 0x0b]));
    assert_eq!(world.entry(1000).cert, Some(vec![1, 1]));
    assert_eq!(world.entry(1000).cert_chain, Some(vec![2, 2, 2, 3]));
    assert_eq!(world.entry(1000).parameters.len(), 2);
    assert_eq!(world.aliases, vec![(Domain::App, CALLER as i64, "k1".to_string(), 1000)]);
    assert_eq!(
        world.calls[..3],
        [
            Action::CheckKeyPermission {
                perm: KeyPerm::Rebind,
                key: KeyDescriptor {
                    domain: Domain::App,
                    nspace: CALLER as i64,
                    alias: Some("k1".to_string()),
                    blob: None,
                },
            },
            Action::AddRngEntropy { entropy: vec![7, 8] },
            Action::GenerateKey { params: aes_parameters() },
        ]
    );
    assert_eq!(world.calls.len(), 9);
    assert!(matches!(world.calls[8], Action::RebindAlias { key_id: 1000, .. }));
}

#[test]
fn generate_key_then_create_operation_on_the_key_id() {
    let mut world = World::new();
    let first = service().generate_key(CALLER, &app_key("k1"), None, &aes_parameters(), 0, &[]);
    let metadata = world.create_key(first).expect("generation failed");
    assert_eq!(metadata.key.domain, Domain::KeyId);
    let first = service().create_operation(CALLER, &metadata.key, &encrypt_parameters(), false);
    let response = world.create_operation(first).expect("no operation");
    assert_eq!(response.operation, Some(OperationSession(501)));
    assert_eq!(response.operation_challenge, None);
    assert_eq!(response.parameters, None);
    assert_eq!(world.operations, vec![(EngineOperation(1), CALLER)]);
    assert_eq!(
        world.calls.last(),
        Some(&Action::CreateOperation { operation: EngineOperation(1), caller_uid: CALLER })
    );
    assert!(world.calls.contains(&Action::Begin {
        purpose: KeyPurpose(0),
        key_blob: vec![0xb1, 0x0b],
        params: encrypt_parameters(),
    }));
}

#[test]
fn generate_key_in_the_blob_domain_stores_nothing() {
    let mut world = World::new();
    let key = KeyDescriptor { domain: Domain::Blob, nspace: 5, alias: None, blob: None };
    let first = service().generate_key(CALLER, &key, None, &aes_parameters(), 0, &[]);
    let metadata = world.create_key(first).expect("generation failed");
    assert_eq!(
        metadata.key,
        KeyDescriptor { domain: Domain::Blob, nspace: 0, alias: None, blob: Some(vec![0xb1, 0x0b]) }
    );
    assert!(world.entries.is_empty());
    assert!(world.aliases.is_empty());
    assert_eq!(world.calls.len(), 3);
}

#[test]
fn generate_key_without_rebind_permission_is_denied() {
    let mut world = World::new();
    world.denied.push(KeyPerm::Rebind);
    let first = service().generate_key(CALLER, &app_key("k1"), None, &aes_parameters(), 0, &[]);
    assert_eq!(world.create_key(first), Err(permission_denied()));
    assert_eq!(world.engine_calls(), 0);
    assert!(world.entries.is_empty());
}

#[test]
fn generate_key_passes_an_engine_error_on_unchanged() {
    let mut world = World::new();
    world.creations.push_back(Err(Error::Km(ErrorCode(-29))));
    let first = service().generate_key(CALLER, &app_key("k1"), None, &aes_parameters(), 0, &[]);
    assert_eq!(world.create_key(first), Err(Error::Km(ErrorCode(-29))));
    assert!(world.entries.is_empty());
}

#[test]
fn a_refused_write_binds_no_alias() {
    for part in [SubComponentType::KmBlob, SubComponentType::Cert, SubComponentType::CertChain] {
        let mut world = World::new();
        world.refused_write = Some(part);
        let first = service().generate_key(CALLER, &app_key("k1"), None, &aes_parameters(), 0, &[]);
        assert_eq!(world.create_key(first), Err(system_error()));
        assert!(world.aliases.is_empty());
        assert!(!world.calls.iter().any(|c| matches!(c, Action::RebindAlias { .. })));
    }
}

#[test]
fn import_key_picks_the_format_by_algorithm() {
    for (algorithm, format) in [
        (ALGORITHM_AES, KeyFormat::Raw),
        (ALGORITHM_HMAC, KeyFormat::Raw),
        (ALGORITHM_TRIPLE_DES, KeyFormat::Raw),
        (ALGORITHM_RSA, KeyFormat::Pkcs8),
        (ALGORITHM_EC, KeyFormat::Pkcs8),
    ] {
        let mut world = World::new();
        let params = vec![integer(TAG_KEY_SIZE, 128), integer(TAG_ALGORITHM, algorithm)];
        let first = service().import_key(CALLER, &app_key("imported"), None, &params, 0, &[4, 5]);
        let metadata = world.create_key(first).expect("import failed");
        assert_eq!(metadata.key, key_id(1000));
        assert_eq!(world.calls[1], Action::ImportKey { params, format, key_data: vec![4, 5] });
    }
}

#[test]
fn import_key_goes_by_the_first_algorithm() {
    let mut world = World::new();
    let params = vec![integer(TAG_ALGORITHM, ALGORITHM_EC), integer(TAG_ALGORITHM, ALGORITHM_AES)];
    let first = service().import_key(CALLER, &app_key("imported"), None, &params, 0, &[4]);
    world.create_key(first).expect("import failed");
    assert!(matches!(world.calls[1], Action::ImportKey { format: KeyFormat::Pkcs8, .. }));
}

#[test]
fn import_key_without_algorithm_is_an_argument_error() {
    let mut world = World::new();
    let params = vec![integer(TAG_KEY_SIZE, 128)];
    let first = service().import_key(CALLER, &app_key("imported"), None, &params, 0, &[4, 5]);
    assert_eq!(world.create_key(first), Err(invalid_argument()));
    assert_eq!(world.engine_calls(), 0);
    assert_eq!(world.calls.len(), 1);
}

#[test]
fn import_key_with_an_unknown_algorithm_is_an_argument_error() {
    for algorithm in [0, 2, 4, 31, 34, 127, 129, -1] {
        let mut world = World::new();
        let params = vec![integer(TAG_ALGORITHM, algorithm)];
        let first = service().import_key(CALLER, &app_key("imported"), None, &params, 0, &[4, 5]);
        assert_eq!(world.create_key(first), Err(invalid_argument()));
        assert_eq!(world.engine_calls(), 0);
    }
}

#[test]
fn import_key_checks_the_permission_before_the_algorithm() {
    let mut world = World::new();
    world.denied.push(KeyPerm::Rebind);
    let first = service().import_key(CALLER, &app_key("imported"), None, &[], 0, &[4, 5]);
    assert_eq!(world.create_key(first), Err(permission_denied()));
}

fn world_with_wrapping_key() -> World {
    let mut world = World::new();
    world.entries.push(KeyEntry {
        id: 1000,
        km_blob: Some(vec![0xaa]),
        cert: None,
        cert_chain: None,
        sec_level: SecurityLevel::TrustedEnvironment,
        parameters: Vec::new(),
    });
    world
}

fn wrapped_key(alias: &str) -> KeyDescriptor {
    KeyDescriptor {
        domain: Domain::App,
        nspace: 0,
        alias: Some(alias.to_string()),
        blob: Some(vec![0x77, 0x78]),
    }
}

#[test]
fn import_wrapped_key_unwraps_with_the_stored_wrapping_key() {
    let mut world = world_with_wrapping_key();
    let first = service().import_wrapped_key(
        CALLER,
        &wrapped_key("w"),
        &key_id(1000),
        Some(&[5, 6]),
        &aes_parameters(),
        &both_authenticators(),
    );
    let metadata = world.create_key(first).expect("import failed");
    assert_eq!(metadata.key, key_id(1001));
    assert_eq!(metadata.certificate, None);
    assert_eq!(metadata.certificate_chain, None);
    assert_eq!(
        world.calls[..3],
        [
            Action::CheckKeyPermission {
                perm: KeyPerm::Rebind,
                key: KeyDescriptor {
                    domain: Domain::App,
                    nspace: CALLER as i64,
                    alias: Some("w".to_string()),
                    blob: None,
                },
            },
            Action::LoadKeyEntry {
                key: key_id(1000),
                load_bits: KeyEntryLoadBits::Km,
                caller_uid: CALLER,
                perm: KeyPerm::Use,
            },
            Action::ImportWrappedKey {
                wrapped_key_data: vec![0x77, 0x78],
                wrapping_key_blob: vec![0xaa],
                masking_key: vec![5, 6],
                params: aes_parameters(),
                password_sid: 11,
                biometric_sid: 22,
            },
        ]
    );
    assert_eq!(world.blob_of(1001), Some(vec![0xb1, 0x0b]));
    assert_eq!(world.blob_of(1000), Some(vec![0xaa]));
    assert_eq!(world.entry(1001).cert, None);
}

#[test]
fn import_wrapped_key_masks_with_32_zero_bytes_by_default() {
    let mut world = world_with_wrapping_key();
    let first = service().import_wrapped_key(
        CALLER,
        &wrapped_key("w"),
        &key_id(1000),
        None,
        &aes_parameters(),
        &both_authenticators(),
    );
    world.create_key(first).expect("import failed");
    match &world.calls[2] {
        Action::ImportWrappedKey { masking_key, .. } => assert_eq!(masking_key, &vec![0u8; 32]),
        other => panic!("unexpected call {:?}", other),
    }
}

#[test]
fn import_wrapped_key_needs_both_authenticators() {
    let password = AuthenticatorSpec {
        authenticator_type: HardwareAuthenticatorType(AUTHENTICATOR_PASSWORD),
        authenticator_id: 11,
    };
    let fingerprint = AuthenticatorSpec {
        authenticator_type: HardwareAuthenticatorType(AUTHENTICATOR_FINGERPRINT),
        authenticator_id: 22,
    };
    let other =
        AuthenticatorSpec { authenticator_type: HardwareAuthenticatorType(4), authenticator_id: 44 };
    for authenticators in [vec![], vec![password], vec![fingerprint], vec![other, fingerprint, other]] {
        let mut world = world_with_wrapping_key();
        let first = service().import_wrapped_key(
            CALLER,
            &wrapped_key("w"),
            &key_id(1000),
            None,
            &aes_parameters(),
            &authenticators,
        );
        assert_eq!(world.create_key(first), Err(invalid_argument()));
        assert_eq!(world.engine_calls(), 0);
        assert_eq!(world.calls.len(), 2);
        assert_eq!(world.entries.len(), 1);
    }
}

#[test]
fn import_wrapped_key_refuses_a_wrapping_blob() {
    let wrapping =
        KeyDescriptor { domain: Domain::Blob, nspace: 0, alias: None, blob: Some(vec![0xaa]) };
    let step = service().import_wrapped_key(
        CALLER,
        &wrapped_key("w"),
        &wrapping,
        None,
        &aes_parameters(),
        &both_authenticators(),
    );
    assert_eq!(step, Step::Done(Err(invalid_argument())));
}

#[test]
fn import_wrapped_key_needs_wrapped_data() {
    let step = service().import_wrapped_key(
        CALLER,
        &app_key("w"),
        &key_id(1000),
        None,
        &aes_parameters(),
        &both_authenticators(),
    );
    assert_eq!(step, Step::Done(Err(invalid_argument())));
}

#[test]
fn import_wrapped_key_without_key_blob_is_an_internal_error() {
    let mut world = world_with_wrapping_key();
    world.entry(1000).km_blob = None;
    let first = service().import_wrapped_key(
        CALLER,
        &wrapped_key("w"),
        &key_id(1000),
        None,
        &aes_parameters(),
        &[],
    );
    assert_eq!(world.create_key(first), Err(system_error()));
}

#[test]
fn import_wrapped_key_upgrades_a_stale_wrapping_key() {
    let mut world = world_with_wrapping_key();
    world.creations.push_back(Err(Error::Km(ErrorCode(KEY_REQUIRES_UPGRADE))));
    world.upgrades.push_back(Ok(vec![0xab, 0xcd]));
    let first = service().import_wrapped_key(
        CALLER,
        &wrapped_key("w"),
        &key_id(1000),
        None,
        &aes_parameters(),
        &both_authenticators(),
    );
    let metadata = world.create_key(first).expect("import failed");
    assert_eq!(metadata.key, key_id(1001));
    assert_eq!(world.blob_of(1000), Some(vec![0xab, 0xcd]));
    assert_eq!(world.calls[3], Action::UpgradeKey { key_blob: vec![0xaa], params: vec![] });
    assert_eq!(
        world.calls[4],
        Action::InsertBlob {
            key_id: 1000,
            kind: SubComponentType::KmBlob,
            blob: vec![0xab, 0xcd],
            security_level: SecurityLevel::TrustedEnvironment,
        }
    );
    match &world.calls[5] {
        Action::ImportWrappedKey { wrapping_key_blob, .. } => {
            assert_eq!(wrapping_key_blob, &vec![0xab, 0xcd])
        }
        other => panic!("unexpected call {:?}", other),
    }
}

#[test]
fn create_operation_without_purpose_is_an_argument_error() {
    let mut world = world_with_wrapping_key();
    let params = vec![integer(TAG_KEY_SIZE, 256)];
    let first = service().create_operation(CALLER, &key_id(1000), &params, false);
    assert_eq!(world.create_operation(first), Err(invalid_argument()));
    assert_eq!(world.engine_calls(), 0);
    assert_eq!(world.calls.len(), 1);
    assert!(world.operations.is_empty());
}

#[test]
fn create_operation_resolves_the_key_before_it_looks_for_the_purpose() {
    let mut world = world_with_wrapping_key();
    world.denied.push(KeyPerm::Use);
    let first = service().create_operation(CALLER, &key_id(1000), &[], false);
    assert_eq!(world.create_operation(first), Err(permission_denied()));
}

#[test]
fn create_operation_on_a_blob_needs_the_use_permission() {
    let key = KeyDescriptor { domain: Domain::Blob, nspace: 0, alias: None, blob: Some(vec![0xcc]) };
    let mut world = World::new();
    let first = service().create_operation(CALLER, &key, &encrypt_parameters(), false);
    let response = world.create_operation(first).expect("no operation");
    assert_eq!(response.operation, Some(OperationSession(501)));
    assert_eq!(
        world.calls,
        vec![
            Action::CheckKeyPermission { perm: KeyPerm::Use, key: key.clone() },
            Action::Begin {
                purpose: KeyPurpose(0),
                key_blob: vec![0xcc],
                params: encrypt_parameters(),
            },
            Action::CreateOperation { operation: EngineOperation(1), caller_uid: CALLER },
        ]
    );
    let mut world = World::new();
    world.denied.push(KeyPerm::Use);
    let first = service().create_operation(CALLER, &key, &encrypt_parameters(), false);
    assert_eq!(world.create_operation(first), Err(permission_denied()));
    assert_eq!(world.engine_calls(), 0);
}

#[test]
fn create_operation_on_a_blob_descriptor_without_blob_is_an_internal_error() {
    let key = KeyDescriptor { domain: Domain::Blob, nspace: 0, alias: None, blob: None };
    let mut world = World::new();
    let first = service().create_operation(CALLER, &key, &encrypt_parameters(), false);
    assert_eq!(world.create_operation(first), Err(system_error()));
    assert_eq!(world.calls.len(), 1);
}

#[test]
fn create_operation_on_an_entry_without_blob_is_an_internal_error() {
    let mut world = world_with_wrapping_key();
    world.entry(1000).km_blob = None;
    let first = service().create_operation(CALLER, &key_id(1000), &encrypt_parameters(), false);
    assert_eq!(world.create_operation(first), Err(system_error()));
}

#[test]
fn create_operation_takes_the_first_purpose() {
    let mut world = world_with_wrapping_key();
    let params = vec![integer(TAG_PURPOSE, 2), integer(TAG_PURPOSE, 3)];
    let first = service().create_operation(CALLER, &key_id(1000), &params, false);
    world.create_operation(first).expect("no operation");
    assert!(matches!(world.calls[1], Action::Begin { purpose: KeyPurpose(2), .. }));
}

#[test]
fn create_operation_returns_the_parameters_of_the_engine() {
    let mut world = world_with_wrapping_key();
    world.begins.push_back(Ok(BeginResult {
        challenge: 9,
        params: vec![integer(TAG_KEY_SIZE, 1)],
        operation: Some(EngineOperation(7)),
    }));
    let first = service().create_operation(CALLER, &key_id(1000), &encrypt_parameters(), true);
    let response = world.create_operation(first).expect("no operation");
    assert_eq!(
        response,
        CreateOperationResponse {
            operation: Some(OperationSession(507)),
            operation_challenge: None,
            parameters: Some(vec![integer(TAG_KEY_SIZE, 1)]),
        }
    );
}

#[test]
fn create_operation_without_an_engine_operation_is_an_internal_error() {
    let mut world = world_with_wrapping_key();
    world.begins.push_back(Ok(BeginResult { challenge: 0, params: vec![], operation: None }));
    let first = service().create_operation(CALLER, &key_id(1000), &encrypt_parameters(), false);
    assert_eq!(world.create_operation(first), Err(system_error()));
    assert!(world.operations.is_empty());
}

#[test]
fn create_operation_evicts_once_for_each_full_engine() {
    let mut world = world_with_wrapping_key();
    for _ in 0..3 {
        world.begins.push_back(Err(Error::Km(ErrorCode(TOO_MANY_OPERATIONS))));
    }
    let first = service().create_operation(CALLER, &key_id(1000), &encrypt_parameters(), false);
    let response = world.create_operation(first).expect("no operation");
    assert_eq!(response.operation, Some(OperationSession(501)));
    assert_eq!(world.evictions_for(CALLER), 3);
    assert_eq!(world.calls.iter().filter(|c| matches!(c, Action::Prune { .. })).count(), 3);
    assert_eq!(world.calls.iter().filter(|c| matches!(c, Action::Begin { .. })).count(), 4);
    assert_eq!(world.operations, vec![(EngineOperation(1), CALLER)]);
    let begin = || Action::Begin {
        purpose: KeyPurpose(0),
        key_blob: vec![0xaa],
        params: encrypt_parameters(),
    };
    let evict = || Action::Prune { caller_uid: CALLER };
    assert_eq!(
        world.calls[1..],
        [
            begin(),
            evict(),
            begin(),
            evict(),
            begin(),
            evict(),
            begin(),
            Action::CreateOperation { operation: EngineOperation(1), caller_uid: CALLER },
        ]
    );
}

#[test]
fn create_operation_goes_on_evicting_without_a_bound() {
    let mut world = world_with_wrapping_key();
    for _ in 0..500 {
        world.begins.push_back(Err(Error::Km(ErrorCode(TOO_MANY_OPERATIONS))));
    }
    let first = service().create_operation(CALLER, &key_id(1000), &encrypt_parameters(), false);
    world.create_operation(first).expect("no operation");
    assert_eq!(world.evictions_for(CALLER), 500);
}

#[test]
fn create_operation_fails_when_eviction_fails() {
    let mut world = world_with_wrapping_key();
    world.begins.push_back(Err(Error::Km(ErrorCode(TOO_MANY_OPERATIONS))));
    world.evictions.push_back(Err(Error::Rc(ResponseCode(18))));
    let first = service().create_operation(CALLER, &key_id(1000), &encrypt_parameters(), false);
    assert_eq!(world.create_operation(first), Err(Error::Rc(ResponseCode(18))));
    assert_eq!(world.calls.len(), 3);
}

#[test]
fn create_operation_upgrades_a_stale_blob_and_stores_it() {
    let mut world = world_with_wrapping_key();
    world.begins.push_back(Err(Error::Km(ErrorCode(KEY_REQUIRES_UPGRADE))));
    world.upgrades.push_back(Ok(vec![0xab]));
    let first = service().create_operation(CALLER, &key_id(1000), &encrypt_parameters(), false);
    let response = world.create_operation(first).expect("no operation");
    assert_eq!(response.operation, Some(OperationSession(501)));
    assert_eq!(world.blob_of(1000), Some(vec![0xab]));
    assert_eq!(
        world.calls[1..],
        [
            Action::Begin {
                purpose: KeyPurpose(0),
                key_blob: vec![0xaa],
                params: encrypt_parameters(),
            },
            Action::UpgradeKey { key_blob: vec![0xaa], params: encrypt_parameters() },
            Action::InsertBlob {
                key_id: 1000,
                kind: SubComponentType::KmBlob,
                blob: vec![0xab],
                security_level: SecurityLevel::TrustedEnvironment,
            },
            Action::Begin {
                purpose: KeyPurpose(0),
                key_blob: vec![0xab],
                params: encrypt_parameters(),
            },
            Action::CreateOperation { operation: EngineOperation(1), caller_uid: CALLER },
        ]
    );
}

#[test]
fn create_operation_upgrades_a_caller_held_blob_without_storing_it() {
    let key = KeyDescriptor { domain: Domain::Blob, nspace: 0, alias: None, blob: Some(vec![0xcc]) };
    let mut world = World::new();
    world.begins.push_back(Err(Error::Km(ErrorCode(KEY_REQUIRES_UPGRADE))));
    world.upgrades.push_back(Ok(vec![0xcd]));
    let first = service().create_operation(CALLER, &key, &encrypt_parameters(), false);
    world.create_operation(first).expect("no operation");
    assert!(!world.calls.iter().any(|c| matches!(c, Action::InsertBlob { .. })));
    assert!(matches!(&world.calls[3], Action::Begin { key_blob, .. } if key_blob == &vec![0xcd]));
}

#[test]
fn create_operation_does_not_upgrade_twice() {
    let mut world = world_with_wrapping_key();
    world.begins.push_back(Err(Error::Km(ErrorCode(KEY_REQUIRES_UPGRADE))));
    world.begins.push_back(Err(Error::Km(ErrorCode(KEY_REQUIRES_UPGRADE))));
    world.upgrades.push_back(Ok(vec![0xab]));
    let first = service().create_operation(CALLER, &key_id(1000), &encrypt_parameters(), false);
    assert_eq!(
        world.create_operation(first),
        Err(Error::Km(ErrorCode(KEY_REQUIRES_UPGRADE)))
    );
    assert_eq!(world.calls.iter().filter(|c| matches!(c, Action::UpgradeKey { .. })).count(), 1);
    assert_eq!(world.blob_of(1000), Some(vec![0xab]));
}

#[test]
fn create_operation_fails_when_the_upgrade_fails() {
    let mut world = world_with_wrapping_key();
    world.begins.push_back(Err(Error::Km(ErrorCode(KEY_REQUIRES_UPGRADE))));
    world.upgrades.push_back(Err(Error::Km(ErrorCode(-33))));
    let first = service().create_operation(CALLER, &key_id(1000), &encrypt_parameters(), false);
    assert_eq!(world.create_operation(first), Err(Error::Km(ErrorCode(-33))));
    assert_eq!(world.blob_of(1000), Some(vec![0xaa]));
    assert_eq!(world.calls.len(), 3);
}

#[test]
fn create_operation_fails_when_the_upgraded_blob_cannot_be_stored() {
    let mut world = world_with_wrapping_key();
    world.begins.push_back(Err(Error::Km(ErrorCode(KEY_REQUIRES_UPGRADE))));
    world.refused_write = Some(SubComponentType::KmBlob);
    let first = service().create_operation(CALLER, &key_id(1000), &encrypt_parameters(), false);
    assert_eq!(world.create_operation(first), Err(system_error()));
    assert_eq!(world.blob_of(1000), Some(vec![0xaa]));
    assert_eq!(world.calls.iter().filter(|c| matches!(c, Action::Begin { .. })).count(), 1);
}

#[test]
fn create_operation_rejects_an_answer_to_another_call() {
    let first = service().create_operation(CALLER, &key_id(1000), &encrypt_parameters(), false);
    match first {
        Step::Perform(state, _) => {
            assert_eq!(state.resume(Event::Completed(Ok(()))), Step::Done(Err(system_error())))
        }
        Step::Done(_) => panic!("the request ended early"),
    }
}

#[test]
fn a_creation_rejects_an_answer_to_another_call() {
    let first = service().generate_key(CALLER, &app_key("k1"), None, &aes_parameters(), 0, &[]);
    match first {
        Step::Perform(state, _) => assert_eq!(
            state.resume(Event::KeyUpgraded(Ok(vec![1]))),
            Step::Done(Err(system_error()))
        ),
        Step::Done(_) => panic!("the request ended early"),
    }
}

#[test]
fn create_operation_that_begins_at_once_upgrades_nothing() {
    let mut world = world_with_wrapping_key();
    let first = service().create_operation(CALLER, &key_id(1000), &encrypt_parameters(), false);
    world.create_operation(first).expect("no operation");
    assert!(!world.calls.iter().any(|c| matches!(c, Action::UpgradeKey { .. })));
    assert!(!world.calls.iter().any(|c| matches!(c, Action::InsertBlob { .. })));
    assert_eq!(world.blob_of(1000), Some(vec![0xaa]));
    assert_eq!(world.calls.len(), 3);
}

#[test]
fn create_operation_on_a_caller_held_blob_stores_nothing_when_both_begins_fail() {
    let key = KeyDescriptor { domain: Domain::Blob, nspace: 0, alias: None, blob: Some(vec![0xcc]) };
    let mut world = world_with_wrapping_key();
    world.begins.push_back(Err(Error::Km(ErrorCode(KEY_REQUIRES_UPGRADE))));
    world.begins.push_back(Err(Error::Km(ErrorCode(-30))));
    world.upgrades.push_back(Ok(vec![0xcd]));
    let first = service().create_operation(CALLER, &key, &encrypt_parameters(), false);
    assert_eq!(world.create_operation(first), Err(Error::Km(ErrorCode(-30))));
    assert!(!world.calls.iter().any(|c| matches!(c, Action::InsertBlob { .. })));
    assert_eq!(world.blob_of(1000), Some(vec![0xaa]));
}

#[test]
fn a_creation_writes_only_to_the_entry_it_created() {
    let mut world = world_with_wrapping_key();
    let first = service().import_key(CALLER, &app_key("imported"), None, &aes_parameters(), 0, &[4]);
    let metadata = world.create_key(first).expect("import failed");
    assert_eq!(metadata.key, key_id(1001));
    for call in &world.calls {
        match call {
            Action::InsertBlob { key_id, .. }
            | Action::InsertKeyParameters { key_id, .. }
            | Action::RebindAlias { key_id, .. } => assert_eq!(*key_id, 1001),
            _ => {}
        }
    }
    assert_eq!(world.blob_of(1000), Some(vec![0xaa]));
}
