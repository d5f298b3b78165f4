//! The helpers of the service.

use keystore2::api::{Authorization, Domain, KeyDescriptor};
use keystore2::database::{KeyEntry, KeyIdGuard};
use keystore2::error::{
    Error, ErrorCode, ResponseCode, INVALID_ARGUMENT, KEY_REQUIRES_UPGRADE, PERMISSION_DENIED,
    SYSTEM_ERROR, TOO_MANY_OPERATIONS,
};
use keystore2::key_creation::{find_import_format, find_sid};
use keystore2::api::AuthenticatorSpec;
use keystore2::keymint::{
    find_integer, find_tag, HardwareAuthenticatorType, KeyCharacteristics, KeyFormat,
    KeyParameter, KeyPurpose, SecurityLevel, Tag, ALGORITHM_AES, ALGORITHM_RSA, TAG_ALGORITHM,
    TAG_PURPOSE,
};
use keystore2::operation_creation::find_purpose;
use keystore2::permission::{KeyPerm, KeyPermSet, KeystorePerm};
use keystore2::security_level::KeystoreSecurityLevel;
use keystore2::utils::{
    check_grant_permission, check_key_permission, check_keystore_permission,
    key_characteristics_to_internal, key_parameters_to_authorizations, AccessQuery,
};

fn parameter(tag: i32, integer: i32) -> KeyParameter {
    KeyParameter {
        tag: Tag(tag),
        bool_value: false,
        integer,
        long_integer: 0,
        date_time: 0,
        blob: Some(vec![tag as u8]),
    }
}

fn key() -> KeyDescriptor {
    KeyDescriptor { domain: Domain::App, nspace: 3, alias: Some("a".to_string()), blob: None }
}

#[test]
fn check_keystore_permission_needs_a_calling_sid() {
    assert_eq!(
        check_keystore_permission(None, KeystorePerm::List),
        Err(Error::Rc(ResponseCode(SYSTEM_ERROR)))
    );
    let sid = "u:r:app:s0".to_string();
    assert_eq!(
        check_keystore_permission(Some(&sid), KeystorePerm::List),
        Ok(AccessQuery::Keystore { calling_sid: sid.clone(), perm: KeystorePerm::List })
    );
}

#[test]
fn check_grant_permission_needs_a_calling_sid() {
    assert_eq!(
        check_grant_permission(None, KeyPermSet(5), &key()),
        Err(Error::Rc(ResponseCode(SYSTEM_ERROR)))
    );
    let sid = "u:r:app:s0".to_string();
    assert_eq!(
        check_grant_permission(Some(&sid), KeyPermSet(5), &key()),
        Ok(AccessQuery::Grant { calling_sid: sid.clone(), access_vec: KeyPermSet(5), key: key() })
    );
}

#[test]
fn check_key_permission_needs_a_calling_sid() {
    assert_eq!(
        check_key_permission(None, KeyPerm::Use, &key(), &None),
        Err(Error::Rc(ResponseCode(SYSTEM_ERROR)))
    );
    let sid = "u:r:app:s0".to_string();
    assert_eq!(
        check_key_permission(Some(&sid), KeyPerm::Rebind, &key(), &Some(KeyPermSet(9))),
        Ok(AccessQuery::Key {
            calling_sid: sid.clone(),
            perm: KeyPerm::Rebind,
            key: key(),
            access_vector: Some(KeyPermSet(9)),
        })
    );
    assert_eq!(
        check_key_permission(Some(&sid), KeyPerm::Use, &key(), &None),
        Ok(AccessQuery::Key {
            calling_sid: sid.clone(),
            perm: KeyPerm::Use,
            key: key(),
            access_vector: None,
        })
    );
}

#[test]
fn key_characteristics_to_internal_puts_hardware_first() {
    let characteristics = KeyCharacteristics {
        software_enforced: vec![parameter(1, 10), parameter(2, 20)],
        hardware_enforced: vec![parameter(3, 30)],
    };
    let internal = key_characteristics_to_internal(characteristics, SecurityLevel::Strongbox);
    assert_eq!(
        internal,
        vec![
            keystore2::key_parameter::KeyParameter::new(parameter(3, 30), SecurityLevel::Strongbox),
            keystore2::key_parameter::KeyParameter::new(parameter(1, 10), SecurityLevel::Software),
            keystore2::key_parameter::KeyParameter::new(parameter(2, 20), SecurityLevel::Software),
        ]
    );
}

#[test]
fn key_characteristics_to_internal_marks_software_as_software() {
    let characteristics = KeyCharacteristics {
        software_enforced: vec![parameter(1, 10)],
        hardware_enforced: vec![],
    };
    let internal = key_characteristics_to_internal(characteristics, SecurityLevel::TrustedEnvironment);
    assert_eq!(internal.len(), 1);
    assert_eq!(internal[0].security_level, SecurityLevel::Software);
    assert_eq!(internal[0].key_parameter_value, parameter(1, 10));
    let nothing = key_characteristics_to_internal(
        KeyCharacteristics { software_enforced: vec![], hardware_enforced: vec![] },
        SecurityLevel::TrustedEnvironment,
    );
    assert!(nothing.is_empty());
}

#[test]
fn key_parameters_to_authorizations_keeps_order_and_level() {
    let parameters = vec![
        keystore2::key_parameter::KeyParameter::new(parameter(3, 30), SecurityLevel::Strongbox),
        keystore2::key_parameter::KeyParameter::new(parameter(1, 10), SecurityLevel::Software),
    ];
    assert_eq!(
        key_parameters_to_authorizations(parameters),
        vec![
            Authorization { security_level: SecurityLevel::Strongbox, key_parameter: parameter(3, 30) },
            Authorization { security_level: SecurityLevel::Software, key_parameter: parameter(1, 10) },
        ]
    );
    assert_eq!(key_parameters_to_authorizations(vec![]), vec![]);
}

#[test]
fn find_tag_finds_the_first() {
    let parameters = vec![parameter(1, 10), parameter(2, 20), parameter(2, 21), parameter(3, 30)];
    assert_eq!(find_tag(&parameters, Tag(2)), Some(1));
    assert_eq!(find_tag(&parameters, Tag(1)), Some(0));
    assert_eq!(find_tag(&parameters, Tag(3)), Some(3));
    assert_eq!(find_tag(&parameters, Tag(4)), None);
    assert_eq!(find_tag(&vec![], Tag(1)), None);
    assert_eq!(find_integer(&parameters, Tag(2)), Some(20));
    assert_eq!(find_integer(&parameters, Tag(4)), None);
}

#[test]
fn find_purpose_reads_the_purpose_tag() {
    assert_eq!(find_purpose(&vec![parameter(1, 10), parameter(TAG_PURPOSE, 3)]), Some(KeyPurpose(3)));
    assert_eq!(find_purpose(&vec![parameter(TAG_ALGORITHM, 3)]), None);
}

#[test]
fn find_import_format_reads_the_algorithm_tag() {
    assert_eq!(find_import_format(&vec![parameter(TAG_ALGORITHM, ALGORITHM_AES)]), Ok(KeyFormat::Raw));
    assert_eq!(
        find_import_format(&vec![parameter(TAG_PURPOSE, 1), parameter(TAG_ALGORITHM, ALGORITHM_RSA)]),
        Ok(KeyFormat::Pkcs8)
    );
    assert_eq!(
        find_import_format(&vec![parameter(TAG_ALGORITHM, 5)]),
        Err(Error::Km(ErrorCode(INVALID_ARGUMENT)))
    );
    assert_eq!(
        find_import_format(&vec![parameter(TAG_PURPOSE, ALGORITHM_AES)]),
        Err(Error::Km(ErrorCode(INVALID_ARGUMENT)))
    );
}

#[test]
fn find_sid_finds_the_first_of_the_kind() {
    let authenticators = vec![
        AuthenticatorSpec { authenticator_type: HardwareAuthenticatorType(2), authenticator_id: 20 },
        AuthenticatorSpec { authenticator_type: HardwareAuthenticatorType(1), authenticator_id: 10 },
        AuthenticatorSpec { authenticator_type: HardwareAuthenticatorType(1), authenticator_id: 11 },
    ];
    assert_eq!(find_sid(&authenticators, HardwareAuthenticatorType(1)), Some(10));
    assert_eq!(find_sid(&authenticators, HardwareAuthenticatorType(2)), Some(20));
    assert_eq!(find_sid(&authenticators, HardwareAuthenticatorType(3)), None);
    assert_eq!(find_sid(&vec![], HardwareAuthenticatorType(1)), None);
}

#[test]
fn errors_know_their_codes() {
    assert_eq!(Error::sys(), Error::Rc(ResponseCode(SYSTEM_ERROR)));
    assert_eq!(Error::perm(), Error::Rc(ResponseCode(PERMISSION_DENIED)));
    assert_eq!(Error::invalid_argument(), Error::Km(ErrorCode(INVALID_ARGUMENT)));
    assert!(Error::Km(ErrorCode(KEY_REQUIRES_UPGRADE)).is_key_requires_upgrade());
    assert!(!Error::Rc(ResponseCode(KEY_REQUIRES_UPGRADE)).is_key_requires_upgrade());
    assert!(!Error::Km(ErrorCode(TOO_MANY_OPERATIONS)).is_key_requires_upgrade());
    assert!(Error::Km(ErrorCode(TOO_MANY_OPERATIONS)).is_too_many_operations());
    assert!(!Error::Rc(ResponseCode(TOO_MANY_OPERATIONS)).is_too_many_operations());
    assert!(!Error::Km(ErrorCode(INVALID_ARGUMENT)).is_too_many_operations());
}

#[test]
fn take_km_blob_leaves_the_entry_without_it() {
    let mut entry = KeyEntry {
        id: 4,
        km_blob: Some(vec![1, 2]),
        cert: Some(vec![3]),
        cert_chain: None,
        sec_level: SecurityLevel::Software,
        parameters: vec![],
    };
    assert_eq!(entry.take_km_blob(), Some(vec![1, 2]));
    assert_eq!(entry.km_blob, None);
    assert_eq!(entry.cert, Some(vec![3]));
    assert_eq!(entry.take_km_blob(), None);
}

#[test]
fn a_guard_knows_its_key_id() {
    assert_eq!(KeyIdGuard::new(-7).id(), -7);
    assert_eq!(KeystoreSecurityLevel::new(SecurityLevel::Keystore).security_level(), SecurityLevel::Keystore);
}
