//! The values exchanged with the callers of the service.

use crate::keymint::{
    clone_optional_bytes, HardwareAuthenticatorType, KeyParameter, KeyParameterView,
    SecurityLevel,
};
use vstd::prelude::*;

verus! {

/// The way a key descriptor names its key.
#[derive(Clone, Copy, Debug, PartialEq, Eq, Structural)]
pub enum Domain {
    /// The key lives in the namespace of the calling principal.
    App,
    /// The key lives in the namespace the descriptor names.
    SELinux,
    /// The caller holds the key blob itself; nothing is stored.
    Blob,
    /// The descriptor names a stored entry by its key id.
    KeyId,
}

/// Identifies a key.
#[derive(Debug, PartialEq, Eq)]
pub struct KeyDescriptor {
    pub domain: Domain,
    pub nspace: i64,
    pub alias: Option<String>,
    pub blob: Option<Vec<u8>>,
}

/// What a [`KeyDescriptor`] holds, as mathematical values.
pub struct KeyDescriptorView {
    pub domain: Domain,
    pub nspace: i64,
    pub alias: Option<Seq<char>>,
    pub blob: Option<Seq<u8>>,
}

impl DeepView for KeyDescriptor {
    type V = KeyDescriptorView;

    open spec fn deep_view(&self) -> KeyDescriptorView {
        KeyDescriptorView {
            domain: self.domain,
            nspace: self.nspace,
            alias: self.alias.deep_view(),
            blob: self.blob.deep_view(),
        }
    }
}

impl Clone for KeyDescriptor {
    fn clone(&self) -> (r: Self)
        ensures
            r.deep_view() == self.deep_view(),
    {
        KeyDescriptor {
            domain: self.domain,
            nspace: self.nspace,
            alias: clone_optional_string(&self.alias),
            blob: clone_optional_bytes(&self.blob),
        }
    }
}

/// A copy of an optional string.
pub(crate) fn clone_optional_string(s: &Option<String>) -> (r: Option<String>)
    ensures
        r.deep_view() == s.deep_view(),
{
    match s {
        Some(s) => Some(s.clone()),
        None => None,
    }
}

/// An authenticator kind paired with the secure id it stands for.
#[derive(Clone, Copy, Debug, PartialEq, Eq, Structural)]
pub struct AuthenticatorSpec {
    pub authenticator_type: HardwareAuthenticatorType,
    pub authenticator_id: i64,
}

/// A key parameter as reported to callers, with the tier that enforces it.
#[derive(Debug, PartialEq, Eq)]
pub struct Authorization {
    pub security_level: SecurityLevel,
    pub key_parameter: KeyParameter,
}

/// What an [`Authorization`] holds, as mathematical values.
pub struct AuthorizationView {
    pub security_level: SecurityLevel,
    pub key_parameter: KeyParameterView,
}

impl DeepView for Authorization {
    type V = AuthorizationView;

    open spec fn deep_view(&self) -> AuthorizationView {
        AuthorizationView {
            security_level: self.security_level,
            key_parameter: self.key_parameter.deep_view(),
        }
    }
}

/// The answer to a key creation or import.
#[derive(Debug, PartialEq, Eq)]
pub struct KeyMetadata {
    pub key: KeyDescriptor,
    pub key_security_level: SecurityLevel,
    pub certificate: Option<Vec<u8>>,
    pub certificate_chain: Option<Vec<u8>>,
    pub authorizations: Vec<Authorization>,
}

/// What a [`KeyMetadata`] holds, as mathematical values.
pub struct KeyMetadataView {
    pub key: KeyDescriptorView,
    pub key_security_level: SecurityLevel,
    pub certificate: Option<Seq<u8>>,
    pub certificate_chain: Option<Seq<u8>>,
    pub authorizations: Seq<AuthorizationView>,
}

impl DeepView for KeyMetadata {
    type V = KeyMetadataView;

    open spec fn deep_view(&self) -> KeyMetadataView {
        KeyMetadataView {
            key: self.key.deep_view(),
            key_security_level: self.key_security_level,
            certificate: self.certificate.deep_view(),
            certificate_chain: self.certificate_chain.deep_view(),
            authorizations: self.authorizations.deep_view(),
        }
    }
}

/// The session object through which a caller drives an operation.
#[derive(Clone, Copy, Debug, PartialEq, Eq, Structural)]
pub struct OperationSession(pub u64);

/// The answer to the creation of an operation.
#[derive(Debug, PartialEq, Eq)]
pub struct CreateOperationResponse {
    pub operation: Option<OperationSession>,
    pub operation_challenge: Option<i64>,
    pub parameters: Option<Vec<KeyParameter>>,
}

/// What a [`CreateOperationResponse`] holds, as mathematical values.
pub struct CreateOperationResponseView {
    pub operation: Option<OperationSession>,
    pub operation_challenge: Option<i64>,
    pub parameters: Option<Seq<KeyParameterView>>,
}

impl DeepView for CreateOperationResponse {
    type V = CreateOperationResponseView;

    open spec fn deep_view(&self) -> CreateOperationResponseView {
        CreateOperationResponseView {
            operation: self.operation,
            operation_challenge: self.operation_challenge,
            parameters: self.parameters.deep_view(),
        }
    }
}

} // verus!
