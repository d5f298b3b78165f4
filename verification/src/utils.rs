//! Helpers of the service: the questions put to the access gate and the
//! conversions between the engine's key characteristics and what the service
//! keeps and reports.

use crate::api::{Authorization, AuthorizationView, KeyDescriptor, KeyDescriptorView};
use crate::error::Error;
use crate::keymint::{KeyCharacteristics, KeyCharacteristicsView, SecurityLevel};
use crate::permission::{KeyPerm, KeyPermSet, KeystorePerm};
use vstd::prelude::*;

verus! {

/// A question for the access gate, asked on behalf of the calling principal
/// whose security context is `calling_sid`.
#[allow(inconsistent_fields)]
#[derive(Debug, PartialEq, Eq)]
pub enum AccessQuery {
    /// May the caller use this permission on the keystore?
    Keystore { calling_sid: String, perm: KeystorePerm },
    /// May the caller grant this access vector on this key?
    Grant { calling_sid: String, access_vec: KeyPermSet, key: KeyDescriptor },
    /// May the caller use this permission on this key, given the access
    /// vector of the grant through which the key was reached, if any?
    Key { calling_sid: String, perm: KeyPerm, key: KeyDescriptor, access_vector: Option<KeyPermSet> },
}

/// What an [`AccessQuery`] holds, as mathematical values.
#[allow(inconsistent_fields)]
pub enum AccessQueryView {
    Keystore { calling_sid: Seq<char>, perm: KeystorePerm },
    Grant { calling_sid: Seq<char>, access_vec: KeyPermSet, key: KeyDescriptorView },
    Key {
        calling_sid: Seq<char>,
        perm: KeyPerm,
        key: KeyDescriptorView,
        access_vector: Option<KeyPermSet>,
    },
}

impl DeepView for AccessQuery {
    type V = AccessQueryView;

    open spec fn deep_view(&self) -> AccessQueryView {
        match self {
            AccessQuery::Keystore { calling_sid, perm } => AccessQueryView::Keystore {
                calling_sid: calling_sid@,
                perm: *perm,
            },
            AccessQuery::Grant { calling_sid, access_vec, key } => AccessQueryView::Grant {
                calling_sid: calling_sid@,
                access_vec: *access_vec,
                key: key.deep_view(),
            },
            AccessQuery::Key { calling_sid, perm, key, access_vector } => AccessQueryView::Key {
                calling_sid: calling_sid@,
                perm: *perm,
                key: key.deep_view(),
                access_vector: *access_vector,
            },
        }
    }
}

/// Decides how to check a keystore permission of the caller. Without a
/// security context of the caller the result is the internal error and nobody
/// is asked. With one, the result is the question for the access gate, about
/// that context and the permission; its answer decides.
pub fn check_keystore_permission(calling_sid: Option<&String>, perm: KeystorePerm) -> (r: Result<
    AccessQuery,
    Error,
>)
    ensures
        match calling_sid {
            None => r == Err::<AccessQuery, Error>(Error::sys()),
            Some(sid) => r is Ok && r->Ok_0.deep_view() == (AccessQueryView::Keystore {
                calling_sid: sid@,
                perm,
            }),
        },
{
    match calling_sid {
        None => Err(Error::sys()),
        Some(sid) => Ok(AccessQuery::Keystore { calling_sid: sid.clone(), perm }),
    }
}

/// Decides how to check whether the caller may grant `access_vec` on `key`.
/// Without a security context of the caller the result is the internal error
/// and nobody is asked. With one, the result is the question for the access
/// gate, about that context, the access vector and the key.
pub fn check_grant_permission(
    calling_sid: Option<&String>,
    access_vec: KeyPermSet,
    key: &KeyDescriptor,
) -> (r: Result<AccessQuery, Error>)
    ensures
        match calling_sid {
            None => r == Err::<AccessQuery, Error>(Error::sys()),
            Some(sid) => r is Ok && r->Ok_0.deep_view() == (AccessQueryView::Grant {
                calling_sid: sid@,
                access_vec,
                key: key.deep_view(),
            }),
        },
{
    match calling_sid {
        None => Err(Error::sys()),
        Some(sid) => Ok(
            AccessQuery::Grant { calling_sid: sid.clone(), access_vec, key: key.clone() },
        ),
    }
}

/// Decides how to check a key permission of the caller. Without a security
/// context of the caller the result is the internal error and nobody is
/// asked. With one, the result is the question for the access gate, about
/// that context, the permission, the key and the access vector.
pub fn check_key_permission(
    calling_sid: Option<&String>,
    perm: KeyPerm,
    key: &KeyDescriptor,
    access_vector: &Option<KeyPermSet>,
) -> (r: Result<AccessQuery, Error>)
    ensures
        match calling_sid {
            None => r == Err::<AccessQuery, Error>(Error::sys()),
            Some(sid) => r is Ok && r->Ok_0.deep_view() == (AccessQueryView::Key {
                calling_sid: sid@,
                perm,
                key: key.deep_view(),
                access_vector: *access_vector,
            }),
        },
{
    match calling_sid {
        None => Err(Error::sys()),
        Some(sid) => Ok(
            AccessQuery::Key {
                calling_sid: sid.clone(),
                perm,
                key: key.clone(),
                access_vector: *access_vector,
            },
        ),
    }
}

/// The engine's parameter, annotated with the tier that asserted it.
pub open spec fn annotated(
    p: crate::keymint::KeyParameterView,
    security_level: SecurityLevel,
) -> crate::key_parameter::KeyParameterView {
    crate::key_parameter::KeyParameterView { key_parameter_value: p, security_level }
}

/// The parameters the service keeps for a key: the hardware-enforced ones in
/// their order, each annotated with `hw_security_level`, followed by the
/// software-enforced ones in their order, each annotated as software.
pub open spec fn internal_parameters(
    key_characteristics: KeyCharacteristicsView,
    hw_security_level: SecurityLevel,
) -> Seq<crate::key_parameter::KeyParameterView> {
    key_characteristics.hardware_enforced.map_values(
        |p: crate::keymint::KeyParameterView| annotated(p, hw_security_level),
    ) + key_characteristics.software_enforced.map_values(
        |p: crate::keymint::KeyParameterView| annotated(p, SecurityLevel::Software),
    )
}

/// The parameters as they are reported to callers, one authorization each.
pub open spec fn authorizations(parameters: Seq<crate::key_parameter::KeyParameterView>) -> Seq<
    AuthorizationView,
> {
    parameters.map_values(|p: crate::key_parameter::KeyParameterView| p.authorization())
}

/// Converts the key characteristics returned by the engine into the
/// representation the service keeps. `hw_security_level` is the tier recorded
/// for the hardware-enforced parameters.
pub fn key_characteristics_to_internal(
    key_characteristics: KeyCharacteristics,
    hw_security_level: SecurityLevel,
) -> (r: Vec<crate::key_parameter::KeyParameter>)
    ensures
        r.deep_view() == internal_parameters(key_characteristics.deep_view(), hw_security_level),
{
    let ghost expected = internal_parameters(key_characteristics.deep_view(), hw_security_level);
    let KeyCharacteristics { software_enforced, hardware_enforced } = key_characteristics;
    let ghost hw = hardware_enforced.deep_view();
    let ghost sw = software_enforced.deep_view();
    let mut r: Vec<crate::key_parameter::KeyParameter> = Vec::new();
    for p in it: hardware_enforced
        invariant
            it.seq().len() == hw.len(),
            forall|j: int| 0 <= j < hw.len() ==> (#[trigger] it.seq()[j]).deep_view() == hw[j],
            r.len() == it.index(),
            forall|j: int|
                0 <= j < r.len() ==> (#[trigger] r@[j]).deep_view() == annotated(
                    hw[j],
                    hw_security_level,
                ),
    {
        r.push(crate::key_parameter::KeyParameter::new(p, hw_security_level));
    }
    for p in it: software_enforced
        invariant
            it.seq().len() == sw.len(),
            forall|j: int| 0 <= j < sw.len() ==> (#[trigger] it.seq()[j]).deep_view() == sw[j],
            r.len() == hw.len() + it.index(),
            forall|j: int|
                0 <= j < hw.len() ==> (#[trigger] r@[j]).deep_view() == annotated(
                    hw[j],
                    hw_security_level,
                ),
            forall|j: int|
                hw.len() <= j < r.len() ==> (#[trigger] r@[j]).deep_view() == annotated(
                    sw[j - hw.len()],
                    SecurityLevel::Software,
                ),
    {
        r.push(crate::key_parameter::KeyParameter::new(p, SecurityLevel::Software));
    }
    assert(r.deep_view() =~= expected);
    r
}

/// Converts the parameters the service keeps into the authorizations reported
/// to callers.
pub fn key_parameters_to_authorizations(parameters: Vec<crate::key_parameter::KeyParameter>) -> (r:
    Vec<Authorization>)
    ensures
        r.deep_view() == authorizations(parameters.deep_view()),
{
    let ghost given = parameters.deep_view();
    let mut r: Vec<Authorization> = Vec::new();
    for p in it: parameters
        invariant
            it.seq().len() == given.len(),
            forall|j: int| 0 <= j < given.len() ==> (#[trigger] it.seq()[j]).deep_view() == given[j],
            r.len() == it.index(),
            forall|j: int|
                0 <= j < r.len() ==> (#[trigger] r@[j]).deep_view() == given[j].authorization(),
    {
        r.push(p.into_authorization());
    }
    assert(r.deep_view() =~= authorizations(given));
    r
}

} // verus!
