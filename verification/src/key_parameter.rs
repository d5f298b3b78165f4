//! Key parameters as the service keeps them: the engine's tag and value,
//! annotated with the tier that asserted them.

use crate::api::{Authorization, AuthorizationView};
use crate::keymint::SecurityLevel;
use vstd::prelude::*;

verus! {

/// A key parameter with its provenance.
#[derive(Debug, PartialEq, Eq)]
pub struct KeyParameter {
    pub key_parameter_value: crate::keymint::KeyParameter,
    pub security_level: SecurityLevel,
}

/// What a [`KeyParameter`] holds, as mathematical values.
pub struct KeyParameterView {
    pub key_parameter_value: crate::keymint::KeyParameterView,
    pub security_level: SecurityLevel,
}

impl DeepView for KeyParameter {
    type V = KeyParameterView;

    open spec fn deep_view(&self) -> KeyParameterView {
        KeyParameterView {
            key_parameter_value: self.key_parameter_value.deep_view(),
            security_level: self.security_level,
        }
    }
}

impl Clone for KeyParameter {
    fn clone(&self) -> (r: Self)
        ensures
            r.deep_view() == self.deep_view(),
    {
        KeyParameter {
            key_parameter_value: self.key_parameter_value.clone(),
            security_level: self.security_level,
        }
    }
}

impl KeyParameterView {
    /// The parameter as it is reported to callers.
    pub open spec fn authorization(self) -> AuthorizationView {
        AuthorizationView {
            security_level: self.security_level,
            key_parameter: self.key_parameter_value,
        }
    }
}

impl KeyParameter {
    /// Annotates an engine parameter with the tier that asserted it.
    pub fn new(key_parameter_value: crate::keymint::KeyParameter, security_level: SecurityLevel) -> (r:
        Self)
        ensures
            r.key_parameter_value == key_parameter_value,
            r.security_level == security_level,
    {
        KeyParameter { key_parameter_value, security_level }
    }

    /// Turns the parameter into the form reported to callers.
    pub fn into_authorization(self) -> (r: Authorization)
        ensures
            r.deep_view() == self.deep_view().authorization(),
    {
        Authorization {
            security_level: self.security_level,
            key_parameter: self.key_parameter_value,
        }
    }
}

/// A copy of a list of annotated parameters.
pub(crate) fn clone_key_parameters(params: &Vec<KeyParameter>) -> (r: Vec<KeyParameter>)
    ensures
        r.deep_view() == params.deep_view(),
{
    params.clone()
}

} // verus!
