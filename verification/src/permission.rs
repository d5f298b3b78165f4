//! The permissions the access gate decides on.

use vstd::prelude::*;

verus! {

/// A permission on a single key.
#[derive(Clone, Copy, Debug, PartialEq, Eq, Structural)]
pub enum KeyPerm {
    Delete,
    GenUniqueId,
    GetInfo,
    Grant,
    ManageBlob,
    Rebind,
    ReqForcedOp,
    Update,
    Use,
    UseDevId,
}

/// A permission on the keystore as a whole.
#[derive(Clone, Copy, Debug, PartialEq, Eq, Structural)]
pub enum KeystorePerm {
    AddAuth,
    ClearNs,
    GetState,
    List,
    Lock,
    Reset,
    Unlock,
}

/// An access vector: the set of key permissions a grant carries.
#[derive(Clone, Copy, Debug, PartialEq, Eq, Structural)]
pub struct KeyPermSet(pub i32);

} // verus!
