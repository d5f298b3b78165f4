//! The values exchanged with the crypto engine.

use vstd::prelude::*;

verus! {

/// The tag of the parameter that names the purpose of an operation.
pub const TAG_PURPOSE: i32 = 536870913;

/// The tag of the parameter that names the algorithm of a key.
pub const TAG_ALGORITHM: i32 = 268435458;

/// The algorithm RSA, asymmetric.
pub const ALGORITHM_RSA: i32 = 1;

/// The elliptic curve algorithms, asymmetric.
pub const ALGORITHM_EC: i32 = 3;

/// The algorithm AES, symmetric.
pub const ALGORITHM_AES: i32 = 32;

/// The algorithm Triple DES, symmetric.
pub const ALGORITHM_TRIPLE_DES: i32 = 33;

/// The algorithm HMAC, a MAC.
pub const ALGORITHM_HMAC: i32 = 128;

/// The authenticator kind of a password, PIN or pattern.
pub const AUTHENTICATOR_PASSWORD: i32 = 1;

/// The authenticator kind of a fingerprint reader.
pub const AUTHENTICATOR_FINGERPRINT: i32 = 2;

/// Names the property a key parameter describes.
#[derive(Clone, Copy, Debug, PartialEq, Eq, Structural)]
pub struct Tag(pub i32);

/// What an operation does with a key.
#[derive(Clone, Copy, Debug, PartialEq, Eq, Structural)]
pub struct KeyPurpose(pub i32);

/// The kind of an authenticator.
#[derive(Clone, Copy, Debug, PartialEq, Eq, Structural)]
pub struct HardwareAuthenticatorType(pub i32);

/// The wire format in which key material is handed to the engine.
#[derive(Clone, Copy, Debug, PartialEq, Eq, Structural)]
pub enum KeyFormat {
    /// A structured private key.
    Pkcs8,
    /// Raw key bytes.
    Raw,
}

/// The tier that holds a key or vouches for one of its parameters.
#[derive(Clone, Copy, Debug, PartialEq, Eq, Structural)]
pub enum SecurityLevel {
    /// Enforced in software.
    Software,
    /// Enforced by a trusted execution environment.
    TrustedEnvironment,
    /// Enforced by a secure element.
    Strongbox,
    /// Enforced by the keystore itself.
    Keystore,
}

/// A tag and its value, as the engine takes and returns it.
#[derive(Debug, PartialEq, Eq)]
pub struct KeyParameter {
    pub tag: Tag,
    pub bool_value: bool,
    pub integer: i32,
    pub long_integer: i64,
    pub date_time: i64,
    pub blob: Option<Vec<u8>>,
}

/// What a [`KeyParameter`] holds, as mathematical values.
pub struct KeyParameterView {
    pub tag: Tag,
    pub bool_value: bool,
    pub integer: i32,
    pub long_integer: i64,
    pub date_time: i64,
    pub blob: Option<Seq<u8>>,
}

impl DeepView for KeyParameter {
    type V = KeyParameterView;

    open spec fn deep_view(&self) -> KeyParameterView {
        KeyParameterView {
            tag: self.tag,
            bool_value: self.bool_value,
            integer: self.integer,
            long_integer: self.long_integer,
            date_time: self.date_time,
            blob: self.blob.deep_view(),
        }
    }
}

impl Clone for KeyParameter {
    fn clone(&self) -> (r: Self)
        ensures
            r.deep_view() == self.deep_view(),
    {
        KeyParameter {
            tag: self.tag,
            bool_value: self.bool_value,
            integer: self.integer,
            long_integer: self.long_integer,
            date_time: self.date_time,
            blob: clone_optional_bytes(&self.blob),
        }
    }
}

/// The deep view of a byte string is its view.
pub(crate) proof fn lemma_bytes_view(bytes: Vec<u8>)
    ensures
        bytes.deep_view() == bytes@,
{
    assert(bytes.deep_view() =~= bytes@);
}

/// A copy of a byte string.
pub(crate) fn clone_bytes(bytes: &Vec<u8>) -> (r: Vec<u8>)
    ensures
        r@ == bytes@,
        r.deep_view() == bytes.deep_view(),
{
    let r = bytes.clone();
    proof {
        lemma_bytes_view(r);
        lemma_bytes_view(*bytes);
    }
    r
}

/// A copy of an optional byte string.
pub(crate) fn clone_optional_bytes(bytes: &Option<Vec<u8>>) -> (r: Option<Vec<u8>>)
    ensures
        r.deep_view() == bytes.deep_view(),
{
    match bytes {
        Some(b) => Some(clone_bytes(b)),
        None => None,
    }
}

/// A copy of a parameter list.
pub(crate) fn clone_parameters(params: &Vec<KeyParameter>) -> (r: Vec<KeyParameter>)
    ensures
        r.deep_view() == params.deep_view(),
{
    params.clone()
}

/// The parameters of a key, by who enforces them.
#[derive(Debug, PartialEq, Eq)]
pub struct KeyCharacteristics {
    pub software_enforced: Vec<KeyParameter>,
    pub hardware_enforced: Vec<KeyParameter>,
}

/// What a [`KeyCharacteristics`] holds, as mathematical values.
pub struct KeyCharacteristicsView {
    pub software_enforced: Seq<KeyParameterView>,
    pub hardware_enforced: Seq<KeyParameterView>,
}

impl DeepView for KeyCharacteristics {
    type V = KeyCharacteristicsView;

    open spec fn deep_view(&self) -> KeyCharacteristicsView {
        KeyCharacteristicsView {
            software_enforced: self.software_enforced.deep_view(),
            hardware_enforced: self.hardware_enforced.deep_view(),
        }
    }
}

/// One encoded certificate of an attestation chain. Its view is its bytes.
#[derive(Debug, PartialEq, Eq)]
pub struct Certificate {
    pub encoded_certificate: Vec<u8>,
}

impl DeepView for Certificate {
    type V = Seq<u8>;

    open spec fn deep_view(&self) -> Seq<u8> {
        self.encoded_certificate.deep_view()
    }
}

/// What the engine returns for a key it generated, imported or unwrapped.
/// An unwrapped key comes without certificates.
#[derive(Debug, PartialEq, Eq)]
pub struct KeyCreationResult {
    pub key_blob: Vec<u8>,
    pub key_characteristics: KeyCharacteristics,
    pub certificate_chain: Vec<Certificate>,
}

/// What a [`KeyCreationResult`] holds, as mathematical values.
pub struct KeyCreationResultView {
    pub key_blob: Seq<u8>,
    pub key_characteristics: KeyCharacteristicsView,
    pub certificate_chain: Seq<Seq<u8>>,
}

impl DeepView for KeyCreationResult {
    type V = KeyCreationResultView;

    open spec fn deep_view(&self) -> KeyCreationResultView {
        KeyCreationResultView {
            key_blob: self.key_blob.deep_view(),
            key_characteristics: self.key_characteristics.deep_view(),
            certificate_chain: self.certificate_chain.deep_view(),
        }
    }
}

/// The engine's handle of an operation it has begun.
#[derive(Clone, Copy, Debug, PartialEq, Eq, Structural)]
pub struct EngineOperation(pub u64);

/// What the engine returns when it begins an operation.
#[derive(Debug, PartialEq, Eq)]
pub struct BeginResult {
    pub challenge: i64,
    pub params: Vec<KeyParameter>,
    pub operation: Option<EngineOperation>,
}

/// What a [`BeginResult`] holds, as mathematical values.
pub struct BeginResultView {
    pub challenge: i64,
    pub params: Seq<KeyParameterView>,
    pub operation: Option<EngineOperation>,
}

impl DeepView for BeginResult {
    type V = BeginResultView;

    open spec fn deep_view(&self) -> BeginResultView {
        BeginResultView {
            challenge: self.challenge,
            params: self.params.deep_view(),
            operation: self.operation,
        }
    }
}

/// Some parameter of the list carries the tag.
pub open spec fn has_tag(params: Seq<KeyParameterView>, tag: Tag) -> bool {
    exists|i: int| 0 <= i < params.len() && (#[trigger] params[i]).tag == tag
}

/// The parameter at `i` carries the tag and none before it does.
pub open spec fn is_first_with_tag(params: Seq<KeyParameterView>, tag: Tag, i: int) -> bool {
    &&& 0 <= i < params.len()
    &&& params[i].tag == tag
    &&& forall|j: int| 0 <= j < i ==> (#[trigger] params[j]).tag != tag
}

/// The first parameter of the list that carries the tag.
pub open spec fn first_with_tag(params: Seq<KeyParameterView>, tag: Tag) -> Option<
    KeyParameterView,
> {
    if has_tag(params, tag) {
        Some(params[choose|i: int| is_first_with_tag(params, tag, i)])
    } else {
        None
    }
}

/// There is at most one first parameter with a tag, and `first_with_tag` names it.
pub proof fn lemma_first_with_tag(params: Seq<KeyParameterView>, tag: Tag, i: int)
    requires
        is_first_with_tag(params, tag, i),
    ensures
        has_tag(params, tag),
        first_with_tag(params, tag) == Some(params[i]),
{
    let k = choose|k: int| is_first_with_tag(params, tag, k);
    assert(is_first_with_tag(params, tag, k));
    if k < i {
        assert(params[k].tag != tag);
    }
    if i < k {
        assert(params[i].tag != tag);
    }
}

/// The position of the first parameter that carries the tag.
pub fn find_tag(params: &Vec<KeyParameter>, tag: Tag) -> (r: Option<usize>)
    ensures
        match r {
            Some(i) => is_first_with_tag(params.deep_view(), tag, i as int),
            None => !has_tag(params.deep_view(), tag),
        },
{
    let mut i: usize = 0;
    while i < params.len()
        invariant
            i <= params.len(),
            forall|j: int| 0 <= j < i ==> (#[trigger] params.deep_view()[j]).tag != tag,
        decreases params.len() - i,
    {
        if params[i].tag == tag {
            return Some(i);
        }
        i += 1;
    }
    None
}

/// The integer value of the first parameter that carries the tag.
pub open spec fn integer_of_tag(params: Seq<KeyParameterView>, tag: Tag) -> Option<i32> {
    match first_with_tag(params, tag) {
        Some(p) => Some(p.integer),
        None => None,
    }
}

/// Reads the integer value of the first parameter that carries the tag.
pub fn find_integer(params: &Vec<KeyParameter>, tag: Tag) -> (r: Option<i32>)
    ensures
        r == integer_of_tag(params.deep_view(), tag),
{
    match find_tag(params, tag) {
        Some(i) => {
            proof {
                lemma_first_with_tag(params.deep_view(), tag, i as int);
            }
            Some(params[i].integer)
        },
        None => None,
    }
}

} // verus!
