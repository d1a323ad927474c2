use serde::de::DeserializeOwned;
use serde::Serialize;
use std::any::TypeId;
use vstd::prelude::*;

verus! {

/// `serde_json::Error`: the fault of a JSON encoder or decoder, carried
/// through as an opaque value.
#[verifier::external_type_specification]
#[verifier::external_body]
pub struct ExJsonError(serde_json::Error);

/// `std::any::TypeId`: the identity of a type, carried as an opaque value.
#[verifier::external_type_specification]
#[verifier::external_body]
pub struct ExTypeId(TypeId);

/// Calls `serde_json::from_str`, which parses the text as a `T` and reports
/// a fault instead of panicking. Nothing is claimed of the outcome.
#[verifier::external_body]
pub(crate) fn decode_json<T: DeserializeOwned>(payload: &str) -> (decoded: Result<
    T,
    serde_json::Error,
>) {
    serde_json::from_str::<T>(payload)
}

/// Calls `serde_json::to_string`, which serializes the value as JSON text or
/// reports the fault raised by its `Serialize` impl. Nothing is claimed of
/// the outcome.
#[verifier::external_body]
pub(crate) fn encode_json<T: Serialize>(value: &T) -> (encoded: Result<String, serde_json::Error>) {
    serde_json::to_string(value)
}

/// Whether the decoder may give this outcome for this text: what a call of
/// `decode_json` relates.
pub closed spec fn decodes<T: DeserializeOwned>(
    payload: &str,
    decoded: Result<T, serde_json::Error>,
) -> bool {
    call_ensures(decode_json::<T>, (payload,), decoded)
}

/// Decodes the text as a `T`.
pub(crate) fn decode<T: DeserializeOwned>(payload: &str) -> (decoded: Result<T, serde_json::Error>)
    ensures
        decodes::<T>(payload, decoded),
{
    decode_json::<T>(payload)
}

/// Whether the encoder may give this outcome for this value: what a call of
/// `encode_json` relates.
pub closed spec fn encodes<T: Serialize>(
    value: &T,
    encoded: Result<String, serde_json::Error>,
) -> bool {
    call_ensures(encode_json::<T>, (value,), encoded)
}

/// Encodes the value as JSON text.
pub(crate) fn encode<T: Serialize>(value: &T) -> (encoded: Result<String, serde_json::Error>)
    ensures
        encodes::<T>(value, encoded),
{
    encode_json::<T>(value)
}

/// Whether this may be the identity of the type `T`: what a call of
/// `type_tag` relates.
pub closed spec fn tagged<T: 'static>(tag: TypeId) -> bool {
    call_ensures(type_tag::<T>, (), tag)
}

/// The identity of the type `T`.
pub(crate) fn tag_of<T: 'static>() -> (tag: TypeId)
    ensures
        tagged::<T>(tag),
{
    type_tag::<T>()
}

/// Calls `TypeId::of`, the identity of the type `T`. Nothing is claimed of the
/// value.
#[verifier::external_body]
pub(crate) fn type_tag<T: 'static>() -> (tag: TypeId) {
    TypeId::of::<T>()
}

/// Compares two type identities with `TypeId`'s `==`, which holds exactly
/// when both are the same identity.
#[verifier::external_body]
pub(crate) fn same_type(left: &TypeId, right: &TypeId) -> (same: bool)
    ensures
        same == (*left == *right),
{
    left == right
}

} // verus!
