//! What the library takes from other crates on trust: their types, and the
//! calls whose contracts are believed, not proved.

use vstd::prelude::*;
use k8s_openapi::apimachinery::pkg::runtime::RawExtension;

verus! {

/// The failure type of `serde_json`. Nothing is known of a value of it but
/// that it can be printed.
#[verifier::external_type_specification]
#[verifier::external_body]
pub struct ExJsonFailure(serde_json::Error);

/// `k8s_openapi`'s raw JSON payload, an object that is carried along without
/// being looked into.
#[verifier::external_type_specification]
#[verifier::external_body]
pub struct ExRawPayload(k8s_openapi::apimachinery::pkg::runtime::RawExtension);

/// The standard base64 text (alphabet `A-Z a-z 0-9 + /`, padded with `=`) of a
/// sequence of bytes, as `base64::encode` produces it.
pub uninterp spec fn base64_text(bytes: Seq<u8>) -> Seq<char>;

/// Calls `base64::encode`, which encodes with the crate's `STANDARD`
/// configuration. The contract only gives the result its name: the same bytes
/// always yield the same text. The call would panic only if the length of the
/// text did not fit in `usize`, and no slice is long enough for that.
#[verifier::external_body]
pub(crate) fn base64_encode(bytes: &[u8]) -> (text: String)
    ensures
        text@ == base64_text(bytes@),
{
    base64::encode(bytes)
}

/// What `serde_json::from_value` makes of a raw payload that is read as a
/// `k8s_openapi` `ConfigMap`: `None` where the payload is no config map,
/// and else the keys of its `data` in their order, or `None` for a config map
/// without `data`.
pub uninterp spec fn config_map_data_keys(raw: RawExtension) -> Option<Option<Seq<Seq<char>>>>;

/// Reads a raw payload as a `k8s_openapi` `ConfigMap` with
/// `serde_json::from_value`, and hands out the keys of its `data`, or `None`
/// where it has no `data`. A payload that is no config map gives the failure
/// of `from_value`. The contract only gives the result its name: the same
/// payload always reads the same.
#[verifier::external_body]
pub(crate) fn config_map_keys(raw: RawExtension) -> (keys: Result<
    Option<Vec<String>>,
    serde_json::Error,
>)
    ensures
        match keys {
            Ok(found) => config_map_data_keys(raw) == Some(found.deep_view()),
            Err(_) => config_map_data_keys(raw) is None,
        },
{
    let config_map: k8s_openapi::api::core::v1::ConfigMap = serde_json::from_value(raw.0)?;
    Ok(config_map.data.map(|data| data.into_keys().collect()))
}

} // verus!
