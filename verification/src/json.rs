//! JSON text, as `serde_json` writes it.
//!
//! What `serde_json` writes for a value is not proved here and not spelled
//! out either: it is given a name, and the contracts of the callers speak of
//! the text by that name.

use crate::object_meta::{ObjectReference, ObjectReferenceView};
use vstd::prelude::*;

verus! {

/// `Error` of `serde_json`: why a value could not be written. Nothing is
/// read from it.
#[verifier::external_type_specification]
#[verifier::external_body]
pub struct ExJsonError(serde_json::Error);

/// The JSON string literal that `serde_json::to_string` writes for the text
/// `s`, quotes and escapes included; `None` where it reports an error.
pub uninterp spec fn json_string(s: Seq<char>) -> Option<Seq<char>>;

/// The JSON object that `serde_json::to_string` writes for the Kubernetes
/// object reference with the fields of `r`; `None` where it reports an error.
pub uninterp spec fn json_object_reference(r: ObjectReferenceView) -> Option<Seq<char>>;

/// Calls `serde_json::to_string` on a string slice. The contract claims
/// one thing of it: that the outcome, text or error, depends on the
/// characters of `s` alone, so that it can go by the name `json_string`.
#[verifier::external_body]
fn string_to_json(s: &str) -> (r: Result<String, serde_json::Error>)
    ensures
        match r {
            Ok(t) => json_string(s@) == Some(t@),
            Err(_) => json_string(s@) is None,
        },
{
    serde_json::to_string(s)
}

/// Calls `serde_json::to_string` on the `ObjectReference` of `k8s_openapi`
/// that has the fields of `r`, which `k8s_openapi` serializes field by
/// field. The contract claims one thing of it: that the outcome, text or
/// error, depends on the fields of `r` alone, so that it can go by the name
/// `json_object_reference`.
#[verifier::external_body]
fn object_reference_to_json(r: &ObjectReference) -> (res: Result<String, serde_json::Error>)
    ensures
        match res {
            Ok(t) => json_object_reference(r@) == Some(t@),
            Err(_) => json_object_reference(r@) is None,
        },
{
    serde_json::to_string(
        &k8s_openapi::api::core::v1::ObjectReference {
            api_version: r.api_version.clone(),
            field_path: r.field_path.clone(),
            kind: r.kind.clone(),
            name: r.name.clone(),
            namespace: r.namespace.clone(),
            resource_version: r.resource_version.clone(),
            uid: r.uid.clone(),
        },
    )
}

/// The JSON string literal for `s`, if `serde_json` can write one.
pub fn encode_string(s: &str) -> (r: Option<String>)
    ensures
        crate::text::opt_text(r) == json_string(s@),
{
    match string_to_json(s) {
        Ok(t) => Some(t),
        Err(_) => None,
    }
}

/// The JSON object for `r`, if `serde_json` can write one.
pub fn encode_object_reference(r: &ObjectReference) -> (res: Option<String>)
    ensures
        crate::text::opt_text(res) == json_object_reference(r@),
{
    match object_reference_to_json(r) {
        Ok(t) => Some(t),
        Err(_) => None,
    }
}

} // verus!
