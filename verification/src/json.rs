//! Declarations of the JSON value types that flow through the dispatcher.
//!
//! The dispatcher never inspects a JSON value: deltas, configuration tables
//! and reply payloads are carried through to the plugin untouched. The types
//! are declared here so that they can stand in signatures and fields.

use vstd::prelude::*;

verus! {

/// Relies on serde_json::Value: an owned JSON document, carried through
/// opaquely (deltas and reply payloads).
#[verifier::external_type_specification]
#[verifier::external_body]
pub struct ExValue(serde_json::Value);

/// Relies on serde_json::Map: the representation of a configuration table,
/// carried through opaquely to the plugin's config-changed hook.
#[verifier::external_type_specification]
#[verifier::external_body]
#[verifier::reject_recursive_types(K)]
#[verifier::reject_recursive_types(V)]
pub struct ExMap<K, V>(serde_json::Map<K, V>);

/// A configuration table: keys to JSON values, replaced wholesale on each
/// configuration-change event.
pub type ConfigTable = serde_json::Map<String, serde_json::Value>;

} // verus!
