//! The store as JSON text.
//!
//! The text is produced by `serde_json`. The verifier does not look into that
//! crate: it is told that what the encoder makes of a store depends on nothing
//! but the mapping that the store holds, and gives that outcome the name
//! [`json_object_text`].

use vstd::prelude::*;
use crate::store::{keys_distinct, listing_map, pairs_view, KeyValueStore};

verus! {

/// What `serde_json` makes of a mapping from text keys to text values: the
/// JSON text that it writes for it (one object, without white space, its
/// members in the order of their keys), or `None` where it fails on it.
pub uninterp spec fn json_object_text(entries: Map<Seq<char>, Seq<char>>) -> Option<Seq<char>>;

/// The error type of `serde_json`.
#[verifier::external_type_specification]
#[verifier::external_body]
pub struct ExJsonError(serde_json::Error);

/// The store could not be written as JSON text.
#[derive(Debug)]
pub struct SerializationError {
    /// What `serde_json` said about the failure.
    pub message: String,
}

/// Calls `serde_json::to_string` on the entries, collected into a map of the
/// standard library that is ordered by its keys.
///
/// Whether the call succeeds, and the text that it gives where it does, are
/// what `serde_json` makes of the mapping that the entries make up. The
/// entries are to have distinct keys, so that the map holds every one of them.
/// Nothing is claimed about which mappings the call succeeds on, nor about the
/// error of a call that fails.
#[verifier::external_body]
fn encode_entries(entries: &Vec<(String, String)>) -> (encoded: Result<String, serde_json::Error>)
    requires
        keys_distinct(pairs_view(entries@)),
    ensures
        match encoded {
            Ok(text) => json_object_text(listing_map(pairs_view(entries@))) == Some(text@),
            Err(_) => json_object_text(listing_map(pairs_view(entries@))) is None,
        },
{
    let object: std::collections::BTreeMap<&str, &str> =
        entries.iter().map(|entry| (entry.0.as_str(), entry.1.as_str())).collect();
    serde_json::to_string(&object)
}

/// Calls `to_string` on an error of `serde_json`, which gives the message
/// that the error displays. Nothing is claimed about the message.
#[verifier::external_body]
fn error_message(error: &serde_json::Error) -> (message: String) {
    error.to_string()
}

impl SerializationError {
    /// The error of this crate for an error of `serde_json`.
    pub fn from_json_error(error: serde_json::Error) -> (converted: SerializationError) {
        SerializationError { message: error_message(&error) }
    }

    /// The message of the error.
    pub fn to_string(&self) -> (message: String)
        ensures
            message@ == self.message@,
    {
        self.message.clone()
    }
}

/// What the editor makes of the outcome of the encoder: the text as it is, or
/// the failure as an error of this crate.
pub fn serialization_outcome(encoded: Result<String, serde_json::Error>) -> (outcome: Result<
    String,
    SerializationError,
>)
    ensures
        match encoded {
            Ok(text) => outcome == Ok::<String, SerializationError>(text),
            Err(_) => outcome is Err,
        },
{
    match encoded {
        Ok(text) => Ok(text),
        Err(error) => Err(SerializationError::from_json_error(error)),
    }
}

/// The store as the text of one JSON object.
///
/// The outcome is what the encoder makes of the mapping that the store holds:
/// its text where it writes one, and an error where it fails. The store is
/// left as it is either way.
pub fn to_json(store: &KeyValueStore) -> (outcome: Result<String, SerializationError>)
    ensures
        match outcome {
            Ok(text) => json_object_text(store@) == Some(text@),
            Err(_) => json_object_text(store@) is None,
        },
{
    let entries = store.entries();
    serialization_outcome(encode_entries(entries))
}

} // verus!
