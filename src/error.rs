use vstd::prelude::*;

verus! {

#[verifier::external_type_specification]
#[verifier::external_body]
pub struct ExLibsqlError(libsql::Error);

#[verifier::external_type_specification]
#[verifier::external_body]
pub struct ExEncodeError(rmp_serde::encode::Error);

#[verifier::external_type_specification]
#[verifier::external_body]
pub struct ExDecodeError(rmp_serde::decode::Error);

/// An error raised by the libSQL store.
#[derive(Debug)]
pub enum LibsqlStoreError {
    /// The database engine failed.
    Libsql(libsql::Error),
    /// A session record could not be encoded.
    Encode(rmp_serde::encode::Error),
    /// A stored payload could not be decoded.
    Decode(rmp_serde::decode::Error),
}

/// The error taxonomy of the session layer: the kind of failure and a
/// human-readable message about its cause.
#[derive(Debug, PartialEq, Eq)]
pub enum StoreError {
    /// Encoding a session record failed.
    Encode(String),
    /// Decoding a stored session record failed.
    Decode(String),
    /// The storage backend failed.
    Backend(String),
}

/// Relies on libsql::Error's `Display`: the error's message.
#[verifier::external_body]
fn libsql_error_message(e: &libsql::Error) -> String {
    e.to_string()
}

/// Relies on rmp_serde::encode::Error's `Display`: the error's message.
#[verifier::external_body]
fn encode_error_message(e: &rmp_serde::encode::Error) -> String {
    e.to_string()
}

/// Relies on rmp_serde::decode::Error's `Display`: the error's message.
#[verifier::external_body]
fn decode_error_message(e: &rmp_serde::decode::Error) -> String {
    e.to_string()
}

/// The session-layer kind that a store error is reported as.
pub open spec fn same_kind(e: LibsqlStoreError, s: StoreError) -> bool {
    match e {
        LibsqlStoreError::Libsql(_) => s is Backend,
        LibsqlStoreError::Encode(_) => s is Encode,
        LibsqlStoreError::Decode(_) => s is Decode,
    }
}

impl LibsqlStoreError {
    /// Reports this error in the session layer's taxonomy, keeping its kind
    /// and carrying the message of the underlying cause.
    pub fn into_store_error(self) -> (r: StoreError)
        ensures
            same_kind(self, r),
    {
        match self {
            LibsqlStoreError::Libsql(inner) => StoreError::Backend(libsql_error_message(&inner)),
            LibsqlStoreError::Decode(inner) => StoreError::Decode(decode_error_message(&inner)),
            LibsqlStoreError::Encode(inner) => StoreError::Encode(encode_error_message(&inner)),
        }
    }
}

} // verus!
