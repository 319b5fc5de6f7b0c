use vstd::prelude::*;

use crate::error::LibsqlStoreError;

verus! {

#[verifier::external_type_specification]
#[verifier::external_body]
pub struct ExRecord(tower_sessions_core::session::Record);

/// Relies on rmp_serde::to_vec: the MessagePack encoding of a session record,
/// or the encoder's error.
#[verifier::external_body]
fn rmp_to_vec(record: &tower_sessions_core::session::Record) -> Result<
    Vec<u8>,
    rmp_serde::encode::Error,
> {
    rmp_serde::to_vec(record)
}

/// Whether MessagePack bytes decode to a session record. This depends on the
/// bytes alone.
pub uninterp spec fn msgpack_decodes(b: Seq<u8>) -> bool;

/// Relies on rmp_serde::from_slice: the session record that MessagePack bytes
/// encode, or the decoder's error; whether it succeeds depends on the bytes
/// alone.
#[verifier::external_body]
fn rmp_from_slice(bytes: &[u8]) -> (r: Result<
    tower_sessions_core::session::Record,
    rmp_serde::decode::Error,
>)
    ensures
        r is Ok <==> msgpack_decodes(bytes@),
{
    rmp_serde::from_slice(bytes)
}

/// Encodes a session record into the payload that is stored in the table.
/// Only an encoder failure makes it fail, as an encode error.
pub fn encode_record(record: &tower_sessions_core::session::Record) -> (r: Result<
    Vec<u8>,
    LibsqlStoreError,
>)
    ensures
        r matches Err(e) ==> e is Encode,
{
    match rmp_to_vec(record) {
        Ok(bytes) => Ok(bytes),
        Err(e) => Err(LibsqlStoreError::Encode(e)),
    }
}

/// Decodes a stored payload back into a session record. It succeeds exactly
/// when the payload decodes, and fails with a decode error otherwise.
pub fn decode_record(bytes: &[u8]) -> (r: Result<
    tower_sessions_core::session::Record,
    LibsqlStoreError,
>)
    ensures
        r is Ok <==> msgpack_decodes(bytes@),
        r matches Err(e) ==> e is Decode,
{
    match rmp_from_slice(bytes) {
        Ok(record) => Ok(record),
        Err(e) => Err(LibsqlStoreError::Decode(e)),
    }
}

/// A session row as the table holds it: the encoded record and its expiry
/// in Unix seconds.
pub struct StoredRow {
    pub data: Vec<u8>,
    pub expiry_date: i64,
}

/// A row is visible while its expiry lies strictly after the current time.
pub open spec fn is_live(expiry_date: int, now: int) -> bool {
    expiry_date > now
}

/// The payload of a row that was read, if the row is still live at `now`.
/// An expired row that was not swept yet reads as an absent one.
pub fn live_payload(row: Option<StoredRow>, now: i64) -> (r: Option<Vec<u8>>)
    ensures
        row is None ==> r is None,
        row matches Some(s) ==> (if is_live(s.expiry_date as int, now as int) {
            r == Some(s.data)
        } else {
            r is None
        }),
{
    match row {
        Some(s) => {
            if s.expiry_date > now {
                Some(s.data)
            } else {
                None
            }
        },
        None => None,
    }
}

/// The record to hand back for a row that was read at `now`: none when the
/// row is absent or expired; for a live row, the decoded payload when it
/// decodes, else a decode error.
pub fn load_record(row: Option<StoredRow>, now: i64) -> (r: Result<
    Option<tower_sessions_core::session::Record>,
    LibsqlStoreError,
>)
    ensures
        row matches Some(s) ==> (is_live(s.expiry_date as int, now as int) ==> (r is Ok
            <==> msgpack_decodes(s.data@))),
        row matches Some(s) ==> (is_live(s.expiry_date as int, now as int) ==> (r matches Ok(
            rec,
        ) ==> rec is Some)),
        r matches Err(e) ==> e is Decode,
        !(row matches Some(s) && is_live(s.expiry_date as int, now as int)) ==> r matches Ok(
            None,
        ),
{
    match live_payload(row, now) {
        Some(bytes) => match decode_record(bytes.as_slice()) {
            Ok(record) => Ok(Some(record)),
            Err(e) => Err(e),
        },
        None => Ok(None),
    }
}

/// What `create` does after asking whether its candidate id is taken.
#[derive(Debug, Clone, Copy, PartialEq, Eq)]
pub enum CreateStep {
    /// Draw a fresh candidate id and ask again.
    Regenerate,
    /// Insert the record under the candidate id.
    Insert,
}

pub open spec fn create_step(id_taken: bool) -> CreateStep {
    if id_taken {
        CreateStep::Regenerate
    } else {
        CreateStep::Insert
    }
}

/// The next step of `create`: a taken id, live or expired, is never
/// overwritten.
pub fn next_create_step(id_taken: bool) -> (r: CreateStep)
    ensures
        r == create_step(id_taken),
{
    if id_taken {
        CreateStep::Regenerate
    } else {
        CreateStep::Insert
    }
}

/// The id that `create` persists when the table holds the ids `taken` and
/// the candidates come in the order `candidates`: the first candidate for
/// which the step is to insert.
pub open spec fn created_id(taken: Set<Seq<char>>, candidates: Seq<Seq<char>>) -> Option<
    Seq<char>,
>
    decreases candidates.len(),
{
    if candidates.len() == 0 {
        None
    } else if create_step(taken.contains(candidates[0])) == CreateStep::Insert {
        Some(candidates[0])
    } else {
        created_id(taken, candidates.drop_first())
    }
}

/// The id that `create` persists was not in the table before.
pub proof fn lemma_created_id_fresh(taken: Set<Seq<char>>, candidates: Seq<Seq<char>>)
    ensures
        created_id(taken, candidates) matches Some(id) ==> !taken.contains(id),
    decreases candidates.len(),
{
    if candidates.len() > 0 && taken.contains(candidates[0]) {
        lemma_created_id_fresh(taken, candidates.drop_first());
    }
}

/// Two `create` calls, the second run against the table that the first
/// left, persist two distinct ids, whatever candidates they start from, even
/// the same ones; neither overwrites a row that was there before.
pub proof fn lemma_create_ids_distinct(
    taken: Set<Seq<char>>,
    first: Seq<Seq<char>>,
    second: Seq<Seq<char>>,
)
    requires
        created_id(taken, first) is Some,
    ensures
        created_id(taken.insert(created_id(taken, first)->0), second) matches Some(id2) ==> ({
            let id1 = created_id(taken, first)->0;
            &&& id1 != id2
            &&& !taken.contains(id1)
            &&& !taken.contains(id2)
        }),
{
    let id1 = created_id(taken, first)->0;
    lemma_created_id_fresh(taken, first);
    lemma_created_id_fresh(taken.insert(id1), second);
}

} // verus!
