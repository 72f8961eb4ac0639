//! The wire shapes of the store's two calls, and the mapping between them
//! and rows.
//!
//! A row travels flat: its key components, rank, payload text and score in
//! one object. A write carries that row, whether a write directive was
//! given, and the new key only where the directive moves the row.
use vstd::prelude::*;
use crate::error::QuickError;
use crate::float::HashableF64;
use crate::key::QuickKey;
use crate::table::{QuickPair, QuickTableOverWrite};
use crate::value::{QuickCodable, QuickValue};

verus! {

/// A row as it travels: key components, rank, payload text and score.
#[derive(Debug, Clone)]
pub struct QuickRowCodable {
    pub keys: Vec<String>,
    pub rank: Option<i32>,
    pub codable: String,
    pub score: Option<HashableF64>,
}

/// The body of a write.
#[derive(Debug, Clone)]
pub struct UpdateRequest {
    pub row: QuickRowCodable,
    pub overwrite: bool,
    pub new_keys: Option<Vec<String>>,
}

/// The new key components that a write directive asks for, if any.
pub open spec fn requested_keys(overwrite: Option<QuickTableOverWrite>) -> Option<Seq<String>> {
    match overwrite {
        Some(o) => match o.new_keys {
            Some(k) => Some(k.keys@),
            None => None,
        },
        None => None,
    }
}

impl QuickRowCodable {
    /// Flattens a row for the wire.
    pub fn from_pair(pair: QuickPair) -> (r: QuickRowCodable)
        ensures
            r.keys@ == pair.key.keys@,
            r.rank == pair.rank,
            r.codable@ == pair.value@,
            r.score == pair.score,
    {
        QuickRowCodable {
            keys: pair.key.keys,
            rank: pair.rank,
            codable: pair.value.codable.json,
            score: pair.score,
        }
    }

    /// The row that a flat reply describes.
    pub fn into_pair(self) -> (r: QuickPair)
        ensures
            r.key.keys@ == self.keys@,
            r.value@ == self.codable@,
            r.score == self.score,
            r.rank == self.rank,
    {
        let key = QuickKey { keys: self.keys };
        let value = QuickValue::new_codable(QuickCodable::new(self.codable));
        QuickPair::new(key, value, self.score, self.rank)
    }
}

impl UpdateRequest {
    /// The body of a write of `pair` under the directive `overwrite`.
    pub fn new(pair: QuickPair, overwrite: Option<QuickTableOverWrite>) -> (r: UpdateRequest)
        ensures
            r.row.keys@ == pair.key.keys@,
            r.row.rank == pair.rank,
            r.row.codable@ == pair.value@,
            r.row.score == pair.score,
            r.overwrite == overwrite.is_some(),
            r.new_keys.is_some() == requested_keys(overwrite).is_some(),
            r.new_keys matches Some(k) ==> Some(k@) == requested_keys(overwrite),
    {
        let row = QuickRowCodable::from_pair(pair);
        let overwrite_bool = match &overwrite {
            Some(_) => true,
            None => false,
        };
        let new_keys: Option<Vec<String>> = match overwrite {
            Some(val) => match val.new_keys {
                Some(quick_key) => Some(quick_key.keys),
                None => None,
            },
            None => None,
        };
        UpdateRequest { row, overwrite: overwrite_bool, new_keys }
    }
}

/// The result of a call whose reply body was decoded, or failed to decode
/// with the given explanation. A store's failure acknowledgment is a decoded
/// reply like any other: it comes back as `Ok`.
pub fn decoded_reply<T>(body: Result<T, String>) -> (r: Result<T, QuickError>)
    ensures
        body matches Ok(v) ==> r == Ok::<T, QuickError>(v),
        body matches Err(m) ==> (r matches Err(e) && e.is_message(m@)),
{
    match body {
        Ok(v) => Ok(v),
        Err(m) => Err(QuickError::Message(m)),
    }
}

} // verus!
