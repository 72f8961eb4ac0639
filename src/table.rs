//! Rows, write directives, acknowledgments and the query vocabulary.
use vstd::prelude::*;
use core::cmp::Ordering;
use crate::float::{float_cmp, int_cmp, HashableF64};
use crate::error::QuickError;
use crate::key::{key_cmp, str_cmp, QuickKey};
use crate::value::QuickValue;

verus! {

/// Acknowledgment of a write: success flag, message and code.
#[derive(Debug, Clone, PartialEq, Eq)]
pub struct QuickTableResponse {
    pub ok: bool,
    pub message: Option<String>,
    pub code: Option<i32>,
}

impl QuickTableResponse {
    pub fn new(ok: bool, message: Option<String>, code: Option<i32>) -> (r: QuickTableResponse)
        ensures
            r.ok == ok,
            r.message == message,
            r.code == code,
    {
        QuickTableResponse { ok, message, code }
    }
}

pub struct MetaInsertResult {
    pub key: i32,
}

#[derive(Debug, Clone, Copy, PartialEq, Eq, Structural)]
pub enum SortOrder {
    Ascending,
    Descending,
}

#[derive(Debug, Clone, Copy, PartialEq, Eq, Structural)]
pub enum QuickField {
    EpochMillis,
    Score,
    Rank,
}

pub struct QuickSort {
    pub order: SortOrder,
    pub field: QuickField,
}

#[derive(Debug, Clone, Copy, PartialEq, Eq, Structural)]
pub enum Comparison {
    GreaterThan,
    LessThan,
    GreaterThanOrEqual,
    LessThanOrEqual,
}

/// A filter on a field; the bound is a float held by its bits.
pub struct QuickFilter {
    pub field: QuickField,
    pub comparison: Comparison,
    pub value: HashableF64,
}

#[derive(Debug, Clone, Copy, PartialEq, Eq, Hash, Structural)]
pub enum QuickType {
    Int,
    String,
    Codable,
    Double,
}

pub struct QuickCount {
    pub count: i32,
}

/// A stored row: key, value, optional score and optional rank.
#[derive(Debug, Clone)]
pub struct QuickPair {
    pub key: QuickKey,
    pub value: QuickValue,
    pub score: Option<HashableF64>,
    pub rank: Option<i32>,
}

/// Absent sorts before present; two present scores by the float order.
pub open spec fn score_cmp(a: Option<HashableF64>, b: Option<HashableF64>) -> Ordering {
    match (a, b) {
        (None, None) => Ordering::Equal,
        (None, Some(_)) => Ordering::Less,
        (Some(_), None) => Ordering::Greater,
        (Some(x), Some(y)) => float_cmp(x.bits, y.bits),
    }
}

/// Absent sorts before present; two present ranks numerically.
pub open spec fn rank_cmp(a: Option<i32>, b: Option<i32>) -> Ordering {
    match (a, b) {
        (None, None) => Ordering::Equal,
        (None, Some(_)) => Ordering::Less,
        (Some(_), None) => Ordering::Greater,
        (Some(x), Some(y)) => int_cmp(x as int, y as int),
    }
}

/// Rows order by key, then value, then score, then rank.
pub open spec fn pair_cmp(a: QuickPair, b: QuickPair) -> Ordering {
    let k = key_cmp(a.key@, b.key@);
    let v = str_cmp(a.value@, b.value@);
    let s = score_cmp(a.score, b.score);
    if k != Ordering::Equal {
        k
    } else if v != Ordering::Equal {
        v
    } else if s != Ordering::Equal {
        s
    } else {
        rank_cmp(a.rank, b.rank)
    }
}

impl QuickPair {
    pub fn new(key: QuickKey, value: QuickValue, score: Option<HashableF64>, rank: Option<i32>) -> (r: QuickPair)
        ensures
            r.key == key,
            r.value == value,
            r.score == score,
            r.rank == rank,
    {
        QuickPair { key, value, score, rank }
    }

    /// The row order: key first, then value, score and rank.
    pub fn compare(&self, other: &QuickPair) -> (r: Ordering)
        ensures
            r == pair_cmp(*self, *other),
    {
        let k = self.key.compare(&other.key);
        match k {
            Ordering::Equal => {},
            _ => {
                return k;
            },
        }
        let v = self.value.compare(&other.value);
        match v {
            Ordering::Equal => {},
            _ => {
                return v;
            },
        }
        let s = match (&self.score, &other.score) {
            (None, None) => Ordering::Equal,
            (None, Some(_)) => Ordering::Less,
            (Some(_), None) => Ordering::Greater,
            (Some(x), Some(y)) => x.compare(y),
        };
        match s {
            Ordering::Equal => {},
            _ => {
                return s;
            },
        }
        match (&self.rank, &other.rank) {
            (None, None) => Ordering::Equal,
            (None, Some(_)) => Ordering::Less,
            (Some(_), None) => Ordering::Greater,
            (Some(x), Some(y)) => {
                if *x < *y {
                    Ordering::Less
                } else if *x > *y {
                    Ordering::Greater
                } else {
                    Ordering::Equal
                }
            },
        }
    }
}

pub type QuickReadResult = Result<QuickPair, QuickError>;

pub type QuickTableResult = Result<QuickTableResponse, QuickError>;

/// A write directive: keep the row's key, or move the row to `new_keys`.
/// The absence of a directive is `None` at the call site.
#[derive(Debug, Clone)]
pub struct QuickTableOverWrite {
    pub new_keys: Option<QuickKey>,
}

impl QuickTableOverWrite {
    pub fn keep_key() -> (r: QuickTableOverWrite)
        ensures
            r.new_keys.is_none(),
    {
        QuickTableOverWrite { new_keys: None }
    }

    pub fn with_new_key(key: QuickKey) -> (r: QuickTableOverWrite)
        ensures
            r.new_keys == Some(key),
    {
        QuickTableOverWrite { new_keys: Some(key) }
    }

    pub fn no() -> (r: Option<QuickTableOverWrite>)
        ensures
            r.is_none(),
    {
        None
    }
}

} // verus!
