use vstd::prelude::*;

pub mod error;
pub mod float;
pub mod key;
pub mod table;
pub mod value;
pub mod wire;

pub use error::QuickError;
pub use float::HashableF64;
pub use key::QuickKey;
pub use table::{
    Comparison, MetaInsertResult, QuickCount, QuickField, QuickFilter, QuickPair, QuickSort,
    QuickReadResult, QuickTableOverWrite, QuickTableResponse, QuickTableResult, QuickType, SortOrder,
};
pub use value::{QuickCodable, QuickValue};
pub use wire::{decoded_reply, QuickRowCodable, UpdateRequest};

verus! {

/// Sum of two sizes.
pub fn quick_table_client_add(left: usize, right: usize) -> (r: usize)
    requires
        left + right <= usize::MAX,
    ensures
        r == left + right,
{
    left + right
}

} // verus!
