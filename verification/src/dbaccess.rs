//! The statements that the service runs against its two tables. Each one
//! sees visible rows only, and reports every failure through
//! [`EzyTutorError::from_signal`].

pub mod course;
pub mod tutor;

use crate::errors::{error_of_signal, ErrorView, EzyTutorError, SignalView, StorageSignal};
use vstd::prelude::*;

verus! {

/// What the store says of an insert whose primary key is taken.
pub open spec fn duplicate_key_message() -> Seq<char> {
    "duplicate key value violates unique constraint"@
}

/// The error of a statement that matched no visible row.
pub open spec fn row_not_found() -> ErrorView {
    error_of_signal(SignalView::RowNotFound)
}

/// The error of an insert whose primary key is taken.
pub open spec fn key_taken() -> ErrorView {
    error_of_signal(SignalView::Failure(duplicate_key_message()))
}

/// The error of a statement that matched no visible row.
pub fn no_such_row() -> (e: EzyTutorError)
    ensures
        e@ == row_not_found(),
{
    EzyTutorError::from_signal(StorageSignal::RowNotFound)
}

/// The error of an insert whose primary key is taken.
pub fn duplicate_key() -> (e: EzyTutorError)
    ensures
        e@ == key_taken(),
{
    EzyTutorError::from_signal(
        StorageSignal::Failure("duplicate key value violates unique constraint".to_owned()),
    )
}

} // verus!
