//! The failure taxonomy of the insert operations.
//!
//! An execution failure comes from the backend and is recoverable by the
//! caller of a result-returning variant. An extraction failure — expected
//! row or key column missing, or a batch answered with fewer rows than
//! records — means the backend broke the one-row-per-record contract; it is
//! a protocol violation, never silently tolerated.

use vstd::prelude::*;

verus! {

/// Why an insert operation failed.
#[derive(Debug)]
pub enum InsertError {
    /// The backend rejected or could not run the statement; carries its
    /// message. Recoverable by callers of the result-returning variants.
    Execution(String),
    /// A successful single insert returned no row to read the key from.
    MissingRow,
    /// The expected row lacks the key column, or holds it with another type.
    KeyColumnMissing,
    /// A batched insert returned fewer rows than records were submitted.
    RowCountMismatch,
}

/// Spec-level shape of an [`InsertError`].
pub enum InsertErrorV {
    Execution(Seq<char>),
    MissingRow,
    KeyColumnMissing,
    RowCountMismatch,
}

impl View for InsertError {
    type V = InsertErrorV;

    open spec fn view(&self) -> InsertErrorV {
        match self {
            InsertError::Execution(m) => InsertErrorV::Execution(m@),
            InsertError::MissingRow => InsertErrorV::MissingRow,
            InsertError::KeyColumnMissing => InsertErrorV::KeyColumnMissing,
            InsertError::RowCountMismatch => InsertErrorV::RowCountMismatch,
        }
    }
}

/// An extraction failure: the backend broke the one-row-per-record contract.
pub open spec fn is_extraction_error(e: InsertErrorV) -> bool {
    match e {
        InsertErrorV::Execution(_) => false,
        InsertErrorV::MissingRow => true,
        InsertErrorV::KeyColumnMissing => true,
        InsertErrorV::RowCountMismatch => true,
    }
}

impl InsertError {
    /// A short description of the failure, as the abort-on-failure callers
    /// print it before stopping: an execution failure carries the backend's
    /// message through unchanged, and each protocol violation has its fixed
    /// text — a short batch result aborts with exactly
    /// "failed getting the returned IDs for a multi insert".
    pub fn describe(&self) -> (r: String)
        ensures
            self@ matches InsertErrorV::Execution(m) ==> r@ == m,
            self@ is MissingRow ==> r@ == "no row was returned for an insert"@,
            self@ is KeyColumnMissing ==> r@
                == "the returned row holds no key column of the declared type"@,
            self@ is RowCountMismatch ==> r@
                == "failed getting the returned IDs for a multi insert"@,
    {
        match self {
            InsertError::Execution(m) => m.clone(),
            InsertError::MissingRow => "no row was returned for an insert".to_owned(),
            InsertError::KeyColumnMissing => "the returned row holds no key column of the declared type".to_owned(),
            InsertError::RowCountMismatch => "failed getting the returned IDs for a multi insert".to_owned(),
        }
    }
}

} // verus!
