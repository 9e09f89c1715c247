//! The response envelopes the remote service wraps its records in.

use vstd::prelude::*;

pub mod errors;

verus! {

/// The envelope of a single-record lookup: one record, or the service's
/// notion of "nothing found" as the record type's empty value.
#[derive(Debug)]
pub struct Single<T> {
    pub data: T,
}

/// The envelope of one page of a list query: the records in the order
/// the service returned them, the page number and size echoed back, the
/// count of records on this page, and the total across all pages.
#[derive(Debug)]
pub struct Many<T> {
    pub data: Vec<T>,
    pub page: u16,
    pub page_size: u8,
    pub count: u32,
    pub total_count: u32,
}

impl<T> Many<T> {
    /// A well-formed envelope carries exactly as many records as its
    /// own `count` field announces.
    pub open spec fn spec_consistent(&self) -> bool {
        self.data@.len() == self.count
    }

    /// Whether this envelope's record count matches its `count` field.
    pub fn is_consistent(&self) -> (b: bool)
        ensures
            b == self.spec_consistent(),
    {
        self.data.len() == self.count as usize
    }
}

} // verus!
