//! The API-facing fermentation record.
//!
//! Present in the data model as a documented extension point: no handler
//! reaches it, and listings always attach an empty fermentation list.
use crate::fermentation_status::FermentationStatus;
use crate::id::FermentationId;
use vstd::prelude::*;

verus! {

/// One fermentation run of a kombucha, with its phase tag.
#[derive(Debug, Clone, PartialEq)]
pub struct Fermentation {
    pub id: FermentationId,
    pub start_date: i64,
    pub end_date: Option<i64>,
    pub est_end_date: Option<i64>,
    pub status: FermentationStatus,
}

/// The mathematical value of a [`Fermentation`].
#[verifier::ext_equal]
pub struct FermentationView {
    pub id: int,
    pub start_date: int,
    pub end_date: Option<int>,
    pub est_end_date: Option<int>,
    pub status: FermentationStatus,
}

/// The view of an optional timestamp.
pub open spec fn opt_time_view(t: Option<i64>) -> Option<int> {
    match t {
        Some(v) => Some(v as int),
        None => None,
    }
}

impl View for Fermentation {
    type V = FermentationView;

    open spec fn view(&self) -> FermentationView {
        FermentationView {
            id: self.id@,
            start_date: self.start_date as int,
            end_date: opt_time_view(self.end_date),
            est_end_date: opt_time_view(self.est_end_date),
            status: self.status,
        }
    }
}

} // verus!
