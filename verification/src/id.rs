//! Typed identifiers for the three entity kinds.
//!
//! Each wraps a signed 32-bit primary key. The three types are deliberately
//! distinct so that an entry id cannot be passed where a kombucha id is
//! expected. Beyond lossless conversion to and from the underlying integer,
//! each id parses from and renders to its decimal text form, which is how it
//! travels inside a URL path.
use crate::decimal::{dec_rep_of, dec_val, is_dec_i32};
use vstd::prelude::*;

verus! {

/// Primary key of a kombucha record.
#[derive(Debug, Clone, Copy, PartialEq, Eq, Structural)]
pub struct KombuchaId(pub i32);

/// Primary key of a journal entry.
#[derive(Debug, Clone, Copy, PartialEq, Eq, Structural)]
pub struct EntryId(pub i32);

/// Primary key of a fermentation record.
#[derive(Debug, Clone, Copy, PartialEq, Eq, Structural)]
pub struct FermentationId(pub i32);

impl View for KombuchaId {
    type V = int;

    open spec fn view(&self) -> int {
        self.0 as int
    }
}

impl View for EntryId {
    type V = int;

    open spec fn view(&self) -> int {
        self.0 as int
    }
}

impl View for FermentationId {
    type V = int;

    open spec fn view(&self) -> int {
        self.0 as int
    }
}

impl KombuchaId {
    /// Parses a decimal path segment as a kombucha id.
    pub fn from_str(s: &str) -> (r: Option<KombuchaId>)
        ensures
            r == (if is_dec_i32(s@) {
                Some(KombuchaId(dec_val(s@) as i32))
            } else {
                None::<KombuchaId>
            }),
    {
        match crate::decimal::parse_i32(s) {
            Some(n) => Some(KombuchaId(n)),
            None => None,
        }
    }

    /// Renders the id as decimal text.
    pub fn to_decimal(&self) -> (r: String)
        ensures
            r@ == dec_rep_of(self@),
    {
        crate::decimal::render_i32(self.0)
    }
}

impl EntryId {
    /// Parses a decimal path segment as an entry id.
    pub fn from_str(s: &str) -> (r: Option<EntryId>)
        ensures
            r == (if is_dec_i32(s@) {
                Some(EntryId(dec_val(s@) as i32))
            } else {
                None::<EntryId>
            }),
    {
        match crate::decimal::parse_i32(s) {
            Some(n) => Some(EntryId(n)),
            None => None,
        }
    }

    /// Renders the id as decimal text.
    pub fn to_decimal(&self) -> (r: String)
        ensures
            r@ == dec_rep_of(self@),
    {
        crate::decimal::render_i32(self.0)
    }
}

impl FermentationId {
    /// Parses a decimal path segment as a fermentation id.
    pub fn from_str(s: &str) -> (r: Option<FermentationId>)
        ensures
            r == (if is_dec_i32(s@) {
                Some(FermentationId(dec_val(s@) as i32))
            } else {
                None::<FermentationId>
            }),
    {
        match crate::decimal::parse_i32(s) {
            Some(n) => Some(FermentationId(n)),
            None => None,
        }
    }

    /// Renders the id as decimal text.
    pub fn to_decimal(&self) -> (r: String)
        ensures
            r@ == dec_rep_of(self@),
    {
        crate::decimal::render_i32(self.0)
    }
}

impl From<i32> for KombuchaId {
    fn from(n: i32) -> (r: KombuchaId) {
        KombuchaId(n)
    }
}

impl vstd::std_specs::convert::FromSpecImpl<i32> for KombuchaId {
    open spec fn obeys_from_spec() -> bool {
        true
    }

    open spec fn from_spec(n: i32) -> KombuchaId {
        KombuchaId(n)
    }
}

impl From<KombuchaId> for i32 {
    fn from(id: KombuchaId) -> (r: i32) {
        id.0
    }
}

impl vstd::std_specs::convert::FromSpecImpl<KombuchaId> for i32 {
    open spec fn obeys_from_spec() -> bool {
        true
    }

    open spec fn from_spec(id: KombuchaId) -> i32 {
        id.0
    }
}

impl From<i32> for EntryId {
    fn from(n: i32) -> (r: EntryId) {
        EntryId(n)
    }
}

impl vstd::std_specs::convert::FromSpecImpl<i32> for EntryId {
    open spec fn obeys_from_spec() -> bool {
        true
    }

    open spec fn from_spec(n: i32) -> EntryId {
        EntryId(n)
    }
}

impl From<EntryId> for i32 {
    fn from(id: EntryId) -> (r: i32) {
        id.0
    }
}

impl vstd::std_specs::convert::FromSpecImpl<EntryId> for i32 {
    open spec fn obeys_from_spec() -> bool {
        true
    }

    open spec fn from_spec(id: EntryId) -> i32 {
        id.0
    }
}

impl From<i32> for FermentationId {
    fn from(n: i32) -> (r: FermentationId) {
        FermentationId(n)
    }
}

impl vstd::std_specs::convert::FromSpecImpl<i32> for FermentationId {
    open spec fn obeys_from_spec() -> bool {
        true
    }

    open spec fn from_spec(n: i32) -> FermentationId {
        FermentationId(n)
    }
}

impl From<FermentationId> for i32 {
    fn from(id: FermentationId) -> (r: i32) {
        id.0
    }
}

impl vstd::std_specs::convert::FromSpecImpl<FermentationId> for i32 {
    open spec fn obeys_from_spec() -> bool {
        true
    }

    open spec fn from_spec(id: FermentationId) -> i32 {
        id.0
    }
}

} // verus!
