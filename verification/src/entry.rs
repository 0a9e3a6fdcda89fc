//! The API-facing journal entry record.
//!
//! Timestamps are carried as plain 64-bit integers (an epoch offset); turning
//! them into calendar text is left to the unverified shell around the library.
use crate::id::EntryId;
use vstd::prelude::*;

verus! {

/// A timestamped free-text note attached to one kombucha.
#[derive(Debug, PartialEq)]
pub struct Entry {
    pub id: EntryId,
    pub added: i64,
    pub content: String,
}

impl Clone for Entry {
    fn clone(&self) -> (r: Entry)
        ensures
            r == *self,
    {
        Entry { id: self.id, added: self.added, content: self.content.clone() }
    }
}

/// The mathematical value of an [`Entry`].
#[verifier::ext_equal]
pub struct EntryView {
    pub id: int,
    pub added: int,
    pub content: Seq<char>,
}

impl View for Entry {
    type V = EntryView;

    open spec fn view(&self) -> EntryView {
        EntryView { id: self.id@, added: self.added as int, content: self.content@ }
    }
}

impl Entry {
    /// Builds an entry from its parts.
    pub fn new(id: EntryId, added: i64, text: String) -> (r: Entry)
        ensures
            r@ == (EntryView { id: id@, added: added as int, content: text@ }),
    {
        Entry { id, added, content: text }
    }
}

impl Default for Entry {
    /// The zero entry: id `0`, epoch timestamp, empty content.
    fn default() -> (r: Entry)
        ensures
            r@ == (EntryView { id: 0, added: 0, content: Seq::<char>::empty() }),
    {
        Entry { id: EntryId(0), added: 0, content: String::new() }
    }
}

impl From<crate::db::Entry> for Entry {
    /// Projects a storage row onto the API shape, dropping the back-reference.
    fn from(row: crate::db::Entry) -> (r: Entry) {
        Entry { id: row.id, added: row.added, content: row.content }
    }
}

impl vstd::std_specs::convert::FromSpecImpl<crate::db::Entry> for Entry {
    open spec fn obeys_from_spec() -> bool {
        true
    }

    open spec fn from_spec(row: crate::db::Entry) -> Entry {
        Entry { id: row.id, added: row.added, content: row.content }
    }
}

} // verus!
