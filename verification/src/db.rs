//! Storage-row records: the shapes of the table rows themselves.
//!
//! These mirror the persisted schema column for column and are used only at
//! the storage boundary; the API-facing records are assembled from them by
//! field projection, so the wire contract survives storage-shape changes.
use crate::fermentation_status::FermentationStatus;
use crate::id::{EntryId, FermentationId, KombuchaId};
use vstd::prelude::*;

verus! {

/// A row of the kombucha table: no entry list, that is assembled separately.
#[derive(Debug, PartialEq)]
pub struct Kombucha {
    pub id: KombuchaId,
    pub name: String,
    pub added: i64,
}

/// A row of the entry table, with its back-reference to the owning kombucha.
#[derive(Debug, PartialEq)]
pub struct Entry {
    pub id: EntryId,
    pub kombucha_id: KombuchaId,
    pub content: String,
    pub added: i64,
}

impl Clone for Kombucha {
    fn clone(&self) -> (r: Kombucha)
        ensures
            r == *self,
    {
        Kombucha { id: self.id, name: self.name.clone(), added: self.added }
    }
}

impl Clone for Entry {
    fn clone(&self) -> (r: Entry)
        ensures
            r == *self,
    {
        Entry {
            id: self.id,
            kombucha_id: self.kombucha_id,
            content: self.content.clone(),
            added: self.added,
        }
    }
}

/// A row of the fermentation table (unused extension point).
#[derive(Debug, Clone, PartialEq)]
pub struct Fermentation {
    pub id: FermentationId,
    pub kombucha_id: KombuchaId,
    pub start_date: i64,
    pub end_date: Option<i64>,
    pub est_end_date: Option<i64>,
    pub status: FermentationStatus,
}

/// The mathematical value of a kombucha row.
#[verifier::ext_equal]
pub struct KombuchaRowView {
    pub id: int,
    pub name: Seq<char>,
    pub added: int,
}

/// The mathematical value of an entry row.
#[verifier::ext_equal]
pub struct EntryRowView {
    pub id: int,
    pub kombucha_id: int,
    pub content: Seq<char>,
    pub added: int,
}

impl View for Kombucha {
    type V = KombuchaRowView;

    open spec fn view(&self) -> KombuchaRowView {
        KombuchaRowView { id: self.id@, name: self.name@, added: self.added as int }
    }
}

impl View for Entry {
    type V = EntryRowView;

    open spec fn view(&self) -> EntryRowView {
        EntryRowView {
            id: self.id@,
            kombucha_id: self.kombucha_id@,
            content: self.content@,
            added: self.added as int,
        }
    }
}

impl EntryRowView {
    /// The API-facing value of this row: the back-reference is dropped.
    pub open spec fn as_entry(self) -> crate::entry::EntryView {
        crate::entry::EntryView { id: self.id, added: self.added, content: self.content }
    }
}

/// The views of a sequence of kombucha rows.
pub open spec fn kombucha_rows_view(s: Seq<Kombucha>) -> Seq<KombuchaRowView> {
    s.map_values(|r: Kombucha| r@)
}

/// The views of a sequence of entry rows.
pub open spec fn entry_rows_view(s: Seq<Entry>) -> Seq<EntryRowView> {
    s.map_values(|r: Entry| r@)
}

} // verus!
