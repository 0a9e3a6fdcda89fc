//! The API-facing kombucha record, with its entries attached.
use crate::entry::{Entry, EntryView};
use crate::fermentation::{Fermentation, FermentationView};
use crate::id::KombuchaId;
use vstd::prelude::*;

verus! {

/// A tracked fermentation project: a name, a creation time, and its ordered
/// journal entries.
#[derive(Debug, Clone, PartialEq)]
pub struct Kombucha {
    pub id: KombuchaId,
    pub name: String,
    pub added: i64,
    pub entries: Vec<Entry>,
    pub fermentations: Vec<Fermentation>,
}

/// The mathematical value of a [`Kombucha`].
#[verifier::ext_equal]
pub struct KombuchaView {
    pub id: int,
    pub name: Seq<char>,
    pub added: int,
    pub entries: Seq<EntryView>,
    pub fermentations: Seq<FermentationView>,
}

/// The views of a sequence of entries.
pub open spec fn entries_view(s: Seq<Entry>) -> Seq<EntryView> {
    s.map_values(|e: Entry| e@)
}

/// The views of a sequence of fermentations.
pub open spec fn fermentations_view(s: Seq<Fermentation>) -> Seq<FermentationView> {
    s.map_values(|f: Fermentation| f@)
}

/// The views of a sequence of full kombucha records.
pub open spec fn kombuchas_view(s: Seq<Kombucha>) -> Seq<KombuchaView> {
    s.map_values(|k: Kombucha| k@)
}

impl View for Kombucha {
    type V = KombuchaView;

    open spec fn view(&self) -> KombuchaView {
        KombuchaView {
            id: self.id@,
            name: self.name@,
            added: self.added as int,
            entries: entries_view(self.entries@),
            fermentations: fermentations_view(self.fermentations@),
        }
    }
}

impl Kombucha {
    /// Builds a record that has not been stored yet: its id is the
    /// placeholder `0`, which the store never assigns.
    pub fn new_without_id(
        name: String,
        added: i64,
        entries: Vec<Entry>,
        fermentations: Vec<Fermentation>,
    ) -> (r: Kombucha)
        ensures
            r@ == (KombuchaView {
                id: 0,
                name: name@,
                added: added as int,
                entries: entries_view(entries@),
                fermentations: fermentations_view(fermentations@),
            }),
    {
        Kombucha { id: KombuchaId(0), name, added, entries, fermentations }
    }
}

} // verus!
