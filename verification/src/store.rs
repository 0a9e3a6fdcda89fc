//! The data-access layer: a verified model of the relational store.
//!
//! `App` holds what the two tables and their id sequences would hold, and
//! every operation is specified exactly over [`AppView`], the mathematical
//! state. Row order models database order: rows are kept in insertion order,
//! and because ids are assigned from an ascending sequence, both tables stay
//! sorted by id — which is what makes the "list all, ordered by id" read
//! a plain traversal.
use crate::db;
use crate::db::{EntryRowView, KombuchaRowView};
use crate::entry::{Entry, EntryView};
use crate::id::{EntryId, KombuchaId};
use crate::kombucha::{entries_view, Kombucha, KombuchaView};
use vstd::prelude::*;

verus! {

/// Why a storage operation was refused.
#[derive(Debug, Clone, Copy, PartialEq, Eq, Structural)]
pub enum StoreError {
    /// The referenced kombucha row does not exist: the insert would break
    /// the foreign-key relationship.
    NoSuchKombucha,
    /// The id sequence has no assignable values left.
    IdSpaceExhausted,
}

/// The mathematical state of the store: both table contents, in database
/// order, and the next value of each id sequence.
#[verifier::ext_equal]
pub struct AppView {
    pub kombuchas: Seq<KombuchaRowView>,
    pub entries: Seq<EntryRowView>,
    pub next_kombucha_id: int,
    pub next_entry_id: int,
}

/// The first kombucha row carrying the given id, if any.
pub open spec fn find_kombucha(rows: Seq<KombuchaRowView>, id: int) -> Option<KombuchaRowView>
    decreases rows.len(),
{
    if rows.len() == 0 {
        None
    } else if rows[0].id == id {
        Some(rows[0])
    } else {
        find_kombucha(rows.skip(1), id)
    }
}

/// Some kombucha row carries the given id.
pub open spec fn has_kombucha(rows: Seq<KombuchaRowView>, id: int) -> bool {
    exists|i: int| #![trigger rows[i]] 0 <= i < rows.len() && rows[i].id == id
}

/// The first entry row matching both ids, if any.
pub open spec fn find_entry(
    rows: Seq<EntryRowView>,
    kombucha_id: int,
    entry_id: int,
) -> Option<EntryRowView>
    decreases rows.len(),
{
    if rows.len() == 0 {
        None
    } else if rows[0].id == entry_id && rows[0].kombucha_id == kombucha_id {
        Some(rows[0])
    } else {
        find_entry(rows.skip(1), kombucha_id, entry_id)
    }
}

/// The rows that satisfy a predicate, kept in their original order.
pub open spec fn rows_where<T>(rows: Seq<T>, pred: spec_fn(T) -> bool) -> Seq<T>
    decreases rows.len(),
{
    if rows.len() == 0 {
        Seq::empty()
    } else {
        let rest = rows_where(rows.drop_last(), pred);
        if pred(rows.last()) {
            rest.push(rows.last())
        } else {
            rest
        }
    }
}

/// The entry rows of one kombucha, in database order.
pub open spec fn entry_rows_for(rows: Seq<EntryRowView>, kombucha_id: int) -> Seq<EntryRowView> {
    rows_where(rows, |r: EntryRowView| r.kombucha_id == kombucha_id)
}

/// The API-facing values of a sequence of entry rows.
pub open spec fn entry_views_of(rows: Seq<EntryRowView>) -> Seq<EntryView> {
    rows.map_values(|r: EntryRowView| r.as_entry())
}

/// The API-facing entries of one kombucha, in database order.
pub open spec fn entries_for(rows: Seq<EntryRowView>, kombucha_id: int) -> Seq<EntryView> {
    entry_views_of(entry_rows_for(rows, kombucha_id))
}

/// The kombucha rows left after deleting one id.
pub open spec fn kombucha_rows_without(rows: Seq<KombuchaRowView>, id: int) -> Seq<
    KombuchaRowView,
> {
    rows_where(rows, |r: KombuchaRowView| r.id != id)
}

/// The entry rows left after deleting every entry of one kombucha.
pub open spec fn entry_rows_not_for(rows: Seq<EntryRowView>, kombucha_id: int) -> Seq<
    EntryRowView,
> {
    rows_where(rows, |r: EntryRowView| r.kombucha_id != kombucha_id)
}

/// The entry rows left after deleting the entry matching both ids.
pub open spec fn entry_rows_without(
    rows: Seq<EntryRowView>,
    kombucha_id: int,
    entry_id: int,
) -> Seq<EntryRowView> {
    rows_where(rows, |r: EntryRowView| !(r.kombucha_id == kombucha_id && r.id == entry_id))
}

/// One kombucha row after the update statement: the matching row takes
/// the submitted name and timestamp, any other row is untouched.
pub open spec fn update_one_kombucha_row(
    r: KombuchaRowView,
    id: int,
    name: Seq<char>,
    added: int,
) -> KombuchaRowView {
    if r.id == id {
        KombuchaRowView { id: r.id, name: name, added: added }
    } else {
        r
    }
}

/// The kombucha rows after one row's name and timestamp are replaced
/// (rows with other ids are untouched; an unmatched id changes nothing).
pub open spec fn update_kombucha_rows(
    rows: Seq<KombuchaRowView>,
    id: int,
    name: Seq<char>,
    added: int,
) -> Seq<KombuchaRowView> {
    rows.map_values(|r: KombuchaRowView| update_one_kombucha_row(r, id, name, added))
}

/// One entry row after a submitted entry is applied: the row with the
/// entry's own id, whichever kombucha owns it, takes the submitted content
/// and timestamp; any other row is untouched.
pub open spec fn update_one_entry_row(r: EntryRowView, e: EntryView) -> EntryRowView {
    if r.id == e.id {
        EntryRowView { id: r.id, kombucha_id: r.kombucha_id, content: e.content, added: e.added }
    } else {
        r
    }
}

/// The entry rows after one submitted entry is applied.
pub open spec fn apply_entry_update(rows: Seq<EntryRowView>, e: EntryView) -> Seq<EntryRowView> {
    rows.map_values(|r: EntryRowView| update_one_entry_row(r, e))
}

/// The entry rows after a whole submitted entry list is applied, in order.
pub open spec fn apply_entry_updates(
    rows: Seq<EntryRowView>,
    updates: Seq<EntryView>,
) -> Seq<EntryRowView>
    decreases updates.len(),
{
    if updates.len() == 0 {
        rows
    } else {
        apply_entry_update(apply_entry_updates(rows, updates.drop_last()), updates.last())
    }
}

/// A full API-facing record assembled from a row and its entries; the
/// fermentation sub-feature is unimplemented, so that list is always empty.
pub open spec fn kombucha_of(row: KombuchaRowView, entries: Seq<EntryView>) -> KombuchaView {
    KombuchaView {
        id: row.id,
        name: row.name,
        added: row.added,
        entries: entries,
        fermentations: Seq::empty(),
    }
}

/// What reading one kombucha returns: its row joined with its entries.
pub open spec fn spec_get_kombucha(s: AppView, id: int) -> Option<KombuchaView> {
    match find_kombucha(s.kombuchas, id) {
        Some(row) => Some(kombucha_of(row, entries_for(s.entries, id))),
        None => None,
    }
}

/// Full records assembled for each row of a kombucha row sequence.
pub open spec fn all_kombuchas_of(
    kombuchas: Seq<KombuchaRowView>,
    entries: Seq<EntryRowView>,
) -> Seq<KombuchaView> {
    kombuchas.map_values(|row: KombuchaRowView| kombucha_of(row, entries_for(entries, row.id)))
}

/// What listing every kombucha returns, in table (= id) order.
pub open spec fn spec_all_kombuchas(s: AppView) -> Seq<KombuchaView> {
    all_kombuchas_of(s.kombuchas, s.entries)
}

/// What reading one entry through its (kombucha, entry) pair returns.
pub open spec fn spec_get_entry(s: AppView, kombucha_id: int, entry_id: int) -> Option<EntryView> {
    match find_entry(s.entries, kombucha_id, entry_id) {
        Some(row) => Some(row.as_entry()),
        None => None,
    }
}

/// The store after a kombucha is created: a fresh row with the next id, an
/// empty name and the given timestamp.
pub open spec fn spec_create_kombucha(s: AppView, now: int) -> AppView {
    AppView {
        kombuchas: s.kombuchas.push(
            KombuchaRowView { id: s.next_kombucha_id, name: Seq::empty(), added: now },
        ),
        entries: s.entries,
        next_kombucha_id: s.next_kombucha_id + 1,
        next_entry_id: s.next_entry_id,
    }
}

/// The store after an entry is created under a kombucha: a fresh row with
/// the next id, empty content and the given timestamp.
pub open spec fn spec_create_entry(s: AppView, kombucha_id: int, now: int) -> AppView {
    AppView {
        kombuchas: s.kombuchas,
        entries: s.entries.push(
            EntryRowView {
                id: s.next_entry_id,
                kombucha_id: kombucha_id,
                content: Seq::empty(),
                added: now,
            },
        ),
        next_kombucha_id: s.next_kombucha_id,
        next_entry_id: s.next_entry_id + 1,
    }
}

/// The store after a full update: the kombucha row named by the record is
/// rewritten, then each submitted entry is applied in order. No row is
/// created or removed.
pub open spec fn spec_update_kombucha(s: AppView, k: KombuchaView) -> AppView {
    AppView {
        kombuchas: update_kombucha_rows(s.kombuchas, k.id, k.name, k.added),
        entries: apply_entry_updates(s.entries, k.entries),
        next_kombucha_id: s.next_kombucha_id,
        next_entry_id: s.next_entry_id,
    }
}

/// The store after one entry is deleted by its (kombucha, entry) pair.
pub open spec fn spec_delete_entry(s: AppView, kombucha_id: int, entry_id: int) -> AppView {
    AppView {
        kombuchas: s.kombuchas,
        entries: entry_rows_without(s.entries, kombucha_id, entry_id),
        next_kombucha_id: s.next_kombucha_id,
        next_entry_id: s.next_entry_id,
    }
}

/// The store after a kombucha and all its entries are deleted, atomically.
pub open spec fn spec_delete_kombucha(s: AppView, kombucha_id: int) -> AppView {
    AppView {
        kombuchas: kombucha_rows_without(s.kombuchas, kombucha_id),
        entries: entry_rows_not_for(s.entries, kombucha_id),
        next_kombucha_id: s.next_kombucha_id,
        next_entry_id: s.next_entry_id,
    }
}

/// Every kept row satisfies the predicate and comes from the input, and
/// every input row satisfying the predicate is kept.
pub proof fn lemma_rows_where_props<T>(rows: Seq<T>, pred: spec_fn(T) -> bool)
    ensures
        rows_where(rows, pred).len() <= rows.len(),
        forall|i: int|
            #![trigger rows_where(rows, pred)[i]]
            0 <= i < rows_where(rows, pred).len() ==> pred(rows_where(rows, pred)[i])
                && rows.contains(rows_where(rows, pred)[i]),
        forall|i: int|
            #![trigger rows[i]]
            0 <= i < rows.len() && pred(rows[i]) ==> rows_where(rows, pred).contains(rows[i]),
    decreases rows.len(),
{
    let res = rows_where(rows, pred);
    if rows.len() > 0 {
        let prefix = rows.drop_last();
        lemma_rows_where_props(prefix, pred);
        let pres = rows_where(prefix, pred);
        assert forall|i: int| 0 <= i < res.len() implies pred(res[i]) && rows.contains(res[i]) by {
            if pred(rows.last()) && i == res.len() - 1 {
                assert(res[i] == rows.last());
                assert(rows[rows.len() - 1] == rows.last());
            } else {
                assert(res[i] == pres[i]);
                let k = choose|k: int| 0 <= k < prefix.len() && prefix[k] == pres[i];
                assert(rows[k] == pres[i]);
            }
        }
        assert forall|i: int| 0 <= i < rows.len() && pred(rows[i]) implies res.contains(
            rows[i],
        ) by {
            if i == rows.len() - 1 {
                assert(res[res.len() - 1] == rows.last());
            } else {
                assert(prefix[i] == rows[i]);
                assert(pres.contains(rows[i]));
                let k = choose|k: int| 0 <= k < pres.len() && pres[k] == rows[i];
                assert(res[k] == pres[k]);
            }
        }
    }
}

/// A selection that keeps every row is the row sequence itself.
pub proof fn lemma_rows_where_all<T>(rows: Seq<T>, pred: spec_fn(T) -> bool)
    requires
        forall|i: int| #![trigger rows[i]] 0 <= i < rows.len() ==> pred(rows[i]),
    ensures
        rows_where(rows, pred) == rows,
    decreases rows.len(),
{
    if rows.len() > 0 {
        let prefix = rows.drop_last();
        assert forall|i: int| 0 <= i < prefix.len() implies pred(#[trigger] prefix[i]) by {
            assert(prefix[i] == rows[i]);
        }
        lemma_rows_where_all(prefix, pred);
        assert(pred(rows[rows.len() - 1]));
        assert(rows_where(rows, pred) =~= rows);
    }
}

/// Keeping a selection of rows preserves a strictly ascending key.
pub proof fn lemma_rows_where_ascending<T>(
    rows: Seq<T>,
    pred: spec_fn(T) -> bool,
    key: spec_fn(T) -> int,
)
    requires
        forall|i: int, j: int|
            #![trigger rows[i], rows[j]]
            0 <= i < j < rows.len() ==> key(rows[i]) < key(rows[j]),
    ensures
        forall|i: int, j: int|
            #![trigger rows_where(rows, pred)[i], rows_where(rows, pred)[j]]
            0 <= i < j < rows_where(rows, pred).len() ==> key(rows_where(rows, pred)[i]) < key(
                rows_where(rows, pred)[j],
            ),
    decreases rows.len(),
{
    let res = rows_where(rows, pred);
    if rows.len() > 0 {
        let prefix = rows.drop_last();
        assert forall|i: int, j: int| 0 <= i < j < prefix.len() implies key(prefix[i]) < key(
            prefix[j],
        ) by {
            assert(prefix[i] == rows[i]);
            assert(prefix[j] == rows[j]);
        }
        lemma_rows_where_ascending(prefix, pred, key);
        lemma_rows_where_props(prefix, pred);
        let pres = rows_where(prefix, pred);
        assert forall|i: int, j: int| 0 <= i < j < res.len() implies key(res[i]) < key(res[j]) by {
            if pred(rows.last()) && j == res.len() - 1 {
                assert(res[i] == pres[i]);
                let k = choose|k: int| 0 <= k < prefix.len() && prefix[k] == pres[i];
                assert(rows[k] == prefix[k]);
                assert(key(rows[k]) < key(rows[rows.len() - 1]));
                assert(res[j] == rows.last());
            } else {
                assert(res[i] == pres[i]);
                assert(res[j] == pres[j]);
            }
        }
    }
}

/// The first kombucha row with an id exists exactly when some row carries
/// it, and it does carry it.
pub proof fn lemma_find_kombucha_props(rows: Seq<KombuchaRowView>, id: int)
    ensures
        (find_kombucha(rows, id) is Some) <==> has_kombucha(rows, id),
        (match find_kombucha(rows, id) {
            Some(row) => row.id == id && rows.contains(row),
            None => true,
        }),
    decreases rows.len(),
{
    if rows.len() == 0 {
    } else if rows[0].id == id {
        assert(rows.contains(rows[0]));
        assert(has_kombucha(rows, id));
    } else {
        let rest = rows.skip(1);
        lemma_find_kombucha_props(rest, id);
        if has_kombucha(rest, id) {
            let k = choose|k: int| 0 <= k < rest.len() && rest[k].id == id;
            assert(rows[k + 1] == rest[k]);
            assert(has_kombucha(rows, id));
        }
        if has_kombucha(rows, id) {
            let k = choose|k: int| 0 <= k < rows.len() && rows[k].id == id;
            assert(k != 0);
            assert(rest[k - 1] == rows[k]);
            assert(has_kombucha(rest, id));
        }
        if find_kombucha(rest, id) is Some {
            let row = find_kombucha(rest, id)->Some_0;
            let k = choose|k: int| 0 <= k < rest.len() && rest[k] == row;
            assert(rows[k + 1] == rest[k]);
            assert(rows.contains(row));
        }
    }
}

/// The first entry row matching a (kombucha, entry) pair exists exactly
/// when some row matches both, and it does match both.
pub proof fn lemma_find_entry_props(rows: Seq<EntryRowView>, kombucha_id: int, entry_id: int)
    ensures
        (find_entry(rows, kombucha_id, entry_id) is Some) <==> exists|i: int|
            #![trigger rows[i]]
            0 <= i < rows.len() && rows[i].id == entry_id && rows[i].kombucha_id == kombucha_id,
        (match find_entry(rows, kombucha_id, entry_id) {
            Some(row) => row.id == entry_id && row.kombucha_id == kombucha_id && rows.contains(
                row,
            ),
            None => true,
        }),
    decreases rows.len(),
{
    if rows.len() == 0 {
    } else if rows[0].id == entry_id && rows[0].kombucha_id == kombucha_id {
        assert(rows.contains(rows[0]));
    } else {
        let rest = rows.skip(1);
        lemma_find_entry_props(rest, kombucha_id, entry_id);
        if exists|i: int|
            #![trigger rest[i]]
            0 <= i < rest.len() && rest[i].id == entry_id && rest[i].kombucha_id == kombucha_id {
            let k = choose|k: int|
                0 <= k < rest.len() && rest[k].id == entry_id && rest[k].kombucha_id
                    == kombucha_id;
            assert(rows[k + 1] == rest[k]);
        }
        if exists|i: int|
            #![trigger rows[i]]
            0 <= i < rows.len() && rows[i].id == entry_id && rows[i].kombucha_id == kombucha_id {
            let k = choose|k: int|
                0 <= k < rows.len() && rows[k].id == entry_id && rows[k].kombucha_id
                    == kombucha_id;
            assert(k != 0);
            assert(rest[k - 1] == rows[k]);
        }
        if find_entry(rest, kombucha_id, entry_id) is Some {
            let row = find_entry(rest, kombucha_id, entry_id)->Some_0;
            let k = choose|k: int| 0 <= k < rest.len() && rest[k] == row;
            assert(rows[k + 1] == rest[k]);
            assert(rows.contains(row));
        }
    }
}

/// Applying a list of entry updates never creates or removes a row and
/// never moves an entry to another kombucha.
pub proof fn lemma_apply_entry_updates_shape(rows: Seq<EntryRowView>, updates: Seq<EntryView>)
    ensures
        apply_entry_updates(rows, updates).len() == rows.len(),
        forall|i: int|
            #![trigger apply_entry_updates(rows, updates)[i]]
            0 <= i < rows.len() ==> apply_entry_updates(rows, updates)[i].id == rows[i].id
                && apply_entry_updates(rows, updates)[i].kombucha_id == rows[i].kombucha_id,
    decreases updates.len(),
{
    if updates.len() > 0 {
        lemma_apply_entry_updates_shape(rows, updates.drop_last());
    }
}

/// A row whose id no submitted entry carries comes through an update
/// unchanged.
pub proof fn lemma_apply_entry_updates_untouched(
    rows: Seq<EntryRowView>,
    updates: Seq<EntryView>,
    i: int,
)
    requires
        0 <= i < rows.len(),
        forall|j: int|
            #![trigger updates[j]]
            0 <= j < updates.len() ==> updates[j].id != rows[i].id,
    ensures
        apply_entry_updates(rows, updates)[i] == rows[i],
    decreases updates.len(),
{
    if updates.len() > 0 {
        let prefix = updates.drop_last();
        assert forall|j: int| 0 <= j < prefix.len() implies (#[trigger] prefix[j]).id
            != rows[i].id by {
            assert(prefix[j] == updates[j]);
        }
        lemma_apply_entry_updates_untouched(rows, prefix, i);
        lemma_apply_entry_updates_shape(rows, prefix);
        assert(updates[updates.len() - 1].id != rows[i].id);
        assert(apply_entry_updates(rows, updates)[i] == update_one_entry_row(
            apply_entry_updates(rows, prefix)[i],
            updates.last(),
        ));
    }
}

/// The row carrying a submitted entry's id takes that entry's content and
/// timestamp, provided no later submitted entry carries the same id.
pub proof fn lemma_apply_entry_updates_applies(
    rows: Seq<EntryRowView>,
    updates: Seq<EntryView>,
    j: int,
    i: int,
)
    requires
        0 <= j < updates.len(),
        0 <= i < rows.len(),
        rows[i].id == updates[j].id,
        forall|j2: int|
            #![trigger updates[j2]]
            j < j2 < updates.len() ==> updates[j2].id != updates[j].id,
    ensures
        apply_entry_updates(rows, updates)[i] == (EntryRowView {
            id: rows[i].id,
            kombucha_id: rows[i].kombucha_id,
            content: updates[j].content,
            added: updates[j].added,
        }),
    decreases updates.len(),
{
    let prefix = updates.drop_last();
    lemma_apply_entry_updates_shape(rows, prefix);
    if j == updates.len() - 1 {
        assert(apply_entry_updates(rows, prefix)[i].id == rows[i].id);
    } else {
        assert forall|j2: int| j < j2 < prefix.len() implies (#[trigger] prefix[j2]).id
            != prefix[j].id by {
            assert(prefix[j2] == updates[j2]);
        }
        assert(prefix[j] == updates[j]);
        lemma_apply_entry_updates_applies(rows, prefix, j, i);
        assert(updates[updates.len() - 1].id != updates[j].id);
    }
}

/// Creating a kombucha preserves the store invariant while the id
/// sequence has room.
pub proof fn lemma_create_kombucha_wf(v: AppView, now: int)
    requires
        v.wf(),
        v.next_kombucha_id < i32::MAX,
    ensures
        spec_create_kombucha(v, now).wf(),
{
    let w = spec_create_kombucha(v, now);
    assert forall|i: int| 0 <= i < w.kombuchas.len() implies 0 < (#[trigger] w.kombuchas[i]).id
        < w.next_kombucha_id by {
        if i < v.kombuchas.len() {
            assert(w.kombuchas[i] == v.kombuchas[i]);
        }
    }
    assert forall|i: int, j: int|
        #![trigger w.kombuchas[i], w.kombuchas[j]]
        0 <= i < j < w.kombuchas.len() implies w.kombuchas[i].id < w.kombuchas[j].id by {
        assert(w.kombuchas[i] == v.kombuchas[i]);
        if j < v.kombuchas.len() {
            assert(w.kombuchas[j] == v.kombuchas[j]);
        }
    }
    assert forall|i: int| 0 <= i < w.entries.len() implies has_kombucha(
        w.kombuchas,
        (#[trigger] w.entries[i]).kombucha_id,
    ) by {
        let kid = v.entries[i].kombucha_id;
        assert(has_kombucha(v.kombuchas, kid));
        let k = choose|k: int| 0 <= k < v.kombuchas.len() && v.kombuchas[k].id == kid;
        assert(w.kombuchas[k] == v.kombuchas[k]);
        assert(has_kombucha(w.kombuchas, kid));
    }
}

/// Creating an entry under an existing kombucha preserves the store
/// invariant while the id sequence has room.
pub proof fn lemma_create_entry_wf(v: AppView, kombucha_id: int, now: int)
    requires
        v.wf(),
        v.next_entry_id < i32::MAX,
        has_kombucha(v.kombuchas, kombucha_id),
    ensures
        spec_create_entry(v, kombucha_id, now).wf(),
{
    let w = spec_create_entry(v, kombucha_id, now);
    assert forall|i: int| 0 <= i < w.entries.len() implies 0 < (#[trigger] w.entries[i]).id
        < w.next_entry_id by {
        if i < v.entries.len() {
            assert(w.entries[i] == v.entries[i]);
        }
    }
    assert forall|i: int, j: int|
        #![trigger w.entries[i], w.entries[j]]
        0 <= i < j < w.entries.len() implies w.entries[i].id < w.entries[j].id by {
        assert(w.entries[i] == v.entries[i]);
        if j < v.entries.len() {
            assert(w.entries[j] == v.entries[j]);
        }
    }
    assert forall|i: int| 0 <= i < w.entries.len() implies has_kombucha(
        w.kombuchas,
        (#[trigger] w.entries[i]).kombucha_id,
    ) by {
        if i < v.entries.len() {
            assert(w.entries[i] == v.entries[i]);
        } else {
            assert(w.entries[i].kombucha_id == kombucha_id);
        }
    }
}

/// A selection of the entry rows (with the kombucha table unchanged)
/// preserves the store invariant.
pub proof fn lemma_entry_selection_wf(v: AppView, kept: Seq<EntryRowView>)
    requires
        v.wf(),
        forall|i: int|
            #![trigger kept[i]]
            0 <= i < kept.len() ==> v.entries.contains(kept[i]),
        forall|i: int, j: int|
            #![trigger kept[i], kept[j]]
            0 <= i < j < kept.len() ==> kept[i].id < kept[j].id,
    ensures
        (AppView {
            kombuchas: v.kombuchas,
            entries: kept,
            next_kombucha_id: v.next_kombucha_id,
            next_entry_id: v.next_entry_id,
        }).wf(),
{
    assert forall|i: int| 0 <= i < kept.len() implies 0 < (#[trigger] kept[i]).id
        < v.next_entry_id && has_kombucha(v.kombuchas, kept[i].kombucha_id) by {
        let k = choose|k: int| 0 <= k < v.entries.len() && v.entries[k] == kept[i];
        assert(v.entries[k] == kept[i]);
    }
}

/// Deleting one entry preserves the store invariant.
pub proof fn lemma_delete_entry_wf(v: AppView, kombucha_id: int, entry_id: int)
    requires
        v.wf(),
    ensures
        spec_delete_entry(v, kombucha_id, entry_id).wf(),
{
    let pred = |r: EntryRowView| !(r.kombucha_id == kombucha_id && r.id == entry_id);
    lemma_rows_where_props(v.entries, pred);
    lemma_rows_where_ascending(v.entries, pred, |r: EntryRowView| r.id);
    lemma_entry_selection_wf(v, entry_rows_without(v.entries, kombucha_id, entry_id));
}

/// Deleting a kombucha together with all its entries preserves the store
/// invariant.
pub proof fn lemma_delete_kombucha_wf(v: AppView, kombucha_id: int)
    requires
        v.wf(),
    ensures
        spec_delete_kombucha(v, kombucha_id).wf(),
{
    let w = spec_delete_kombucha(v, kombucha_id);
    let kpred = |r: KombuchaRowView| r.id != kombucha_id;
    let epred = |r: EntryRowView| r.kombucha_id != kombucha_id;
    lemma_rows_where_props(v.kombuchas, kpred);
    lemma_rows_where_ascending(v.kombuchas, kpred, |r: KombuchaRowView| r.id);
    lemma_rows_where_props(v.entries, epred);
    lemma_rows_where_ascending(v.entries, epred, |r: EntryRowView| r.id);
    assert forall|i: int| 0 <= i < w.kombuchas.len() implies 0 < (#[trigger] w.kombuchas[i]).id
        < w.next_kombucha_id by {
        let k = choose|k: int| 0 <= k < v.kombuchas.len() && v.kombuchas[k] == w.kombuchas[i];
        assert(v.kombuchas[k] == w.kombuchas[i]);
    }
    assert forall|i: int| 0 <= i < w.entries.len() implies 0 < (#[trigger] w.entries[i]).id
        < w.next_entry_id by {
        let k = choose|k: int| 0 <= k < v.entries.len() && v.entries[k] == w.entries[i];
        assert(v.entries[k] == w.entries[i]);
    }
    assert forall|i: int| 0 <= i < w.entries.len() implies has_kombucha(
        w.kombuchas,
        (#[trigger] w.entries[i]).kombucha_id,
    ) by {
        let k = choose|k: int| 0 <= k < v.entries.len() && v.entries[k] == w.entries[i];
        assert(v.entries[k] == w.entries[i]);
        let kid = w.entries[i].kombucha_id;
        assert(kid != kombucha_id);
        assert(has_kombucha(v.kombuchas, kid));
        let m = choose|m: int| 0 <= m < v.kombuchas.len() && v.kombuchas[m].id == kid;
        assert(kpred(v.kombuchas[m]));
        assert(w.kombuchas.contains(v.kombuchas[m]));
        let n = choose|n: int| 0 <= n < w.kombuchas.len() && w.kombuchas[n] == v.kombuchas[m];
        assert(w.kombuchas[n].id == kid);
        assert(has_kombucha(w.kombuchas, kid));
    }
}

/// A full update preserves the store invariant: no id, back-reference or
/// row count changes.
pub proof fn lemma_update_kombucha_wf(v: AppView, k: KombuchaView)
    requires
        v.wf(),
    ensures
        spec_update_kombucha(v, k).wf(),
{
    let w = spec_update_kombucha(v, k);
    lemma_apply_entry_updates_shape(v.entries, k.entries);
    assert(w.kombuchas.len() == v.kombuchas.len());
    assert forall|i: int| 0 <= i < w.kombuchas.len() implies (#[trigger] w.kombuchas[i]).id
        == v.kombuchas[i].id by {}
    assert forall|i: int| 0 <= i < w.entries.len() implies has_kombucha(
        w.kombuchas,
        (#[trigger] w.entries[i]).kombucha_id,
    ) by {
        let kid = v.entries[i].kombucha_id;
        assert(w.entries[i].kombucha_id == kid);
        assert(has_kombucha(v.kombuchas, kid));
        let m = choose|m: int| 0 <= m < v.kombuchas.len() && v.kombuchas[m].id == kid;
        assert(w.kombuchas[m].id == kid);
        assert(has_kombucha(w.kombuchas, kid));
    }
}

impl AppView {
    /// The empty store, as a fresh database would hold it: no rows, both
    /// id sequences at one.
    pub open spec fn empty() -> AppView {
        AppView {
            kombuchas: Seq::empty(),
            entries: Seq::empty(),
            next_kombucha_id: 1,
            next_entry_id: 1,
        }
    }

    /// Well-formedness: what the database schema and its id sequences
    /// guarantee. Ids are positive, below their sequence, and strictly
    /// ascending in table order; every entry's back-reference names an
    /// existing kombucha row.
    pub open spec fn wf(self) -> bool {
        &&& 1 <= self.next_kombucha_id <= i32::MAX
        &&& 1 <= self.next_entry_id <= i32::MAX
        &&& forall|i: int|
            #![trigger self.kombuchas[i]]
            0 <= i < self.kombuchas.len() ==> 0 < self.kombuchas[i].id < self.next_kombucha_id
        &&& forall|i: int, j: int|
            #![trigger self.kombuchas[i], self.kombuchas[j]]
            0 <= i < j < self.kombuchas.len() ==> self.kombuchas[i].id < self.kombuchas[j].id
        &&& forall|i: int|
            #![trigger self.entries[i]]
            0 <= i < self.entries.len() ==> 0 < self.entries[i].id < self.next_entry_id
        &&& forall|i: int, j: int|
            #![trigger self.entries[i], self.entries[j]]
            0 <= i < j < self.entries.len() ==> self.entries[i].id < self.entries[j].id
        &&& forall|i: int|
            #![trigger self.entries[i]]
            0 <= i < self.entries.len() ==> has_kombucha(self.kombuchas, self.entries[i].kombucha_id)
    }
}

/// The data-access layer's handle: the authoritative store state.
///
/// Every request works against one shared value of this type, the way the
/// service would work against one shared connection pool.
#[derive(Debug)]
pub struct App {
    kombuchas: Vec<db::Kombucha>,
    entries: Vec<db::Entry>,
    next_kombucha_id: i32,
    next_entry_id: i32,
}

impl View for App {
    type V = AppView;

    closed spec fn view(&self) -> AppView {
        AppView {
            kombuchas: db::kombucha_rows_view(self.kombuchas@),
            entries: db::entry_rows_view(self.entries@),
            next_kombucha_id: self.next_kombucha_id as int,
            next_entry_id: self.next_entry_id as int,
        }
    }
}

impl App {
    /// The store invariant, stated over the mathematical state.
    pub open spec fn wf(&self) -> bool {
        self@.wf()
    }

    /// A fresh, empty store.
    pub fn new() -> (r: App)
        ensures
            r.wf(),
            r@ == AppView::empty(),
    {
        let r = App {
            kombuchas: Vec::new(),
            entries: Vec::new(),
            next_kombucha_id: 1,
            next_entry_id: 1,
        };
        proof {
            assert(r@.kombuchas =~= Seq::<KombuchaRowView>::empty());
            assert(r@.entries =~= Seq::<EntryRowView>::empty());
            assert(r@ =~= AppView::empty());
        }
        r
    }

    /// The raw row of one kombucha, as the select by id returns it.
    #[verifier::loop_isolation(false)]
    fn get_db_kombucha(&self, id: KombuchaId) -> (r: Option<db::Kombucha>)
        ensures
            (match r {
                Some(row) => find_kombucha(self@.kombuchas, id@) == Some(row@),
                None => find_kombucha(self@.kombuchas, id@) is None,
            }),
    {
        let ghost rows = self@.kombuchas;
        proof {
            assert(rows.skip(0) =~= rows);
        }
        let mut i: usize = 0;
        while i < self.kombuchas.len()
            invariant
                i <= self.kombuchas.len(),
                find_kombucha(rows, id@) == find_kombucha(rows.skip(i as int), id@),
            decreases self.kombuchas.len() - i,
        {
            proof {
                assert(rows.skip(i as int)[0] == rows[i as int]);
            }
            if self.kombuchas[i].id == id {
                return Some(self.kombuchas[i].clone());
            }
            proof {
                assert(rows.skip(i as int).skip(1) =~= rows.skip(i as int + 1));
            }
            i += 1;
        }
        proof {
            assert(rows.skip(self.kombuchas.len() as int) =~= Seq::<KombuchaRowView>::empty());
        }
        None
    }

    /// The raw entry rows of one kombucha, as the select by back-reference
    /// returns them.
    #[verifier::loop_isolation(false)]
    fn get_db_entries_for_kombucha(&self, kombucha_id: KombuchaId) -> (r: Vec<db::Entry>)
        ensures
            db::entry_rows_view(r@) == entry_rows_for(self@.entries, kombucha_id@),
    {
        let ghost rows = self@.entries;
        let mut out: Vec<db::Entry> = Vec::new();
        let mut i: usize = 0;
        while i < self.entries.len()
            invariant
                i <= self.entries.len(),
                db::entry_rows_view(out@) == entry_rows_for(rows.take(i as int), kombucha_id@),
            decreases self.entries.len() - i,
        {
            let ghost prefix1 = rows.take(i as int + 1);
            proof {
                assert(prefix1.drop_last() =~= rows.take(i as int));
                assert(prefix1.last() == rows[i as int]);
            }
            if self.entries[i].kombucha_id == kombucha_id {
                out.push(self.entries[i].clone());
            }
            proof {
                assert(db::entry_rows_view(out@) =~= entry_rows_for(prefix1, kombucha_id@));
            }
            i += 1;
        }
        proof {
            assert(rows.take(self.entries.len() as int) =~= rows);
        }
        out
    }

    /// Every entry of one kombucha, projected to the API shape, in
    /// database order.
    #[verifier::loop_isolation(false)]
    pub fn get_kombucha_entries(&self, kombucha_id: KombuchaId) -> (r: Vec<Entry>)
        ensures
            entries_view(r@) == entries_for(self@.entries, kombucha_id@),
    {
        let rows = self.get_db_entries_for_kombucha(kombucha_id);
        let ghost rowviews = db::entry_rows_view(rows@);
        let mut out: Vec<Entry> = Vec::new();
        let mut i: usize = 0;
        while i < rows.len()
            invariant
                i <= rows.len(),
                out@.len() == i,
                forall|j: int| #![trigger out@[j]] 0 <= j < i ==> out@[j]@ == rowviews[j].as_entry(),
            decreases rows.len() - i,
        {
            let e = Entry::from(rows[i].clone());
            proof {
                assert(e@ == rowviews[i as int].as_entry());
            }
            out.push(e);
            i += 1;
        }
        proof {
            assert(entries_view(out@) =~= entry_views_of(rowviews));
        }
        out
    }

    /// One kombucha with its entries attached, or `None` if the id has no
    /// row.
    pub fn get_kombucha(&self, id: KombuchaId) -> (r: Option<Kombucha>)
        ensures
            (match r {
                Some(k) => spec_get_kombucha(self@, id@) == Some(k@),
                None => spec_get_kombucha(self@, id@) is None,
            }),
    {
        match self.get_db_kombucha(id) {
            Some(row) => {
                let entries = self.get_kombucha_entries(id);
                let k = Kombucha {
                    id: row.id,
                    name: row.name,
                    added: row.added,
                    entries,
                    fermentations: Vec::new(),
                };
                proof {
                    assert(k@ =~= kombucha_of(row@, entries_for(self@.entries, id@)));
                }
                Some(k)
            },
            None => None,
        }
    }

    /// Every kombucha with its entries attached, in table (= ascending id)
    /// order.
    #[verifier::loop_isolation(false)]
    pub fn get_all_kombuchas(&self) -> (r: Vec<Kombucha>)
        ensures
            crate::kombucha::kombuchas_view(r@) == spec_all_kombuchas(self@),
    {
        let ghost rows = self@.kombuchas;
        let mut out: Vec<Kombucha> = Vec::new();
        let mut i: usize = 0;
        while i < self.kombuchas.len()
            invariant
                i <= self.kombuchas.len(),
                out@.len() == i,
                forall|j: int|
                    #![trigger out@[j]]
                    0 <= j < i ==> out@[j]@ == kombucha_of(
                        rows[j],
                        entries_for(self@.entries, rows[j].id),
                    ),
            decreases self.kombuchas.len() - i,
        {
            let row = self.kombuchas[i].clone();
            let entries = self.get_kombucha_entries(row.id);
            let k = Kombucha {
                id: row.id,
                name: row.name,
                added: row.added,
                entries,
                fermentations: Vec::new(),
            };
            proof {
                assert(k@ =~~= kombucha_of(
                    rows[i as int],
                    entries_for(self@.entries, rows[i as int].id),
                ));
            }
            out.push(k);
            i += 1;
        }
        proof {
            assert(crate::kombucha::kombuchas_view(out@) =~= all_kombuchas_of(
                rows,
                self@.entries,
            ));
        }
        out
    }

    /// Creates a kombucha row with an empty name and the given creation
    /// time, returning the id the store assigned. Fails only when the id
    /// sequence is exhausted.
    pub fn create_new_kombucha(&mut self, now: i64) -> (r: Result<KombuchaId, StoreError>)
        requires
            old(self).wf(),
        ensures
            final(self).wf(),
            old(self)@.next_kombucha_id < i32::MAX ==> (r matches Ok(id) && id@ == old(
                self,
            )@.next_kombucha_id && final(self)@ == spec_create_kombucha(old(self)@, now as int)),
            old(self)@.next_kombucha_id == i32::MAX ==> r == Err::<KombuchaId, StoreError>(
                StoreError::IdSpaceExhausted,
            ) && final(self)@ == old(self)@,
    {
        if self.next_kombucha_id == i32::MAX {
            return Err(StoreError::IdSpaceExhausted);
        }
        let ghost oldv = self@;
        let id = KombuchaId(self.next_kombucha_id);
        let row = db::Kombucha { id, name: String::new(), added: now };
        self.kombuchas.push(row);
        self.next_kombucha_id = self.next_kombucha_id + 1;
        proof {
            assert(self@.kombuchas =~= oldv.kombuchas.push(
                KombuchaRowView {
                    id: oldv.next_kombucha_id,
                    name: Seq::empty(),
                    added: now as int,
                },
            ));
            assert(self@ =~~= spec_create_kombucha(oldv, now as int));
            lemma_create_kombucha_wf(oldv, now as int);
        }
        Ok(id)
    }

    /// Creates an entry row with empty content and the given creation time
    /// under an existing kombucha, returning the id the store assigned.
    /// Fails when the kombucha does not exist (the foreign key would be
    /// broken) or when the id sequence is exhausted.
    pub fn create_new_kombucha_entry(&mut self, kombucha_id: KombuchaId, now: i64) -> (r: Result<
        EntryId,
        StoreError,
    >)
        requires
            old(self).wf(),
        ensures
            final(self).wf(),
            !has_kombucha(old(self)@.kombuchas, kombucha_id@) ==> r == Err::<EntryId, StoreError>(
                StoreError::NoSuchKombucha,
            ) && final(self)@ == old(self)@,
            has_kombucha(old(self)@.kombuchas, kombucha_id@) && old(self)@.next_entry_id
                == i32::MAX ==> r == Err::<EntryId, StoreError>(StoreError::IdSpaceExhausted)
                && final(self)@ == old(self)@,
            has_kombucha(old(self)@.kombuchas, kombucha_id@) && old(self)@.next_entry_id
                < i32::MAX ==> (r matches Ok(id) && id@ == old(self)@.next_entry_id && final(self)@
                == spec_create_entry(old(self)@, kombucha_id@, now as int)),
    {
        proof {
            lemma_find_kombucha_props(self@.kombuchas, kombucha_id@);
        }
        if self.get_db_kombucha(kombucha_id).is_none() {
            return Err(StoreError::NoSuchKombucha);
        }
        if self.next_entry_id == i32::MAX {
            return Err(StoreError::IdSpaceExhausted);
        }
        let ghost oldv = self@;
        let id = EntryId(self.next_entry_id);
        let row = db::Entry { id, kombucha_id, content: String::new(), added: now };
        self.entries.push(row);
        self.next_entry_id = self.next_entry_id + 1;
        proof {
            assert(self@.entries =~= oldv.entries.push(
                EntryRowView {
                    id: oldv.next_entry_id,
                    kombucha_id: kombucha_id@,
                    content: Seq::empty(),
                    added: now as int,
                },
            ));
            assert(self@ =~~= spec_create_entry(oldv, kombucha_id@, now as int));
            lemma_create_entry_wf(oldv, kombucha_id@, now as int);
        }
        Ok(id)
    }

    /// Deletes the entry matching both ids. Succeeds whether or not such a
    /// row exists: deleting is an idempotent no-op on absent ids.
    #[verifier::loop_isolation(false)]
    pub fn delete_kombucha_entry(&mut self, kombucha_id: KombuchaId, entry_id: EntryId) -> (r:
        Result<(), StoreError>)
        requires
            old(self).wf(),
        ensures
            final(self).wf(),
            r is Ok,
            final(self)@ == spec_delete_entry(old(self)@, kombucha_id@, entry_id@),
    {
        let ghost oldv = self@;
        let mut kept: Vec<db::Entry> = Vec::new();
        let mut i: usize = 0;
        while i < self.entries.len()
            invariant
                i <= self.entries.len(),
                db::entry_rows_view(kept@) == entry_rows_without(
                    oldv.entries.take(i as int),
                    kombucha_id@,
                    entry_id@,
                ),
            decreases self.entries.len() - i,
        {
            let ghost prefix1 = oldv.entries.take(i as int + 1);
            proof {
                assert(prefix1.drop_last() =~= oldv.entries.take(i as int));
                assert(prefix1.last() == oldv.entries[i as int]);
            }
            if !(self.entries[i].kombucha_id == kombucha_id && self.entries[i].id == entry_id) {
                kept.push(self.entries[i].clone());
            }
            proof {
                assert(db::entry_rows_view(kept@) =~= entry_rows_without(
                    prefix1,
                    kombucha_id@,
                    entry_id@,
                ));
            }
            i += 1;
        }
        proof {
            assert(oldv.entries.take(self.entries.len() as int) =~= oldv.entries);
        }
        self.entries = kept;
        proof {
            assert(self@ =~~= spec_delete_entry(oldv, kombucha_id@, entry_id@));
            lemma_delete_entry_wf(oldv, kombucha_id@, entry_id@);
        }
        Ok(())
    }

    /// Deletes a kombucha row and every entry referencing it, as one
    /// atomic step. Succeeds whether or not the id exists.
    #[verifier::loop_isolation(false)]
    pub fn delete_kombucha(&mut self, kombucha_id: KombuchaId) -> (r: Result<(), StoreError>)
        requires
            old(self).wf(),
        ensures
            final(self).wf(),
            r is Ok,
            final(self)@ == spec_delete_kombucha(old(self)@, kombucha_id@),
    {
        let ghost oldv = self@;
        let mut kept_entries: Vec<db::Entry> = Vec::new();
        let mut i: usize = 0;
        while i < self.entries.len()
            invariant
                i <= self.entries.len(),
                db::entry_rows_view(kept_entries@) == entry_rows_not_for(
                    oldv.entries.take(i as int),
                    kombucha_id@,
                ),
            decreases self.entries.len() - i,
        {
            let ghost prefix1 = oldv.entries.take(i as int + 1);
            proof {
                assert(prefix1.drop_last() =~= oldv.entries.take(i as int));
                assert(prefix1.last() == oldv.entries[i as int]);
            }
            if !(self.entries[i].kombucha_id == kombucha_id) {
                kept_entries.push(self.entries[i].clone());
            }
            proof {
                assert(db::entry_rows_view(kept_entries@) =~= entry_rows_not_for(
                    prefix1,
                    kombucha_id@,
                ));
            }
            i += 1;
        }
        let mut kept_kombuchas: Vec<db::Kombucha> = Vec::new();
        let mut j: usize = 0;
        while j < self.kombuchas.len()
            invariant
                j <= self.kombuchas.len(),
                db::kombucha_rows_view(kept_kombuchas@) == kombucha_rows_without(
                    oldv.kombuchas.take(j as int),
                    kombucha_id@,
                ),
            decreases self.kombuchas.len() - j,
        {
            let ghost prefix1 = oldv.kombuchas.take(j as int + 1);
            proof {
                assert(prefix1.drop_last() =~= oldv.kombuchas.take(j as int));
                assert(prefix1.last() == oldv.kombuchas[j as int]);
            }
            if !(self.kombuchas[j].id == kombucha_id) {
                kept_kombuchas.push(self.kombuchas[j].clone());
            }
            proof {
                assert(db::kombucha_rows_view(kept_kombuchas@) =~= kombucha_rows_without(
                    prefix1,
                    kombucha_id@,
                ));
            }
            j += 1;
        }
        proof {
            assert(oldv.entries.take(self.entries.len() as int) =~= oldv.entries);
            assert(oldv.kombuchas.take(self.kombuchas.len() as int) =~= oldv.kombuchas);
        }
        self.entries = kept_entries;
        self.kombuchas = kept_kombuchas;
        proof {
            assert(self@ =~~= spec_delete_kombucha(oldv, kombucha_id@));
            lemma_delete_kombucha_wf(oldv, kombucha_id@);
        }
        Ok(())
    }

    /// Applies a full update: rewrites the kombucha row named by the
    /// record, then applies each submitted entry in order, each to the row
    /// with its own id. Rows are never created or removed, so an unmatched
    /// id — of the kombucha or of an entry — changes nothing.
    #[verifier::loop_isolation(false)]
    pub fn update_kombucha(&mut self, kombucha: &Kombucha) -> (r: Result<(), StoreError>)
        requires
            old(self).wf(),
        ensures
            final(self).wf(),
            r is Ok,
            final(self)@ == spec_update_kombucha(old(self)@, kombucha@),
    {
        let ghost oldv = self@;
        let mut new_kombuchas: Vec<db::Kombucha> = Vec::new();
        let mut i: usize = 0;
        while i < self.kombuchas.len()
            invariant
                i <= self.kombuchas.len(),
                new_kombuchas@.len() == i,
                forall|j: int|
                    #![trigger new_kombuchas@[j]]
                    0 <= j < i ==> new_kombuchas@[j]@ == update_one_kombucha_row(
                        oldv.kombuchas[j],
                        kombucha@.id,
                        kombucha@.name,
                        kombucha@.added,
                    ),
            decreases self.kombuchas.len() - i,
        {
            if self.kombuchas[i].id == kombucha.id {
                new_kombuchas.push(
                    db::Kombucha {
                        id: self.kombuchas[i].id,
                        name: kombucha.name.clone(),
                        added: kombucha.added,
                    },
                );
            } else {
                new_kombuchas.push(self.kombuchas[i].clone());
            }
            i += 1;
        }
        proof {
            assert(db::kombucha_rows_view(new_kombuchas@) =~= update_kombucha_rows(
                oldv.kombuchas,
                kombucha@.id,
                kombucha@.name,
                kombucha@.added,
            ));
        }
        self.kombuchas = new_kombuchas;
        let mut u: usize = 0;
        while u < kombucha.entries.len()
            invariant
                u <= kombucha.entries.len(),
                self@.kombuchas == update_kombucha_rows(
                    oldv.kombuchas,
                    kombucha@.id,
                    kombucha@.name,
                    kombucha@.added,
                ),
                self@.next_kombucha_id == oldv.next_kombucha_id,
                self@.next_entry_id == oldv.next_entry_id,
                self@.entries == apply_entry_updates(oldv.entries, kombucha@.entries.take(u as int)),
            decreases kombucha.entries.len() - u,
        {
            let ghost cur = self@.entries;
            let ghost eview = kombucha@.entries[u as int];
            let mut new_entries: Vec<db::Entry> = Vec::new();
            let mut w: usize = 0;
            while w < self.entries.len()
                invariant
                    w <= self.entries.len(),
                    cur == self@.entries,
                    eview == kombucha@.entries[u as int],
                    u < kombucha.entries.len(),
                    new_entries@.len() == w,
                    forall|j: int|
                        #![trigger new_entries@[j]]
                        0 <= j < w ==> new_entries@[j]@ == update_one_entry_row(cur[j], eview),
                decreases self.entries.len() - w,
            {
                if self.entries[w].id == kombucha.entries[u].id {
                    new_entries.push(
                        db::Entry {
                            id: self.entries[w].id,
                            kombucha_id: self.entries[w].kombucha_id,
                            content: kombucha.entries[u].content.clone(),
                            added: kombucha.entries[u].added,
                        },
                    );
                } else {
                    new_entries.push(self.entries[w].clone());
                }
                w += 1;
            }
            proof {
                assert(db::entry_rows_view(new_entries@) =~= apply_entry_update(cur, eview));
            }
            self.entries = new_entries;
            proof {
                let ghost t1 = kombucha@.entries.take(u as int + 1);
                assert(t1.drop_last() =~= kombucha@.entries.take(u as int));
                assert(t1.last() == eview);
                assert(self@.entries =~= apply_entry_updates(oldv.entries, t1));
            }
            u += 1;
        }
        proof {
            assert(kombucha@.entries.take(kombucha.entries.len() as int) =~= kombucha@.entries);
            assert(self@ =~~= spec_update_kombucha(oldv, kombucha@));
            lemma_update_kombucha_wf(oldv, kombucha@);
        }
        Ok(())
    }

    /// One entry located by its (kombucha, entry) pair, or `None` when no
    /// row matches both.
    #[verifier::loop_isolation(false)]
    pub fn get_kombucha_entry(&self, kombucha_id: KombuchaId, entry_id: EntryId) -> (r: Option<
        Entry,
    >)
        ensures
            (match r {
                Some(e) => spec_get_entry(self@, kombucha_id@, entry_id@) == Some(e@),
                None => spec_get_entry(self@, kombucha_id@, entry_id@) is None,
            }),
    {
        let ghost rows = self@.entries;
        proof {
            assert(rows.skip(0) =~= rows);
        }
        let mut i: usize = 0;
        while i < self.entries.len()
            invariant
                i <= self.entries.len(),
                find_entry(rows, kombucha_id@, entry_id@) == find_entry(
                    rows.skip(i as int),
                    kombucha_id@,
                    entry_id@,
                ),
            decreases self.entries.len() - i,
        {
            proof {
                assert(rows.skip(i as int)[0] == rows[i as int]);
            }
            if self.entries[i].id == entry_id && self.entries[i].kombucha_id == kombucha_id {
                return Some(Entry::from(self.entries[i].clone()));
            }
            proof {
                assert(rows.skip(i as int).skip(1) =~= rows.skip(i as int + 1));
            }
            i += 1;
        }
        proof {
            assert(rows.skip(self.entries.len() as int) =~= Seq::<EntryRowView>::empty());
        }
        None
    }
}

} // verus!
