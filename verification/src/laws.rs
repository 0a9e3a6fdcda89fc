//! The behavioural laws of the store, proved once and for all states.
//!
//! Each proof function below states a property of the data-access layer
//! over the mathematical state [`AppView`], quantified over every
//! well-formed store, and is proved from the same transition functions the
//! executable operations are specified with.
use crate::db::EntryRowView;
use crate::db::KombuchaRowView;
use crate::entry::EntryView;
use crate::kombucha::KombuchaView;
use crate::store::{
    entries_for, entry_rows_for, find_entry, find_kombucha, has_kombucha,
    lemma_apply_entry_updates_applies, lemma_apply_entry_updates_shape,
    lemma_apply_entry_updates_untouched, lemma_find_entry_props, lemma_find_kombucha_props,
    lemma_rows_where_all, lemma_rows_where_props, spec_all_kombuchas, spec_create_entry,
    spec_create_kombucha, spec_delete_entry, spec_delete_kombucha, spec_get_entry,
    spec_get_kombucha, spec_update_kombucha, AppView,
};
use vstd::prelude::*;

verus! {

/// Creating a kombucha and fetching it by the id the store returned
/// yields a record with that id, an empty name, the creation timestamp,
/// and no entries.
pub proof fn lemma_create_then_get_kombucha(s: AppView, now: int)
    requires
        s.wf(),
        s.next_kombucha_id < i32::MAX,
    ensures
        spec_get_kombucha(spec_create_kombucha(s, now), s.next_kombucha_id) matches Some(k)
            && k.id == s.next_kombucha_id && k.name == Seq::<char>::empty() && k.added == now
            && k.entries == Seq::<EntryView>::empty() && k.fermentations.len() == 0,
{
    let w = spec_create_kombucha(s, now);
    let id = s.next_kombucha_id;
    let newrow = KombuchaRowView { id: id, name: Seq::empty(), added: now };
    assert(w.kombuchas[w.kombuchas.len() - 1] == newrow);
    assert(has_kombucha(w.kombuchas, id));
    lemma_find_kombucha_props(w.kombuchas, id);
    let row = find_kombucha(w.kombuchas, id)->Some_0;
    let k = choose|k: int| 0 <= k < w.kombuchas.len() && w.kombuchas[k] == row;
    if k < w.kombuchas.len() - 1 {
        assert(w.kombuchas[k] == s.kombuchas[k]);
        assert(false);
    }
    assert(row == newrow);
    assert forall|i: int| 0 <= i < w.entries.len() implies (#[trigger] w.entries[i]).kombucha_id
        != id by {
        let kid = s.entries[i].kombucha_id;
        assert(has_kombucha(s.kombuchas, kid));
        let m = choose|m: int| 0 <= m < s.kombuchas.len() && s.kombuchas[m].id == kid;
        assert(s.kombuchas[m].id < s.next_kombucha_id);
    }
    lemma_rows_where_props(w.entries, |r: EntryRowView| r.kombucha_id == id);
    let kept = entry_rows_for(w.entries, id);
    if kept.len() > 0 {
        assert(kept[0].kombucha_id == id && w.entries.contains(kept[0]));
        let m = choose|m: int| 0 <= m < w.entries.len() && w.entries[m] == kept[0];
        assert(false);
    }
    assert(entries_for(w.entries, id) =~= Seq::<EntryView>::empty());
}

/// Creating an entry under a kombucha appends exactly one entry — with
/// the returned id, empty content and the creation timestamp — to that
/// kombucha's entry list.
pub proof fn lemma_create_entry_then_entries(s: AppView, kombucha_id: int, now: int)
    requires
        s.wf(),
        has_kombucha(s.kombuchas, kombucha_id),
        s.next_entry_id < i32::MAX,
    ensures
        entries_for(spec_create_entry(s, kombucha_id, now).entries, kombucha_id) == entries_for(
            s.entries,
            kombucha_id,
        ).push(EntryView { id: s.next_entry_id, added: now, content: Seq::empty() }),
{
    let w = spec_create_entry(s, kombucha_id, now);
    let newrow = EntryRowView {
        id: s.next_entry_id,
        kombucha_id: kombucha_id,
        content: Seq::empty(),
        added: now,
    };
    assert(w.entries.drop_last() =~= s.entries);
    assert(w.entries.last() == newrow);
    assert(entry_rows_for(w.entries, kombucha_id) == entry_rows_for(s.entries, kombucha_id).push(
        newrow,
    ));
    assert(entries_for(w.entries, kombucha_id) =~~= entries_for(s.entries, kombucha_id).push(
        EntryView { id: s.next_entry_id, added: now, content: Seq::empty() },
    ));
}

/// An entry stored under a kombucha is returned by the lookup through
/// that pair of ids.
pub proof fn lemma_entry_lookup_owner(s: AppView, i: int)
    requires
        s.wf(),
        0 <= i < s.entries.len(),
    ensures
        spec_get_entry(s, s.entries[i].kombucha_id, s.entries[i].id) == Some(
            s.entries[i].as_entry(),
        ),
{
    let kid = s.entries[i].kombucha_id;
    let eid = s.entries[i].id;
    lemma_find_entry_props(s.entries, kid, eid);
    let row = find_entry(s.entries, kid, eid)->Some_0;
    let m = choose|m: int| 0 <= m < s.entries.len() && s.entries[m] == row;
    if m != i {
        if m < i {
            assert(s.entries[m].id < s.entries[i].id);
        } else {
            assert(s.entries[i].id < s.entries[m].id);
        }
        assert(false);
    }
}

/// An entry is reachable only through the kombucha that owns it: the
/// lookup through any other kombucha id finds nothing.
pub proof fn lemma_entry_lookup_exclusive(s: AppView, kombucha_id: int, entry_id: int, other: int)
    requires
        s.wf(),
        spec_get_entry(s, kombucha_id, entry_id) is Some,
        other != kombucha_id,
    ensures
        spec_get_entry(s, other, entry_id) is None,
{
    lemma_find_entry_props(s.entries, kombucha_id, entry_id);
    let row = find_entry(s.entries, kombucha_id, entry_id)->Some_0;
    let m = choose|m: int| 0 <= m < s.entries.len() && s.entries[m] == row;
    lemma_find_entry_props(s.entries, other, entry_id);
    if spec_get_entry(s, other, entry_id) is Some {
        let row2 = find_entry(s.entries, other, entry_id)->Some_0;
        let n = choose|n: int| 0 <= n < s.entries.len() && s.entries[n] == row2;
        if m < n {
            assert(s.entries[m].id < s.entries[n].id);
        }
        if n < m {
            assert(s.entries[n].id < s.entries[m].id);
        }
        assert(m == n);
        assert(false);
    }
}

/// Deleting a kombucha removes it and every one of its entries: after the
/// delete, the kombucha lookup and every entry lookup under it find
/// nothing.
pub proof fn lemma_delete_kombucha_removes(s: AppView, kombucha_id: int)
    requires
        s.wf(),
    ensures
        spec_get_kombucha(spec_delete_kombucha(s, kombucha_id), kombucha_id) is None,
        forall|entry_id: int|
            spec_get_entry(
                #[trigger] spec_delete_kombucha(s, kombucha_id),
                kombucha_id,
                entry_id,
            ) is None,
{
    let w = spec_delete_kombucha(s, kombucha_id);
    lemma_rows_where_props(s.kombuchas, |r: KombuchaRowView| r.id != kombucha_id);
    lemma_find_kombucha_props(w.kombuchas, kombucha_id);
    if has_kombucha(w.kombuchas, kombucha_id) {
        let m = choose|m: int| 0 <= m < w.kombuchas.len() && w.kombuchas[m].id == kombucha_id;
        assert(!(w.kombuchas[m].id != kombucha_id));
        assert(false);
    }
    lemma_rows_where_props(s.entries, |r: EntryRowView| r.kombucha_id != kombucha_id);
    assert forall|entry_id: int|
        spec_get_entry(
            #[trigger] spec_delete_kombucha(s, kombucha_id),
            kombucha_id,
            entry_id,
        ) is None by {
        lemma_find_entry_props(w.entries, kombucha_id, entry_id);
        if find_entry(w.entries, kombucha_id, entry_id) is Some {
            let row = find_entry(w.entries, kombucha_id, entry_id)->Some_0;
            let m = choose|m: int| 0 <= m < w.entries.len() && w.entries[m] == row;
            assert(!(w.entries[m].kombucha_id != kombucha_id));
            assert(false);
        }
    }
}

/// After a full update, fetching the kombucha reflects the submitted name
/// and timestamp.
pub proof fn lemma_update_then_get_kombucha(s: AppView, k: KombuchaView)
    requires
        s.wf(),
        has_kombucha(s.kombuchas, k.id),
    ensures
        spec_get_kombucha(spec_update_kombucha(s, k), k.id) matches Some(r) && r.id == k.id
            && r.name == k.name && r.added == k.added,
{
    let w = spec_update_kombucha(s, k);
    let m = choose|m: int| 0 <= m < s.kombuchas.len() && s.kombuchas[m].id == k.id;
    assert(w.kombuchas[m].id == k.id);
    assert(has_kombucha(w.kombuchas, k.id));
    lemma_find_kombucha_props(w.kombuchas, k.id);
    let row = find_kombucha(w.kombuchas, k.id)->Some_0;
    let n = choose|n: int| 0 <= n < w.kombuchas.len() && w.kombuchas[n] == row;
    assert(w.kombuchas[n] == crate::store::update_one_kombucha_row(
        s.kombuchas[n],
        k.id,
        k.name,
        k.added,
    ));
    assert(s.kombuchas[n].id == row.id);
    assert(row.name == k.name && row.added == k.added);
}

/// After a full update, fetching an entry that the submitted list rewrote
/// — through its owning kombucha — reflects the submitted content and
/// timestamp. The submitted list must not name the id again later, since
/// later rewrites win.
pub proof fn lemma_update_then_get_entry(s: AppView, k: KombuchaView, j: int, i: int)
    requires
        s.wf(),
        0 <= j < k.entries.len(),
        0 <= i < s.entries.len(),
        s.entries[i].id == k.entries[j].id,
        forall|j2: int|
            #![trigger k.entries[j2]]
            j < j2 < k.entries.len() ==> k.entries[j2].id != k.entries[j].id,
    ensures
        spec_get_entry(spec_update_kombucha(s, k), s.entries[i].kombucha_id, k.entries[j].id)
            matches Some(e) && e.id == k.entries[j].id && e.content == k.entries[j].content
            && e.added == k.entries[j].added,
{
    let w = spec_update_kombucha(s, k);
    let kid = s.entries[i].kombucha_id;
    let eid = k.entries[j].id;
    lemma_apply_entry_updates_shape(s.entries, k.entries);
    lemma_apply_entry_updates_applies(s.entries, k.entries, j, i);
    assert(w.entries[i].id == eid && w.entries[i].kombucha_id == kid);
    lemma_find_entry_props(w.entries, kid, eid);
    let row = find_entry(w.entries, kid, eid)->Some_0;
    let m = choose|m: int| 0 <= m < w.entries.len() && w.entries[m] == row;
    if m != i {
        if m < i {
            assert(s.entries[m].id < s.entries[i].id);
        } else {
            assert(s.entries[i].id < s.entries[m].id);
        }
        assert(w.entries[m].id == s.entries[m].id && w.entries[i].id == s.entries[i].id);
        assert(false);
    }
}

/// An update never inserts or removes rows: the entry table keeps its
/// length, ids and owners, and a row whose id the submitted list does not
/// carry is untouched. A submitted entry with an unknown id is thereby
/// dropped — the round trip is lossy in that direction.
pub proof fn lemma_update_no_insert(s: AppView, k: KombuchaView)
    requires
        s.wf(),
    ensures
        spec_update_kombucha(s, k).entries.len() == s.entries.len(),
        forall|i: int|
            #![trigger spec_update_kombucha(s, k).entries[i]]
            0 <= i < s.entries.len() ==> spec_update_kombucha(s, k).entries[i].id
                == s.entries[i].id && spec_update_kombucha(s, k).entries[i].kombucha_id
                == s.entries[i].kombucha_id,
        forall|i: int|
            #![trigger spec_update_kombucha(s, k).entries[i]]
            0 <= i < s.entries.len() && (forall|j: int|
                #![trigger k.entries[j]]
                0 <= j < k.entries.len() ==> k.entries[j].id != s.entries[i].id)
                ==> spec_update_kombucha(s, k).entries[i] == s.entries[i],
{
    lemma_apply_entry_updates_shape(s.entries, k.entries);
    assert forall|i: int|
        0 <= i < s.entries.len() && (forall|j: int|
            #![trigger k.entries[j]]
            0 <= j < k.entries.len() ==> k.entries[j].id != s.entries[i].id) implies #[trigger] spec_update_kombucha(
        s,
        k,
    ).entries[i] == s.entries[i] by {
        lemma_apply_entry_updates_untouched(s.entries, k.entries, i);
    }
}

/// Listing returns every kombucha, ordered by ascending id, whatever
/// order writes happened in.
pub proof fn lemma_all_kombuchas_sorted(s: AppView)
    requires
        s.wf(),
    ensures
        spec_all_kombuchas(s).len() == s.kombuchas.len(),
        forall|i: int, j: int|
            #![trigger spec_all_kombuchas(s)[i], spec_all_kombuchas(s)[j]]
            0 <= i < j < spec_all_kombuchas(s).len() ==> spec_all_kombuchas(s)[i].id
                < spec_all_kombuchas(s)[j].id,
{
    assert forall|i: int, j: int|
        #![trigger spec_all_kombuchas(s)[i], spec_all_kombuchas(s)[j]]
        0 <= i < j < spec_all_kombuchas(s).len() implies spec_all_kombuchas(s)[i].id
        < spec_all_kombuchas(s)[j].id by {
        assert(s.kombuchas[i].id < s.kombuchas[j].id);
    }
}

/// Deleting a kombucha id that no row carries changes nothing.
pub proof fn lemma_delete_absent_kombucha(s: AppView, kombucha_id: int)
    requires
        s.wf(),
        !has_kombucha(s.kombuchas, kombucha_id),
    ensures
        spec_delete_kombucha(s, kombucha_id) == s,
{
    assert forall|i: int| 0 <= i < s.kombuchas.len() implies (#[trigger] s.kombuchas[i]).id
        != kombucha_id by {
        if s.kombuchas[i].id == kombucha_id {
            assert(has_kombucha(s.kombuchas, kombucha_id));
        }
    }
    lemma_rows_where_all(s.kombuchas, |r: KombuchaRowView| r.id != kombucha_id);
    assert forall|i: int| 0 <= i < s.entries.len() implies (#[trigger] s.entries[i]).kombucha_id
        != kombucha_id by {
        assert(has_kombucha(s.kombuchas, s.entries[i].kombucha_id));
        let m = choose|m: int|
            0 <= m < s.kombuchas.len() && s.kombuchas[m].id == s.entries[i].kombucha_id;
        assert(s.kombuchas[m].id != kombucha_id);
    }
    lemma_rows_where_all(s.entries, |r: EntryRowView| r.kombucha_id != kombucha_id);
    assert(spec_delete_kombucha(s, kombucha_id) =~~= s);
}

/// Deleting an entry pair that no row matches changes nothing.
pub proof fn lemma_delete_absent_entry(s: AppView, kombucha_id: int, entry_id: int)
    requires
        s.wf(),
        spec_get_entry(s, kombucha_id, entry_id) is None,
    ensures
        spec_delete_entry(s, kombucha_id, entry_id) == s,
{
    lemma_find_entry_props(s.entries, kombucha_id, entry_id);
    assert forall|i: int| 0 <= i < s.entries.len() implies !((#[trigger] s.entries[i]).kombucha_id
        == kombucha_id && s.entries[i].id == entry_id) by {}
    lemma_rows_where_all(
        s.entries,
        |r: EntryRowView| !(r.kombucha_id == kombucha_id && r.id == entry_id),
    );
    assert(spec_delete_entry(s, kombucha_id, entry_id) =~~= s);
}

} // verus!
