//! The handler layer: one function per API operation.
//!
//! Each handler invokes exactly one data-access operation (the reads
//! compose a parent fetch with a child fetch inside the store) and maps
//! the outcome onto a response. Absence and storage failure collapse into
//! the same not-found response: a caller cannot tell "no such row" from
//! "the operation failed", which mirrors the API's deliberate design.
use crate::entry::Entry;
use crate::id::{EntryId, KombuchaId};
use crate::kombucha::{entries_view, kombuchas_view, Kombucha};
use crate::routes::Route;
use crate::store::{
    entries_for, has_kombucha, spec_all_kombuchas, spec_create_entry, spec_create_kombucha,
    spec_delete_entry, spec_delete_kombucha, spec_get_entry, spec_get_kombucha,
    spec_update_kombucha, App,
};
use vstd::prelude::*;

verus! {

/// What a handler answers: a success body, an empty success, or
/// not-found.
#[derive(Debug)]
pub enum Response {
    Kombuchas(Vec<Kombucha>),
    Kombucha(Kombucha),
    Entries(Vec<Entry>),
    Entry(Entry),
    KombuchaCreated(KombuchaId),
    EntryCreated(EntryId),
    Empty,
    NotFound,
}

/// Lists every kombucha, entries attached, ordered by ascending id.
pub fn get_all_kombuchas(app: &App) -> (r: Response)
    requires
        app.wf(),
    ensures
        (r matches Response::Kombuchas(ks) && kombuchas_view(ks@) == spec_all_kombuchas(app@)),
{
    Response::Kombuchas(app.get_all_kombuchas())
}

/// Fetches one kombucha, or answers not-found.
pub fn get_kombucha(app: &App, id: KombuchaId) -> (r: Response)
    requires
        app.wf(),
    ensures
        (match r {
            Response::Kombucha(k) => spec_get_kombucha(app@, id@) == Some(k@),
            Response::NotFound => spec_get_kombucha(app@, id@) is None,
            _ => false,
        }),
{
    match app.get_kombucha(id) {
        Some(k) => Response::Kombucha(k),
        None => Response::NotFound,
    }
}

/// Lists the entries of one kombucha.
pub fn get_kombucha_entries(app: &App, id: KombuchaId) -> (r: Response)
    requires
        app.wf(),
    ensures
        (r matches Response::Entries(es) && entries_view(es@) == entries_for(app@.entries, id@)),
{
    Response::Entries(app.get_kombucha_entries(id))
}

/// Fetches one entry through its (kombucha, entry) pair, or answers
/// not-found.
pub fn get_kombucha_entry(app: &App, id: KombuchaId, entry_id: EntryId) -> (r: Response)
    requires
        app.wf(),
    ensures
        (match r {
            Response::Entry(e) => spec_get_entry(app@, id@, entry_id@) == Some(e@),
            Response::NotFound => spec_get_entry(app@, id@, entry_id@) is None,
            _ => false,
        }),
{
    match app.get_kombucha_entry(id, entry_id) {
        Some(e) => Response::Entry(e),
        None => Response::NotFound,
    }
}

/// Applies a full update and answers an empty success.
pub fn update_kombucha(app: &mut App, kombucha: &Kombucha) -> (r: Response)
    requires
        old(app).wf(),
    ensures
        final(app).wf(),
        r is Empty,
        final(app)@ == spec_update_kombucha(old(app)@, kombucha@),
{
    match app.update_kombucha(kombucha) {
        Ok(()) => Response::Empty,
        Err(_) => Response::NotFound,
    }
}

/// Creates a kombucha with the given creation time and answers its id;
/// a storage refusal surfaces as not-found.
pub fn create_kombucha(app: &mut App, now: i64) -> (r: Response)
    requires
        old(app).wf(),
    ensures
        final(app).wf(),
        old(app)@.next_kombucha_id < i32::MAX ==> (r matches Response::KombuchaCreated(id) && id@
            == old(app)@.next_kombucha_id && final(app)@ == spec_create_kombucha(
            old(app)@,
            now as int,
        )),
        old(app)@.next_kombucha_id == i32::MAX ==> r is NotFound && final(app)@ == old(app)@,
{
    match app.create_new_kombucha(now) {
        Ok(id) => Response::KombuchaCreated(id),
        Err(_) => Response::NotFound,
    }
}

/// Creates an entry under a kombucha with the given creation time and
/// answers its id; a missing kombucha or a storage refusal surfaces as
/// not-found.
pub fn create_kombucha_entry(app: &mut App, kombucha_id: KombuchaId, now: i64) -> (r: Response)
    requires
        old(app).wf(),
    ensures
        final(app).wf(),
        has_kombucha(old(app)@.kombuchas, kombucha_id@) && old(app)@.next_entry_id < i32::MAX ==> (
        r matches Response::EntryCreated(id) && id@ == old(app)@.next_entry_id && final(app)@
            == spec_create_entry(old(app)@, kombucha_id@, now as int)),
        !(has_kombucha(old(app)@.kombuchas, kombucha_id@) && old(app)@.next_entry_id < i32::MAX)
            ==> r is NotFound && final(app)@ == old(app)@,
{
    match app.create_new_kombucha_entry(kombucha_id, now) {
        Ok(id) => Response::EntryCreated(id),
        Err(_) => Response::NotFound,
    }
}

/// Deletes one entry by its (kombucha, entry) pair; succeeds whether or
/// not it existed.
pub fn delete_kombucha_entry(app: &mut App, id: KombuchaId, entry_id: EntryId) -> (r: Response)
    requires
        old(app).wf(),
    ensures
        final(app).wf(),
        r is Empty,
        final(app)@ == spec_delete_entry(old(app)@, id@, entry_id@),
{
    match app.delete_kombucha_entry(id, entry_id) {
        Ok(()) => Response::Empty,
        Err(_) => Response::NotFound,
    }
}

/// Deletes one kombucha and all its entries; succeeds whether or not the
/// id existed.
pub fn delete_kombucha(app: &mut App, id: KombuchaId) -> (r: Response)
    requires
        old(app).wf(),
    ensures
        final(app).wf(),
        r is Empty,
        final(app)@ == spec_delete_kombucha(old(app)@, id@),
{
    match app.delete_kombucha(id) {
        Ok(()) => Response::Empty,
        Err(_) => Response::NotFound,
    }
}

/// Binds each matched route to its handler. The update route needs the
/// request body, which the caller parses; every other route ignores it.
pub fn dispatch(app: &mut App, route: Route, body: Option<&Kombucha>, now: i64) -> (r: Response)
    requires
        old(app).wf(),
        route is UpdateKombucha ==> body is Some,
    ensures
        final(app).wf(),
        (match route {
            Route::GetAllKombuchas => final(app)@ == old(app)@ && (r matches Response::Kombuchas(
                ks,
            ) && kombuchas_view(ks@) == spec_all_kombuchas(old(app)@)),
            Route::GetKombucha(id) => final(app)@ == old(app)@ && (match r {
                Response::Kombucha(k) => spec_get_kombucha(old(app)@, id@) == Some(k@),
                Response::NotFound => spec_get_kombucha(old(app)@, id@) is None,
                _ => false,
            }),
            Route::GetKombuchaEntries(id) => final(app)@ == old(app)@ && (r matches
                Response::Entries(es) && entries_view(es@) == entries_for(old(app)@.entries, id@)),
            Route::GetKombuchaEntry(id, entry_id) => final(app)@ == old(app)@ && (match r {
                Response::Entry(e) => spec_get_entry(old(app)@, id@, entry_id@) == Some(e@),
                Response::NotFound => spec_get_entry(old(app)@, id@, entry_id@) is None,
                _ => false,
            }),
            Route::CreateKombucha => {
                &&& old(app)@.next_kombucha_id < i32::MAX ==> (r matches
                    Response::KombuchaCreated(id) && id@ == old(app)@.next_kombucha_id && final(app)@
                    == spec_create_kombucha(old(app)@, now as int))
                &&& old(app)@.next_kombucha_id == i32::MAX ==> r is NotFound && final(app)@
                    == old(app)@
            },
            Route::CreateKombuchaEntry(id) => {
                &&& has_kombucha(old(app)@.kombuchas, id@) && old(app)@.next_entry_id < i32::MAX
                    ==> (r matches Response::EntryCreated(entry_id) && entry_id@
                    == old(app)@.next_entry_id && final(app)@ == spec_create_entry(old(app)@, id@, now as int))
                &&& !(has_kombucha(old(app)@.kombuchas, id@) && old(app)@.next_entry_id
                    < i32::MAX) ==> r is NotFound && final(app)@ == old(app)@
            },
            Route::UpdateKombucha => r is Empty && final(app)@ == spec_update_kombucha(
                old(app)@,
                body->Some_0@,
            ),
            Route::DeleteKombucha(id) => r is Empty && final(app)@ == spec_delete_kombucha(
                old(app)@,
                id@,
            ),
            Route::DeleteKombuchaEntry(id, entry_id) => r is Empty && final(app)@
                == spec_delete_entry(old(app)@, id@, entry_id@),
        }),
{
    match route {
        Route::GetAllKombuchas => get_all_kombuchas(app),
        Route::GetKombucha(id) => get_kombucha(app, id),
        Route::GetKombuchaEntries(id) => get_kombucha_entries(app, id),
        Route::GetKombuchaEntry(id, entry_id) => get_kombucha_entry(app, id, entry_id),
        Route::CreateKombucha => create_kombucha(app, now),
        Route::CreateKombuchaEntry(id) => create_kombucha_entry(app, id, now),
        Route::UpdateKombucha => {
            match body {
                Some(kombucha) => update_kombucha(app, kombucha),
                None => Response::NotFound,
            }
        },
        Route::DeleteKombucha(id) => delete_kombucha(app, id),
        Route::DeleteKombuchaEntry(id, entry_id) => delete_kombucha_entry(app, id, entry_id),
    }
}

} // verus!
