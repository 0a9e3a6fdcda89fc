//! The routing layer: the mapping from method and URL path to operation.
//!
//! All API routes live under the fixed `api/1` prefix; a path that matches
//! no route is left to the caller (the shell serves its static files
//! there). Path segments arrive as plain strings; typed ids are parsed out
//! of their decimal text.
use crate::decimal::{dec_val, is_dec_i32};
use crate::id::{EntryId, KombuchaId};
use crate::strutil::str_eq;
use vstd::prelude::*;

verus! {

/// The HTTP methods the API answers to.
#[derive(Debug, Clone, Copy, PartialEq, Eq, Structural)]
pub enum Method {
    Get,
    Post,
    Put,
    Delete,
}

/// A matched API route, carrying its typed path parameters. The update
/// route's body travels separately: it is not part of the path.
#[derive(Debug, Clone, Copy, PartialEq, Eq, Structural)]
pub enum Route {
    GetAllKombuchas,
    GetKombucha(KombuchaId),
    GetKombuchaEntries(KombuchaId),
    GetKombuchaEntry(KombuchaId, EntryId),
    CreateKombucha,
    CreateKombuchaEntry(KombuchaId),
    UpdateKombucha,
    DeleteKombucha(KombuchaId),
    DeleteKombuchaEntry(KombuchaId, EntryId),
}

/// The character sequences of a list of path segments.
pub open spec fn seg_views(segs: Seq<String>) -> Seq<Seq<char>> {
    segs.map_values(|s: String| s@)
}

/// The kombucha id a path segment denotes.
pub open spec fn spec_kombucha_id(seg: Seq<char>) -> KombuchaId {
    KombuchaId(dec_val(seg) as i32)
}

/// The entry id a path segment denotes.
pub open spec fn spec_entry_id(seg: Seq<char>) -> EntryId {
    EntryId(dec_val(seg) as i32)
}

/// The URL-to-operation mapping: which route, if any, a method and path
/// name. Paths outside the `api/1/kombucha` tree match nothing.
pub open spec fn spec_route(method: Method, segs: Seq<Seq<char>>) -> Option<Route> {
    if segs.len() < 3 || segs[0] != "api"@ || segs[1] != "1"@ || segs[2] != "kombucha"@ {
        None
    } else {
        match method {
            Method::Get => {
                if segs.len() == 3 {
                    Some(Route::GetAllKombuchas)
                } else if segs.len() == 4 && is_dec_i32(segs[3]) {
                    Some(Route::GetKombucha(spec_kombucha_id(segs[3])))
                } else if segs.len() == 5 && is_dec_i32(segs[3]) && segs[4] == "entry"@ {
                    Some(Route::GetKombuchaEntries(spec_kombucha_id(segs[3])))
                } else if segs.len() == 6 && is_dec_i32(segs[3]) && segs[4] == "entry"@
                    && is_dec_i32(segs[5]) {
                    Some(Route::GetKombuchaEntry(spec_kombucha_id(segs[3]), spec_entry_id(segs[5])))
                } else {
                    None
                }
            },
            Method::Post => {
                if segs.len() == 3 {
                    Some(Route::CreateKombucha)
                } else if segs.len() == 5 && is_dec_i32(segs[3]) && segs[4] == "entry"@ {
                    Some(Route::CreateKombuchaEntry(spec_kombucha_id(segs[3])))
                } else {
                    None
                }
            },
            Method::Put => {
                if segs.len() == 3 {
                    Some(Route::UpdateKombucha)
                } else {
                    None
                }
            },
            Method::Delete => {
                if segs.len() == 4 && is_dec_i32(segs[3]) {
                    Some(Route::DeleteKombucha(spec_kombucha_id(segs[3])))
                } else if segs.len() == 6 && is_dec_i32(segs[3]) && segs[4] == "entry"@
                    && is_dec_i32(segs[5]) {
                    Some(
                        Route::DeleteKombuchaEntry(
                            spec_kombucha_id(segs[3]),
                            spec_entry_id(segs[5]),
                        ),
                    )
                } else {
                    None
                }
            },
        }
    }
}

/// Matches a method and path against the routing table.
pub fn route(method: Method, segments: &Vec<String>) -> (r: Option<Route>)
    ensures
        r == spec_route(method, seg_views(segments@)),
{
    let n = segments.len();
    if n < 3 {
        return None;
    }
    if !str_eq(segments[0].as_str(), "api") || !str_eq(segments[1].as_str(), "1") || !str_eq(
        segments[2].as_str(),
        "kombucha",
    ) {
        return None;
    }
    match method {
        Method::Get => {
            if n == 3 {
                Some(Route::GetAllKombuchas)
            } else if n == 4 {
                match KombuchaId::from_str(segments[3].as_str()) {
                    Some(id) => Some(Route::GetKombucha(id)),
                    None => None,
                }
            } else if n == 5 {
                if str_eq(segments[4].as_str(), "entry") {
                    match KombuchaId::from_str(segments[3].as_str()) {
                        Some(id) => Some(Route::GetKombuchaEntries(id)),
                        None => None,
                    }
                } else {
                    None
                }
            } else if n == 6 {
                if str_eq(segments[4].as_str(), "entry") {
                    match (
                        KombuchaId::from_str(segments[3].as_str()),
                        EntryId::from_str(segments[5].as_str()),
                    ) {
                        (Some(id), Some(entry_id)) => Some(Route::GetKombuchaEntry(id, entry_id)),
                        _ => None,
                    }
                } else {
                    None
                }
            } else {
                None
            }
        },
        Method::Post => {
            if n == 3 {
                Some(Route::CreateKombucha)
            } else if n == 5 {
                if str_eq(segments[4].as_str(), "entry") {
                    match KombuchaId::from_str(segments[3].as_str()) {
                        Some(id) => Some(Route::CreateKombuchaEntry(id)),
                        None => None,
                    }
                } else {
                    None
                }
            } else {
                None
            }
        },
        Method::Put => {
            if n == 3 {
                Some(Route::UpdateKombucha)
            } else {
                None
            }
        },
        Method::Delete => {
            if n == 4 {
                match KombuchaId::from_str(segments[3].as_str()) {
                    Some(id) => Some(Route::DeleteKombucha(id)),
                    None => None,
                }
            } else if n == 6 {
                if str_eq(segments[4].as_str(), "entry") {
                    match (
                        KombuchaId::from_str(segments[3].as_str()),
                        EntryId::from_str(segments[5].as_str()),
                    ) {
                        (Some(id), Some(entry_id)) => Some(
                            Route::DeleteKombuchaEntry(id, entry_id),
                        ),
                        _ => None,
                    }
                } else {
                    None
                }
            } else {
                None
            }
        },
    }
}

} // verus!
