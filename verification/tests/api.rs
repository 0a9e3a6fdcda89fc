use kombucha_tracker::handlers::dispatch;
use kombucha_tracker::routes::route;
use kombucha_tracker::{App, Entry, EntryId, Kombucha, KombuchaId, Method, Response, Route};

fn segs(parts: &[&str]) -> Vec<String> {
    parts.iter().map(|p| p.to_string()).collect()
}

#[test]
fn routes_match_the_api_tree() {
    assert_eq!(
        route(Method::Get, &segs(&["api", "1", "kombucha"])),
        Some(Route::GetAllKombuchas)
    );
    assert_eq!(
        route(Method::Get, &segs(&["api", "1", "kombucha", "7"])),
        Some(Route::GetKombucha(KombuchaId::from(7)))
    );
    assert_eq!(
        route(Method::Get, &segs(&["api", "1", "kombucha", "7", "entry"])),
        Some(Route::GetKombuchaEntries(KombuchaId::from(7)))
    );
    assert_eq!(
        route(Method::Get, &segs(&["api", "1", "kombucha", "7", "entry", "9"])),
        Some(Route::GetKombuchaEntry(
            KombuchaId::from(7),
            EntryId::from(9)
        ))
    );
    assert_eq!(
        route(Method::Post, &segs(&["api", "1", "kombucha"])),
        Some(Route::CreateKombucha)
    );
    assert_eq!(
        route(Method::Post, &segs(&["api", "1", "kombucha", "7", "entry"])),
        Some(Route::CreateKombuchaEntry(KombuchaId::from(7)))
    );
    assert_eq!(
        route(Method::Put, &segs(&["api", "1", "kombucha"])),
        Some(Route::UpdateKombucha)
    );
    assert_eq!(
        route(Method::Delete, &segs(&["api", "1", "kombucha", "7"])),
        Some(Route::DeleteKombucha(KombuchaId::from(7)))
    );
    assert_eq!(
        route(
            Method::Delete,
            &segs(&["api", "1", "kombucha", "7", "entry", "9"])
        ),
        Some(Route::DeleteKombuchaEntry(
            KombuchaId::from(7),
            EntryId::from(9)
        ))
    );
}

#[test]
fn routes_reject_foreign_paths() {
    assert_eq!(route(Method::Get, &segs(&[])), None);
    assert_eq!(route(Method::Get, &segs(&["api", "1"])), None);
    assert_eq!(route(Method::Get, &segs(&["api", "2", "kombucha"])), None);
    assert_eq!(route(Method::Get, &segs(&["app", "1", "kombucha"])), None);
    assert_eq!(route(Method::Get, &segs(&["index.html"])), None);
    assert_eq!(
        route(Method::Get, &segs(&["api", "1", "kombucha", "x"])),
        None
    );
    assert_eq!(
        route(Method::Get, &segs(&["api", "1", "kombucha", "7", "entries"])),
        None
    );
    assert_eq!(
        route(Method::Get, &segs(&["api", "1", "kombucha", "7", "entry", "x"])),
        None
    );
    assert_eq!(route(Method::Delete, &segs(&["api", "1", "kombucha"])), None);
    assert_eq!(
        route(Method::Put, &segs(&["api", "1", "kombucha", "7"])),
        None
    );
    assert_eq!(
        route(Method::Post, &segs(&["api", "1", "kombucha", "7"])),
        None
    );
}

#[test]
fn full_scenario_through_route_and_dispatch() {
    let mut app = App::new();

    // POST /api/1/kombucha -> id 1
    let r = route(Method::Post, &segs(&["api", "1", "kombucha"])).unwrap();
    match dispatch(&mut app, r, None, 100) {
        Response::KombuchaCreated(id) => assert_eq!(id, KombuchaId::from(1)),
        other => panic!("expected a created id, got {:?}", other),
    }

    // POST /api/1/kombucha/1/entry -> id 1
    let r = route(Method::Post, &segs(&["api", "1", "kombucha", "1", "entry"])).unwrap();
    match dispatch(&mut app, r, None, 101) {
        Response::EntryCreated(id) => assert_eq!(id, EntryId::from(1)),
        other => panic!("expected a created id, got {:?}", other),
    }

    // GET /api/1/kombucha/1 -> the fresh record with its one empty entry
    let r = route(Method::Get, &segs(&["api", "1", "kombucha", "1"])).unwrap();
    match dispatch(&mut app, r, None, 102) {
        Response::Kombucha(k) => assert_eq!(
            k,
            Kombucha {
                id: KombuchaId::from(1),
                name: String::new(),
                added: 100,
                entries: vec![Entry {
                    id: EntryId::from(1),
                    added: 101,
                    content: String::new(),
                }],
                fermentations: vec![],
            }
        ),
        other => panic!("expected the kombucha, got {:?}", other),
    }

    // PUT /api/1/kombucha with the edited record -> empty success
    let body = Kombucha {
        id: KombuchaId::from(1),
        name: String::from("Jun's Brew"),
        added: 100,
        entries: vec![Entry {
            id: EntryId::from(1),
            added: 101,
            content: String::from("Day 1"),
        }],
        fermentations: vec![],
    };
    let r = route(Method::Put, &segs(&["api", "1", "kombucha"])).unwrap();
    match dispatch(&mut app, r, Some(&body), 103) {
        Response::Empty => {}
        other => panic!("expected an empty success, got {:?}", other),
    }

    // GET /api/1/kombucha/1 reflects both updates
    let r = route(Method::Get, &segs(&["api", "1", "kombucha", "1"])).unwrap();
    match dispatch(&mut app, r, None, 104) {
        Response::Kombucha(k) => assert_eq!(k, body),
        other => panic!("expected the kombucha, got {:?}", other),
    }
}

#[test]
fn missing_ids_answer_not_found() {
    let mut app = App::new();
    let r = route(Method::Get, &segs(&["api", "1", "kombucha", "5"])).unwrap();
    assert!(matches!(dispatch(&mut app, r, None, 0), Response::NotFound));
    let r = route(Method::Get, &segs(&["api", "1", "kombucha", "5", "entry", "1"])).unwrap();
    assert!(matches!(dispatch(&mut app, r, None, 0), Response::NotFound));
    let r = route(Method::Post, &segs(&["api", "1", "kombucha", "5", "entry"])).unwrap();
    assert!(matches!(dispatch(&mut app, r, None, 0), Response::NotFound));
}

#[test]
fn deletes_through_the_api_are_idempotent_successes() {
    let mut app = App::new();
    let r = route(Method::Delete, &segs(&["api", "1", "kombucha", "5"])).unwrap();
    assert!(matches!(dispatch(&mut app, r, None, 0), Response::Empty));
    let r = route(
        Method::Delete,
        &segs(&["api", "1", "kombucha", "5", "entry", "6"]),
    )
    .unwrap();
    assert!(matches!(dispatch(&mut app, r, None, 0), Response::Empty));
}

#[test]
fn listing_through_the_api_is_sorted() {
    let mut app = App::new();
    for now in [10, 11, 12] {
        app.create_new_kombucha(now).unwrap();
    }
    app.delete_kombucha(KombuchaId::from(2)).unwrap();
    app.create_new_kombucha(13).unwrap();
    let r = route(Method::Get, &segs(&["api", "1", "kombucha"])).unwrap();
    match dispatch(&mut app, r, None, 0) {
        Response::Kombuchas(ks) => {
            let ids: Vec<i32> = ks.iter().map(|k| k.id.into()).collect();
            assert_eq!(ids, vec![1, 3, 4]);
        }
        other => panic!("expected the listing, got {:?}", other),
    }
}
