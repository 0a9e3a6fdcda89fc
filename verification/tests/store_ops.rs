use kombucha_tracker::{App, Entry, EntryId, Kombucha, KombuchaId, StoreError};

#[test]
fn create_then_get_yields_fresh_record() {
    let mut app = App::new();
    let id = app.create_new_kombucha(1111).unwrap();
    assert_eq!(id, KombuchaId::from(1));
    let k = app.get_kombucha(id).expect("the created kombucha must be there");
    assert_eq!(
        k,
        Kombucha {
            id,
            name: String::new(),
            added: 1111,
            entries: vec![],
            fermentations: vec![],
        }
    );
}

#[test]
fn create_entry_then_list_includes_it_empty() {
    let mut app = App::new();
    let k = app.create_new_kombucha(10).unwrap();
    let e = app.create_new_kombucha_entry(k, 20).unwrap();
    assert_eq!(e, EntryId::from(1));
    let entries = app.get_kombucha_entries(k);
    assert_eq!(
        entries,
        vec![Entry {
            id: e,
            added: 20,
            content: String::new(),
        }]
    );
}

#[test]
fn create_entry_under_missing_kombucha_fails() {
    let mut app = App::new();
    let r = app.create_new_kombucha_entry(KombuchaId::from(1), 20);
    assert_eq!(r, Err(StoreError::NoSuchKombucha));
    assert!(app.get_all_kombuchas().is_empty());
}

#[test]
fn entry_reachable_only_through_its_owner() {
    let mut app = App::new();
    let k1 = app.create_new_kombucha(1).unwrap();
    let k2 = app.create_new_kombucha(2).unwrap();
    let e = app.create_new_kombucha_entry(k1, 3).unwrap();
    assert!(app.get_kombucha_entry(k1, e).is_some());
    assert_eq!(app.get_kombucha_entry(k2, e), None);
    assert_eq!(app.get_kombucha_entry(KombuchaId::from(99), e), None);
}

#[test]
fn delete_kombucha_removes_it_and_its_entries() {
    let mut app = App::new();
    let k1 = app.create_new_kombucha(1).unwrap();
    let k2 = app.create_new_kombucha(2).unwrap();
    let e1 = app.create_new_kombucha_entry(k1, 3).unwrap();
    let e2 = app.create_new_kombucha_entry(k2, 4).unwrap();
    app.delete_kombucha(k1).unwrap();
    assert_eq!(app.get_kombucha(k1), None);
    assert_eq!(app.get_kombucha_entry(k1, e1), None);
    assert!(app.get_kombucha_entries(k1).is_empty());
    // the other kombucha and its entry survive
    assert!(app.get_kombucha(k2).is_some());
    assert!(app.get_kombucha_entry(k2, e2).is_some());
}

#[test]
fn update_reflects_name_and_entry_content() {
    let mut app = App::new();
    let k = app.create_new_kombucha(100).unwrap();
    let e = app.create_new_kombucha_entry(k, 101).unwrap();
    let submitted = Kombucha {
        id: k,
        name: String::from("Jun's Brew"),
        added: 100,
        entries: vec![Entry {
            id: e,
            added: 101,
            content: String::from("Day 1"),
        }],
        fermentations: vec![],
    };
    app.update_kombucha(&submitted).unwrap();
    let got = app.get_kombucha(k).unwrap();
    assert_eq!(got.name, "Jun's Brew");
    assert_eq!(got.entries.len(), 1);
    assert_eq!(got.entries[0].content, "Day 1");
    assert_eq!(app.get_kombucha_entry(k, e).unwrap().content, "Day 1");
}

#[test]
fn update_with_unknown_entry_id_inserts_nothing() {
    let mut app = App::new();
    let k = app.create_new_kombucha(100).unwrap();
    let e = app.create_new_kombucha_entry(k, 101).unwrap();
    let before = app.get_kombucha_entries(k);
    let submitted = Kombucha {
        id: k,
        name: String::new(),
        added: 100,
        entries: vec![Entry {
            id: EntryId::from(999),
            added: 555,
            content: String::from("never stored"),
        }],
        fermentations: vec![],
    };
    app.update_kombucha(&submitted).unwrap();
    // the unknown entry was dropped: storage is unchanged for it
    assert_eq!(app.get_kombucha_entries(k), before);
    assert_eq!(app.get_kombucha_entry(k, EntryId::from(999)), None);
}

#[test]
fn update_of_missing_kombucha_is_a_no_op_success() {
    let mut app = App::new();
    let k = app.create_new_kombucha(100).unwrap();
    let ghosted = Kombucha {
        id: KombuchaId::from(42),
        name: String::from("nobody"),
        added: 7,
        entries: vec![],
        fermentations: vec![],
    };
    app.update_kombucha(&ghosted).unwrap();
    assert_eq!(app.get_kombucha(KombuchaId::from(42)), None);
    assert!(app.get_kombucha(k).is_some());
}

#[test]
fn listing_is_ordered_by_ascending_id() {
    let mut app = App::new();
    let k1 = app.create_new_kombucha(5).unwrap();
    let k2 = app.create_new_kombucha(4).unwrap();
    let _k3 = app.create_new_kombucha(3).unwrap();
    // deleting and re-creating does not disturb the order: ids keep rising
    app.delete_kombucha(k2).unwrap();
    let k4 = app.create_new_kombucha(2).unwrap();
    let all = app.get_all_kombuchas();
    let ids: Vec<i32> = all.iter().map(|k| k.id.into()).collect();
    assert_eq!(ids, vec![1, 3, 4]);
    assert_eq!(k1, KombuchaId::from(1));
    assert_eq!(k4, KombuchaId::from(4));
}

#[test]
fn deleting_absent_ids_succeeds_and_changes_nothing() {
    let mut app = App::new();
    let k = app.create_new_kombucha(1).unwrap();
    let e = app.create_new_kombucha_entry(k, 2).unwrap();
    // absent kombucha id
    assert_eq!(app.delete_kombucha(KombuchaId::from(77)), Ok(()));
    // absent entry pairs: wrong entry id, and wrong kombucha id
    assert_eq!(app.delete_kombucha_entry(k, EntryId::from(77)), Ok(()));
    assert_eq!(app.delete_kombucha_entry(KombuchaId::from(77), e), Ok(()));
    assert!(app.get_kombucha(k).is_some());
    assert!(app.get_kombucha_entry(k, e).is_some());
    assert_eq!(app.get_all_kombuchas().len(), 1);
}

#[test]
fn delete_entry_removes_only_the_matching_pair() {
    let mut app = App::new();
    let k = app.create_new_kombucha(1).unwrap();
    let e1 = app.create_new_kombucha_entry(k, 2).unwrap();
    let e2 = app.create_new_kombucha_entry(k, 3).unwrap();
    app.delete_kombucha_entry(k, e1).unwrap();
    assert_eq!(app.get_kombucha_entry(k, e1), None);
    assert!(app.get_kombucha_entry(k, e2).is_some());
    assert_eq!(app.get_kombucha_entries(k).len(), 1);
}

#[test]
fn update_matches_entries_by_their_own_id_alone() {
    // The per-entry update statement matches on the entry id only, so a
    // submitted entry rewrites the row wherever it lives — even under a
    // different kombucha than the one named by the submitted record.
    let mut app = App::new();
    let k1 = app.create_new_kombucha(1).unwrap();
    let k2 = app.create_new_kombucha(2).unwrap();
    let e1 = app.create_new_kombucha_entry(k1, 3).unwrap();
    let submitted = Kombucha {
        id: k2,
        name: String::from("other"),
        added: 2,
        entries: vec![Entry {
            id: e1,
            added: 3,
            content: String::from("crossed over"),
        }],
        fermentations: vec![],
    };
    app.update_kombucha(&submitted).unwrap();
    let e = app.get_kombucha_entry(k1, e1).unwrap();
    assert_eq!(e.content, "crossed over");
}

#[test]
fn later_duplicate_submitted_entries_win() {
    let mut app = App::new();
    let k = app.create_new_kombucha(1).unwrap();
    let e = app.create_new_kombucha_entry(k, 2).unwrap();
    let submitted = Kombucha {
        id: k,
        name: String::new(),
        added: 1,
        entries: vec![
            Entry {
                id: e,
                added: 2,
                content: String::from("first"),
            },
            Entry {
                id: e,
                added: 2,
                content: String::from("second"),
            },
        ],
        fermentations: vec![],
    };
    app.update_kombucha(&submitted).unwrap();
    assert_eq!(app.get_kombucha_entry(k, e).unwrap().content, "second");
}

#[test]
fn entries_keep_database_order() {
    let mut app = App::new();
    let k = app.create_new_kombucha(1).unwrap();
    let e1 = app.create_new_kombucha_entry(k, 10).unwrap();
    let e2 = app.create_new_kombucha_entry(k, 11).unwrap();
    let e3 = app.create_new_kombucha_entry(k, 12).unwrap();
    let ids: Vec<EntryId> = app.get_kombucha_entries(k).iter().map(|e| e.id).collect();
    assert_eq!(ids, vec![e1, e2, e3]);
}
