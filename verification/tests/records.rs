use kombucha_tracker::{db, Entry, EntryId, Fermentation, FermentationId, FermentationStatus,
    Kombucha, KombuchaId};

#[test]
fn entry_new_fills_every_field() {
    let e = Entry::new(EntryId::from(4), 77, String::from("note"));
    assert_eq!(
        e,
        Entry {
            id: EntryId::from(4),
            added: 77,
            content: String::from("note"),
        }
    );
}

#[test]
fn entry_default_is_the_zero_entry() {
    let e = Entry::default();
    assert_eq!(e.id, EntryId::from(0));
    assert_eq!(e.added, 0);
    assert_eq!(e.content, "");
}

#[test]
fn entry_from_row_drops_the_back_reference() {
    let row = db::Entry {
        id: EntryId::from(9),
        kombucha_id: KombuchaId::from(3),
        content: String::from("kept"),
        added: 55,
    };
    let e = Entry::from(row);
    assert_eq!(
        e,
        Entry {
            id: EntryId::from(9),
            added: 55,
            content: String::from("kept"),
        }
    );
}

#[test]
fn new_without_id_uses_the_placeholder_id() {
    let k = Kombucha::new_without_id(String::from("brew"), 12, vec![], vec![]);
    assert_eq!(k.id, KombuchaId::from(0));
    assert_eq!(k.name, "brew");
    assert_eq!(k.added, 12);
    assert!(k.entries.is_empty());
    assert!(k.fermentations.is_empty());
}

#[test]
fn fermentation_record_holds_its_fields() {
    let f = Fermentation {
        id: FermentationId::from(1),
        start_date: 100,
        end_date: None,
        est_end_date: Some(200),
        status: FermentationStatus::Primary,
    };
    assert_eq!(f.status, FermentationStatus::Primary);
    assert_eq!(f.est_end_date, Some(200));
    assert_eq!(f.end_date, None);
}
