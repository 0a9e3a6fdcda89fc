use kombucha_tracker::{EntryId, FermentationId, FermentationStatus, KombuchaId};

#[test]
fn kombucha_id_renders_decimal() {
    assert_eq!(KombuchaId::from(42).to_decimal(), "42");
    assert_eq!(KombuchaId::from(0).to_decimal(), "0");
    assert_eq!(KombuchaId::from(-7).to_decimal(), "-7");
}

#[test]
fn kombucha_id_parses_decimal() {
    assert_eq!(KombuchaId::from_str("42"), Some(KombuchaId::from(42)));
    assert_eq!(KombuchaId::from_str("0"), Some(KombuchaId::from(0)));
    assert_eq!(KombuchaId::from_str("-7"), Some(KombuchaId::from(-7)));
    assert_eq!(KombuchaId::from_str("+5"), Some(KombuchaId::from(5)));
    assert_eq!(KombuchaId::from_str("007"), Some(KombuchaId::from(7)));
}

#[test]
fn kombucha_id_round_trips_extremes() {
    for n in [i32::MIN, i32::MIN + 1, -1, 0, 1, i32::MAX - 1, i32::MAX] {
        let id = KombuchaId::from(n);
        assert_eq!(KombuchaId::from_str(id.to_decimal().as_str()), Some(id));
    }
    assert_eq!(KombuchaId::from(i32::MIN).to_decimal(), "-2147483648");
    assert_eq!(KombuchaId::from(i32::MAX).to_decimal(), "2147483647");
}

#[test]
fn kombucha_id_rejects_bad_text() {
    assert_eq!(KombuchaId::from_str(""), None);
    assert_eq!(KombuchaId::from_str("-"), None);
    assert_eq!(KombuchaId::from_str("+"), None);
    assert_eq!(KombuchaId::from_str("abc"), None);
    assert_eq!(KombuchaId::from_str("12a"), None);
    assert_eq!(KombuchaId::from_str("1 2"), None);
    assert_eq!(KombuchaId::from_str("2147483648"), None);
    assert_eq!(KombuchaId::from_str("-2147483649"), None);
    assert_eq!(KombuchaId::from_str("99999999999999999999"), None);
}

#[test]
fn entry_and_fermentation_ids_convert_losslessly() {
    let e = EntryId::from(9);
    let back: i32 = e.into();
    assert_eq!(back, 9);
    assert_eq!(EntryId::from_str("-3"), Some(EntryId::from(-3)));
    assert_eq!(e.to_decimal(), "9");

    let f = FermentationId::from(123456);
    let back: i32 = f.into();
    assert_eq!(back, 123456);
    assert_eq!(FermentationId::from_str("123456"), Some(f));
    assert_eq!(f.to_decimal(), "123456");
}

#[test]
fn id_types_round_trip_through_i32() {
    let k: i32 = KombuchaId::from(-2).into();
    assert_eq!(k, -2);
}

#[test]
fn fermentation_status_parses_exact_spellings() {
    assert_eq!(
        FermentationStatus::from_str("Primary"),
        Some(FermentationStatus::Primary)
    );
    assert_eq!(
        FermentationStatus::from_str("Secondary"),
        Some(FermentationStatus::Secondary)
    );
    assert_eq!(FermentationStatus::from_str("primary"), None);
    assert_eq!(FermentationStatus::from_str("SECONDARY"), None);
    assert_eq!(FermentationStatus::from_str(""), None);
    assert_eq!(FermentationStatus::from_str("Primary "), None);
}

#[test]
fn fermentation_status_round_trips() {
    for s in [FermentationStatus::Primary, FermentationStatus::Secondary] {
        assert_eq!(FermentationStatus::from_str(s.as_str()), Some(s));
    }
    assert_eq!(FermentationStatus::Primary.as_str(), "Primary");
    assert_eq!(FermentationStatus::Secondary.as_str(), "Secondary");
}
