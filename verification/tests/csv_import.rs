use server::{
    check_csv, convert_to_item_data, csv_checker, find_conversion_failure, find_csv_failure,
    initial_labels, tree_relations, Color, CsvCheckError, CsvItemRecord, InsertData, Record,
};

fn row(vid: &str, parent: &str, record: &str, color: &str) -> CsvItemRecord {
    CsvItemRecord {
        visible_id: vid.to_string(),
        parent_visible_id: parent.to_string(),
        name: format!("item {}", vid),
        product_number: None,
        record: record.to_string(),
        color: color.to_string(),
        description: None,
        year_purchased: None,
        connector_1: None,
        connector_2: None,
        connector_3: None,
        connector_4: None,
        connector_5: None,
        connector_6: None,
    }
}

fn full_row() -> CsvItemRecord {
    CsvItemRecord {
        visible_id: "AB12".to_string(),
        parent_visible_id: "AB12".to_string(),
        name: "oscilloscope".to_string(),
        product_number: Some("TDS-2002".to_string()),
        record: "barcode".to_string(),
        color: "skyblue".to_string(),
        description: Some("lab 3".to_string()),
        year_purchased: Some(2019),
        connector_1: Some("USB".to_string()),
        connector_2: None,
        connector_3: Some("BNC".to_string()),
        connector_4: None,
        connector_5: None,
        connector_6: Some("".to_string()),
    }
}

/// Checks a file as the checker tool does: it is refused first if a row fails.
fn checked(data: &Vec<CsvItemRecord>) -> Vec<InsertData> {
    assert!(find_csv_failure(data).is_none());
    check_csv(data)
}

/// Converts a file as the import does: it is refused first if a row cannot be converted.
fn imported(data: &Vec<CsvItemRecord>) -> Vec<InsertData> {
    assert!(find_conversion_failure(data).is_none());
    convert_to_item_data(data)
}

#[test]
fn check_accepts_and_converts_rows() {
    let data = vec![full_row(), row("ZZ99", "AB12", "qr", "red")];
    let out = checked(&data);
    assert_eq!(out.len(), 2);
    let a = &out[0];
    assert_eq!(a.visible_id, "AB12");
    assert_eq!(a.parent_visible_id, "AB12");
    assert_eq!(a.name, "oscilloscope");
    assert_eq!(a.product_number, "TDS-2002");
    assert_eq!(a.photo_url, "");
    assert_eq!(a.record, Record::Barcode);
    assert_eq!(a.color, Color::SkyBlue);
    assert_eq!(a.description, "lab 3");
    assert_eq!(a.year_purchased, Some(2019));
    assert_eq!(a.connector, vec!["USB", "", "BNC", "", "", ""]);
    let b = &out[1];
    assert_eq!(b.product_number, "");
    assert_eq!(b.description, "");
    assert_eq!(b.record, Record::Qr);
    assert_eq!(b.color, Color::Red);
    assert_eq!(b.connector, vec!["", "", "", "", "", ""]);
}

#[test]
fn check_accepts_empty_file() {
    assert_eq!(checked(&vec![]).len(), 0);
}

#[test]
fn csv_checker_checks_like_check_csv() {
    let data = vec![row("AAAA", "AAAA", "nothing", "pink")];
    assert!(find_csv_failure(&data).is_none());
    let out = csv_checker(&data);
    assert_eq!(out[0].record, Record::Nothing);
    assert_eq!(out[0].color, Color::Pink);
    let bad = vec![row("aaaa", "AAAA", "nothing", "pink")];
    assert!(matches!(find_csv_failure(&bad), Some(CsvCheckError::InvalidVisibleId { visible_id, row: 0 }) if visible_id == "aaaa"));
}

#[test]
fn check_reports_first_duplicate() {
    let data = vec![
        row("AAAA", "AAAA", "qr", "red"),
        row("BBBB", "AAAA", "qr", "red"),
        row("AAAA", "AAAA", "qr", "red"),
        row("BBBB", "AAAA", "qr", "red"),
    ];
    match find_csv_failure(&data) {
        Some(CsvCheckError::DuplicateVisibleId { visible_id, first_row, second_row }) => {
            assert_eq!(visible_id, "AAAA");
            assert_eq!(first_row, 0);
            assert_eq!(second_row, 2);
        }
        other => panic!("unexpected {:?}", other),
    }
}

#[test]
fn check_refuses_badly_shaped_visible_ids() {
    for bad in ["ab12", "abcd", "ABC", "ABCDE", "AB-1", "", "ÀBCD", "AB1 "] {
        let data = vec![row(bad, "AAAA", "qr", "red")];
        assert!(
            matches!(find_csv_failure(&data), Some(CsvCheckError::InvalidVisibleId { ref visible_id, row: 0 }) if visible_id == bad),
            "{}",
            bad
        );
    }
}

#[test]
fn check_refuses_unknown_record_and_colour() {
    let data = vec![row("AAAA", "AAAA", "Qr", "red")];
    assert!(matches!(find_csv_failure(&data), Some(CsvCheckError::InvalidRecord { record, row: 0 }) if record == "Qr"));
    let data = vec![row("AAAA", "AAAA", "qr", "black")];
    assert!(matches!(find_csv_failure(&data), Some(CsvCheckError::InvalidColor { color, row: 0 }) if color == "black"));
    // The record is checked before the colour, and the visible id before both.
    let data = vec![row("AAAA", "AAAA", "x", "black")];
    assert!(matches!(find_csv_failure(&data), Some(CsvCheckError::InvalidRecord { .. })));
    let data = vec![row("aaaa", "AAAA", "x", "black")];
    assert!(matches!(find_csv_failure(&data), Some(CsvCheckError::InvalidVisibleId { .. })));
}

#[test]
fn check_stops_at_first_failing_row() {
    let data = vec![
        row("AAAA", "AAAA", "qr", "red"),
        row("BBBB", "AAAA", "qr", "teal"),
        row("cccc", "AAAA", "qr", "red"),
    ];
    assert!(matches!(find_csv_failure(&data), Some(CsvCheckError::InvalidColor { color, row: 1 }) if color == "teal"));
}

#[test]
fn every_colour_name_is_read() {
    let names = [
        ("red", Color::Red),
        ("orange", Color::Orange),
        ("brown", Color::Brown),
        ("skyblue", Color::SkyBlue),
        ("blue", Color::Blue),
        ("green", Color::Green),
        ("yellow", Color::Yellow),
        ("purple", Color::Purple),
        ("pink", Color::Pink),
    ];
    for (name, color) in names {
        let out = checked(&vec![row("AAAA", "AAAA", "qr", name)]);
        assert_eq!(out[0].color, color);
    }
}

#[test]
fn import_keeps_only_nonempty_connectors() {
    let data = vec![full_row(), row("ZZ99", "AB12", "nothing", "green")];
    let out = imported(&data);
    assert_eq!(out[0].connector, vec!["USB", "BNC"]);
    assert!(out[1].connector.is_empty());
    assert_eq!(out[0].record, Record::Barcode);
    assert_eq!(out[1].color, Color::Green);
}

#[test]
fn import_agrees_with_check_on_accepted_file() {
    let data = vec![full_row(), row("ZZ99", "AB12", "qr", "yellow")];
    let checked = checked(&data);
    let imported = imported(&data);
    for (c, i) in checked.iter().zip(imported.iter()) {
        assert_eq!(c.visible_id, i.visible_id);
        assert_eq!(c.name, i.name);
        assert_eq!(c.record, i.record);
        assert_eq!(c.color, i.color);
        let kept: Vec<String> = c.connector.iter().filter(|s| !s.is_empty()).cloned().collect();
        assert_eq!(kept, i.connector);
    }
}

#[test]
fn import_does_not_check_visible_ids() {
    let data = vec![row("x", "x", "qr", "red"), row("x", "x", "qr", "red")];
    assert_eq!(imported(&data).len(), 2);
}

#[test]
fn import_refuses_unknown_record_and_colour() {
    let data = vec![row("A", "A", "qr", "red"), row("B", "A", "paper", "mauve")];
    assert!(matches!(find_conversion_failure(&data), Some(CsvCheckError::InvalidRecord { record, row: 1 }) if record == "paper"));
    let data = vec![row("B", "A", "barcode", "mauve")];
    assert!(matches!(find_conversion_failure(&data), Some(CsvCheckError::InvalidColor { color, row: 0 }) if color == "mauve"));
}

#[test]
fn import_relations_hang_top_level_items_under_root() {
    let data = imported(&vec![
        row("AAAA", "AAAA", "qr", "red"),
        row("BBBB", "AAAA", "qr", "red"),
    ]);
    let relations = tree_relations(&data);
    assert_eq!(
        relations,
        vec![
            ("ROOT".to_string(), "ROOT".to_string()),
            ("AAAA".to_string(), "ROOT".to_string()),
            ("BBBB".to_string(), "AAAA".to_string()),
        ]
    );
}

#[test]
fn import_labels_start_with_purple_root() {
    let data = imported(&vec![
        row("AAAA", "AAAA", "qr", "red"),
        row("BBBB", "AAAA", "qr", "blue"),
    ]);
    let labels = initial_labels(&data);
    assert_eq!(labels.len(), 3);
    assert_eq!(labels[0].visible_id, "ROOT");
    assert_eq!(labels[0].color, Color::Purple);
    assert_eq!(labels[1].visible_id, "AAAA");
    assert_eq!(labels[1].color, Color::Red);
    assert_eq!(labels[2].visible_id, "BBBB");
    assert_eq!(labels[2].color, Color::Blue);
}
