use server::status::{internal_error_status_text, ok_status_text};
use server::text::{copy_texts, decimal_string, text_eq};
use server::urls::{item_photo_url, placeholder_item_photo_url};
use server::{
    search_keywords, AppError, Color, ControlItemData, CsvItemData, DeleteItemData, ErrorKind,
    HelthCheckResponse, ItemData, ItemRecord, MeiliSearchItemData, PathItem, Record,
};

#[test]
fn decimal_texts() {
    assert_eq!(decimal_string(0), "0");
    assert_eq!(decimal_string(7), "7");
    assert_eq!(decimal_string(10), "10");
    assert_eq!(decimal_string(-120), "-120");
    assert_eq!(decimal_string(i64::MAX), i64::MAX.to_string());
    assert_eq!(decimal_string(i64::MIN), i64::MIN.to_string());
}

#[test]
fn text_equality_and_copies() {
    assert!(text_eq("abc", "abc"));
    assert!(!text_eq("abc", "abd"));
    assert!(!text_eq("abc", "ab"));
    let v = vec!["x".to_string(), "".to_string()];
    assert_eq!(copy_texts(&v), v);
}

#[test]
fn item_photo_urls() {
    assert_eq!(item_photo_url("https://r2.example", 42), "https://r2.example/42.webp");
    assert_eq!(item_photo_url("", 0), "/0.webp");
    assert_ne!(item_photo_url("u", 1), item_photo_url("u", 11));
    let p = placeholder_item_photo_url("https://r2");
    assert!(p.starts_with("https://r2/"));
    assert!(p.ends_with(".webp"));
    assert_eq!(p.len(), "https://r2/".len() + 36 + ".webp".len());
}

#[test]
fn status_lines() {
    assert_eq!(ok_status_text(), "200 OK");
    assert_eq!(internal_error_status_text(), "500 Internal Server Error");
}

#[test]
fn error_body() {
    let e = AppError(ErrorKind::CannotChangeRelationToDescendants);
    assert_eq!(e.response_status(), "500 Internal Server Error");
    assert_eq!(
        e.response_message(),
        "Internal Server Error: Cannot change relation to descendants"
    );
    assert_eq!(ErrorKind::RowNotFound.message(), "Row not found.");
    assert_eq!(ErrorKind::RootItemNotFound.message(), "Root item was not found.");
    assert_eq!(ErrorKind::RootItemCannotBeChanged.message(), "Root item cannot be changed.");
}

#[test]
fn answers_with_fixed_texts() {
    let h = HelthCheckResponse::running();
    assert_eq!(h.status_code, "200 OK");
    assert_eq!(h.message, "DashiShoyu server is running.");
    let d = DeleteItemData::generate();
    assert_eq!(d.status_code, "200 OK");
    assert_eq!(d.message, "Item delete was successfull.");
}

#[test]
fn keywords_default_to_empty() {
    assert_eq!(search_keywords(Some("scope".to_string())), "scope");
    assert_eq!(search_keywords(None), "");
}

fn sample_item() -> ItemRecord {
    ItemRecord {
        id: 12,
        visible_id: "AB12".to_string(),
        name: "oscilloscope".to_string(),
        product_number: "TDS".to_string(),
        photo_url: "u/12.webp".to_string(),
        record: Record::Qr,
        description: "lab".to_string(),
        year_purchased: Some(2020),
        connector: vec!["USB".to_string()],
        created_at: "c".to_string(),
        updated_at: "u".to_string(),
    }
}

#[test]
fn item_answer_of_top_item() {
    let item = sample_item();
    let data = ItemData::assemble(&item, Color::Green, vec![12], &vec![]);
    assert_eq!(data.parent_visible_id, "AB12");
    assert_eq!(data.visible_id_path, vec!["AB12"]);
    assert_eq!(data.item_name_path, vec!["oscilloscope"]);
    assert_eq!(data.path, vec![12]);
    assert_eq!(data.color, Color::Green);
    assert_eq!(data.connector, vec!["USB"]);
}

#[test]
fn item_answer_with_path() {
    let item = sample_item();
    let path_items = vec![
        PathItem { visible_id: "AB12".to_string(), name: "oscilloscope".to_string() },
        PathItem { visible_id: "SHLF".to_string(), name: "shelf".to_string() },
        PathItem { visible_id: "ROOT".to_string(), name: "university".to_string() },
    ];
    let data = ItemData::assemble(&item, Color::Red, vec![12, 4, 1], &path_items);
    assert_eq!(data.id, 12);
    assert_eq!(data.parent_visible_id, "SHLF");
    assert_eq!(data.visible_id_path, vec!["AB12", "SHLF", "ROOT"]);
    assert_eq!(data.item_name_path, vec!["oscilloscope", "shelf", "university"]);
    assert_eq!(data.path, vec![12, 4, 1]);
    assert_eq!(data.record, Record::Qr);
    assert_eq!(data.year_purchased, Some(2020));
}

#[test]
fn search_document_and_export_line() {
    let item = sample_item();
    let doc = MeiliSearchItemData::from_record(&item, Color::Yellow);
    assert_eq!(doc.id, 12);
    assert_eq!(doc.visible_id, "AB12");
    assert_eq!(doc.color, Color::Yellow);
    assert_eq!(doc.photo_url, "u/12.webp");
    assert_eq!(doc.created_at, "c");
    let line = CsvItemData::from_record(&item, &"shelf".to_string());
    assert_eq!(line.product_number, "TDS");
    assert_eq!(line.name, "oscilloscope");
    assert_eq!(line.place, "shelf");
    assert_eq!(line.note, "lab");
}

#[test]
fn item_update_replaces_request_fields() {
    let item = sample_item();
    let req = ControlItemData {
        visible_id: "CD34".to_string(),
        parent_visible_id: "ROOT".to_string(),
        name: "scope".to_string(),
        product_number: "X".to_string(),
        record: Record::Barcode,
        description: "moved".to_string(),
        year_purchased: None,
        connector: vec![],
    };
    let r = item.updated_with(&req, "now".to_string());
    assert_eq!(r.id, 12);
    assert_eq!(r.visible_id, "CD34");
    assert_eq!(r.name, "scope");
    assert_eq!(r.product_number, "X");
    assert_eq!(r.record, Record::Barcode);
    assert_eq!(r.description, "moved");
    assert_eq!(r.year_purchased, None);
    assert!(r.connector.is_empty());
    assert_eq!(r.photo_url, "u/12.webp");
    assert_eq!(r.created_at, "c");
    assert_eq!(r.updated_at, "now");
}
