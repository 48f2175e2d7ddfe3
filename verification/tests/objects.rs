use server::urls::{object_photo_url, placeholder_object_photo_url};
use server::{
    AppError, DeleteObjectData, ErrorKind, MeiliSearchObjectData, MimeType, ObjectData,
    ObjectRecord, UpdateObjectData,
};

fn to_ext(m: &str) -> Result<String, AppError> {
    MimeType::to_extension(m.to_string())
}

#[test]
fn to_extension_maps_each_supported_type() {
    assert_eq!(to_ext("image/jpeg").unwrap(), "jpg");
    assert_eq!(to_ext("image/png").unwrap(), "png");
    assert_eq!(to_ext("image/svg+xml").unwrap(), "svg");
    assert_eq!(to_ext("image/gif").unwrap(), "gif");
    assert_eq!(to_ext("image/bmp").unwrap(), "bmp");
    assert_eq!(to_ext("image/webp").unwrap(), "webp");
    assert_eq!(to_ext("application/postscript").unwrap(), "ai");
}

#[test]
fn to_extension_refuses_other_types() {
    assert_eq!(to_ext("image/tiff"), Err(AppError(ErrorKind::UnsupportedMimeType)));
    assert_eq!(to_ext("IMAGE/PNG"), Err(AppError(ErrorKind::UnsupportedMimeType)));
    assert_eq!(to_ext(""), Err(AppError(ErrorKind::UnsupportedMimeType)));
    assert_eq!(
        AppError(ErrorKind::UnsupportedMimeType).0.message(),
        "Unsupported mime type."
    );
}

#[test]
fn extensions_are_distinct() {
    let types = [
        "image/jpeg",
        "image/png",
        "image/svg+xml",
        "image/gif",
        "image/bmp",
        "image/webp",
        "application/postscript",
    ];
    let exts: Vec<String> = types.iter().map(|t| to_ext(t).unwrap()).collect();
    for i in 0..exts.len() {
        for j in 0..exts.len() {
            if i != j {
                assert_ne!(exts[i], exts[j]);
            }
        }
    }
}

#[test]
fn object_photo_url_uses_id_and_extension() {
    assert_eq!(
        object_photo_url("https://r2.example", 3, "image/png".to_string()).unwrap(),
        "https://r2.example/obj-3.png"
    );
    assert_eq!(
        object_photo_url("u", -12, "application/postscript".to_string()).unwrap(),
        "u/obj--12.ai"
    );
    assert_eq!(
        object_photo_url("u", 1, "text/plain".to_string()),
        Err(AppError(ErrorKind::UnsupportedMimeType))
    );
}

#[test]
fn placeholder_object_photo_url_has_a_uuid() {
    let url = placeholder_object_photo_url("https://r2");
    assert!(url.starts_with("https://r2/"));
    let uuid = &url["https://r2/".len()..];
    assert_eq!(uuid.len(), 36);
    assert!(uuid.chars().all(|c| c.is_ascii_digit() || ('a'..='f').contains(&c) || c == '-'));
    assert_ne!(url, placeholder_object_photo_url("https://r2"));
}

#[test]
fn delete_object_answer() {
    let d = DeleteObjectData::generate();
    assert_eq!(d.status_code, "200 OK");
    assert_eq!(d.message, "Item delete was successfull.");
}

fn sample_object() -> ObjectRecord {
    ObjectRecord {
        id: 9,
        name: "view".to_string(),
        photo_url: "u/obj-9.jpg".to_string(),
        mime_type: "image/jpeg".to_string(),
        license: "cc".to_string(),
        description: "d".to_string(),
        created_at: "2024-01-01 00:00:00".to_string(),
        updated_at: "2024-01-02 00:00:00".to_string(),
    }
}

#[test]
fn object_answer_and_document_copy_the_record() {
    let o = sample_object();
    let tags = vec!["a".to_string(), "b".to_string()];
    let data = ObjectData::from_record(&o, &tags);
    assert_eq!(data.id, 9);
    assert_eq!(data.name, "view");
    assert_eq!(data.photo_url, "u/obj-9.jpg");
    assert_eq!(data.mime_type, "image/jpeg");
    assert_eq!(data.license, "cc");
    assert_eq!(data.tag, tags);
    assert_eq!(data.description, "d");
    assert_eq!(data.created_at, "2024-01-01 00:00:00");
    assert_eq!(data.updated_at, "2024-01-02 00:00:00");
    let doc = MeiliSearchObjectData::from_record(&o, &tags);
    assert_eq!(doc.id, 9);
    assert_eq!(doc.tag, tags);
    assert_eq!(doc.updated_at, "2024-01-02 00:00:00");
}

#[test]
fn object_update_replaces_editable_fields() {
    let o = sample_object();
    let upd = UpdateObjectData {
        name: "n2".to_string(),
        license: "l2".to_string(),
        tag: vec![],
        description: "d2".to_string(),
    };
    let r = o.updated_with(&upd, "later".to_string());
    assert_eq!(r.id, 9);
    assert_eq!(r.name, "n2");
    assert_eq!(r.license, "l2");
    assert_eq!(r.description, "d2");
    assert_eq!(r.photo_url, "u/obj-9.jpg");
    assert_eq!(r.mime_type, "image/jpeg");
    assert_eq!(r.created_at, "2024-01-01 00:00:00");
    assert_eq!(r.updated_at, "later");
}
