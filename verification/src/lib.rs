pub mod csv_import;
pub mod error;
pub mod item_tree;
pub mod labels;
pub mod models;
pub mod query;
pub mod status;
pub mod text;
pub mod urls;
pub mod visible_id;

pub use error::{AppError, ErrorKind};
pub use models::object_models::{
    DeleteObjectData, MeiliSearchObjectData, MimeType, ObjectData, ObjectRecord, RegisterObjectData,
    UpdateObjectData,
};
pub use labels::{Color, Label, LabelModelData, Record};
pub use csv_import::{check_csv, csv_checker, CsvCheckError, CsvItemRecord, InsertData};
pub use csv_import::{convert_to_item_data, find_conversion_failure, find_csv_failure};
pub use item_tree::{AllIds, ParentId};
pub use models::item_models::{
    ControlItemData, CsvItemData, DeleteItemData, ItemData, ItemRecord, MeiliSearchItemData,
    PathItem,
};
pub use models::health::HelthCheckResponse;
pub use csv_import::{initial_labels, tree_relations};
pub use query::search_keywords;
