use vstd::prelude::*;
use crate::labels::{Color, Record};
use crate::status::ok_status_text;
use crate::text::{copy_texts, texts};

verus! {

/// A stored item, with its connector list already decoded and its timestamps rendered.
#[derive(Clone, Debug)]
pub struct ItemRecord {
    pub id: i32,
    pub visible_id: String,
    pub name: String,
    pub product_number: String,
    pub photo_url: String,
    pub record: Record,
    pub description: String,
    pub year_purchased: Option<i32>,
    pub connector: Vec<String>,
    pub created_at: String,
    pub updated_at: String,
}

/// The visible id and the name of an item on the path from an item up the tree.
#[derive(Clone, Debug)]
pub struct PathItem {
    pub visible_id: String,
    pub name: String,
}

/// An item as it is indexed for full-text search.
#[derive(Clone, Debug)]
pub struct MeiliSearchItemData {
    pub id: i32,
    pub visible_id: String,
    pub name: String,
    pub product_number: String,
    pub photo_url: String,
    pub record: Record,
    pub color: Color,
    pub description: String,
    pub year_purchased: Option<i32>,
    pub connector: Vec<String>,
    pub created_at: String,
    pub updated_at: String,
}

/// An item as it is answered to a client, with the path from it up the tree.
#[derive(Clone, Debug)]
pub struct ItemData {
    pub id: i32,
    pub visible_id: String,
    pub parent_visible_id: String,
    pub name: String,
    pub product_number: String,
    pub photo_url: String,
    pub record: Record,
    pub color: Color,
    pub description: String,
    pub year_purchased: Option<i32>,
    pub connector: Vec<String>,
    pub created_at: String,
    pub updated_at: String,
    pub path: Vec<i64>,
    pub visible_id_path: Vec<String>,
    pub item_name_path: Vec<String>,
}

/// The body of a request that registers or updates an item.
#[derive(Clone, Debug)]
pub struct ControlItemData {
    pub visible_id: String,
    pub parent_visible_id: String,
    pub name: String,
    pub product_number: String,
    pub record: Record,
    pub description: String,
    pub year_purchased: Option<i32>,
    pub connector: Vec<String>,
}

/// The answer to a request that deletes an item.
#[derive(Clone, Debug)]
pub struct DeleteItemData {
    pub status_code: String,
    pub message: String,
}

/// One line of the item list that is exported for printing.
#[derive(Clone, Debug)]
pub struct CsvItemData {
    pub product_number: String,
    pub name: String,
    pub place: String,
    pub note: String,
}

impl DeleteItemData {
    pub fn generate() -> (r: Self)
        ensures
            r.status_code@ == "200 OK"@,
            r.message@ == "Item delete was successfull."@,
    {
        DeleteItemData {
            status_code: ok_status_text(),
            message: String::from_str("Item delete was successfull."),
        }
    }
}

impl MeiliSearchItemData {
    /// The search document of a stored item whose label has colour `color`.
    pub fn from_record(item: &ItemRecord, color: Color) -> (r: Self)
        ensures
            r.id == item.id,
            r.visible_id@ == item.visible_id@,
            r.name@ == item.name@,
            r.product_number@ == item.product_number@,
            r.photo_url@ == item.photo_url@,
            r.record == item.record,
            r.color == color,
            r.description@ == item.description@,
            r.year_purchased == item.year_purchased,
            texts(r.connector@) == texts(item.connector@),
            r.created_at@ == item.created_at@,
            r.updated_at@ == item.updated_at@,
    {
        MeiliSearchItemData {
            id: item.id,
            visible_id: item.visible_id.clone(),
            name: item.name.clone(),
            product_number: item.product_number.clone(),
            photo_url: item.photo_url.clone(),
            record: item.record,
            color,
            description: item.description.clone(),
            year_purchased: item.year_purchased,
            connector: copy_texts(&item.connector),
            created_at: item.created_at.clone(),
            updated_at: item.updated_at.clone(),
        }
    }
}

/// The visible ids of the items on a path.
pub open spec fn path_visible_ids(items: Seq<PathItem>) -> Seq<Seq<char>> {
    items.map_values(|p: PathItem| p.visible_id@)
}

/// The names of the items on a path.
pub open spec fn path_names(items: Seq<PathItem>) -> Seq<Seq<char>> {
    items.map_values(|p: PathItem| p.name@)
}

fn path_columns(items: &Vec<PathItem>) -> (r: (Vec<String>, Vec<String>))
    ensures
        texts(r.0@) == path_visible_ids(items@),
        texts(r.1@) == path_names(items@),
{
    let mut ids: Vec<String> = Vec::new();
    let mut names: Vec<String> = Vec::new();
    let mut i: usize = 0;
    while i < items.len()
        invariant
            i <= items.len(),
            ids.len() == i,
            names.len() == i,
            forall|j: int| 0 <= j < i ==> (#[trigger] ids@[j])@ == items@[j].visible_id@,
            forall|j: int| 0 <= j < i ==> (#[trigger] names@[j])@ == items@[j].name@,
        decreases items.len() - i,
    {
        ids.push(items[i].visible_id.clone());
        names.push(items[i].name.clone());
        i = i + 1;
    }
    assert(texts(ids@) =~= path_visible_ids(items@));
    assert(texts(names@) =~= path_names(items@));
    (ids, names)
}

impl ItemData {
    /// The answer about an item: the stored item, the colour of its label, the path from
    /// it up the tree and the items on that path (looked up only when the path is longer
    /// than the item alone). The parent is the second item on the path; an item whose path
    /// is the item alone is its own parent.
    pub fn assemble(item: &ItemRecord, color: Color, path: Vec<i64>, path_items: &Vec<PathItem>) -> (r: Self)
        requires
            path.len() >= 1,
            path.len() != 1 ==> path_items.len() == path.len(),
        ensures
            r.id == item.id,
            r.visible_id@ == item.visible_id@,
            r.name@ == item.name@,
            r.product_number@ == item.product_number@,
            r.photo_url@ == item.photo_url@,
            r.record == item.record,
            r.color == color,
            r.description@ == item.description@,
            r.year_purchased == item.year_purchased,
            texts(r.connector@) == texts(item.connector@),
            r.created_at@ == item.created_at@,
            r.updated_at@ == item.updated_at@,
            r.path@ == path@,
            path.len() == 1 ==> {
                &&& r.parent_visible_id@ == item.visible_id@
                &&& texts(r.visible_id_path@) == seq![item.visible_id@]
                &&& texts(r.item_name_path@) == seq![item.name@]
            },
            path.len() != 1 ==> {
                &&& r.parent_visible_id@ == path_items@[1].visible_id@
                &&& texts(r.visible_id_path@) == path_visible_ids(path_items@)
                &&& texts(r.item_name_path@) == path_names(path_items@)
            },
    {
        let (parent_visible_id, visible_id_path, item_name_path) = if path.len() != 1 {
            let (ids, names) = path_columns(path_items);
            (path_items[1].visible_id.clone(), ids, names)
        } else {
            let ids = vec![item.visible_id.clone()];
            let names = vec![item.name.clone()];
            assert(texts(ids@) =~= seq![item.visible_id@]);
            assert(texts(names@) =~= seq![item.name@]);
            (item.visible_id.clone(), ids, names)
        };
        ItemData {
            id: item.id,
            visible_id: item.visible_id.clone(),
            parent_visible_id,
            name: item.name.clone(),
            product_number: item.product_number.clone(),
            photo_url: item.photo_url.clone(),
            record: item.record,
            color,
            description: item.description.clone(),
            year_purchased: item.year_purchased,
            connector: copy_texts(&item.connector),
            created_at: item.created_at.clone(),
            updated_at: item.updated_at.clone(),
            path,
            visible_id_path,
            item_name_path,
        }
    }
}

impl ItemRecord {
    /// The stored item after an update: the fields of the request replace the item's,
    /// the update time is renewed, and the id, photo and creation time stay.
    pub fn updated_with(&self, data: &ControlItemData, updated_at: String) -> (r: ItemRecord)
        ensures
            r.id == self.id,
            r.visible_id@ == data.visible_id@,
            r.name@ == data.name@,
            r.product_number@ == data.product_number@,
            r.photo_url@ == self.photo_url@,
            r.record == data.record,
            r.description@ == data.description@,
            r.year_purchased == data.year_purchased,
            texts(r.connector@) == texts(data.connector@),
            r.created_at@ == self.created_at@,
            r.updated_at@ == updated_at@,
    {
        ItemRecord {
            id: self.id,
            visible_id: data.visible_id.clone(),
            name: data.name.clone(),
            product_number: data.product_number.clone(),
            photo_url: self.photo_url.clone(),
            record: data.record,
            description: data.description.clone(),
            year_purchased: data.year_purchased,
            connector: copy_texts(&data.connector),
            created_at: self.created_at.clone(),
            updated_at,
        }
    }
}

impl CsvItemData {
    /// The exported line of a stored item kept in the top-level item named `place`; the
    /// item's description is exported as the note.
    pub fn from_record(item: &ItemRecord, place: &String) -> (r: Self)
        ensures
            r.product_number@ == item.product_number@,
            r.name@ == item.name@,
            r.place@ == place@,
            r.note@ == item.description@,
    {
        CsvItemData {
            product_number: item.product_number.clone(),
            name: item.name.clone(),
            place: place.clone(),
            note: item.description.clone(),
        }
    }
}

} // verus!
