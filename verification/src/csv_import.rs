use vstd::prelude::*;
use crate::labels::{color_named, parse_color, parse_record, record_named, Color, Label, Record};
use crate::text::{text_eq, texts};
use crate::visible_id::{is_valid_visible_id, is_visible_id_shape};

verus! {

/// One line of an item CSV file, as it was read: empty cells of the optional columns are
/// `None`.
#[derive(Clone, Debug)]
pub struct CsvItemRecord {
    pub visible_id: String,
    pub parent_visible_id: String,
    pub name: String,
    pub product_number: Option<String>,
    pub record: String,
    pub color: String,
    pub description: Option<String>,
    pub year_purchased: Option<i32>,
    pub connector_1: Option<String>,
    pub connector_2: Option<String>,
    pub connector_3: Option<String>,
    pub connector_4: Option<String>,
    pub connector_5: Option<String>,
    pub connector_6: Option<String>,
}

/// An item ready to be stored, converted from one CSV line.
#[derive(Clone, Debug)]
pub struct InsertData {
    pub visible_id: String,
    pub parent_visible_id: String,
    pub name: String,
    pub product_number: String,
    pub photo_url: String,
    pub record: Record,
    pub color: Color,
    pub description: String,
    pub year_purchased: Option<i32>,
    pub connector: Vec<String>,
}

/// Why a CSV file of items is refused. Rows are counted from 0, the first line after the
/// header.
#[derive(Clone, Debug)]
pub enum CsvCheckError {
    /// The visible id of row `second_row` was already used by row `first_row`, the first
    /// row that has it.
    DuplicateVisibleId { visible_id: String, first_row: usize, second_row: usize },
    /// The visible id of row `row` is not four upper-case letters or digits.
    InvalidVisibleId { visible_id: String, row: usize },
    /// The record cell of row `row` is not `qr`, `barcode` or `nothing`.
    InvalidRecord { record: String, row: usize },
    /// The colour cell of row `row` is not one of the nine colour names.
    InvalidColor { color: String, row: usize },
}

/// The text of an optional cell; an empty cell reads as the empty text.
pub open spec fn text_or_empty(cell: Option<String>) -> Seq<char> {
    match cell {
        Some(s) => s@,
        None => Seq::empty(),
    }
}

/// The six connector cells of a row, empty ones included.
pub open spec fn connector_cells(row: CsvItemRecord) -> Seq<Seq<char>> {
    seq![
        text_or_empty(row.connector_1),
        text_or_empty(row.connector_2),
        text_or_empty(row.connector_3),
        text_or_empty(row.connector_4),
        text_or_empty(row.connector_5),
        text_or_empty(row.connector_6),
    ]
}

/// The texts that are not empty, in their order.
pub open spec fn drop_empty(s: Seq<Seq<char>>) -> Seq<Seq<char>>
    decreases s.len(),
{
    if s.len() == 0 {
        s
    } else if s.last().len() == 0 {
        drop_empty(s.drop_last())
    } else {
        drop_empty(s.drop_last()).push(s.last())
    }
}

/// `out` is `row` converted, with `connectors` as its connector list.
pub open spec fn converted_row(out: InsertData, row: CsvItemRecord, connectors: Seq<Seq<char>>) -> bool {
    &&& out.visible_id@ == row.visible_id@
    &&& out.parent_visible_id@ == row.parent_visible_id@
    &&& out.name@ == row.name@
    &&& out.product_number@ == text_or_empty(row.product_number)
    &&& out.photo_url@ == Seq::<char>::empty()
    &&& record_named(row.record@) == Some(out.record)
    &&& color_named(row.color@) == Some(out.color)
    &&& out.description@ == text_or_empty(row.description)
    &&& out.year_purchased == row.year_purchased
    &&& texts(out.connector@) == connectors
}

/// No earlier row has the visible id of row `k`.
pub open spec fn no_earlier_duplicate(rows: Seq<CsvItemRecord>, k: int) -> bool {
    forall|j: int| 0 <= j < k ==> (#[trigger] rows[j]).visible_id@ != rows[k].visible_id@
}

/// Row `k` passes the checks of a CSV file of items.
pub open spec fn row_passes(rows: Seq<CsvItemRecord>, k: int) -> bool {
    &&& no_earlier_duplicate(rows, k)
    &&& is_visible_id_shape(rows[k].visible_id@)
    &&& record_named(rows[k].record@) is Some
    &&& color_named(rows[k].color@) is Some
}

/// `e` is the error that row `k` is refused with: the first check that it fails, in the
/// order duplicate visible id, shape of the visible id, record, colour.
pub open spec fn describes_failure(e: CsvCheckError, rows: Seq<CsvItemRecord>, k: int) -> bool {
    match e {
        CsvCheckError::DuplicateVisibleId { visible_id, first_row, second_row } => {
            &&& second_row == k
            &&& first_row < k
            &&& rows[first_row as int].visible_id@ == rows[k].visible_id@
            &&& forall|j: int|
                0 <= j < first_row ==> (#[trigger] rows[j]).visible_id@ != rows[k].visible_id@
            &&& visible_id@ == rows[k].visible_id@
        },
        CsvCheckError::InvalidVisibleId { visible_id: v, row } => {
            &&& row == k
            &&& no_earlier_duplicate(rows, k)
            &&& !is_visible_id_shape(rows[k].visible_id@)
            &&& v@ == rows[k].visible_id@
        },
        CsvCheckError::InvalidRecord { record: v, row } => {
            &&& row == k
            &&& no_earlier_duplicate(rows, k)
            &&& is_visible_id_shape(rows[k].visible_id@)
            &&& record_named(rows[k].record@) is None
            &&& v@ == rows[k].record@
        },
        CsvCheckError::InvalidColor { color: v, row } => {
            &&& row == k
            &&& no_earlier_duplicate(rows, k)
            &&& is_visible_id_shape(rows[k].visible_id@)
            &&& record_named(rows[k].record@) is Some
            &&& color_named(rows[k].color@) is None
            &&& v@ == rows[k].color@
        },
    }
}

/// Every row of `rows` passes the checks of a CSV file of items.
pub open spec fn all_rows_pass(rows: Seq<CsvItemRecord>) -> bool {
    forall|k: int| 0 <= k < rows.len() ==> row_passes(rows, k)
}

/// `out` holds the rows of `rows` converted one for one, in order, each with its six
/// connector cells.
pub open spec fn checked_rows(rows: Seq<CsvItemRecord>, out: Seq<InsertData>) -> bool {
    &&& out.len() == rows.len()
    &&& forall|k: int|
        0 <= k < rows.len() ==> converted_row(#[trigger] out[k], rows[k], connector_cells(rows[k]))
}

/// `e` reports the first row of `rows` that fails, with the first check that it fails.
pub open spec fn first_failure(rows: Seq<CsvItemRecord>, e: CsvCheckError) -> bool {
    exists|k: int|
        {
            &&& 0 <= k < rows.len()
            &&& forall|i: int| 0 <= i < k ==> row_passes(rows, i)
            &&& !row_passes(rows, k)
            &&& describes_failure(e, rows, k)
        }
}

/// The text of an optional cell, empty when the cell is empty.
pub fn cell_or_empty(cell: &Option<String>) -> (r: String)
    ensures
        r@ == text_or_empty(*cell),
{
    match cell {
        Some(s) => s.clone(),
        None => String::new(),
    }
}

/// The six connector cells of a row, empty ones as empty texts.
fn connector_list(row: &CsvItemRecord) -> (r: Vec<String>)
    ensures
        texts(r@) == connector_cells(*row),
{
    let r = vec![
        cell_or_empty(&row.connector_1),
        cell_or_empty(&row.connector_2),
        cell_or_empty(&row.connector_3),
        cell_or_empty(&row.connector_4),
        cell_or_empty(&row.connector_5),
        cell_or_empty(&row.connector_6),
    ];
    assert(texts(r@) =~= connector_cells(*row));
    r
}

/// Builds the item of a row whose record and colour were already read.
fn build_insert_data(row: &CsvItemRecord, record: Record, color: Color, connector: Vec<String>) -> (r: InsertData)
    requires
        record_named(row.record@) == Some(record),
        color_named(row.color@) == Some(color),
    ensures
        converted_row(r, *row, texts(connector@)),
{
    InsertData {
        visible_id: row.visible_id.clone(),
        parent_visible_id: row.parent_visible_id.clone(),
        name: row.name.clone(),
        product_number: cell_or_empty(&row.product_number),
        photo_url: String::new(),
        record,
        color,
        description: cell_or_empty(&row.description),
        year_purchased: row.year_purchased,
        connector,
    }
}

/// Finds the first row of an item CSV file that the checker refuses, with the first check
/// that it fails, in the order duplicate visible id, shape of the visible id, record,
/// colour; `None` when every row passes.
pub fn find_csv_failure(data: &Vec<CsvItemRecord>) -> (r: Option<CsvCheckError>)
    ensures
        r is None <==> all_rows_pass(data@),
        r matches Some(e) ==> first_failure(data@, e),
{
    let mut index: usize = 0;
    while index < data.len()
        invariant
            index <= data.len(),
            forall|k: int| 0 <= k < index ==> row_passes(data@, k),
        decreases data.len() - index,
    {
        let row = &data[index];
        let mut j: usize = 0;
        while j < index
            invariant
                j <= index,
                index < data.len(),
                row == data@[index as int],
                forall|k: int| 0 <= k < index ==> row_passes(data@, k),
                forall|i: int|
                    0 <= i < j ==> (#[trigger] data@[i]).visible_id@ != data@[index as int].visible_id@,
            decreases index - j,
        {
            if text_eq(data[j].visible_id.as_str(), row.visible_id.as_str()) {
                let e = CsvCheckError::DuplicateVisibleId {
                    visible_id: row.visible_id.clone(),
                    first_row: j,
                    second_row: index,
                };
                assert(!row_passes(data@, index as int));
                assert(describes_failure(e, data@, index as int));
                assert(!all_rows_pass(data@));
                return Some(e);
            }
            j = j + 1;
        }
        assert(no_earlier_duplicate(data@, index as int));
        if !is_valid_visible_id(row.visible_id.as_str()) {
            let e = CsvCheckError::InvalidVisibleId { visible_id: row.visible_id.clone(), row: index };
            assert(!row_passes(data@, index as int));
            assert(describes_failure(e, data@, index as int));
            assert(!all_rows_pass(data@));
            return Some(e);
        }
        if parse_record(row.record.as_str()).is_none() {
            let e = CsvCheckError::InvalidRecord { record: row.record.clone(), row: index };
            assert(!row_passes(data@, index as int));
            assert(describes_failure(e, data@, index as int));
            assert(!all_rows_pass(data@));
            return Some(e);
        }
        if parse_color(row.color.as_str()).is_none() {
            let e = CsvCheckError::InvalidColor { color: row.color.clone(), row: index };
            assert(!row_passes(data@, index as int));
            assert(describes_failure(e, data@, index as int));
            assert(!all_rows_pass(data@));
            return Some(e);
        }
        index = index + 1;
    }
    None
}

/// Converts the rows of an item CSV file that passes the checks (the visible ids are
/// distinct and well formed, and the record and colour cells name a record kind and a
/// colour): each row becomes one item, in order, with its six connector cells. A file that
/// fails a check is refused before this, by `find_csv_failure`.
pub fn check_csv(data: &Vec<CsvItemRecord>) -> (r: Vec<InsertData>)
    requires
        all_rows_pass(data@),
    ensures
        checked_rows(data@, r@),
        forall|k: int| 0 <= k < data.len() ==> (#[trigger] r@[k]).connector@.len() == 6,
        forall|k: int, j: int|
            0 <= k < data.len() && 0 <= j < 6 ==> is_cell_text(
                (#[trigger] r@[k].connector@[j])@,
                connector_cell(data@[k], j),
            ),
{
    let mut out: Vec<InsertData> = Vec::new();
    let mut index: usize = 0;
    while index < data.len()
        invariant
            index <= data.len(),
            all_rows_pass(data@),
            out.len() == index,
            forall|k: int|
                0 <= k < index ==> converted_row(
                    #[trigger] out@[k],
                    data@[k],
                    connector_cells(data@[k]),
                ),
        decreases data.len() - index,
    {
        let row = &data[index];
        assert(row_passes(data@, index as int));
        let record = match parse_record(row.record.as_str()) {
            Some(record) => record,
            None => vstd::pervasive::unreached(),
        };
        let color = match parse_color(row.color.as_str()) {
            Some(color) => color,
            None => vstd::pervasive::unreached(),
        };
        let connector = connector_list(row);
        let item = build_insert_data(row, record, color, connector);
        out.push(item);
        index = index + 1;
    }
    proof {
        lemma_checked_connectors_are_the_six_cells(data@, out@);
    }
    out
}

/// Checks the rows of an item CSV file that were read from disk; see `check_csv`.
pub fn csv_checker(data: &Vec<CsvItemRecord>) -> (r: Vec<InsertData>)
    requires
        all_rows_pass(data@),
    ensures
        checked_rows(data@, r@),
        forall|k: int| 0 <= k < data.len() ==> (#[trigger] r@[k]).connector@.len() == 6,
        forall|k: int, j: int|
            0 <= k < data.len() && 0 <= j < 6 ==> is_cell_text(
                (#[trigger] r@[k].connector@[j])@,
                connector_cell(data@[k], j),
            ),
{
    check_csv(data)
}

/// Whether the record and colour cells of a row name a record kind and a colour.
pub open spec fn row_convertible(row: CsvItemRecord) -> bool {
    &&& record_named(row.record@) is Some
    &&& color_named(row.color@) is Some
}

/// `e` is the error that converting stops with at row `k`: its record cell is checked first.
pub open spec fn describes_conversion_failure(e: CsvCheckError, rows: Seq<CsvItemRecord>, k: int) -> bool {
    let row = rows[k];
    match e {
        CsvCheckError::InvalidRecord { record: v, row: at } => {
            &&& at == k
            &&& record_named(row.record@) is None
            &&& v@ == row.record@
        },
        CsvCheckError::InvalidColor { color: v, row: at } => {
            &&& at == k
            &&& record_named(row.record@) is Some
            &&& color_named(row.color@) is None
            &&& v@ == row.color@
        },
        _ => false,
    }
}

/// Every row of `rows` names a record kind and a colour.
pub open spec fn all_rows_convertible(rows: Seq<CsvItemRecord>) -> bool {
    forall|k: int| 0 <= k < rows.len() ==> row_convertible(#[trigger] rows[k])
}

/// `out` holds the rows of `rows` converted one for one, in order, each keeping only its
/// non-empty connector cells.
pub open spec fn imported_rows(rows: Seq<CsvItemRecord>, out: Seq<InsertData>) -> bool {
    &&& out.len() == rows.len()
    &&& forall|k: int|
        0 <= k < rows.len() ==> converted_row(
            #[trigger] out[k],
            rows[k],
            drop_empty(connector_cells(rows[k])),
        )
}

/// `e` reports the first row of `rows` whose record or colour is unknown.
pub open spec fn first_conversion_failure(rows: Seq<CsvItemRecord>, e: CsvCheckError) -> bool {
    exists|k: int|
        {
            &&& 0 <= k < rows.len()
            &&& forall|i: int| 0 <= i < k ==> row_convertible(#[trigger] rows[i])
            &&& !row_convertible(rows[k])
            &&& describes_conversion_failure(e, rows, k)
        }
}

/// The non-empty connector cells of a row, in their order.
fn nonempty_connectors(row: &CsvItemRecord) -> (r: Vec<String>)
    ensures
        texts(r@) == drop_empty(connector_cells(*row)),
{
    let cells = connector_list(row);
    let ghost all = connector_cells(*row);
    let mut kept: Vec<String> = Vec::new();
    let mut i: usize = 0;
    while i < cells.len()
        invariant
            i <= cells.len(),
            texts(cells@) == all,
            texts(kept@) == drop_empty(all.take(i as int)),
        decreases cells.len() - i,
    {
        assert(all.take(i + 1).drop_last() == all.take(i as int));
        assert(all.take(i + 1).last() == cells@[i as int]@);
        if !cells[i].as_str().is_empty() {
            kept.push(cells[i].clone());
            assert(texts(kept@) =~= drop_empty(all.take(i as int)).push(cells@[i as int]@));
        }
        i = i + 1;
    }
    assert(all.take(cells.len() as int) == all);
    kept
}

/// Finds the first row of the initial import's CSV file whose record or colour cell is
/// unknown (the record cell is read first); `None` when every row can be converted. The
/// visible ids are not checked.
pub fn find_conversion_failure(data: &Vec<CsvItemRecord>) -> (r: Option<CsvCheckError>)
    ensures
        r is None <==> all_rows_convertible(data@),
        r matches Some(e) ==> first_conversion_failure(data@, e),
{
    let mut index: usize = 0;
    while index < data.len()
        invariant
            index <= data.len(),
            forall|k: int| 0 <= k < index ==> row_convertible(#[trigger] data@[k]),
        decreases data.len() - index,
    {
        let row = &data[index];
        if parse_record(row.record.as_str()).is_none() {
            let e = CsvCheckError::InvalidRecord { record: row.record.clone(), row: index };
            assert(!row_convertible(data@[index as int]));
            assert(describes_conversion_failure(e, data@, index as int));
            return Some(e);
        }
        if parse_color(row.color.as_str()).is_none() {
            let e = CsvCheckError::InvalidColor { color: row.color.clone(), row: index };
            assert(!row_convertible(data@[index as int]));
            assert(describes_conversion_failure(e, data@, index as int));
            return Some(e);
        }
        index = index + 1;
    }
    None
}

/// Converts the rows of the CSV file of the initial import into items to store, when every
/// record and colour cell names a record kind and a colour: each row becomes one item, in
/// order, whose connector list keeps only the non-empty connector cells. A file with an
/// unknown record or colour is refused before this, by `find_conversion_failure`.
pub fn convert_to_item_data(data: &Vec<CsvItemRecord>) -> (r: Vec<InsertData>)
    requires
        all_rows_convertible(data@),
    ensures
        imported_rows(data@, r@),
        forall|k: int| 0 <= k < data.len() ==> keeps_filled_cells((#[trigger] r@[k]).connector@, data@[k]),
{
    let mut out: Vec<InsertData> = Vec::new();
    let mut index: usize = 0;
    while index < data.len()
        invariant
            index <= data.len(),
            all_rows_convertible(data@),
            out.len() == index,
            forall|k: int|
                0 <= k < index ==> converted_row(
                    #[trigger] out@[k],
                    data@[k],
                    drop_empty(connector_cells(data@[k])),
                ),
        decreases data.len() - index,
    {
        let row = &data[index];
        assert(row_convertible(data@[index as int]));
        let record = match parse_record(row.record.as_str()) {
            Some(record) => record,
            None => vstd::pervasive::unreached(),
        };
        let color = match parse_color(row.color.as_str()) {
            Some(color) => color,
            None => vstd::pervasive::unreached(),
        };
        let connector = nonempty_connectors(row);
        let item = build_insert_data(row, record, color, connector);
        out.push(item);
        index = index + 1;
    }
    proof {
        lemma_imported_connectors_keep_filled_cells(data@, out@);
    }
    out
}

/// A file that the checker accepts holds pairwise distinct visible ids, each of four
/// upper-case letters or digits.
pub proof fn lemma_checked_visible_ids_distinct(rows: Seq<CsvItemRecord>, out: Seq<InsertData>)
    requires
        all_rows_pass(rows),
        checked_rows(rows, out),
    ensures
        forall|i: int, j: int|
            0 <= i < rows.len() && 0 <= j < rows.len() && i != j ==> (#[trigger] out[i]).visible_id@
                != (#[trigger] out[j]).visible_id@,
        forall|i: int| 0 <= i < rows.len() ==> is_visible_id_shape((#[trigger] out[i]).visible_id@),
{
    assert forall|i: int, j: int|
        0 <= i < rows.len() && 0 <= j < rows.len() && i != j implies (#[trigger] out[i]).visible_id@
            != (#[trigger] out[j]).visible_id@ by {
        assert(converted_row(out[i], rows[i], connector_cells(rows[i])));
        assert(converted_row(out[j], rows[j], connector_cells(rows[j])));
        if i < j {
            assert(row_passes(rows, j));
            assert(rows[i].visible_id@ != rows[j].visible_id@);
        } else {
            assert(row_passes(rows, i));
            assert(rows[j].visible_id@ != rows[i].visible_id@);
        }
    }
    assert forall|i: int| 0 <= i < rows.len() implies is_visible_id_shape(
        (#[trigger] out[i]).visible_id@,
    ) by {
        assert(converted_row(out[i], rows[i], connector_cells(rows[i])));
        assert(row_passes(rows, i));
    }
}

/// A file that the checker accepts can be imported: every record and colour cell is
/// known.
pub proof fn lemma_checked_file_is_importable(rows: Seq<CsvItemRecord>)
    requires
        all_rows_pass(rows),
    ensures
        all_rows_convertible(rows),
{
    assert forall|k: int| 0 <= k < rows.len() implies row_convertible(#[trigger] rows[k]) by {
        assert(row_passes(rows, k));
    }
}

/// On a file that the checker accepts, every item is imported as the checker converted
/// it, except that its empty connector cells are left out.
pub proof fn lemma_import_agrees_with_check(
    rows: Seq<CsvItemRecord>,
    checked: Seq<InsertData>,
    items: Seq<InsertData>,
)
    requires
        all_rows_pass(rows),
        checked_rows(rows, checked),
        imported_rows(rows, items),
    ensures
        items.len() == checked.len(),
        forall|k: int|
            0 <= k < items.len() ==> {
                &&& (#[trigger] items[k]).visible_id@ == checked[k].visible_id@
                &&& items[k].parent_visible_id@ == checked[k].parent_visible_id@
                &&& items[k].name@ == checked[k].name@
                &&& items[k].product_number@ == checked[k].product_number@
                &&& items[k].photo_url@ == checked[k].photo_url@
                &&& items[k].record == checked[k].record
                &&& items[k].color == checked[k].color
                &&& items[k].description@ == checked[k].description@
                &&& items[k].year_purchased == checked[k].year_purchased
                &&& texts(items[k].connector@) == drop_empty(texts(checked[k].connector@))
            },
{
    assert forall|k: int| 0 <= k < items.len() implies {
        &&& (#[trigger] items[k]).visible_id@ == checked[k].visible_id@
        &&& items[k].parent_visible_id@ == checked[k].parent_visible_id@
        &&& items[k].name@ == checked[k].name@
        &&& items[k].product_number@ == checked[k].product_number@
        &&& items[k].photo_url@ == checked[k].photo_url@
        &&& items[k].record == checked[k].record
        &&& items[k].color == checked[k].color
        &&& items[k].description@ == checked[k].description@
        &&& items[k].year_purchased == checked[k].year_purchased
        &&& texts(items[k].connector@) == drop_empty(texts(checked[k].connector@))
    } by {
        assert(converted_row(items[k], rows[k], drop_empty(connector_cells(rows[k]))));
        assert(converted_row(checked[k], rows[k], connector_cells(rows[k])));
    }
}

/// The connector cell of column `j` of a row, counted from 0: `connector_1` is column 0
/// and `connector_6` is column 5.
pub open spec fn connector_cell(row: CsvItemRecord, j: int) -> Option<String> {
    if j == 0 {
        row.connector_1
    } else if j == 1 {
        row.connector_2
    } else if j == 2 {
        row.connector_3
    } else if j == 3 {
        row.connector_4
    } else if j == 4 {
        row.connector_5
    } else {
        row.connector_6
    }
}

/// `t` is what `cell` holds: its text when it is filled, the empty text when it is empty.
pub open spec fn is_cell_text(t: Seq<char>, cell: Option<String>) -> bool {
    match cell {
        Some(s) => t == s@,
        None => t.len() == 0,
    }
}

/// Whether the connector cell of column `j` of a row holds a non-empty text.
pub open spec fn connector_filled(row: CsvItemRecord, j: int) -> bool {
    connector_cell(row, j) matches Some(s) && s@.len() > 0
}

/// `conn` holds the non-empty connector cells of `row`, each once, in column order:
/// `cols` gives the column of each entry; the columns increase, and every column whose
/// cell is filled is listed.
pub open spec fn selects_filled_cells(conn: Seq<String>, row: CsvItemRecord, cols: Seq<int>) -> bool {
    &&& cols.len() == conn.len()
    &&& forall|i: int|
        0 <= i < conn.len() ==> {
            &&& 0 <= #[trigger] cols[i] < 6
            &&& conn[i]@.len() > 0
            &&& is_cell_text(conn[i]@, connector_cell(row, cols[i]))
        }
    &&& forall|i: int, i2: int| 0 <= i < i2 < conn.len() ==> #[trigger] cols[i] < #[trigger] cols[i2]
    &&& forall|j: int| 0 <= j < 6 && #[trigger] connector_filled(row, j) ==> exists|i: int| 0 <= i < cols.len() && cols[i] == j
}

/// The connector list of an item keeps exactly the non-empty connector cells of its row,
/// in column order.
pub open spec fn keeps_filled_cells(conn: Seq<String>, row: CsvItemRecord) -> bool {
    exists|cols: Seq<int>| selects_filled_cells(conn, row, cols)
}

/// The six connector cells of a row are its columns `connector_1` to `connector_6`.
proof fn lemma_connector_cells_by_column(row: CsvItemRecord)
    ensures
        connector_cells(row).len() == 6,
        forall|j: int| 0 <= j < 6 ==> is_cell_text(#[trigger] connector_cells(row)[j], connector_cell(row, j)),
{
    let c = connector_cells(row);
    assert(is_cell_text(c[0], connector_cell(row, 0)));
    assert(is_cell_text(c[1], connector_cell(row, 1)));
    assert(is_cell_text(c[2], connector_cell(row, 2)));
    assert(is_cell_text(c[3], connector_cell(row, 3)));
    assert(is_cell_text(c[4], connector_cell(row, 4)));
    assert(is_cell_text(c[5], connector_cell(row, 5)));
}

/// Dropping the empty texts of `s` keeps the others, each once and in order: the result
/// lists the non-empty entries of `s`, and `cols` gives the index of each in `s`.
proof fn lemma_drop_empty_selects(s: Seq<Seq<char>>) -> (cols: Seq<int>)
    ensures
        cols.len() == drop_empty(s).len(),
        forall|i: int|
            0 <= i < cols.len() ==> 0 <= #[trigger] cols[i] < s.len() && drop_empty(s)[i] == s[cols[i]]
                && s[cols[i]].len() > 0,
        forall|i: int, i2: int| 0 <= i < i2 < cols.len() ==> #[trigger] cols[i] < #[trigger] cols[i2],
        forall|j: int| 0 <= j < s.len() && (#[trigger] s[j]).len() > 0 ==> exists|i: int| 0 <= i < cols.len() && cols[i] == j,
    decreases s.len(),
{
    if s.len() == 0 {
        Seq::empty()
    } else {
        let init = s.drop_last();
        let g = lemma_drop_empty_selects(init);
        let last = (s.len() - 1) as int;
        assert forall|j: int| 0 <= j < last implies s[j] == #[trigger] init[j] by {}
        if s.last().len() == 0 {
            assert forall|j: int| 0 <= j < s.len() && (#[trigger] s[j]).len() > 0 implies exists|i: int|
                0 <= i < g.len() && g[i] == j by {
                assert(init[j] == s[j]);
            }
            g
        } else {
            let cols = g.push(last);
            let d = drop_empty(s);
            assert(d == drop_empty(init).push(s.last()));
            assert forall|i: int| 0 <= i < cols.len() implies 0 <= #[trigger] cols[i] < s.len() && d[i]
                == s[cols[i]] && s[cols[i]].len() > 0 by {
                if i < g.len() {
                    assert(cols[i] == g[i]);
                    assert(init[g[i]] == s[g[i]]);
                }
            }
            assert forall|i: int, i2: int| 0 <= i < i2 < cols.len() implies #[trigger] cols[i] < #[trigger] cols[i2] by {
                if i2 < g.len() {
                    assert(cols[i] == g[i] && cols[i2] == g[i2]);
                } else {
                    assert(cols[i] == g[i]);
                }
            }
            assert forall|j: int| 0 <= j < s.len() && (#[trigger] s[j]).len() > 0 implies exists|i: int|
                0 <= i < cols.len() && cols[i] == j by {
                if j == last {
                    assert(cols[g.len() as int] == j);
                } else {
                    assert(init[j] == s[j]);
                    let i = choose|i: int| 0 <= i < g.len() && g[i] == j;
                    assert(cols[i] == j);
                }
            }
            cols
        }
    }
}

/// The checker gives each item the six connector cells of its row, in column order:
/// entry `j` of the connector list is the text of cell `connector_{j+1}`, and the empty
/// text where that cell is empty.
pub proof fn lemma_checked_connectors_are_the_six_cells(rows: Seq<CsvItemRecord>, out: Seq<InsertData>)
    requires
        checked_rows(rows, out),
    ensures
        forall|k: int| 0 <= k < rows.len() ==> (#[trigger] out[k]).connector@.len() == 6,
        forall|k: int, j: int|
            0 <= k < rows.len() && 0 <= j < 6 ==> is_cell_text(
                (#[trigger] out[k].connector@[j])@,
                connector_cell(rows[k], j),
            ),
{
    assert forall|k: int, j: int| 0 <= k < rows.len() && 0 <= j < 6 implies is_cell_text(
        (#[trigger] out[k].connector@[j])@,
        connector_cell(rows[k], j),
    ) by {
        assert(converted_row(out[k], rows[k], connector_cells(rows[k])));
        lemma_connector_cells_by_column(rows[k]);
        assert(texts(out[k].connector@)[j] == out[k].connector@[j]@);
    }
    assert forall|k: int| 0 <= k < rows.len() implies (#[trigger] out[k]).connector@.len() == 6 by {
        assert(converted_row(out[k], rows[k], connector_cells(rows[k])));
        lemma_connector_cells_by_column(rows[k]);
    }
}

/// The import gives each item exactly the non-empty connector cells of its row, each
/// once and in column order; equal cells are all kept.
pub proof fn lemma_imported_connectors_keep_filled_cells(rows: Seq<CsvItemRecord>, out: Seq<InsertData>)
    requires
        imported_rows(rows, out),
    ensures
        forall|k: int| 0 <= k < rows.len() ==> keeps_filled_cells((#[trigger] out[k]).connector@, rows[k]),
{
    assert forall|k: int| 0 <= k < rows.len() implies keeps_filled_cells((#[trigger] out[k]).connector@, rows[k]) by {
        let row = rows[k];
        let conn = out[k].connector@;
        let cells = connector_cells(row);
        assert(converted_row(out[k], row, drop_empty(cells)));
        lemma_connector_cells_by_column(row);
        let cols = lemma_drop_empty_selects(cells);
        assert(texts(conn) == drop_empty(cells));
        assert forall|i: int| 0 <= i < conn.len() implies {
            &&& 0 <= #[trigger] cols[i] < 6
            &&& conn[i]@.len() > 0
            &&& is_cell_text(conn[i]@, connector_cell(row, cols[i]))
        } by {
            assert(texts(conn)[i] == conn[i]@);
            assert(is_cell_text(cells[cols[i]], connector_cell(row, cols[i])));
        }
        assert forall|j: int| 0 <= j < 6 && #[trigger] connector_filled(row, j) implies exists|i: int|
            0 <= i < cols.len() && cols[i] == j by {
            assert(is_cell_text(cells[j], connector_cell(row, j)));
            assert(cells[j].len() > 0);
        }
        assert(selects_filled_cells(conn, row, cols));
    }
}

/// The parent that the initial import attaches an item to, by visible id: an item that
/// names itself as its parent is a top-level item and hangs under `ROOT`.
pub open spec fn import_parent(item: InsertData) -> Seq<char> {
    if item.visible_id@ == item.parent_visible_id@ {
        "ROOT"@
    } else {
        item.parent_visible_id@
    }
}

/// The tree relations that the initial import creates, as (child, parent) visible ids:
/// first the root's relation to itself, then one relation for each item, in order.
pub fn tree_relations(data: &Vec<InsertData>) -> (r: Vec<(String, String)>)
    ensures
        r.len() == data.len() + 1,
        r@[0].0@ == "ROOT"@,
        r@[0].1@ == "ROOT"@,
        forall|k: int|
            0 <= k < data.len() ==> (#[trigger] r@[k + 1]).0@ == data@[k].visible_id@ && r@[k
                + 1].1@ == import_parent(data@[k]),
        forall|k: int|
            0 <= k < data.len() && data@[k].visible_id@ == data@[k].parent_visible_id@ ==> (#[trigger] r@[k
                + 1]).1@ == "ROOT"@,
        forall|k: int|
            0 <= k < data.len() && data@[k].visible_id@ != data@[k].parent_visible_id@ ==> (#[trigger] r@[k
                + 1]).1@ == data@[k].parent_visible_id@,
{
    let mut relations: Vec<(String, String)> = Vec::new();
    relations.push((String::from_str("ROOT"), String::from_str("ROOT")));
    let mut k: usize = 0;
    while k < data.len()
        invariant
            k <= data.len(),
            relations.len() == k + 1,
            relations@[0].0@ == "ROOT"@,
            relations@[0].1@ == "ROOT"@,
            forall|j: int|
                0 <= j < k ==> (#[trigger] relations@[j + 1]).0@ == data@[j].visible_id@
                    && relations@[j + 1].1@ == import_parent(data@[j]),
        decreases data.len() - k,
    {
        let item = &data[k];
        let parent = if text_eq(item.visible_id.as_str(), item.parent_visible_id.as_str()) {
            String::from_str("ROOT")
        } else {
            item.parent_visible_id.clone()
        };
        relations.push((item.visible_id.clone(), parent));
        k = k + 1;
    }
    relations
}

/// The labels that the initial import stores: the purple `ROOT` label first, then the
/// label of each item with its colour, in order.
pub fn initial_labels(data: &Vec<InsertData>) -> (r: Vec<Label>)
    ensures
        r.len() == data.len() + 1,
        r@[0].visible_id@ == "ROOT"@,
        r@[0].color == Color::Purple,
        forall|k: int|
            0 <= k < data.len() ==> (#[trigger] r@[k + 1]).visible_id@ == data@[k].visible_id@
                && r@[k + 1].color == data@[k].color,
{
    let mut labels: Vec<Label> = Vec::new();
    labels.push(Label { visible_id: String::from_str("ROOT"), color: Color::Purple });
    let mut k: usize = 0;
    while k < data.len()
        invariant
            k <= data.len(),
            labels.len() == k + 1,
            labels@[0].visible_id@ == "ROOT"@,
            labels@[0].color == Color::Purple,
            forall|j: int|
                0 <= j < k ==> (#[trigger] labels@[j + 1]).visible_id@ == data@[j].visible_id@
                    && labels@[j + 1].color == data@[j].color,
        decreases data.len() - k,
    {
        labels.push(Label { visible_id: data[k].visible_id.clone(), color: data[k].color });
        k = k + 1;
    }
    labels
}

} // verus!
