use docx_tool::db::DocxDb;
use docx_tool::hashing::{cell_content_hash, table_content_hash};
use docx_tool::model::{
    Border, BorderPos, Borders, CellChild, CellProps, DocChild, Document, ParaChild, Paragraph,
    Run, RunChild, Table, TableAlign, TableCell, TableProps, TableRow, WidthKind, WidthSetting,
};
use docx_tool::rows::{Key, Row, StoreError, Value};

fn text_cell(texts: &[&str]) -> TableCell {
    let runs: Vec<ParaChild> = texts
        .iter()
        .map(|t| {
            ParaChild::Run(Run { children: vec![RunChild::Text(t.to_string())] })
        })
        .collect();
    TableCell {
        children: vec![CellChild::Paragraph(Paragraph { children: runs })],
        property: CellProps::new(),
    }
}

fn plain_table(rows: usize, cols: usize) -> Table {
    let mut trows = Vec::new();
    for r in 0..rows {
        let mut cells = Vec::new();
        for c in 0..cols {
            cells.push(text_cell(&[&format!("r{r}c{c}")]));
        }
        trows.push(TableRow { cells });
    }
    Table { rows: trows, property: TableProps::new() }
}

fn one_table_doc(t: Table) -> Document {
    Document { children: vec![DocChild::Table(t)] }
}

fn get_value<'a>(row: &'a Row, name: &str) -> &'a Value {
    row.get(name).expect("column missing")
}

fn get_str(row: &Row, name: &str) -> String {
    match get_value(row, name) {
        Value::Str(s) => s.clone(),
        other => panic!("expected text in {name}, got {other:?}"),
    }
}

fn get_u32(row: &Row, name: &str) -> u32 {
    match get_value(row, name) {
        Value::U32(n) => *n,
        other => panic!("expected u32 in {name}, got {other:?}"),
    }
}

fn is_null(row: &Row, name: &str) -> bool {
    matches!(get_value(row, name), Value::Null)
}

fn update_row(cols: &[(&str, Value)]) -> Row {
    Row {
        entries: cols.iter().map(|(n, v)| (n.to_string(), clone_value(v))).collect(),
    }
}

fn clone_value(v: &Value) -> Value {
    match v {
        Value::Str(s) => Value::Str(s.clone()),
        Value::U32(n) => Value::U32(*n),
        Value::Null => Value::Null,
    }
}

#[test]
fn hash_is_deterministic() {
    let t = plain_table(2, 2);
    let h1 = table_content_hash(&t);
    let h2 = table_content_hash(&t);
    assert_eq!(h1, h2);
    let c = text_cell(&["x"]);
    assert_eq!(cell_content_hash(&c), cell_content_hash(&c));
}

#[test]
fn hash_is_hex_of_fixed_width() {
    let t = plain_table(1, 1);
    let h = table_content_hash(&t);
    assert_eq!(h.len(), 64);
    assert!(h.chars().all(|c| c.is_ascii_hexdigit() && !c.is_ascii_uppercase()));
}

#[test]
fn hash_changes_with_each_style_field() {
    let base = plain_table(1, 1);
    let h0 = table_content_hash(&base);

    let mut with_width = plain_table(1, 1);
    with_width.property.width = Some(WidthSetting { width: 100, kind: WidthKind::Dxa });
    assert_ne!(h0, table_content_hash(&with_width));

    let mut other_width = plain_table(1, 1);
    other_width.property.width = Some(WidthSetting { width: 101, kind: WidthKind::Dxa });
    assert_ne!(table_content_hash(&with_width), table_content_hash(&other_width));

    let mut other_kind = plain_table(1, 1);
    other_kind.property.width = Some(WidthSetting { width: 100, kind: WidthKind::Pct });
    assert_ne!(table_content_hash(&with_width), table_content_hash(&other_kind));

    let mut with_align = plain_table(1, 1);
    with_align.property.justification = Some(TableAlign::Center);
    assert_ne!(h0, table_content_hash(&with_align));

    let mut with_border = plain_table(1, 1);
    with_border.property.borders.set(
        BorderPos::Top,
        Border { color: "ff0000".to_string(), size: 4, kind: "single".to_string() },
    );
    assert_ne!(h0, table_content_hash(&with_border));

    let mut other_border = plain_table(1, 1);
    other_border.property.borders.set(
        BorderPos::Top,
        Border { color: "ff0001".to_string(), size: 4, kind: "single".to_string() },
    );
    assert_ne!(table_content_hash(&with_border), table_content_hash(&other_border));
}

#[test]
fn hash_changes_with_content() {
    let a = text_cell(&["foo"]);
    let b = text_cell(&["bar"]);
    assert_ne!(cell_content_hash(&a), cell_content_hash(&b));
}

#[test]
fn width_round_trip_through_scan() {
    let mut db = DocxDb::new(one_table_doc(plain_table(1, 1)));
    let rows = db.scan_data("tables").unwrap();
    assert_eq!(rows.len(), 1);
    let key: Key = rows[0].0.clone();

    let update = update_row(&[
        ("width", Value::U32(100)),
        ("width_type", Value::Str("dxa".to_string())),
    ]);
    db.insert_data("tables", vec![(key, update)]).unwrap();

    let rows = db.scan_data("tables").unwrap();
    assert_eq!(rows.len(), 1);
    assert_eq!(get_u32(&rows[0].1, "width"), 100);
    assert_eq!(get_str(&rows[0].1, "width_type"), "dxa");
}

#[test]
fn width_alone_carries_unsupported_kind() {
    let mut db = DocxDb::new(one_table_doc(plain_table(1, 1)));
    let key = db.scan_data("tables").unwrap()[0].0.clone();
    db.insert_data("tables", vec![(key, update_row(&[("width", Value::U32(7))]))]).unwrap();
    let rows = db.scan_data("tables").unwrap();
    assert_eq!(get_u32(&rows[0].1, "width"), 7);
    assert_eq!(get_str(&rows[0].1, "width_type"), "unsupported");
}

#[test]
fn width_type_alone_carries_zero_width() {
    let mut db = DocxDb::new(one_table_doc(plain_table(1, 1)));
    let key = db.scan_data("tables").unwrap()[0].0.clone();
    db.insert_data(
        "tables",
        vec![(key, update_row(&[("width_type", Value::Str("pct".to_string()))]))],
    )
    .unwrap();
    let rows = db.scan_data("tables").unwrap();
    assert_eq!(get_u32(&rows[0].1, "width"), 0);
    assert_eq!(get_str(&rows[0].1, "width_type"), "pct");
}

#[test]
fn justification_update_and_silent_skip() {
    let mut db = DocxDb::new(one_table_doc(plain_table(1, 1)));
    let key = db.scan_data("tables").unwrap()[0].0.clone();
    db.insert_data(
        "tables",
        vec![(key, update_row(&[("justification", Value::Str("center".to_string()))]))],
    )
    .unwrap();
    let rows = db.scan_data("tables").unwrap();
    assert_eq!(get_str(&rows[0].1, "justification"), "center");

    let key = rows[0].0.clone();
    db.insert_data(
        "tables",
        vec![(key, update_row(&[("justification", Value::Str("diagonal".to_string()))]))],
    )
    .unwrap();
    let rows = db.scan_data("tables").unwrap();
    assert_eq!(get_str(&rows[0].1, "justification"), "center");
}

#[test]
fn border_merge_keeps_other_positions() {
    let mut db = DocxDb::new(one_table_doc(plain_table(1, 1)));
    let key = db.scan_data("tables").unwrap()[0].0.clone();
    db.insert_data(
        "tables",
        vec![(
            key,
            update_row(&[(
                "borders_left",
                Value::Str("{\"size\":9,\"color\":\"00ff00\"}".to_string()),
            )]),
        )],
    )
    .unwrap();
    let before = db.scan_data("tables").unwrap();
    let left_before = get_str(&before[0].1, "borders_left");
    assert!(is_null(&before[0].1, "borders_top"));
    assert!(is_null(&before[0].1, "borders_bottom"));

    let key = before[0].0.clone();
    db.insert_data(
        "tables",
        vec![(
            key,
            update_row(&[(
                "borders_top",
                Value::Str("{\"size\":50,\"color\":\"ff0000\"}".to_string()),
            )]),
        )],
    )
    .unwrap();
    let after = db.scan_data("tables").unwrap();
    assert_eq!(get_str(&after[0].1, "borders_left"), left_before);
    assert!(is_null(&after[0].1, "borders_bottom"));
    assert!(is_null(&after[0].1, "borders_right"));
    assert!(is_null(&after[0].1, "borders_inside_h"));
    assert!(is_null(&after[0].1, "borders_inside_v"));
    let top = get_str(&after[0].1, "borders_top");
    let parsed: serde_json::Value = serde_json::from_str(&top).unwrap();
    assert_eq!(parsed.get("color").unwrap().as_str().unwrap(), "ff0000");
    assert_eq!(parsed.get("size").unwrap().as_u64().unwrap(), 50);
}

#[test]
fn projection_completeness_two_by_three() {
    let db = DocxDb::new(one_table_doc(plain_table(2, 3)));
    let tables = db.scan_data("tables").unwrap();
    assert_eq!(tables.len(), 1);
    assert_eq!(get_u32(&tables[0].1, "row_number"), 2);
    assert_eq!(get_u32(&tables[0].1, "column_number"), 3);
    let table_hash = get_str(&tables[0].1, "hash");
    assert_eq!(table_hash, tables[0].0);

    let cells = db.scan_data("cell").unwrap();
    assert_eq!(cells.len(), 6);
    for (_, row) in &cells {
        assert_eq!(get_str(row, "table_hash"), table_hash);
    }
}

#[test]
fn unsupported_writes_are_reported_and_leave_document_unchanged() {
    let mut db = DocxDb::new(one_table_doc(plain_table(1, 2)));
    let before: Vec<Key> = db.scan_data("tables").unwrap().into_iter().map(|p| p.0).collect();

    assert!(matches!(db.delete_data("tables", vec![]), Err(StoreError::DeleteDataUnsupported)));
    assert!(matches!(db.delete_data("cell", vec![]), Err(StoreError::DeleteDataUnsupported)));
    let fake = docx_tool::rows::Schema { table_name: "t".to_string(), column_defs: vec![] };
    assert!(matches!(db.insert_schema(&fake), Err(StoreError::InsertSchemaUnsupported)));
    assert!(matches!(db.delete_schema("tables"), Err(StoreError::DeleteSchemaUnsupported)));
    assert!(matches!(db.append_data("tables", vec![]), Err(StoreError::AppendDataUnsupported)));

    let after: Vec<Key> = db.scan_data("tables").unwrap().into_iter().map(|p| p.0).collect();
    assert_eq!(before, after);
}

#[test]
fn error_messages_match_storage_wording() {
    assert_eq!(
        StoreError::InsertSchemaUnsupported.message(),
        "[Storage] StoreMut::insert_schema is not supported"
    );
    assert_eq!(
        StoreError::DeleteSchemaUnsupported.message(),
        "[Storage] StoreMut::delete_schema is not supported"
    );
    assert_eq!(
        StoreError::AppendDataUnsupported.message(),
        "[Storage] StoreMut::append_data is not supported"
    );
    assert_eq!(
        StoreError::DeleteDataUnsupported.message(),
        "[Storage] StoreMut::delete_data is not supported"
    );
}

#[test]
fn unknown_table_scans_empty_and_fetches_nothing() {
    let mut db = DocxDb::new(one_table_doc(plain_table(1, 1)));
    assert!(db.scan_data("x").unwrap().is_empty());
    let key: Key = "anything".to_string();
    assert!(db.fetch_data("x", &key).unwrap().is_none());
    // A write to an unrelated table succeeds without touching anything.
    let before = db.scan_data("tables").unwrap()[0].0.clone();
    db.insert_data("x", vec![(before.clone(), update_row(&[("width", Value::U32(9))]))])
        .unwrap();
    assert_eq!(db.scan_data("tables").unwrap()[0].0, before);
}

#[test]
fn fetch_finds_by_hash() {
    let db = DocxDb::new(one_table_doc(plain_table(1, 2)));
    let cells = db.scan_data("cell").unwrap();
    let key = cells[1].0.clone();
    let row = db.fetch_data("cell", &key).unwrap().expect("row should be found");
    assert_eq!(get_str(&row, "hash"), key);
    let missing: Key = "0000".to_string();
    assert!(db.fetch_data("cell", &missing).unwrap().is_none());
}

#[test]
fn content_concatenates_runs_without_separator() {
    let cell = text_cell(&["foo", "bar"]);
    let t = Table { rows: vec![TableRow { cells: vec![cell] }], property: TableProps::new() };
    let db = DocxDb::new(one_table_doc(t));
    let cells = db.scan_data("cell").unwrap();
    assert_eq!(cells.len(), 1);
    assert_eq!(get_str(&cells[0].1, "content"), "foobar");
}

#[test]
fn cell_border_update_keeps_content() {
    // A 1x1 table whose cell holds "hello"; set its top border by its
    // own hash, then re-scan.
    let t = Table {
        rows: vec![TableRow { cells: vec![text_cell(&["hello"])] }],
        property: TableProps::new(),
    };
    let mut db = DocxDb::new(one_table_doc(t));
    let cells = db.scan_data("cell").unwrap();
    assert_eq!(cells.len(), 1);
    let key = cells[0].0.clone();
    db.insert_data(
        "cell",
        vec![(
            key,
            update_row(&[(
                "borders_top",
                Value::Str("{\"size\":50,\"color\":\"ff0000\"}".to_string()),
            )]),
        )],
    )
    .unwrap();
    let cells = db.scan_data("cell").unwrap();
    assert_eq!(cells.len(), 1);
    assert_eq!(get_str(&cells[0].1, "content"), "hello");
    let top = get_str(&cells[0].1, "borders_top");
    let parsed: serde_json::Value = serde_json::from_str(&top).unwrap();
    assert_eq!(parsed.get("size").unwrap().as_u64().unwrap(), 50);
    assert_eq!(parsed.get("color").unwrap().as_str().unwrap(), "ff0000");
}

#[test]
fn border_fields_default_when_absent_or_unknown() {
    let mut db = DocxDb::new(one_table_doc(plain_table(1, 1)));
    let key = db.scan_data("tables").unwrap()[0].0.clone();
    // No recognizable fields at all: the border still gets the document
    // format's defaults.
    db.insert_data(
        "tables",
        vec![(
            key,
            update_row(&[(
                "borders_top",
                Value::Str("{\"borderType\":\"zigzag\"}".to_string()),
            )]),
        )],
    )
    .unwrap();
    let rows = db.scan_data("tables").unwrap();
    let top = get_str(&rows[0].1, "borders_top");
    let parsed: serde_json::Value = serde_json::from_str(&top).unwrap();
    assert_eq!(parsed.get("color").unwrap().as_str().unwrap(), "000000");
    assert_eq!(parsed.get("size").unwrap().as_u64().unwrap(), 2);
    assert_eq!(parsed.get("borderType").unwrap().as_str().unwrap(), "single");
}

#[test]
fn border_json_escapes_quotes() {
    let mut t = plain_table(1, 1);
    t.property.borders.set(
        BorderPos::Top,
        Border { color: "a\"b\\c".to_string(), size: 1, kind: "single".to_string() },
    );
    let db = DocxDb::new(one_table_doc(t));
    let rows = db.scan_data("tables").unwrap();
    let top = get_str(&rows[0].1, "borders_top");
    let parsed: serde_json::Value = serde_json::from_str(&top).unwrap();
    assert_eq!(parsed.get("color").unwrap().as_str().unwrap(), "a\"b\\c");
}

#[test]
fn batched_updates_apply_in_order_against_entry_hash() {
    // Two rows keyed by the same (pre-update) hash both apply: the
    // element's hash is computed once, before its updates.
    let mut db = DocxDb::new(one_table_doc(plain_table(1, 1)));
    let key = db.scan_data("tables").unwrap()[0].0.clone();
    db.insert_data(
        "tables",
        vec![
            (key.clone(), update_row(&[("width", Value::U32(10))])),
            (key, update_row(&[("width", Value::U32(20))])),
        ],
    )
    .unwrap();
    let rows = db.scan_data("tables").unwrap();
    assert_eq!(get_u32(&rows[0].1, "width"), 20);
}

#[test]
fn scan_skips_non_table_children() {
    let doc = Document {
        children: vec![DocChild::Other, DocChild::Table(plain_table(1, 1)), DocChild::Other],
    };
    let db = DocxDb::new(doc);
    assert_eq!(db.scan_data("tables").unwrap().len(), 1);
    assert_eq!(db.scan_data("cell").unwrap().len(), 1);
}

#[test]
fn empty_style_bag_projects_documented_defaults() {
    let db = DocxDb::new(one_table_doc(plain_table(1, 1)));
    let rows = db.scan_data("tables").unwrap();
    let row = &rows[0].1;
    assert_eq!(get_u32(row, "width"), 0);
    assert_eq!(get_str(row, "width_type"), "");
    assert_eq!(get_str(row, "justification"), "");
    assert!(is_null(row, "borders_top"));
    assert!(is_null(row, "borders_left"));
    assert!(is_null(row, "borders_bottom"));
    assert!(is_null(row, "borders_right"));
    assert!(is_null(row, "borders_inside_h"));
    assert!(is_null(row, "borders_inside_v"));
}

#[test]
fn empty_document_scans_empty() {
    let db = DocxDb::new(Document::new());
    assert!(db.scan_data("tables").unwrap().is_empty());
    assert!(db.scan_data("cell").unwrap().is_empty());
}
