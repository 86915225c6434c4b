use docx_tool::cell::Cell;
use docx_tool::db::DocxDb;
use docx_tool::model::Document;
use docx_tool::rows::{DataType, Schema};
use docx_tool::tables::Tables;

fn column_names(s: &Schema) -> Vec<String> {
    s.column_defs.iter().map(|c| c.name.clone()).collect()
}

#[test]
fn component_names() {
    assert_eq!(Tables.table_name(), "tables");
    assert_eq!(Cell.table_name(), "cell");
}

#[test]
fn tables_schema_columns() {
    let schemas = Tables.fetch_all_schemas();
    assert_eq!(schemas.len(), 1);
    let s = &schemas[0];
    assert_eq!(s.table_name, "tables");
    assert_eq!(
        column_names(s),
        vec![
            "hash",
            "row_number",
            "column_number",
            "width",
            "width_type",
            "justification",
            "borders_top",
            "borders_left",
            "borders_bottom",
            "borders_right",
            "borders_inside_h",
            "borders_inside_v",
            "json_content",
        ]
    );
    assert!(matches!(s.column_defs[0].data_type, DataType::Text));
    assert!(!s.column_defs[0].nullable);
    assert!(matches!(s.column_defs[1].data_type, DataType::Uint32));
    assert!(!s.column_defs[1].nullable);
    assert!(matches!(s.column_defs[3].data_type, DataType::Uint32));
    assert!(s.column_defs[3].nullable);
    assert!(s.column_defs[6].nullable);
    assert!(!s.column_defs[12].nullable);
}

#[test]
fn cell_schema_columns() {
    let schemas = Cell.fetch_all_schemas();
    assert_eq!(schemas.len(), 1);
    let s = &schemas[0];
    assert_eq!(s.table_name, "cell");
    assert_eq!(
        column_names(s),
        vec![
            "hash",
            "table_hash",
            "content",
            "width",
            "width_type",
            "borders_top",
            "borders_left",
            "borders_bottom",
            "borders_right",
            "borders_inside_h",
            "borders_inside_v",
            "json_content",
        ]
    );
    assert!(matches!(s.column_defs[1].data_type, DataType::Text));
    assert!(!s.column_defs[1].nullable);
    assert!(s.column_defs[2].nullable);
}

#[test]
fn facade_schema_union_and_lookup() {
    let db = DocxDb::new(Document::new());
    let all = db.fetch_all_schemas().unwrap();
    assert_eq!(all.len(), 2);
    assert_eq!(all[0].table_name, "tables");
    assert_eq!(all[1].table_name, "cell");

    let t = db.fetch_schema("tables").unwrap().expect("tables schema");
    assert_eq!(t.table_name, "tables");
    let c = db.fetch_schema("cell").unwrap().expect("cell schema");
    assert_eq!(c.table_name, "cell");
    assert!(db.fetch_schema("x").unwrap().is_none());
}
