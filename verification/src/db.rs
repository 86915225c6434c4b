//! The adapter facade: one object owning the document model,
//! dispatching each storage-interface call to the "tables" or "cell"
//! component by virtual table name. Unknown names scan empty, fetch
//! nothing, and accept writes as no-ops; the write operations with no
//! mapping are reported as unsupported and leave the document
//! untouched.
use vstd::prelude::*;

use crate::cell::{Cell, apply_updates_cells, cell_schema_cols, spec_scan_cells};
use crate::model::{DocChildV, Document};
use crate::rows::{
    Key, Row, RowV, ScanV, Schema, StoreError, kv_views, opt_row_view, spec_find_row, str_eq,
};
use crate::tables::{Tables, apply_updates_tables, spec_scan_tables, tables_schema_cols};

verus! {

/// What a scan of the virtual table `name` yields: the tables rows, the
/// cell rows, or nothing for an unknown name.
pub open spec fn spec_dispatch_scan(children: Seq<DocChildV>, name: Seq<char>) -> ScanV {
    if name == "tables"@ {
        spec_scan_tables(children)
    } else if name == "cell"@ {
        spec_scan_cells(children)
    } else {
        Seq::empty()
    }
}

/// What a fetch by key from the virtual table `name` yields: the first
/// scanned row with that key, or nothing for an unknown name.
pub open spec fn spec_dispatch_fetch(
    children: Seq<DocChildV>,
    name: Seq<char>,
    key: Seq<char>,
) -> Option<RowV> {
    if name == "tables"@ || name == "cell"@ {
        spec_find_row(spec_dispatch_scan(children, name), key)
    } else {
        Option::None
    }
}

/// What the document body becomes under an update batch addressed to
/// the virtual table `name`: an unknown name changes nothing.
pub open spec fn spec_dispatch_update(
    children: Seq<DocChildV>,
    name: Seq<char>,
    rs: ScanV,
) -> Seq<DocChildV> {
    if name == "tables"@ {
        apply_updates_tables(children, rs)
    } else if name == "cell"@ {
        apply_updates_cells(children, rs)
    } else {
        children
    }
}

/// The relational view of one document: owns the live document model
/// for the duration of the session and serves every call against its
/// current state.
pub struct DocxDb {
    pub docx: Document,
    pub tables: Tables,
    pub cell: Cell,
}

impl DocxDb {
    /// Wraps a document model for querying and updating.
    pub fn new(docx: Document) -> (r: DocxDb)
        ensures
            r.docx == docx,
    {
        DocxDb { docx, tables: Tables, cell: Cell }
    }

    /// Hands the document model back.
    pub fn into_document(self) -> (r: Document)
        ensures
            r == self.docx,
    {
        self.docx
    }

    /// The schema of one virtual table, by name.
    pub fn fetch_schema(&self, table_name: &str) -> (r: Result<Option<Schema>, StoreError>)
        ensures
            r matches Ok(s) && match s {
                Option::Some(x) => (table_name@ == "tables"@ && x@.table_name == "tables"@
                    && x@.column_defs == tables_schema_cols()) || (table_name@ == "cell"@
                    && x@.table_name == "cell"@ && x@.column_defs == cell_schema_cols()),
                Option::None => table_name@ != "tables"@ && table_name@ != "cell"@,
            },
    {
        if str_eq(table_name, "tables") {
            let mut v = self.tables.fetch_all_schemas();
            let s = v.remove(0);
            Ok(Some(s))
        } else if str_eq(table_name, "cell") {
            let mut v = self.cell.fetch_all_schemas();
            let s = v.remove(0);
            Ok(Some(s))
        } else {
            Ok(None)
        }
    }

    /// The union of both components' schemas.
    pub fn fetch_all_schemas(&self) -> (r: Result<Vec<Schema>, StoreError>)
        ensures
            r matches Ok(v) && v@.len() == 2 && v@[0]@.table_name == "tables"@
                && v@[0]@.column_defs == tables_schema_cols() && v@[1]@.table_name == "cell"@
                && v@[1]@.column_defs == cell_schema_cols(),
    {
        let mut schemas = self.tables.fetch_all_schemas();
        let mut more = self.cell.fetch_all_schemas();
        schemas.append(&mut more);
        Ok(schemas)
    }

    /// Fetch by key, dispatched by table name; an unknown name yields
    /// nothing.
    pub fn fetch_data(&self, table_name: &str, key: &Key) -> (r: Result<Option<Row>, StoreError>)
        ensures
            r matches Ok(found) && opt_row_view(found) == spec_dispatch_fetch(
                self.docx@.children,
                table_name@,
                key@,
            ),
    {
        if str_eq(table_name, "tables") {
            self.tables.fetch_data(&self.docx, key)
        } else if str_eq(table_name, "cell") {
            self.cell.fetch_data(&self.docx, key)
        } else {
            Ok(None)
        }
    }

    /// Scan, dispatched by table name; an unknown name scans empty.
    pub fn scan_data(&self, table_name: &str) -> (r: Result<Vec<(Key, Row)>, StoreError>)
        ensures
            r matches Ok(rows) && kv_views(rows@) == spec_dispatch_scan(
                self.docx@.children,
                table_name@,
            ),
    {
        if str_eq(table_name, "tables") {
            self.tables.scan_data(&self.docx)
        } else if str_eq(table_name, "cell") {
            self.cell.scan_data(&self.docx)
        } else {
            let empty: Vec<(Key, Row)> = Vec::new();
            proof {
                assert(kv_views(empty@) =~= Seq::<(Seq<char>, RowV)>::empty());
            }
            Ok(empty)
        }
    }

    /// Schema creation has no mapping: reported, never silently
    /// applied; the document is untouched.
    pub fn insert_schema(&mut self, _schema: &Schema) -> (r: Result<(), StoreError>)
        ensures
            r == Result::<(), StoreError>::Err(StoreError::InsertSchemaUnsupported),
            *final(self) == *old(self),
    {
        Err(StoreError::InsertSchemaUnsupported)
    }

    /// Schema deletion has no mapping: reported; the document is
    /// untouched.
    pub fn delete_schema(&mut self, _table_name: &str) -> (r: Result<(), StoreError>)
        ensures
            r == Result::<(), StoreError>::Err(StoreError::DeleteSchemaUnsupported),
            *final(self) == *old(self),
    {
        Err(StoreError::DeleteSchemaUnsupported)
    }

    /// Row append has no mapping: reported; the document is untouched.
    pub fn append_data(&mut self, _table_name: &str, _rows: Vec<Row>) -> (r: Result<
        (),
        StoreError,
    >)
        ensures
            r == Result::<(), StoreError>::Err(StoreError::AppendDataUnsupported),
            *final(self) == *old(self),
    {
        Err(StoreError::AppendDataUnsupported)
    }

    /// Applies an update batch to the named virtual table; writes to
    /// unknown tables succeed without touching the document, so
    /// unrelated-table writes never fail the caller.
    pub fn insert_data(&mut self, table_name: &str, rows: Vec<(Key, Row)>) -> (r: Result<
        (),
        StoreError,
    >)
        ensures
            r is Ok,
            final(self).docx@.children == spec_dispatch_update(
                old(self).docx@.children,
                table_name@,
                kv_views(rows@),
            ),
    {
        if str_eq(table_name, "tables") {
            self.tables.insert_data(&mut self.docx, rows)
        } else if str_eq(table_name, "cell") {
            self.cell.insert_data(&mut self.docx, rows)
        } else {
            Ok(())
        }
    }

    /// Row deletion has no mapping: reported for every table name,
    /// known or not; the document is untouched.
    pub fn delete_data(&mut self, _table_name: &str, _keys: Vec<Key>) -> (r: Result<
        (),
        StoreError,
    >)
        ensures
            r == Result::<(), StoreError>::Err(StoreError::DeleteDataUnsupported),
            *final(self) == *old(self),
    {
        Err(StoreError::DeleteDataUnsupported)
    }
}

} // verus!
