//! The "tables" virtual table: one row per top-level table of the
//! document, keyed by the table's content hash, with its dimensions and
//! style fields flattened into scalar columns; and the write path that
//! locates a table by hash and rewrites one style property per column.
use vstd::prelude::*;

use crate::borders::{
    border_pos_of, border_to_json, build_border, border_fields_of, parse_border_fields,
    spec_border_json, spec_border_pos_of, spec_build_border,
};
use crate::hashing::{spec_table_hash, table_content_hash};
use crate::model::{
    BorderV, DocChild, DocChildV, Document, Table, TableAlign, TablePropsV, TableV,
    WidthKind, WidthSetting, spec_align_str, spec_borders_set, spec_parse_align,
    spec_parse_width_kind, spec_width_kind_str,
};
use crate::rows::{
    ColumnDef, ColumnDefV, DataType, Key, Row, RowV, ScanV, Schema, StoreError, Value, ValueV,
    kv_views, opt_row_view, spec_find_row, str_eq,
};

verus! {

/// The column-number of a table: the cell count of its first row, or 0
/// for a table with no rows.
pub open spec fn spec_column_count(t: TableV) -> int {
    if t.rows.len() > 0 {
        t.rows[0].cells.len() as int
    } else {
        0
    }
}

/// The column value a scan shows for a border position: its JSON text
/// when the border is set, null when it is absent.
pub open spec fn border_col_val(b: Option<BorderV>) -> ValueV {
    match b {
        Option::Some(x) => ValueV::Str(spec_border_json(x)),
        Option::None => ValueV::Null,
    }
}

/// The row projected for one table: its hash, dimensions, and style
/// fields. Width defaults to 0 and width type and justification to the
/// empty string when absent, while absent borders project as null; this
/// asymmetry is deliberate and preserved.
pub open spec fn tables_row_spec(t: TableV) -> RowV {
    seq![
        ("hash"@, ValueV::Str(spec_table_hash(t))),
        ("row_number"@, ValueV::U32(t.rows.len() as u32)),
        ("column_number"@, ValueV::U32(spec_column_count(t) as u32)),
        (
            "width"@,
            ValueV::U32(
                match t.property.width {
                    Option::Some(ws) => ws.width,
                    Option::None => 0,
                },
            ),
        ),
        (
            "width_type"@,
            ValueV::Str(
                match t.property.width {
                    Option::Some(ws) => spec_width_kind_str(ws.kind),
                    Option::None => ""@,
                },
            ),
        ),
        (
            "justification"@,
            ValueV::Str(
                match t.property.justification {
                    Option::Some(a) => spec_align_str(a),
                    Option::None => ""@,
                },
            ),
        ),
        ("borders_top"@, border_col_val(t.property.borders.top)),
        ("borders_left"@, border_col_val(t.property.borders.left)),
        ("borders_bottom"@, border_col_val(t.property.borders.bottom)),
        ("borders_right"@, border_col_val(t.property.borders.right)),
        ("borders_inside_h"@, border_col_val(t.property.borders.inside_h)),
        ("borders_inside_v"@, border_col_val(t.property.borders.inside_v)),
    ]
}

/// The whole scan of the "tables" virtual table: one keyed row per
/// top-level table, in document order; other children contribute
/// nothing.
pub open spec fn spec_scan_tables(children: Seq<DocChildV>) -> ScanV
    decreases children.len(),
{
    if children.len() == 0 {
        Seq::empty()
    } else {
        spec_scan_tables(children.drop_last()) + (match children.last() {
            DocChildV::Table(t) => seq![(spec_table_hash(t), tables_row_spec(t))],
            DocChildV::Other => Seq::empty(),
        })
    }
}

/// The width kind an update carries forward when it replaces the width
/// value alone: the current kind, or the unsupported kind where no
/// width is set.
pub open spec fn cur_kind(p: TablePropsV) -> WidthKind {
    match p.width {
        Option::Some(ws) => ws.kind,
        Option::None => WidthKind::Unsupported,
    }
}

/// The width value an update carries forward when it replaces the width
/// type alone: the current width, or 0 where no width is set.
pub open spec fn cur_width(p: TablePropsV) -> u32 {
    match p.width {
        Option::Some(ws) => ws.width,
        Option::None => 0,
    }
}

/// One column update on a table's style bag. Exactly one property is
/// replaced per recognized column; a value of the wrong type, an
/// unparseable justification, and an unknown column leave the bag
/// unchanged.
pub open spec fn apply_col_t(p: TablePropsV, name: Seq<char>, v: ValueV) -> TablePropsV {
    if name == "width"@ {
        match v {
            ValueV::U32(w) => TablePropsV {
                width: Option::Some(WidthSetting { width: w, kind: cur_kind(p) }),
                ..p
            },
            _ => p,
        }
    } else if name == "width_type"@ {
        match v {
            ValueV::Str(s) => TablePropsV {
                width: Option::Some(
                    WidthSetting { width: cur_width(p), kind: spec_parse_width_kind(s) },
                ),
                ..p
            },
            _ => p,
        }
    } else if name == "justification"@ {
        match v {
            ValueV::Str(s) => match spec_parse_align(s) {
                Option::Some(a) => TablePropsV { justification: Option::Some(a), ..p },
                Option::None => p,
            },
            _ => p,
        }
    } else {
        match spec_border_pos_of(name) {
            Option::Some(pos) => match v {
                ValueV::Str(s) => TablePropsV {
                    borders: spec_borders_set(
                        p.borders,
                        pos,
                        spec_build_border(border_fields_of(s)),
                    ),
                    ..p
                },
                _ => p,
            },
            Option::None => p,
        }
    }
}

/// A whole update row applied to a table's style bag, column by column
/// in row order.
pub open spec fn apply_entries_t(p: TablePropsV, es: RowV) -> TablePropsV
    decreases es.len(),
{
    if es.len() == 0 {
        p
    } else {
        apply_col_t(apply_entries_t(p, es.drop_last()), es.last().0, es.last().1)
    }
}

/// A whole update batch applied to a table's style bag: every row keyed
/// by `h` — the table's hash computed once, before its updates — is
/// applied, in batch order.
pub open spec fn apply_rows_t(p: TablePropsV, h: Seq<char>, rs: ScanV) -> TablePropsV
    decreases rs.len(),
{
    if rs.len() == 0 {
        p
    } else {
        let q = apply_rows_t(p, h, rs.drop_last());
        if rs.last().0 == h {
            apply_entries_t(q, rs.last().1)
        } else {
            q
        }
    }
}

/// What one document child becomes under an update batch: a table keeps
/// its rows and gets its style bag rewritten; anything else is
/// untouched.
pub open spec fn apply_child_t(c: DocChildV, rs: ScanV) -> DocChildV {
    match c {
        DocChildV::Table(t) => DocChildV::Table(
            TableV { rows: t.rows, property: apply_rows_t(t.property, spec_table_hash(t), rs) },
        ),
        DocChildV::Other => DocChildV::Other,
    }
}

/// What the whole document body becomes under an update batch on the
/// "tables" virtual table.
pub open spec fn apply_updates_tables(children: Seq<DocChildV>, rs: ScanV) -> Seq<DocChildV> {
    children.map_values(|c: DocChildV| apply_child_t(c, rs))
}

/// The fixed columns of the "tables" schema.
pub open spec fn tables_schema_cols() -> Seq<ColumnDefV> {
    seq![
        ColumnDefV { name: "hash"@, data_type: DataType::Text, nullable: false },
        ColumnDefV { name: "row_number"@, data_type: DataType::Uint32, nullable: false },
        ColumnDefV { name: "column_number"@, data_type: DataType::Uint32, nullable: false },
        ColumnDefV { name: "width"@, data_type: DataType::Uint32, nullable: true },
        ColumnDefV { name: "width_type"@, data_type: DataType::Text, nullable: true },
        ColumnDefV { name: "justification"@, data_type: DataType::Text, nullable: true },
        ColumnDefV { name: "borders_top"@, data_type: DataType::Text, nullable: true },
        ColumnDefV { name: "borders_left"@, data_type: DataType::Text, nullable: true },
        ColumnDefV { name: "borders_bottom"@, data_type: DataType::Text, nullable: true },
        ColumnDefV { name: "borders_right"@, data_type: DataType::Text, nullable: true },
        ColumnDefV { name: "borders_inside_h"@, data_type: DataType::Text, nullable: true },
        ColumnDefV { name: "borders_inside_v"@, data_type: DataType::Text, nullable: true },
        ColumnDefV { name: "json_content"@, data_type: DataType::Text, nullable: false },
    ]
}

/// Builds one column definition.
pub(crate) fn column_def(name: &str, data_type: DataType, nullable: bool) -> (r: ColumnDef)
    ensures
        r@ == (ColumnDefV { name: name@, data_type, nullable }),
{
    ColumnDef { name: name.to_owned(), data_type, nullable }
}

/// The column value shown for an optional border.
pub(crate) fn border_column_value(b: &Option<crate::model::Border>) -> (v: Value)
    ensures
        v@ == border_col_val(crate::model::opt_border_view(*b)),
{
    match b {
        Option::Some(x) => Value::Str(border_to_json(x)),
        Option::None => Value::Null,
    }
}

/// The component behind the "tables" virtual table.
pub struct Tables;

impl Tables {
    /// The name this component answers to.
    pub fn table_name(&self) -> (r: String)
        ensures
            r@ == "tables"@,
    {
        String::from_str("tables")
    }

    /// The schema of the "tables" virtual table: fixed, read-only
    /// metadata.
    pub fn fetch_all_schemas(&self) -> (r: Vec<Schema>)
        ensures
            r@.len() == 1,
            r@[0]@.table_name == "tables"@,
            r@[0]@.column_defs == tables_schema_cols(),
    {
        let mut cols: Vec<ColumnDef> = Vec::new();
        cols.push(column_def("hash", DataType::Text, false));
        cols.push(column_def("row_number", DataType::Uint32, false));
        cols.push(column_def("column_number", DataType::Uint32, false));
        cols.push(column_def("width", DataType::Uint32, true));
        cols.push(column_def("width_type", DataType::Text, true));
        cols.push(column_def("justification", DataType::Text, true));
        cols.push(column_def("borders_top", DataType::Text, true));
        cols.push(column_def("borders_left", DataType::Text, true));
        cols.push(column_def("borders_bottom", DataType::Text, true));
        cols.push(column_def("borders_right", DataType::Text, true));
        cols.push(column_def("borders_inside_h", DataType::Text, true));
        cols.push(column_def("borders_inside_v", DataType::Text, true));
        cols.push(column_def("json_content", DataType::Text, false));
        let schema = Schema { table_name: String::from_str("tables"), column_defs: cols };
        proof {
            assert(schema@.column_defs =~= tables_schema_cols());
        }
        let mut out: Vec<Schema> = Vec::new();
        out.push(schema);
        out
    }

    /// Projects every top-level table into one keyed row, in document
    /// order, reading the document's state at call time.
    pub fn scan_data(&self, docx: &Document) -> (r: Result<Vec<(Key, Row)>, StoreError>)
        ensures
            r matches Ok(rows) && kv_views(rows@) == spec_scan_tables(docx@.children),
    {
        let mut out: Vec<(Key, Row)> = Vec::new();
        let n = docx.children.len();
        proof {
            assert(docx@.children.take(0) =~= Seq::<DocChildV>::empty());
            assert(kv_views(out@) =~= spec_scan_tables(docx@.children.take(0)));
        }
        for i in 0..n
            invariant
                n == docx.children.len(),
                docx@.children.len() == n,
                docx@.children == docx.children@.map_values(|c: DocChild| c@),
                kv_views(out@) == spec_scan_tables(docx@.children.take(i as int)),
        {
            proof {
                let j = i as int;
                assert(docx@.children[j] == docx.children@[j]@);
                assert(docx@.children.take(j + 1).drop_last() =~= docx@.children.take(j));
            }
            match &docx.children[i] {
                DocChild::Table(t) => {
                    let h = table_content_hash(t);
                    let row = make_tables_row(t, &h);
                    out.push((h, row));
                    proof {
                        assert(kv_views(out@) =~= spec_scan_tables(
                            docx@.children.take(i as int + 1),
                        ));
                    }
                },
                DocChild::Other => {
                    proof {
                        assert(kv_views(out@) =~= spec_scan_tables(
                            docx@.children.take(i as int + 1),
                        ));
                    }
                },
            }
        }
        proof {
            assert(docx@.children.take(n as int) =~= docx@.children);
        }
        Ok(out)
    }

    /// Fetch by key: a scan followed by a linear search for the first
    /// row whose key equals `key`.
    pub fn fetch_data(&self, docx: &Document, key: &Key) -> (r: Result<
        Option<Row>,
        StoreError,
    >)
        ensures
            r matches Ok(found) && opt_row_view(found) == spec_find_row(
                spec_scan_tables(docx@.children),
                key@,
            ),
    {
        match self.scan_data(docx) {
            Ok(mut rows) => {
                let ghost all: ScanV = kv_views(rows@);
                let n = rows.len();
                proof {
                    assert(all.skip(0) =~= all);
                }
                for i in 0..n
                    invariant
                        n == rows.len(),
                        all == kv_views(rows@),
                        all == spec_scan_tables(docx@.children),
                        spec_find_row(all, key@) == spec_find_row(all.skip(i as int), key@),
                {
                    proof {
                        let j = i as int;
                        assert(all.skip(j).first() == (rows@[j].0@, rows@[j].1@));
                        assert(all.skip(j).drop_first() =~= all.skip(j + 1));
                    }
                    if str_eq(rows[i].0.as_str(), key.as_str()) {
                        proof {
                            assert(spec_find_row(all, key@) == Option::Some(rows@[i as int].1@));
                        }
                        let ghost target: RowV = rows@[i as int].1@;
                        let pair = rows.swap_remove(i);
                        proof {
                            assert(pair.1@ == target);
                        }
                        return Ok(Some(pair.1));
                    }
                }
                proof {
                    assert(all.skip(n as int).len() == 0);
                }
                Ok(None)
            },
            Err(e) => Err(e),
        }
    }

    /// Applies an update batch: re-walks the live tables, recomputes
    /// each table's hash immediately before its match checks, and for
    /// each matching row replaces exactly one style property per
    /// column. Always succeeds; rows whose key matches no table are
    /// no-ops.
    pub fn insert_data(&self, docx: &mut Document, rows: Vec<(Key, Row)>) -> (r: Result<
        (),
        StoreError,
    >)
        ensures
            r is Ok,
            final(docx)@.children == apply_updates_tables(old(docx)@.children, kv_views(rows@)),
    {
        let ghost d0: Seq<DocChildV> = docx@.children;
        let ghost ups: ScanV = kv_views(rows@);
        let n = docx.children.len();
        for i in 0..n
            invariant
                n == docx.children.len(),
                docx@.children.len() == n,
                d0.len() == n,
                docx@.children == docx.children@.map_values(|c: DocChild| c@),
                ups == kv_views(rows@),
                forall|j: int|
                    0 <= j < i ==> docx@.children[j] == apply_child_t(d0[j], ups),
                forall|j: int| i <= j < n ==> docx@.children[j] == d0[j],
        {
            let ghost prev: Seq<DocChild> = docx.children@;
            let ghost prevv: Seq<DocChildV> = docx@.children;
            let child = &mut docx.children[i];
            apply_child_updates_t(child, &rows);
            proof {
                let j = i as int;
                assert forall|q: int| 0 <= q < i + 1 implies docx@.children[q] == apply_child_t(
                    d0[q],
                    ups,
                ) by {
                    assert(docx@.children[q] == docx.children@[q]@);
                    if q < j {
                        assert(docx.children@[q] == prev[q]);
                        assert(prev[q]@ == prevv[q]);
                    } else {
                        assert(docx.children@[j]@ == apply_child_t(prev[j]@, ups));
                        assert(prev[j]@ == prevv[j]);
                        assert(prevv[j] == d0[j]);
                    }
                }
                assert forall|q: int| i + 1 <= q < n implies docx@.children[q] == d0[q] by {
                    assert(docx@.children[q] == docx.children@[q]@);
                    assert(docx.children@[q] == prev[q]);
                    assert(prev[q]@ == prevv[q]);
                }
            }
        }
        proof {
            assert(docx@.children =~= apply_updates_tables(d0, ups));
        }
        Ok(())
    }
}

/// Applies an update batch to one document child: a table gets every
/// matching row applied; anything else is untouched.
fn apply_child_updates_t(c: &mut DocChild, rows: &Vec<(Key, Row)>)
    ensures
        final(c)@ == apply_child_t(old(c)@, kv_views(rows@)),
{
    match c {
        DocChild::Table(t) => {
            apply_matching_rows_t(t, rows);
        },
        DocChild::Other => {},
    }
}

/// Applies to one table every update row whose key equals the table's
/// hash as it stands on entry.
fn apply_matching_rows_t(t: &mut Table, rows: &Vec<(Key, Row)>)
    ensures
        final(t)@.rows == old(t)@.rows,
        final(t)@.property == apply_rows_t(
            old(t)@.property,
            spec_table_hash(old(t)@),
            kv_views(rows@),
        ),
{
    let h = table_content_hash(t);
    let ghost t0: TableV = t@;
    let ghost ups: ScanV = kv_views(rows@);
    let n = rows.len();
    proof {
        assert(ups.take(0) =~= Seq::<(Seq<char>, RowV)>::empty());
    }
    for k in 0..n
        invariant
            n == rows.len(),
            ups == kv_views(rows@),
            h@ == spec_table_hash(t0),
            t@.rows == t0.rows,
            t@.property == apply_rows_t(t0.property, spec_table_hash(t0), ups.take(k as int)),
    {
        proof {
            let j = k as int;
            assert(ups[j] == (rows@[j].0@, rows@[j].1@));
            assert(ups.take(j + 1).drop_last() =~= ups.take(j));
        }
        if str_eq(rows[k].0.as_str(), h.as_str()) {
            apply_row_entries_t(t, &rows[k].1);
        }
    }
    proof {
        assert(ups.take(n as int) =~= ups);
    }
}

/// Applies one update row to a table's style bag, column by column in
/// row order.
fn apply_row_entries_t(t: &mut Table, row: &Row)
    ensures
        final(t)@.rows == old(t)@.rows,
        final(t)@.property == apply_entries_t(old(t)@.property, row@),
{
    let ghost t0: TableV = t@;
    let n = row.entries.len();
    proof {
        assert(row@.take(0) =~= Seq::<(Seq<char>, ValueV)>::empty());
    }
    for e in 0..n
        invariant
            n == row.entries.len(),
            row@.len() == n,
            row@ == row.entries@.map_values(|p: (String, Value)| (p.0@, p.1@)),
            t@.rows == t0.rows,
            t@.property == apply_entries_t(t0.property, row@.take(e as int)),
    {
        proof {
            let j = e as int;
            assert(row@[j] == (row.entries@[j].0@, row.entries@[j].1@));
            assert(row@.take(j + 1).drop_last() =~= row@.take(j));
        }
        apply_one_column_t(t, &row.entries[e].0, &row.entries[e].1);
    }
    proof {
        assert(row@.take(n as int) =~= row@);
    }
}

/// Applies one column update to a table's style bag.
fn apply_one_column_t(t: &mut Table, name: &String, v: &Value)
    ensures
        final(t)@.rows == old(t)@.rows,
        final(t)@.property == apply_col_t(old(t)@.property, name@, v@),
{
    if str_eq(name.as_str(), "width") {
        match v {
            Value::U32(w) => {
                let kind = match &t.property.width {
                    Option::Some(ws) => ws.kind,
                    Option::None => WidthKind::Unsupported,
                };
                t.property.width = Option::Some(WidthSetting { width: *w, kind });
            },
            _ => {},
        }
    } else if str_eq(name.as_str(), "width_type") {
        match v {
            Value::Str(s) => {
                let width = match &t.property.width {
                    Option::Some(ws) => ws.width,
                    Option::None => 0,
                };
                let kind = WidthKind::parse(s.as_str());
                t.property.width = Option::Some(WidthSetting { width, kind });
            },
            _ => {},
        }
    } else if str_eq(name.as_str(), "justification") {
        match v {
            Value::Str(s) => {
                match TableAlign::parse(s.as_str()) {
                    Option::Some(a) => {
                        t.property.justification = Option::Some(a);
                    },
                    Option::None => {},
                }
            },
            _ => {},
        }
    } else {
        match border_pos_of(name.as_str()) {
            Option::Some(pos) => {
                match v {
                    Value::Str(s) => {
                        let fields = parse_border_fields(s.as_str());
                        let b = build_border(&fields);
                        t.property.borders.set(pos, b);
                    },
                    _ => {},
                }
            },
            Option::None => {},
        }
    }
}

/// Builds the projected row of one table, given its freshly computed
/// hash.
fn make_tables_row(t: &Table, h: &String) -> (r: Row)
    requires
        h@ == spec_table_hash(t@),
    ensures
        r@ == tables_row_spec(t@),
{
    let mut entries: Vec<(String, Value)> = Vec::new();
    entries.push((String::from_str("hash"), Value::Str(h.clone())));
    entries.push(
        (String::from_str("row_number"), Value::U32(#[verifier::truncate] (t.rows.len() as u32))),
    );
    let columns: usize = if t.rows.len() > 0 {
        t.rows[0].cells.len()
    } else {
        0
    };
    entries.push(
        (String::from_str("column_number"), Value::U32(#[verifier::truncate] (columns as u32))),
    );
    let width: u32 = match &t.property.width {
        Option::Some(ws) => ws.width,
        Option::None => 0,
    };
    entries.push((String::from_str("width"), Value::U32(width)));
    let width_type: String = match &t.property.width {
        Option::Some(ws) => String::from_str(ws.kind.as_text()),
        Option::None => String::from_str(""),
    };
    entries.push((String::from_str("width_type"), Value::Str(width_type)));
    let justification: String = match &t.property.justification {
        Option::Some(a) => String::from_str(a.as_text()),
        Option::None => String::from_str(""),
    };
    entries.push((String::from_str("justification"), Value::Str(justification)));
    entries.push((String::from_str("borders_top"), border_column_value(&t.property.borders.top)));
    entries.push(
        (String::from_str("borders_left"), border_column_value(&t.property.borders.left)),
    );
    entries.push(
        (String::from_str("borders_bottom"), border_column_value(&t.property.borders.bottom)),
    );
    entries.push(
        (String::from_str("borders_right"), border_column_value(&t.property.borders.right)),
    );
    entries.push(
        (String::from_str("borders_inside_h"), border_column_value(&t.property.borders.inside_h)),
    );
    entries.push(
        (String::from_str("borders_inside_v"), border_column_value(&t.property.borders.inside_v)),
    );
    let r = Row { entries };
    proof {
        assert(r@ =~= tables_row_spec(t@));
    }
    r
}

} // verus!
