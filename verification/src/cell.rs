//! The "cell" virtual table: one row per table cell, in row-major
//! document order, keyed by the cell's content hash and stamped with
//! its owning table's hash; and the write path that locates a cell by
//! hash and rewrites one style property per column.
use vstd::prelude::*;

use crate::borders::{
    border_pos_of, build_border, border_fields_of, parse_border_fields, spec_border_pos_of,
    spec_build_border,
};
use crate::hashing::{spec_cell_hash, spec_table_hash, cell_content_hash, table_content_hash};
use crate::model::{
    CellChild, CellChildV, CellProps, CellPropsV, DocChild, DocChildV, Document, ParaChild,
    ParaChildV, RunChild, RunChildV, Table, TableCell, TableCellV, TableRow, TableRowV, TableV,
    WidthKind, WidthSetting, spec_borders_set, spec_cell_text, spec_cell_children_text,
    spec_para_children_text, spec_parse_width_kind, spec_run_children_text, spec_width_kind_str,
};
use crate::rows::{
    ColumnDef, ColumnDefV, DataType, Key, Row, RowV, ScanV, Schema, StoreError, Value, ValueV,
    kv_views, opt_row_view, spec_find_row, str_eq,
};
use crate::tables::{border_col_val, border_column_value, column_def};

verus! {

/// The row projected for one cell of a table whose hash is `th`: the
/// cell's own hash, its owner's hash, its concatenated text content,
/// and its style fields, with the same defaults as the "tables" row.
pub open spec fn cell_row_spec(c: TableCellV, th: Seq<char>) -> RowV {
    seq![
        ("hash"@, ValueV::Str(spec_cell_hash(c))),
        ("table_hash"@, ValueV::Str(th)),
        ("content"@, ValueV::Str(spec_cell_text(c))),
        (
            "width"@,
            ValueV::U32(
                match c.property.width {
                    Option::Some(ws) => ws.width,
                    Option::None => 0,
                },
            ),
        ),
        (
            "width_type"@,
            ValueV::Str(
                match c.property.width {
                    Option::Some(ws) => spec_width_kind_str(ws.kind),
                    Option::None => ""@,
                },
            ),
        ),
        ("borders_top"@, border_col_val(c.property.borders.top)),
        ("borders_left"@, border_col_val(c.property.borders.left)),
        ("borders_bottom"@, border_col_val(c.property.borders.bottom)),
        ("borders_right"@, border_col_val(c.property.borders.right)),
        ("borders_inside_h"@, border_col_val(c.property.borders.inside_h)),
        ("borders_inside_v"@, border_col_val(c.property.borders.inside_v)),
    ]
}

/// The keyed rows of the cells of one table row.
pub open spec fn spec_scan_cells_row(cells: Seq<TableCellV>, th: Seq<char>) -> ScanV
    decreases cells.len(),
{
    if cells.len() == 0 {
        Seq::empty()
    } else {
        spec_scan_cells_row(cells.drop_last(), th) + seq![
            (spec_cell_hash(cells.last()), cell_row_spec(cells.last(), th)),
        ]
    }
}

/// The keyed rows of all cells of a table, row-major.
pub open spec fn spec_scan_table_cells(rows: Seq<TableRowV>, th: Seq<char>) -> ScanV
    decreases rows.len(),
{
    if rows.len() == 0 {
        Seq::empty()
    } else {
        spec_scan_table_cells(rows.drop_last(), th) + spec_scan_cells_row(rows.last().cells, th)
    }
}

/// The whole scan of the "cell" virtual table: the cells of each
/// top-level table, each stamped with its owner's hash computed from
/// the owner's state at scan time.
pub open spec fn spec_scan_cells(children: Seq<DocChildV>) -> ScanV
    decreases children.len(),
{
    if children.len() == 0 {
        Seq::empty()
    } else {
        spec_scan_cells(children.drop_last()) + (match children.last() {
            DocChildV::Table(t) => spec_scan_table_cells(t.rows, spec_table_hash(t)),
            DocChildV::Other => Seq::empty(),
        })
    }
}

/// The width kind a cell width update carries forward.
pub open spec fn cur_kind_c(p: CellPropsV) -> WidthKind {
    match p.width {
        Option::Some(ws) => ws.kind,
        Option::None => WidthKind::Unsupported,
    }
}

/// The width value a cell width-type update carries forward.
pub open spec fn cur_width_c(p: CellPropsV) -> u32 {
    match p.width {
        Option::Some(ws) => ws.width,
        Option::None => 0,
    }
}

/// One column update on a cell's style bag; cells have no
/// justification column.
pub open spec fn apply_col_c(p: CellPropsV, name: Seq<char>, v: ValueV) -> CellPropsV {
    if name == "width"@ {
        match v {
            ValueV::U32(w) => CellPropsV {
                width: Option::Some(WidthSetting { width: w, kind: cur_kind_c(p) }),
                ..p
            },
            _ => p,
        }
    } else if name == "width_type"@ {
        match v {
            ValueV::Str(s) => CellPropsV {
                width: Option::Some(
                    WidthSetting { width: cur_width_c(p), kind: spec_parse_width_kind(s) },
                ),
                ..p
            },
            _ => p,
        }
    } else {
        match spec_border_pos_of(name) {
            Option::Some(pos) => match v {
                ValueV::Str(s) => CellPropsV {
                    borders: spec_borders_set(
                        p.borders,
                        pos,
                        spec_build_border(border_fields_of(s)),
                    ),
                    ..p
                },
                _ => p,
            },
            Option::None => p,
        }
    }
}

/// A whole update row applied to a cell's style bag, column by column.
pub open spec fn apply_entries_c(p: CellPropsV, es: RowV) -> CellPropsV
    decreases es.len(),
{
    if es.len() == 0 {
        p
    } else {
        apply_col_c(apply_entries_c(p, es.drop_last()), es.last().0, es.last().1)
    }
}

/// A whole update batch applied to a cell's style bag: every row keyed
/// by `h` — the cell's hash computed before its own updates — is
/// applied in batch order.
pub open spec fn apply_rows_c(p: CellPropsV, h: Seq<char>, rs: ScanV) -> CellPropsV
    decreases rs.len(),
{
    if rs.len() == 0 {
        p
    } else {
        let q = apply_rows_c(p, h, rs.drop_last());
        if rs.last().0 == h {
            apply_entries_c(q, rs.last().1)
        } else {
            q
        }
    }
}

/// What one cell becomes under an update batch: its children are kept,
/// its style bag gets the matching rows applied.
pub open spec fn apply_cell_c(c: TableCellV, rs: ScanV) -> TableCellV {
    TableCellV { children: c.children, property: apply_rows_c(c.property, spec_cell_hash(c), rs) }
}

/// What one table row becomes under a cell update batch.
pub open spec fn apply_row_c(r: TableRowV, rs: ScanV) -> TableRowV {
    TableRowV { cells: r.cells.map_values(|c: TableCellV| apply_cell_c(c, rs)) }
}

/// What one document child becomes under a cell update batch: a
/// table's cells are each updated independently; anything else is
/// untouched.
pub open spec fn apply_child_c(c: DocChildV, rs: ScanV) -> DocChildV {
    match c {
        DocChildV::Table(t) => DocChildV::Table(
            TableV {
                rows: t.rows.map_values(|r: TableRowV| apply_row_c(r, rs)),
                property: t.property,
            },
        ),
        DocChildV::Other => DocChildV::Other,
    }
}

/// What the whole document body becomes under an update batch on the
/// "cell" virtual table.
pub open spec fn apply_updates_cells(children: Seq<DocChildV>, rs: ScanV) -> Seq<DocChildV> {
    children.map_values(|c: DocChildV| apply_child_c(c, rs))
}

/// The fixed columns of the "cell" schema.
pub open spec fn cell_schema_cols() -> Seq<ColumnDefV> {
    seq![
        ColumnDefV { name: "hash"@, data_type: DataType::Text, nullable: false },
        ColumnDefV { name: "table_hash"@, data_type: DataType::Text, nullable: false },
        ColumnDefV { name: "content"@, data_type: DataType::Text, nullable: true },
        ColumnDefV { name: "width"@, data_type: DataType::Uint32, nullable: true },
        ColumnDefV { name: "width_type"@, data_type: DataType::Text, nullable: true },
        ColumnDefV { name: "borders_top"@, data_type: DataType::Text, nullable: true },
        ColumnDefV { name: "borders_left"@, data_type: DataType::Text, nullable: true },
        ColumnDefV { name: "borders_bottom"@, data_type: DataType::Text, nullable: true },
        ColumnDefV { name: "borders_right"@, data_type: DataType::Text, nullable: true },
        ColumnDefV { name: "borders_inside_h"@, data_type: DataType::Text, nullable: true },
        ColumnDefV { name: "borders_inside_v"@, data_type: DataType::Text, nullable: true },
        ColumnDefV { name: "json_content"@, data_type: DataType::Text, nullable: false },
    ]
}

/// The concatenated text content of a cell: every text fragment of
/// every run of every paragraph, in order, with no separator.
pub fn cell_text(c: &TableCell) -> (r: String)
    ensures
        r@ == spec_cell_text(c@),
{
    let mut out = String::new();
    let n = c.children.len();
    proof {
        assert(c@.children.take(0) =~= Seq::<CellChildV>::empty());
    }
    for i in 0..n
        invariant
            n == c.children.len(),
            c@.children.len() == n,
            c@.children == c.children@.map_values(|ch: CellChild| ch@),
            out@ == spec_cell_children_text(c@.children.take(i as int)),
    {
        proof {
            let j = i as int;
            assert(c@.children[j] == c.children@[j]@);
            assert(c@.children.take(j + 1).drop_last() =~= c@.children.take(j));
        }
        match &c.children[i] {
            CellChild::Paragraph(p) => {
                let ghost before: Seq<char> = out@;
                let m = p.children.len();
                proof {
                    assert(p@.children.take(0) =~= Seq::<ParaChildV>::empty());
                }
                for j in 0..m
                    invariant
                        m == p.children.len(),
                        p@.children.len() == m,
                        p@.children == p.children@.map_values(|ch: ParaChild| ch@),
                        out@ == before + spec_para_children_text(p@.children.take(j as int)),
                {
                    proof {
                        let q = j as int;
                        assert(p@.children[q] == p.children@[q]@);
                        assert(p@.children.take(q + 1).drop_last() =~= p@.children.take(q));
                    }
                    match &p.children[j] {
                        ParaChild::Run(run) => {
                            let ghost before_run: Seq<char> = out@;
                            let w = run.children.len();
                            proof {
                                assert(run@.children.take(0) =~= Seq::<RunChildV>::empty());
                            }
                            for k in 0..w
                                invariant
                                    w == run.children.len(),
                                    run@.children.len() == w,
                                    run@.children == run.children@.map_values(
                                        |ch: RunChild| ch@,
                                    ),
                                    out@ == before_run + spec_run_children_text(
                                        run@.children.take(k as int),
                                    ),
                            {
                                proof {
                                    let q = k as int;
                                    assert(run@.children[q] == run.children@[q]@);
                                    assert(run@.children.take(q + 1).drop_last()
                                        =~= run@.children.take(q));
                                }
                                match &run.children[k] {
                                    RunChild::Text(t) => {
                                        out.append(t.as_str());
                                    },
                                    RunChild::Other => {},
                                }
                                proof {
                                    assert(out@ =~= before_run + spec_run_children_text(
                                        run@.children.take(k as int + 1),
                                    ));
                                }
                            }
                            proof {
                                assert(run@.children.take(w as int) =~= run@.children);
                            }
                        },
                        ParaChild::Other => {},
                    }
                    proof {
                        assert(out@ =~= before + spec_para_children_text(
                            p@.children.take(j as int + 1),
                        ));
                    }
                }
                proof {
                    assert(p@.children.take(m as int) =~= p@.children);
                }
            },
            CellChild::Other => {},
        }
        proof {
            assert(out@ =~= spec_cell_children_text(c@.children.take(i as int + 1)));
        }
    }
    proof {
        assert(c@.children.take(n as int) =~= c@.children);
    }
    out
}

/// The component behind the "cell" virtual table.
pub struct Cell;

impl Cell {
    /// The name this component answers to.
    pub fn table_name(&self) -> (r: String)
        ensures
            r@ == "cell"@,
    {
        String::from_str("cell")
    }

    /// The schema of the "cell" virtual table: fixed, read-only
    /// metadata.
    pub fn fetch_all_schemas(&self) -> (r: Vec<Schema>)
        ensures
            r@.len() == 1,
            r@[0]@.table_name == "cell"@,
            r@[0]@.column_defs == cell_schema_cols(),
    {
        let mut cols: Vec<ColumnDef> = Vec::new();
        cols.push(column_def("hash", DataType::Text, false));
        cols.push(column_def("table_hash", DataType::Text, false));
        cols.push(column_def("content", DataType::Text, true));
        cols.push(column_def("width", DataType::Uint32, true));
        cols.push(column_def("width_type", DataType::Text, true));
        cols.push(column_def("borders_top", DataType::Text, true));
        cols.push(column_def("borders_left", DataType::Text, true));
        cols.push(column_def("borders_bottom", DataType::Text, true));
        cols.push(column_def("borders_right", DataType::Text, true));
        cols.push(column_def("borders_inside_h", DataType::Text, true));
        cols.push(column_def("borders_inside_v", DataType::Text, true));
        cols.push(column_def("json_content", DataType::Text, false));
        let schema = Schema { table_name: String::from_str("cell"), column_defs: cols };
        proof {
            assert(schema@.column_defs =~= cell_schema_cols());
        }
        let mut out: Vec<Schema> = Vec::new();
        out.push(schema);
        out
    }

    /// Projects every cell of every top-level table into one keyed row,
    /// in row-major document order, reading the document's state at
    /// call time.
    pub fn scan_data(&self, docx: &Document) -> (r: Result<Vec<(Key, Row)>, StoreError>)
        ensures
            r matches Ok(rows) && kv_views(rows@) == spec_scan_cells(docx@.children),
    {
        let mut out: Vec<(Key, Row)> = Vec::new();
        let n = docx.children.len();
        proof {
            assert(docx@.children.take(0) =~= Seq::<DocChildV>::empty());
            assert(kv_views(out@) =~= spec_scan_cells(docx@.children.take(0)));
        }
        for i in 0..n
            invariant
                n == docx.children.len(),
                docx@.children.len() == n,
                docx@.children == docx.children@.map_values(|c: DocChild| c@),
                kv_views(out@) == spec_scan_cells(docx@.children.take(i as int)),
        {
            proof {
                let j = i as int;
                assert(docx@.children[j] == docx.children@[j]@);
                assert(docx@.children.take(j + 1).drop_last() =~= docx@.children.take(j));
            }
            match &docx.children[i] {
                DocChild::Table(t) => {
                    scan_table_cells(&mut out, t);
                    proof {
                        assert(kv_views(out@) =~= spec_scan_cells(
                            docx@.children.take(i as int + 1),
                        ));
                    }
                },
                DocChild::Other => {
                    proof {
                        assert(kv_views(out@) =~= spec_scan_cells(
                            docx@.children.take(i as int + 1),
                        ));
                    }
                },
            }
        }
        proof {
            assert(docx@.children.take(n as int) =~= docx@.children);
        }
        Ok(out)
    }

    /// Fetch by key: a scan followed by a linear search for the first
    /// row whose key equals `key`.
    pub fn fetch_data(&self, docx: &Document, key: &Key) -> (r: Result<Option<Row>, StoreError>)
        ensures
            r matches Ok(found) && opt_row_view(found) == spec_find_row(
                spec_scan_cells(docx@.children),
                key@,
            ),
    {
        match self.scan_data(docx) {
            Ok(mut rows) => {
                let ghost all: ScanV = kv_views(rows@);
                let n = rows.len();
                proof {
                    assert(all.skip(0) =~= all);
                }
                for i in 0..n
                    invariant
                        n == rows.len(),
                        all == kv_views(rows@),
                        all == spec_scan_cells(docx@.children),
                        spec_find_row(all, key@) == spec_find_row(all.skip(i as int), key@),
                {
                    proof {
                        let j = i as int;
                        assert(all.skip(j).first() == (rows@[j].0@, rows@[j].1@));
                        assert(all.skip(j).drop_first() =~= all.skip(j + 1));
                    }
                    if str_eq(rows[i].0.as_str(), key.as_str()) {
                        proof {
                            assert(spec_find_row(all, key@) == Option::Some(rows@[i as int].1@));
                        }
                        let ghost target: RowV = rows@[i as int].1@;
                        let pair = rows.swap_remove(i);
                        proof {
                            assert(pair.1@ == target);
                        }
                        return Ok(Some(pair.1));
                    }
                }
                proof {
                    assert(all.skip(n as int).len() == 0);
                }
                Ok(None)
            },
            Err(e) => Err(e),
        }
    }

    /// Applies an update batch: re-walks the live cells, recomputes
    /// each cell's hash immediately before its match checks, and for
    /// each matching row replaces exactly one style property per
    /// column. Always succeeds; rows whose key matches no cell are
    /// no-ops.
    pub fn insert_data(&self, docx: &mut Document, rows: Vec<(Key, Row)>) -> (r: Result<
        (),
        StoreError,
    >)
        ensures
            r is Ok,
            final(docx)@.children == apply_updates_cells(old(docx)@.children, kv_views(rows@)),
    {
        let ghost d0: Seq<DocChildV> = docx@.children;
        let ghost ups: ScanV = kv_views(rows@);
        let n = docx.children.len();
        for i in 0..n
            invariant
                n == docx.children.len(),
                docx@.children.len() == n,
                d0.len() == n,
                docx@.children == docx.children@.map_values(|c: DocChild| c@),
                ups == kv_views(rows@),
                forall|j: int| 0 <= j < i ==> docx@.children[j] == apply_child_c(d0[j], ups),
                forall|j: int| i <= j < n ==> docx@.children[j] == d0[j],
        {
            let ghost prev: Seq<DocChild> = docx.children@;
            let ghost prevv: Seq<DocChildV> = docx@.children;
            let child = &mut docx.children[i];
            apply_child_updates_c(child, &rows);
            proof {
                let j = i as int;
                assert forall|q: int| 0 <= q < i + 1 implies docx@.children[q] == apply_child_c(
                    d0[q],
                    ups,
                ) by {
                    assert(docx@.children[q] == docx.children@[q]@);
                    if q < j {
                        assert(docx.children@[q] == prev[q]);
                        assert(prev[q]@ == prevv[q]);
                    } else {
                        assert(docx.children@[j]@ == apply_child_c(prev[j]@, ups));
                        assert(prev[j]@ == prevv[j]);
                        assert(prevv[j] == d0[j]);
                    }
                }
                assert forall|q: int| i + 1 <= q < n implies docx@.children[q] == d0[q] by {
                    assert(docx@.children[q] == docx.children@[q]@);
                    assert(docx.children@[q] == prev[q]);
                    assert(prev[q]@ == prevv[q]);
                }
            }
        }
        proof {
            assert(docx@.children =~= apply_updates_cells(d0, ups));
        }
        Ok(())
    }

    /// Rebuilds a cell style bag with the border described by
    /// `border_value` set at `border_position`, the other positions
    /// untouched.
    fn set_border(
        &self,
        property: CellProps,
        border_value: &String,
        border_position: crate::model::BorderPos,
    ) -> (r: CellProps)
        ensures
            r@ == (CellPropsV {
                borders: spec_borders_set(
                    property@.borders,
                    border_position,
                    spec_build_border(border_fields_of(border_value@)),
                ),
                ..property@
            }),
    {
        let fields = parse_border_fields(border_value.as_str());
        let b = build_border(&fields);
        let mut property = property;
        property.borders.set(border_position, b);
        property
    }
}

/// Appends the keyed rows of every cell of one table, its hash
/// computed from its state at call time.
#[verifier::rlimit(60)]
fn scan_table_cells(out: &mut Vec<(Key, Row)>, t: &Table)
    ensures
        kv_views(final(out)@) == kv_views(old(out)@) + spec_scan_table_cells(
            t@.rows,
            spec_table_hash(t@),
        ),
{
    let th = table_content_hash(t);
    let ghost base: ScanV = kv_views(out@);
    let m = t.rows.len();
    proof {
        assert(t@.rows.take(0) =~= Seq::<TableRowV>::empty());
        assert(kv_views(out@) =~= base + spec_scan_table_cells(t@.rows.take(0), th@));
    }
    for j in 0..m
        invariant
            m == t.rows.len(),
            t@.rows.len() == m,
            t@.rows == t.rows@.map_values(|r: TableRow| r@),
            th@ == spec_table_hash(t@),
            kv_views(out@) == base + spec_scan_table_cells(t@.rows.take(j as int), th@),
    {
        proof {
            let q = j as int;
            assert(t@.rows[q] == t.rows@[q]@);
            assert(t@.rows.take(q + 1).drop_last() =~= t@.rows.take(q));
        }
        scan_row_cells(out, &t.rows[j], &th);
        proof {
            assert(kv_views(out@) =~= base + spec_scan_table_cells(
                t@.rows.take(j as int + 1),
                th@,
            ));
        }
    }
    proof {
        assert(t@.rows.take(m as int) =~= t@.rows);
    }
}

/// Appends the keyed rows of the cells of one table row, each stamped
/// with the owning table's hash `th`.
fn scan_row_cells(out: &mut Vec<(Key, Row)>, row: &TableRow, th: &String)
    ensures
        kv_views(final(out)@) == kv_views(old(out)@) + spec_scan_cells_row(row@.cells, th@),
{
    let ghost base: ScanV = kv_views(out@);
    let w = row.cells.len();
    proof {
        assert(row@.cells.take(0) =~= Seq::<TableCellV>::empty());
        assert(kv_views(out@) =~= base + spec_scan_cells_row(row@.cells.take(0), th@));
    }
    for k in 0..w
        invariant
            w == row.cells.len(),
            row@.cells.len() == w,
            row@.cells == row.cells@.map_values(|c: TableCell| c@),
            kv_views(out@) == base + spec_scan_cells_row(row@.cells.take(k as int), th@),
    {
        proof {
            let q = k as int;
            assert(row@.cells[q] == row.cells@[q]@);
            assert(row@.cells.take(q + 1).drop_last() =~= row@.cells.take(q));
        }
        let cellref = &row.cells[k];
        let h = cell_content_hash(cellref);
        let r = make_cell_row(cellref, &h, th);
        let ghost before_push: Seq<(String, Row)> = out@;
        out.push((h, r));
        proof {
            let q = k as int;
            assert(kv_views(out@) =~= kv_views(before_push).push((h@, r@)));
            assert(row@.cells.take(q + 1).last() == row@.cells[q]);
            assert(spec_scan_cells_row(row@.cells.take(q + 1), th@) == spec_scan_cells_row(
                row@.cells.take(q),
                th@,
            ) + seq![(spec_cell_hash(row@.cells[q]), cell_row_spec(row@.cells[q], th@))]);
            assert((h@, r@) == (spec_cell_hash(row@.cells[q]), cell_row_spec(row@.cells[q], th@)));
            assert(kv_views(out@) =~= base + spec_scan_cells_row(row@.cells.take(q + 1), th@));
        }
    }
    proof {
        assert(row@.cells.take(w as int) =~= row@.cells);
    }
}

/// Applies a cell update batch to one document child.
fn apply_child_updates_c(c: &mut DocChild, rows: &Vec<(Key, Row)>)
    ensures
        final(c)@ == apply_child_c(old(c)@, kv_views(rows@)),
{
    match c {
        DocChild::Table(t) => {
            let ghost t0: TableV = t@;
            let ghost ups: ScanV = kv_views(rows@);
            let m = t.rows.len();
            for j in 0..m
                invariant
                    m == t.rows.len(),
                    t@.rows.len() == m,
                    t0.rows.len() == m,
                    t@.rows == t.rows@.map_values(|r: TableRow| r@),
                    t@.property == t0.property,
                    ups == kv_views(rows@),
                    forall|q: int| 0 <= q < j ==> t@.rows[q] == apply_row_c(t0.rows[q], ups),
                    forall|q: int| j <= q < m ==> t@.rows[q] == t0.rows[q],
            {
                let ghost prev: Seq<TableRow> = t.rows@;
                let ghost prevv: Seq<TableRowV> = t@.rows;
                let rowref = &mut t.rows[j];
                apply_row_updates_c(rowref, rows);
                proof {
                    let x = j as int;
                    assert forall|q: int| 0 <= q < j + 1 implies t@.rows[q] == apply_row_c(
                        t0.rows[q],
                        ups,
                    ) by {
                        assert(t@.rows[q] == t.rows@[q]@);
                        if q < x {
                            assert(t.rows@[q] == prev[q]);
                            assert(prev[q]@ == prevv[q]);
                        } else {
                            assert(t.rows@[x]@ == apply_row_c(prev[x]@, ups));
                            assert(prev[x]@ == prevv[x]);
                            assert(prevv[x] == t0.rows[x]);
                        }
                    }
                    assert forall|q: int| j + 1 <= q < m implies t@.rows[q] == t0.rows[q] by {
                        assert(t@.rows[q] == t.rows@[q]@);
                        assert(t.rows@[q] == prev[q]);
                        assert(prev[q]@ == prevv[q]);
                    }
                }
            }
            proof {
                assert(t@.rows =~= t0.rows.map_values(|r: TableRowV| apply_row_c(r, ups)));
            }
        },
        DocChild::Other => {},
    }
}

/// Applies a cell update batch to every cell of one table row.
fn apply_row_updates_c(r: &mut TableRow, rows: &Vec<(Key, Row)>)
    ensures
        final(r)@ == apply_row_c(old(r)@, kv_views(rows@)),
{
    let ghost r0: TableRowV = r@;
    let ghost ups: ScanV = kv_views(rows@);
    let m = r.cells.len();
    for j in 0..m
        invariant
            m == r.cells.len(),
            r@.cells.len() == m,
            r0.cells.len() == m,
            r@.cells == r.cells@.map_values(|c: TableCell| c@),
            ups == kv_views(rows@),
            forall|q: int| 0 <= q < j ==> r@.cells[q] == apply_cell_c(r0.cells[q], ups),
            forall|q: int| j <= q < m ==> r@.cells[q] == r0.cells[q],
    {
        let ghost prev: Seq<TableCell> = r.cells@;
        let ghost prevv: Seq<TableCellV> = r@.cells;
        let cellref = &mut r.cells[j];
        apply_cell_updates_c(cellref, rows);
        proof {
            let x = j as int;
            assert forall|q: int| 0 <= q < j + 1 implies r@.cells[q] == apply_cell_c(
                r0.cells[q],
                ups,
            ) by {
                assert(r@.cells[q] == r.cells@[q]@);
                if q < x {
                    assert(r.cells@[q] == prev[q]);
                    assert(prev[q]@ == prevv[q]);
                } else {
                    assert(r.cells@[x]@ == apply_cell_c(prev[x]@, ups));
                    assert(prev[x]@ == prevv[x]);
                    assert(prevv[x] == r0.cells[x]);
                }
            }
            assert forall|q: int| j + 1 <= q < m implies r@.cells[q] == r0.cells[q] by {
                assert(r@.cells[q] == r.cells@[q]@);
                assert(r.cells@[q] == prev[q]);
                assert(prev[q]@ == prevv[q]);
            }
        }
    }
    proof {
        assert(r@.cells =~= r0.cells.map_values(|c: TableCellV| apply_cell_c(c, ups)));
        assert(r@ == apply_row_c(r0, ups));
    }
}

/// Applies to one cell every update row whose key equals the cell's
/// hash as it stands on entry.
fn apply_cell_updates_c(c: &mut TableCell, rows: &Vec<(Key, Row)>)
    ensures
        final(c)@ == apply_cell_c(old(c)@, kv_views(rows@)),
{
    let h = cell_content_hash(c);
    let ghost c0: TableCellV = c@;
    let ghost ups: ScanV = kv_views(rows@);
    let n = rows.len();
    proof {
        assert(ups.take(0) =~= Seq::<(Seq<char>, RowV)>::empty());
    }
    for k in 0..n
        invariant
            n == rows.len(),
            ups == kv_views(rows@),
            h@ == spec_cell_hash(c0),
            c@.children == c0.children,
            c@.property == apply_rows_c(c0.property, spec_cell_hash(c0), ups.take(k as int)),
    {
        proof {
            let j = k as int;
            assert(ups[j] == (rows@[j].0@, rows@[j].1@));
            assert(ups.take(j + 1).drop_last() =~= ups.take(j));
        }
        if str_eq(rows[k].0.as_str(), h.as_str()) {
            apply_row_entries_c(c, &rows[k].1);
        }
    }
    proof {
        assert(ups.take(n as int) =~= ups);
    }
}

/// Applies one update row to a cell's style bag, column by column in
/// row order.
fn apply_row_entries_c(c: &mut TableCell, row: &Row)
    ensures
        final(c)@.children == old(c)@.children,
        final(c)@.property == apply_entries_c(old(c)@.property, row@),
{
    let ghost c0: TableCellV = c@;
    let n = row.entries.len();
    proof {
        assert(row@.take(0) =~= Seq::<(Seq<char>, ValueV)>::empty());
    }
    for e in 0..n
        invariant
            n == row.entries.len(),
            row@.len() == n,
            row@ == row.entries@.map_values(|p: (String, Value)| (p.0@, p.1@)),
            c@.children == c0.children,
            c@.property == apply_entries_c(c0.property, row@.take(e as int)),
    {
        proof {
            let j = e as int;
            assert(row@[j] == (row.entries@[j].0@, row.entries@[j].1@));
            assert(row@.take(j + 1).drop_last() =~= row@.take(j));
        }
        apply_one_column_c(c, &row.entries[e].0, &row.entries[e].1);
    }
    proof {
        assert(row@.take(n as int) =~= row@);
    }
}

/// Applies one column update to a cell's style bag.
fn apply_one_column_c(c: &mut TableCell, name: &String, v: &Value)
    ensures
        final(c)@.children == old(c)@.children,
        final(c)@.property == apply_col_c(old(c)@.property, name@, v@),
{
    if str_eq(name.as_str(), "width") {
        match v {
            Value::U32(w) => {
                let kind = match &c.property.width {
                    Option::Some(ws) => ws.kind,
                    Option::None => WidthKind::Unsupported,
                };
                c.property.width = Option::Some(WidthSetting { width: *w, kind });
            },
            _ => {},
        }
    } else if str_eq(name.as_str(), "width_type") {
        match v {
            Value::Str(s) => {
                let width = match &c.property.width {
                    Option::Some(ws) => ws.width,
                    Option::None => 0,
                };
                let kind = WidthKind::parse(s.as_str());
                c.property.width = Option::Some(WidthSetting { width, kind });
            },
            _ => {},
        }
    } else {
        match border_pos_of(name.as_str()) {
            Option::Some(pos) => {
                match v {
                    Value::Str(s) => {
                        let mut taken = CellProps::new();
                        std::mem::swap(&mut taken, &mut c.property);
                        c.property = Cell.set_border(taken, s, pos);
                    },
                    _ => {},
                }
            },
            Option::None => {},
        }
    }
}

/// Builds the projected row of one cell, given its freshly computed
/// hash and its owner's hash.
fn make_cell_row(c: &TableCell, h: &String, th: &String) -> (r: Row)
    requires
        h@ == spec_cell_hash(c@),
    ensures
        r@ == cell_row_spec(c@, th@),
{
    let mut entries: Vec<(String, Value)> = Vec::new();
    entries.push((String::from_str("hash"), Value::Str(h.clone())));
    entries.push((String::from_str("table_hash"), Value::Str(th.clone())));
    entries.push((String::from_str("content"), Value::Str(cell_text(c))));
    let width: u32 = match &c.property.width {
        Option::Some(ws) => ws.width,
        Option::None => 0,
    };
    entries.push((String::from_str("width"), Value::U32(width)));
    let width_type: String = match &c.property.width {
        Option::Some(ws) => String::from_str(ws.kind.as_text()),
        Option::None => String::from_str(""),
    };
    entries.push((String::from_str("width_type"), Value::Str(width_type)));
    entries.push((String::from_str("borders_top"), border_column_value(&c.property.borders.top)));
    entries.push(
        (String::from_str("borders_left"), border_column_value(&c.property.borders.left)),
    );
    entries.push(
        (String::from_str("borders_bottom"), border_column_value(&c.property.borders.bottom)),
    );
    entries.push(
        (String::from_str("borders_right"), border_column_value(&c.property.borders.right)),
    );
    entries.push(
        (String::from_str("borders_inside_h"), border_column_value(&c.property.borders.inside_h)),
    );
    entries.push(
        (String::from_str("borders_inside_v"), border_column_value(&c.property.borders.inside_v)),
    );
    let r = Row { entries };
    proof {
        assert(r@ =~= cell_row_spec(c@, th@));
    }
    r
}

} // verus!
