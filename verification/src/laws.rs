//! Laws relating the projector, the mutation applier and the hasher,
//! stated over the same specification functions the components'
//! contracts use, and proved here once for all inputs.
use vstd::prelude::*;

use crate::cell::{cell_row_spec, spec_scan_cells, spec_scan_cells_row, spec_scan_table_cells};
use crate::hashing::{spec_cell_hash, spec_table_hash};
use crate::model::{
    CellChildV, DocChildV, ParaChildV, ParagraphV, RunChildV, RunV, TableCellV, TableRowV, TableV,
    WidthSetting, spec_cell_text, spec_parse_width_kind, spec_run_children_text,
    spec_width_kind_str,
};
use crate::rows::{RowV, ScanV, ValueV, spec_row_lookup};
use crate::tables::{apply_col_t, apply_entries_t, apply_rows_t, spec_scan_tables, tables_row_spec};

verus! {

broadcast use vstd::string::group_string_axioms;

/// The column names the laws below step over are pairwise distinct.
proof fn lemma_column_names_distinct()
    ensures
        "hash"@ != "width"@,
        "hash"@ != "width_type"@,
        "hash"@ != "row_number"@,
        "hash"@ != "column_number"@,
        "hash"@ != "table_hash"@,
        "row_number"@ != "width"@,
        "row_number"@ != "width_type"@,
        "row_number"@ != "column_number"@,
        "column_number"@ != "width"@,
        "column_number"@ != "width_type"@,
        "width"@ != "width_type"@,
        "borders_top"@ != "width"@,
        "borders_top"@ != "width_type"@,
        "borders_top"@ != "justification"@,
{
    reveal_strlit("hash");
    reveal_strlit("width");
    reveal_strlit("width_type");
    reveal_strlit("row_number");
    reveal_strlit("column_number");
    reveal_strlit("table_hash");
    reveal_strlit("borders_top");
    reveal_strlit("justification");
    assert("hash"@.len() == 4);
    assert("width"@.len() == 5);
    assert("width_type"@.len() == 10);
    assert("row_number"@.len() == 10);
    assert("column_number"@.len() == 13);
    assert("table_hash"@.len() == 10);
    assert("borders_top"@.len() == 11);
    assert("justification"@.len() == 13);
    assert("row_number"@[0] == 'r');
    assert("width_type"@[0] == 'w');
    assert("table_hash"@[0] == 't');
}

/// Looking a name up in a row whose first column is another name steps
/// past the first column.
proof fn lemma_lookup_step(r: RowV, name: Seq<char>)
    requires
        r.len() > 0,
        r.first().0 != name,
    ensures
        spec_row_lookup(r, name) == spec_row_lookup(r.drop_first(), name),
{
}

/// Looking a name up in a row whose first column carries it finds it.
proof fn lemma_lookup_hit(r: RowV, name: Seq<char>)
    requires
        r.len() > 0,
        r.first().0 == name,
    ensures
        spec_row_lookup(r, name) == Option::Some(r.first().1),
{
}

/// Steps a lookup of `name` past the first `k` columns of `r`, none of
/// which carries it.
proof fn lemma_lookup_skip_prefix(r: RowV, name: Seq<char>, k: int)
    requires
        0 <= k <= r.len(),
        forall|i: int| 0 <= i < k ==> r[i].0 != name,
    ensures
        spec_row_lookup(r, name) == spec_row_lookup(r.skip(k), name),
    decreases k,
{
    if k > 0 {
        lemma_lookup_skip_prefix(r, name, k - 1);
        let s = r.skip(k - 1);
        assert(s.first() == r[k - 1]);
        lemma_lookup_step(s, name);
        assert(s.drop_first() =~= r.skip(k));
    } else {
        assert(r.skip(0) =~= r);
    }
}

/// Law (round trip): updating a table's `width` and `width_type` by
/// its hash, in one row, makes a subsequent scan of the updated table
/// show exactly the written width, and the written width type in its
/// canonical spelling (so writing "dxa" reads back as "dxa").
pub proof fn lemma_width_round_trip(t: TableV, w: u32, s: Seq<char>)
    ensures
        ({
            let es: RowV = seq![
                ("width"@, ValueV::U32(w)),
                ("width_type"@, ValueV::Str(s)),
            ];
            let rs: ScanV = seq![(spec_table_hash(t), es)];
            let t2 = TableV {
                rows: t.rows,
                property: apply_rows_t(t.property, spec_table_hash(t), rs),
            };
            spec_row_lookup(tables_row_spec(t2), "width"@) == Option::Some(ValueV::U32(w))
                && spec_row_lookup(tables_row_spec(t2), "width_type"@) == Option::Some(
                ValueV::Str(spec_width_kind_str(spec_parse_width_kind(s))),
            )
        }),
{
    lemma_column_names_distinct();
    let es: RowV = seq![("width"@, ValueV::U32(w)), ("width_type"@, ValueV::Str(s))];
    let rs: ScanV = seq![(spec_table_hash(t), es)];
    assert(rs.drop_last() =~= Seq::<(Seq<char>, RowV)>::empty());
    assert(es.drop_last() =~= seq![("width"@, ValueV::U32(w))]);
    assert(es.drop_last().drop_last() =~= Seq::<(Seq<char>, ValueV)>::empty());
    let p1 = apply_col_t(t.property, "width"@, ValueV::U32(w));
    let p2 = apply_col_t(p1, "width_type"@, ValueV::Str(s));
    assert(apply_entries_t(t.property, es.drop_last().drop_last()) == t.property);
    assert(apply_entries_t(t.property, es.drop_last()) == p1);
    assert(apply_entries_t(t.property, es) == p2);
    assert(apply_rows_t(t.property, spec_table_hash(t), rs.drop_last()) == t.property);
    assert(apply_rows_t(t.property, spec_table_hash(t), rs) == p2);
    assert(p2.width == Option::Some(WidthSetting { width: w, kind: spec_parse_width_kind(s) }));
    let t2 = TableV { rows: t.rows, property: p2 };
    let row = tables_row_spec(t2);
    assert(row[3] == ("width"@, ValueV::U32(w)));
    assert forall|i: int| 0 <= i < 3 implies row[i].0 != "width"@ by {
        assert(row[0].0 == "hash"@);
        assert(row[1].0 == "row_number"@);
        assert(row[2].0 == "column_number"@);
    }
    lemma_lookup_skip_prefix(row, "width"@, 3);
    lemma_lookup_hit(row.skip(3), "width"@);
    assert(row.skip(3).first() == row[3]);
    assert forall|i: int| 0 <= i < 4 implies row[i].0 != "width_type"@ by {
        assert(row[0].0 == "hash"@);
        assert(row[1].0 == "row_number"@);
        assert(row[2].0 == "column_number"@);
        assert(row[3].0 == "width"@);
    }
    lemma_lookup_skip_prefix(row, "width_type"@, 4);
    lemma_lookup_hit(row.skip(4), "width_type"@);
    assert(row.skip(4).first() == row[4]);
    assert(row[4] == ("width_type"@, ValueV::Str(spec_width_kind_str(spec_parse_width_kind(s)))));
}

/// Law (border merge): an update that names only `borders_top` leaves
/// the five other border positions of the style bag, and hence the
/// five other border columns of a subsequent scan, at their prior
/// values.
pub proof fn lemma_border_merge_top(t: TableV, s: Seq<char>)
    ensures
        ({
            let p2 = apply_col_t(t.property, "borders_top"@, ValueV::Str(s));
            let t2 = TableV { rows: t.rows, property: p2 };
            p2.borders.left == t.property.borders.left && p2.borders.bottom
                == t.property.borders.bottom && p2.borders.right == t.property.borders.right
                && p2.borders.inside_h == t.property.borders.inside_h && p2.borders.inside_v
                == t.property.borders.inside_v && tables_row_spec(t2)[7] == tables_row_spec(t)[7]
                && tables_row_spec(t2)[8] == tables_row_spec(t)[8] && tables_row_spec(t2)[9]
                == tables_row_spec(t)[9] && tables_row_spec(t2)[10] == tables_row_spec(t)[10]
                && tables_row_spec(t2)[11] == tables_row_spec(t)[11]
        }),
{
    lemma_column_names_distinct();
    reveal_strlit("borders_top");
}

/// Law (border merge, cells): the same holds of a cell's style bag
/// and the border columns of its projected row.
pub proof fn lemma_border_merge_top_cell(c: TableCellV, th: Seq<char>, s: Seq<char>)
    ensures
        ({
            let p2 = crate::cell::apply_col_c(c.property, "borders_top"@, ValueV::Str(s));
            let c2 = TableCellV { children: c.children, property: p2 };
            p2.borders.left == c.property.borders.left && p2.borders.bottom
                == c.property.borders.bottom && p2.borders.right == c.property.borders.right
                && p2.borders.inside_h == c.property.borders.inside_h && p2.borders.inside_v
                == c.property.borders.inside_v && cell_row_spec(c2, th)[6] == cell_row_spec(
                c,
                th,
            )[6] && cell_row_spec(c2, th)[7] == cell_row_spec(c, th)[7] && cell_row_spec(c2, th)[8]
                == cell_row_spec(c, th)[8] && cell_row_spec(c2, th)[9] == cell_row_spec(c, th)[9]
                && cell_row_spec(c2, th)[10] == cell_row_spec(c, th)[10]
        }),
{
    lemma_column_names_distinct();
    reveal_strlit("borders_top");
}

/// Law (projection completeness): a document holding exactly one table
/// of 2 rows by 3 cells scans as exactly one "tables" row reporting
/// those dimensions, and exactly 6 "cell" rows, every one stamped with
/// that table's hash.
pub proof fn lemma_projection_completeness(children: Seq<DocChildV>, t: TableV)
    requires
        children =~= seq![DocChildV::Table(t)],
        t.rows.len() == 2,
        t.rows[0].cells.len() == 3,
        t.rows[1].cells.len() == 3,
    ensures
        spec_scan_tables(children).len() == 1,
        spec_scan_tables(children)[0].0 == spec_table_hash(t),
        spec_row_lookup(spec_scan_tables(children)[0].1, "row_number"@) == Option::Some(
            ValueV::U32(2),
        ),
        spec_row_lookup(spec_scan_tables(children)[0].1, "column_number"@) == Option::Some(
            ValueV::U32(3),
        ),
        spec_scan_cells(children).len() == 6,
        forall|i: int|
            0 <= i < 6 ==> #[trigger] spec_row_lookup(
                spec_scan_cells(children)[i].1,
                "table_hash"@,
            ) == Option::Some(ValueV::Str(spec_table_hash(t))),
{
    lemma_column_names_distinct();
    let th = spec_table_hash(t);
    assert(children.drop_last() =~= Seq::<DocChildV>::empty());
    assert(spec_scan_tables(children.drop_last()).len() == 0);
    assert(spec_scan_tables(children) =~= seq![(th, tables_row_spec(t))]);
    let row = tables_row_spec(t);
    assert(row[1] == ("row_number"@, ValueV::U32(2)));
    assert(row[2] == ("column_number"@, ValueV::U32(3)));
    assert(row[0].0 == "hash"@);
    lemma_lookup_skip_prefix(row, "row_number"@, 1);
    lemma_lookup_hit(row.skip(1), "row_number"@);
    assert(row.skip(1).first() == row[1]);
    assert forall|i: int| 0 <= i < 2 implies row[i].0 != "column_number"@ by {
        assert(row[0].0 == "hash"@);
        assert(row[1].0 == "row_number"@);
    }
    lemma_lookup_skip_prefix(row, "column_number"@, 2);
    lemma_lookup_hit(row.skip(2), "column_number"@);
    assert(row.skip(2).first() == row[2]);
    // The cell scan: two rows of three cells each.
    let rows = t.rows;
    assert(rows.drop_last() =~= seq![rows[0]]);
    assert(rows.drop_last().drop_last() =~= Seq::<TableRowV>::empty());
    let r0 = spec_scan_cells_row(rows[0].cells, th);
    let r1 = spec_scan_cells_row(rows[1].cells, th);
    lemma_cells_row_stamped(rows[0].cells, th);
    lemma_cells_row_stamped(rows[1].cells, th);
    assert(spec_scan_table_cells(rows.drop_last().drop_last(), th).len() == 0);
    assert(spec_scan_table_cells(rows.drop_last(), th) =~= r0);
    assert(spec_scan_table_cells(rows, th) =~= r0 + r1);
    assert(spec_scan_cells(children.drop_last()).len() == 0);
    assert(spec_scan_cells(children) =~= r0 + r1);
    assert forall|i: int| 0 <= i < 6 implies #[trigger] spec_row_lookup(
        spec_scan_cells(children)[i].1,
        "table_hash"@,
    ) == Option::Some(ValueV::Str(th)) by {
        if i < 3 {
            assert(spec_scan_cells(children)[i] == r0[i]);
        } else {
            assert(spec_scan_cells(children)[i] == r1[i - 3]);
        }
    }
}

/// The length of one row's cell scan is its cell count.
proof fn lemma_cells_row_len(cells: Seq<TableCellV>, th: Seq<char>)
    ensures
        spec_scan_cells_row(cells, th).len() == cells.len(),
    decreases cells.len(),
{
    if cells.len() > 0 {
        lemma_cells_row_len(cells.drop_last(), th);
    }
}

/// Every row of one row's cell scan carries the owning table's hash in
/// its `table_hash` column.
proof fn lemma_cells_row_stamped(cells: Seq<TableCellV>, th: Seq<char>)
    ensures
        spec_scan_cells_row(cells, th).len() == cells.len(),
        forall|i: int|
            0 <= i < cells.len() ==> #[trigger] spec_row_lookup(
                spec_scan_cells_row(cells, th)[i].1,
                "table_hash"@,
            ) == Option::Some(ValueV::Str(th)),
    decreases cells.len(),
{
    lemma_cells_row_len(cells, th);
    if cells.len() > 0 {
        lemma_cells_row_stamped(cells.drop_last(), th);
        let s = spec_scan_cells_row(cells, th);
        let prev = spec_scan_cells_row(cells.drop_last(), th);
        lemma_cell_row_table_hash(cells.last(), th);
        assert forall|i: int| 0 <= i < cells.len() implies #[trigger] spec_row_lookup(
            s[i].1,
            "table_hash"@,
        ) == Option::Some(ValueV::Str(th)) by {
            if i < cells.len() - 1 {
                assert(s[i] == prev[i]);
            } else {
                assert(s[i] == (spec_cell_hash(cells.last()), cell_row_spec(cells.last(), th)));
            }
        }
    }
}

/// The `table_hash` column of one projected cell row is the owner's
/// hash.
proof fn lemma_cell_row_table_hash(c: TableCellV, th: Seq<char>)
    ensures
        spec_row_lookup(cell_row_spec(c, th), "table_hash"@) == Option::Some(ValueV::Str(th)),
{
    lemma_column_names_distinct();
    let row = cell_row_spec(c, th);
    assert(row[0].0 == "hash"@);
    lemma_lookup_skip_prefix(row, "table_hash"@, 1);
    lemma_lookup_hit(row.skip(1), "table_hash"@);
    assert(row.skip(1).first() == row[1]);
    assert(row[1] == ("table_hash"@, ValueV::Str(th)));
}

/// Law (content concatenation): a cell holding one paragraph of two
/// text runs projects the two texts joined with no separator.
pub proof fn lemma_content_concatenation(c: TableCellV, a: Seq<char>, b: Seq<char>)
    requires
        c.children =~= seq![
            CellChildV::Paragraph(
                ParagraphV {
                    children: seq![
                        ParaChildV::Run(RunV { children: seq![RunChildV::Text(a)] }),
                        ParaChildV::Run(RunV { children: seq![RunChildV::Text(b)] }),
                    ],
                },
            ),
        ],
    ensures
        spec_cell_text(c) == a + b,
{
    let run_a = RunV { children: seq![RunChildV::Text(a)] };
    let run_b = RunV { children: seq![RunChildV::Text(b)] };
    let para = ParagraphV { children: seq![ParaChildV::Run(run_a), ParaChildV::Run(run_b)] };
    assert(run_a.children.drop_last() =~= Seq::<RunChildV>::empty());
    assert(run_b.children.drop_last() =~= Seq::<RunChildV>::empty());
    assert(spec_run_children_text(run_a.children.drop_last()).len() == 0);
    assert(spec_run_children_text(run_b.children.drop_last()).len() == 0);
    assert(spec_run_children_text(run_a.children) =~= a);
    assert(spec_run_children_text(run_b.children) =~= b);
    assert(para.children.drop_last() =~= seq![ParaChildV::Run(run_a)]);
    assert(para.children.drop_last().drop_last() =~= Seq::<ParaChildV>::empty());
    assert(crate::model::spec_para_children_text(para.children.drop_last().drop_last()).len()
        == 0);
    assert(crate::model::spec_para_children_text(para.children.drop_last()) =~= a);
    assert(crate::model::spec_para_children_text(para.children) =~= a + b);
    assert(c.children.drop_last() =~= Seq::<CellChildV>::empty());
    assert(crate::model::spec_cell_children_text(c.children.drop_last()).len() == 0);
    assert(c.children.last() == CellChildV::Paragraph(para));
    assert(spec_cell_text(c) =~= a + b);
}

} // verus!
