//! Row identity: each projected element is keyed by the hex form of a
//! 256-bit digest of its canonical serialization.
//!
//! The canonical form is defined here as a total function of the model
//! (tag bytes for variants, little-endian numbers, char-count-prefixed
//! strings), so identical content always gives identical bytes; the
//! digest and the hex encoding are outside calls behind trusted items.
use vstd::bytes::{spec_u32_to_le_bytes, spec_u64_to_le_bytes, u32_to_le_bytes, u64_to_le_bytes};
use vstd::prelude::*;

use crate::model::{
    Border, BorderV, Borders, BordersV, CellChild, CellChildV, CellProps, CellPropsV,
    Paragraph, ParaChild, ParaChildV, ParagraphV, Run, RunChild, RunChildV, RunV, Table,
    TableAlign, TableCell, TableCellV, TableProps, TablePropsV, TableRow, TableRowV, TableV,
    WidthKind, WidthSetting,
};

verus! {

pub open spec fn enc_u32(x: u32) -> Seq<u8> {
    spec_u32_to_le_bytes(x)
}

pub open spec fn enc_u64(x: u64) -> Seq<u8> {
    spec_u64_to_le_bytes(x)
}

pub open spec fn enc_char(c: char) -> Seq<u8> {
    enc_u32(c as u32)
}

pub open spec fn enc_chars_rec(s: Seq<char>) -> Seq<u8>
    decreases s.len(),
{
    if s.len() == 0 {
        Seq::empty()
    } else {
        enc_chars_rec(s.drop_last()) + enc_char(s.last())
    }
}

/// A string: its character count, then each character's code point.
pub open spec fn enc_chars(s: Seq<char>) -> Seq<u8> {
    enc_u64(s.len() as u64) + enc_chars_rec(s)
}

pub open spec fn enc_width_kind(k: WidthKind) -> u8 {
    match k {
        WidthKind::Dxa => 0,
        WidthKind::Auto => 1,
        WidthKind::Pct => 2,
        WidthKind::Nil => 3,
        WidthKind::Unsupported => 4,
    }
}

pub open spec fn enc_align(a: TableAlign) -> u8 {
    match a {
        TableAlign::Left => 0,
        TableAlign::Center => 1,
        TableAlign::Right => 2,
    }
}

pub open spec fn enc_opt_width(w: Option<WidthSetting>) -> Seq<u8> {
    match w {
        Option::None => seq![0u8],
        Option::Some(ws) => seq![1u8] + enc_u32(ws.width) + seq![enc_width_kind(ws.kind)],
    }
}

pub open spec fn enc_opt_align(a: Option<TableAlign>) -> Seq<u8> {
    match a {
        Option::None => seq![0u8],
        Option::Some(x) => seq![1u8, enc_align(x)],
    }
}

pub open spec fn enc_border(b: BorderV) -> Seq<u8> {
    enc_chars(b.color) + enc_u64(b.size) + enc_chars(b.kind)
}

pub open spec fn enc_opt_border(b: Option<BorderV>) -> Seq<u8> {
    match b {
        Option::None => seq![0u8],
        Option::Some(x) => seq![1u8] + enc_border(x),
    }
}

pub open spec fn enc_border_triple(
    a: Option<BorderV>,
    b: Option<BorderV>,
    c: Option<BorderV>,
) -> Seq<u8> {
    enc_opt_border(a) + enc_opt_border(b) + enc_opt_border(c)
}

pub open spec fn enc_borders(bs: BordersV) -> Seq<u8> {
    enc_border_triple(bs.top, bs.left, bs.bottom) + enc_border_triple(
        bs.right,
        bs.inside_h,
        bs.inside_v,
    )
}

pub open spec fn enc_table_props(p: TablePropsV) -> Seq<u8> {
    enc_opt_width(p.width) + enc_opt_align(p.justification) + enc_borders(p.borders)
}

pub open spec fn enc_cell_props(p: CellPropsV) -> Seq<u8> {
    enc_opt_width(p.width) + enc_borders(p.borders)
}

pub open spec fn enc_run_child(c: RunChildV) -> Seq<u8> {
    match c {
        RunChildV::Text(t) => seq![1u8] + enc_chars(t),
        RunChildV::Other => seq![0u8],
    }
}

pub open spec fn enc_run_children(s: Seq<RunChildV>) -> Seq<u8>
    decreases s.len(),
{
    if s.len() == 0 {
        Seq::empty()
    } else {
        enc_run_children(s.drop_last()) + enc_run_child(s.last())
    }
}

pub open spec fn enc_run(r: RunV) -> Seq<u8> {
    enc_u64(r.children.len() as u64) + enc_run_children(r.children)
}

pub open spec fn enc_para_child(c: ParaChildV) -> Seq<u8> {
    match c {
        ParaChildV::Run(r) => seq![1u8] + enc_run(r),
        ParaChildV::Other => seq![0u8],
    }
}

pub open spec fn enc_para_children(s: Seq<ParaChildV>) -> Seq<u8>
    decreases s.len(),
{
    if s.len() == 0 {
        Seq::empty()
    } else {
        enc_para_children(s.drop_last()) + enc_para_child(s.last())
    }
}

pub open spec fn enc_paragraph(p: ParagraphV) -> Seq<u8> {
    enc_u64(p.children.len() as u64) + enc_para_children(p.children)
}

pub open spec fn enc_cell_child(c: CellChildV) -> Seq<u8> {
    match c {
        CellChildV::Paragraph(p) => seq![1u8] + enc_paragraph(p),
        CellChildV::Other => seq![0u8],
    }
}

pub open spec fn enc_cell_children(s: Seq<CellChildV>) -> Seq<u8>
    decreases s.len(),
{
    if s.len() == 0 {
        Seq::empty()
    } else {
        enc_cell_children(s.drop_last()) + enc_cell_child(s.last())
    }
}

/// A cell: its style bag, then its children.
pub open spec fn enc_cell(c: TableCellV) -> Seq<u8> {
    enc_cell_props(c.property) + enc_u64(c.children.len() as u64) + enc_cell_children(c.children)
}

pub open spec fn enc_cells(s: Seq<TableCellV>) -> Seq<u8>
    decreases s.len(),
{
    if s.len() == 0 {
        Seq::empty()
    } else {
        enc_cells(s.drop_last()) + enc_cell(s.last())
    }
}

pub open spec fn enc_row(r: TableRowV) -> Seq<u8> {
    enc_u64(r.cells.len() as u64) + enc_cells(r.cells)
}

pub open spec fn enc_rows(s: Seq<TableRowV>) -> Seq<u8>
    decreases s.len(),
{
    if s.len() == 0 {
        Seq::empty()
    } else {
        enc_rows(s.drop_last()) + enc_row(s.last())
    }
}

/// A table: its style bag, then its rows.
pub open spec fn enc_table(t: TableV) -> Seq<u8> {
    enc_table_props(t.property) + enc_u64(t.rows.len() as u64) + enc_rows(t.rows)
}

/// What the 256-bit digest returns on given bytes. The result depends on
/// the bytes alone, so naming it is sound; nothing more is assumed of it
/// than its length.
pub uninterp spec fn sha256_of(data: Seq<u8>) -> Seq<u8>;

/// Relies on sha2::Sha256::digest: a pure function of the input bytes,
/// returning a 256-bit (32-byte) digest.
#[verifier::external_body]
fn sha256_digest(data: &Vec<u8>) -> (r: Vec<u8>)
    ensures
        r@ == sha256_of(data@),
        r@.len() == 32,
{
    <sha2::Sha256 as sha2::Digest>::digest(data.as_slice()).to_vec()
}

/// The lower-case hex digit of a value below 16.
pub open spec fn hex_digit(n: u8) -> char
    recommends
        n < 16,
{
    if n == 0 {
        '0'
    } else if n == 1 {
        '1'
    } else if n == 2 {
        '2'
    } else if n == 3 {
        '3'
    } else if n == 4 {
        '4'
    } else if n == 5 {
        '5'
    } else if n == 6 {
        '6'
    } else if n == 7 {
        '7'
    } else if n == 8 {
        '8'
    } else if n == 9 {
        '9'
    } else if n == 10 {
        'a'
    } else if n == 11 {
        'b'
    } else if n == 12 {
        'c'
    } else if n == 13 {
        'd'
    } else if n == 14 {
        'e'
    } else {
        'f'
    }
}

/// Lower-case hex text of a byte sequence: two digits per byte, high
/// digit first.
pub open spec fn spec_hex(data: Seq<u8>) -> Seq<char>
    decreases data.len(),
{
    if data.len() == 0 {
        Seq::empty()
    } else {
        spec_hex(data.drop_last()) + seq![
            hex_digit(data.last() / 16),
            hex_digit(data.last() % 16),
        ]
    }
}

/// Relies on hex::encode: two lower-case hex digits per input byte, high
/// digit first, in input order.
#[verifier::external_body]
fn hex_encode(data: &Vec<u8>) -> (r: String)
    ensures
        r@ == spec_hex(data@),
{
    hex::encode(data)
}

/// The content hash of a table: hex of the digest of its canonical form.
pub open spec fn spec_table_hash(t: TableV) -> Seq<char> {
    spec_hex(sha256_of(enc_table(t)))
}

/// The content hash of a cell.
pub open spec fn spec_cell_hash(c: TableCellV) -> Seq<char> {
    spec_hex(sha256_of(enc_cell(c)))
}

fn encode_u32(out: &mut Vec<u8>, x: u32)
    ensures
        final(out)@ == old(out)@ + enc_u32(x),
{
    let mut bs = u32_to_le_bytes(x);
    out.append(&mut bs);
}

fn encode_u64(out: &mut Vec<u8>, x: u64)
    ensures
        final(out)@ == old(out)@ + enc_u64(x),
{
    let mut bs = u64_to_le_bytes(x);
    out.append(&mut bs);
}

fn encode_str(out: &mut Vec<u8>, s: &String)
    ensures
        final(out)@ == old(out)@ + enc_chars(s@),
{
    let ghost orig: Seq<u8> = out@;
    let st: &str = s.as_str();
    let n = st.unicode_len();
    encode_u64(out, n as u64);
    proof {
        assert(s@.take(0) =~= Seq::<char>::empty());
    }
    for i in 0..n
        invariant
            n == s@.len(),
            st@ == s@,
            out@ == orig + enc_u64(n as u64) + enc_chars_rec(s@.take(i as int)),
    {
        let c = st.get_char(i);
        encode_u32(out, c as u32);
        proof {
            let j = i as int;
            assert(s@.take(j + 1).drop_last() =~= s@.take(j));
            assert(out@ =~= orig + enc_u64(n as u64) + enc_chars_rec(s@.take(j + 1)));
        }
    }
    proof {
        assert(s@.take(n as int) =~= s@);
        assert(enc_chars(s@) == enc_u64(n as u64) + enc_chars_rec(s@));
        assert(out@ =~= orig + enc_chars(s@));
    }
}

fn encode_opt_width(out: &mut Vec<u8>, w: &Option<WidthSetting>)
    ensures
        final(out)@ == old(out)@ + enc_opt_width(*w),
{
    let ghost orig: Seq<u8> = out@;
    match w {
        Option::None => {
            out.push(0u8);
            proof {
                assert(out@ =~= orig + enc_opt_width(*w));
            }
        },
        Option::Some(ws) => {
            out.push(1u8);
            encode_u32(out, ws.width);
            let kb: u8 = match ws.kind {
                WidthKind::Dxa => 0,
                WidthKind::Auto => 1,
                WidthKind::Pct => 2,
                WidthKind::Nil => 3,
                WidthKind::Unsupported => 4,
            };
            out.push(kb);
            proof {
                assert(out@ =~= orig + enc_opt_width(*w));
            }
        },
    }
}

fn encode_opt_align(out: &mut Vec<u8>, a: &Option<TableAlign>)
    ensures
        final(out)@ == old(out)@ + enc_opt_align(*a),
{
    let ghost orig: Seq<u8> = out@;
    match a {
        Option::None => {
            out.push(0u8);
            proof {
                assert(out@ =~= orig + enc_opt_align(*a));
            }
        },
        Option::Some(x) => {
            out.push(1u8);
            let ab: u8 = match x {
                TableAlign::Left => 0,
                TableAlign::Center => 1,
                TableAlign::Right => 2,
            };
            out.push(ab);
            proof {
                assert(out@ =~= orig + enc_opt_align(*a));
            }
        },
    }
}

fn encode_opt_border(out: &mut Vec<u8>, b: &Option<Border>)
    ensures
        final(out)@ == old(out)@ + enc_opt_border(crate::model::opt_border_view(*b)),
{
    let ghost orig: Seq<u8> = out@;
    match b {
        Option::None => {
            out.push(0u8);
            proof {
                assert(out@ =~= orig + enc_opt_border(crate::model::opt_border_view(*b)));
            }
        },
        Option::Some(x) => {
            out.push(1u8);
            encode_str(out, &x.color);
            encode_u64(out, x.size);
            encode_str(out, &x.kind);
            proof {
                assert(out@ =~= orig + enc_opt_border(crate::model::opt_border_view(*b)));
            }
        },
    }
}

#[verifier::rlimit(40)]
fn encode_borders(out: &mut Vec<u8>, bs: &Borders)
    ensures
        final(out)@ == old(out)@ + enc_borders(bs@),
{
    let ghost orig: Seq<u8> = out@;
    encode_opt_border(out, &bs.top);
    encode_opt_border(out, &bs.left);
    encode_opt_border(out, &bs.bottom);
    encode_opt_border(out, &bs.right);
    encode_opt_border(out, &bs.inside_h);
    encode_opt_border(out, &bs.inside_v);
    proof {
        assert(out@ =~= orig + enc_borders(bs@));
    }
}

fn encode_table_props(out: &mut Vec<u8>, p: &TableProps)
    ensures
        final(out)@ == old(out)@ + enc_table_props(p@),
{
    let ghost orig: Seq<u8> = out@;
    encode_opt_width(out, &p.width);
    encode_opt_align(out, &p.justification);
    encode_borders(out, &p.borders);
    proof {
        assert(out@ =~= orig + enc_table_props(p@));
    }
}

fn encode_cell_props(out: &mut Vec<u8>, p: &CellProps)
    ensures
        final(out)@ == old(out)@ + enc_cell_props(p@),
{
    let ghost orig: Seq<u8> = out@;
    encode_opt_width(out, &p.width);
    encode_borders(out, &p.borders);
    proof {
        assert(out@ =~= orig + enc_cell_props(p@));
    }
}

fn encode_run(out: &mut Vec<u8>, r: &Run)
    ensures
        final(out)@ == old(out)@ + enc_run(r@),
{
    let ghost orig: Seq<u8> = out@;
    let n = r.children.len();
    encode_u64(out, n as u64);
    proof {
        assert(r@.children.take(0) =~= Seq::<RunChildV>::empty());
    }
    for i in 0..n
        invariant
            n == r.children.len(),
            r@.children.len() == n,
            r@.children == r.children@.map_values(|c: RunChild| c@),
            out@ == orig + enc_u64(n as u64) + enc_run_children(r@.children.take(i as int)),
    {
        match &r.children[i] {
            RunChild::Text(t) => {
                out.push(1u8);
                encode_str(out, t);
            },
            RunChild::Other => {
                out.push(0u8);
            },
        }
        proof {
            let j = i as int;
            assert(r@.children[j] == r.children@[j]@);
            assert(r@.children.take(j + 1).drop_last() =~= r@.children.take(j));
            assert(out@ =~= orig + enc_u64(n as u64) + enc_run_children(r@.children.take(j + 1)));
        }
    }
    proof {
        assert(r@.children.take(n as int) =~= r@.children);
        assert(out@ =~= orig + enc_run(r@));
    }
}

fn encode_paragraph(out: &mut Vec<u8>, p: &Paragraph)
    ensures
        final(out)@ == old(out)@ + enc_paragraph(p@),
{
    let ghost orig: Seq<u8> = out@;
    let n = p.children.len();
    encode_u64(out, n as u64);
    proof {
        assert(p@.children.take(0) =~= Seq::<ParaChildV>::empty());
    }
    for i in 0..n
        invariant
            n == p.children.len(),
            p@.children.len() == n,
            p@.children == p.children@.map_values(|c: ParaChild| c@),
            out@ == orig + enc_u64(n as u64) + enc_para_children(p@.children.take(i as int)),
    {
        match &p.children[i] {
            ParaChild::Run(r) => {
                out.push(1u8);
                encode_run(out, r);
            },
            ParaChild::Other => {
                out.push(0u8);
            },
        }
        proof {
            let j = i as int;
            assert(p@.children[j] == p.children@[j]@);
            assert(p@.children.take(j + 1).drop_last() =~= p@.children.take(j));
            assert(out@ =~= orig + enc_u64(n as u64) + enc_para_children(p@.children.take(j + 1)));
        }
    }
    proof {
        assert(p@.children.take(n as int) =~= p@.children);
        assert(out@ =~= orig + enc_paragraph(p@));
    }
}

fn encode_cell(out: &mut Vec<u8>, c: &TableCell)
    ensures
        final(out)@ == old(out)@ + enc_cell(c@),
{
    let ghost orig: Seq<u8> = out@;
    encode_cell_props(out, &c.property);
    let n = c.children.len();
    encode_u64(out, n as u64);
    proof {
        assert(c@.children.take(0) =~= Seq::<CellChildV>::empty());
    }
    for i in 0..n
        invariant
            n == c.children.len(),
            c@.children.len() == n,
            c@.children == c.children@.map_values(|ch: CellChild| ch@),
            out@ == orig + enc_cell_props(c@.property) + enc_u64(n as u64) + enc_cell_children(
                c@.children.take(i as int),
            ),
    {
        match &c.children[i] {
            CellChild::Paragraph(p) => {
                out.push(1u8);
                encode_paragraph(out, p);
            },
            CellChild::Other => {
                out.push(0u8);
            },
        }
        proof {
            let j = i as int;
            assert(c@.children[j] == c.children@[j]@);
            assert(c@.children.take(j + 1).drop_last() =~= c@.children.take(j));
            assert(out@ =~= orig + enc_cell_props(c@.property) + enc_u64(n as u64)
                + enc_cell_children(c@.children.take(j + 1)));
        }
    }
    proof {
        assert(c@.children.take(n as int) =~= c@.children);
        assert(out@ =~= orig + enc_cell(c@));
    }
}

fn encode_row(out: &mut Vec<u8>, r: &TableRow)
    ensures
        final(out)@ == old(out)@ + enc_row(r@),
{
    let ghost orig: Seq<u8> = out@;
    let n = r.cells.len();
    encode_u64(out, n as u64);
    proof {
        assert(r@.cells.take(0) =~= Seq::<TableCellV>::empty());
    }
    for i in 0..n
        invariant
            n == r.cells.len(),
            r@.cells.len() == n,
            r@.cells == r.cells@.map_values(|c: TableCell| c@),
            out@ == orig + enc_u64(n as u64) + enc_cells(r@.cells.take(i as int)),
    {
        encode_cell(out, &r.cells[i]);
        proof {
            let j = i as int;
            assert(r@.cells[j] == r.cells@[j]@);
            assert(r@.cells.take(j + 1).drop_last() =~= r@.cells.take(j));
            assert(out@ =~= orig + enc_u64(n as u64) + enc_cells(r@.cells.take(j + 1)));
        }
    }
    proof {
        assert(r@.cells.take(n as int) =~= r@.cells);
        assert(out@ =~= orig + enc_row(r@));
    }
}

fn encode_table(out: &mut Vec<u8>, t: &Table)
    ensures
        final(out)@ == old(out)@ + enc_table(t@),
{
    let ghost orig: Seq<u8> = out@;
    encode_table_props(out, &t.property);
    let n = t.rows.len();
    encode_u64(out, n as u64);
    proof {
        assert(t@.rows.take(0) =~= Seq::<TableRowV>::empty());
    }
    for i in 0..n
        invariant
            n == t.rows.len(),
            t@.rows.len() == n,
            t@.rows == t.rows@.map_values(|r: TableRow| r@),
            out@ == orig + enc_table_props(t@.property) + enc_u64(n as u64) + enc_rows(
                t@.rows.take(i as int),
            ),
    {
        encode_row(out, &t.rows[i]);
        proof {
            let j = i as int;
            assert(t@.rows[j] == t.rows@[j]@);
            assert(t@.rows.take(j + 1).drop_last() =~= t@.rows.take(j));
            assert(out@ =~= orig + enc_table_props(t@.property) + enc_u64(n as u64) + enc_rows(
                t@.rows.take(j + 1),
            ));
        }
    }
    proof {
        assert(t@.rows.take(n as int) =~= t@.rows);
        assert(out@ =~= orig + enc_table(t@));
    }
}

/// The content hash of a table, recomputed from its current state on
/// every call.
pub fn table_content_hash(t: &Table) -> (r: String)
    ensures
        r@ == spec_table_hash(t@),
{
    let mut buf: Vec<u8> = Vec::new();
    encode_table(&mut buf, t);
    proof {
        assert(buf@ =~= enc_table(t@));
    }
    let digest = sha256_digest(&buf);
    hex_encode(&digest)
}

/// The content hash of a cell, recomputed from its current state on
/// every call.
pub fn cell_content_hash(c: &TableCell) -> (r: String)
    ensures
        r@ == spec_cell_hash(c@),
{
    let mut buf: Vec<u8> = Vec::new();
    encode_cell(&mut buf, c);
    proof {
        assert(buf@ =~= enc_cell(c@));
    }
    let digest = sha256_digest(&buf);
    hex_encode(&digest)
}

/// Law: the content hash is deterministic — an unchanged element gives
/// the same hash on every computation, since the hash is a function of
/// the element's model alone.
pub proof fn lemma_table_hash_deterministic(t1: TableV, t2: TableV)
    requires
        t1 == t2,
    ensures
        spec_table_hash(t1) == spec_table_hash(t2),
{
}

/// Law: the cell content hash is deterministic in the same way.
pub proof fn lemma_cell_hash_deterministic(c1: TableCellV, c2: TableCellV)
    requires
        c1 == c2,
    ensures
        spec_cell_hash(c1) == spec_cell_hash(c2),
{
}

/// A border whose strings a real document can hold: their character
/// counts fit the count prefix of the canonical form.
pub open spec fn border_bounded(b: BorderV) -> bool {
    b.color.len() < 0x1_0000_0000_0000_0000 && b.kind.len() < 0x1_0000_0000_0000_0000
}

pub open spec fn borders_bounded(bs: BordersV) -> bool {
    &&& (bs.top matches Option::Some(b) ==> border_bounded(b))
    &&& (bs.left matches Option::Some(b) ==> border_bounded(b))
    &&& (bs.bottom matches Option::Some(b) ==> border_bounded(b))
    &&& (bs.right matches Option::Some(b) ==> border_bounded(b))
    &&& (bs.inside_h matches Option::Some(b) ==> border_bounded(b))
    &&& (bs.inside_v matches Option::Some(b) ==> border_bounded(b))
}

pub open spec fn table_props_bounded(p: TablePropsV) -> bool {
    borders_bounded(p.borders)
}

/// Splitting equal concatenations at equal lengths gives equal parts.
proof fn lemma_unpack(a1: Seq<u8>, b1: Seq<u8>, a2: Seq<u8>, b2: Seq<u8>)
    requires
        a1 + b1 == a2 + b2,
        a1.len() == a2.len(),
    ensures
        a1 == a2,
        b1 == b2,
{
    assert(a1 =~= (a1 + b1).subrange(0, a1.len() as int));
    assert(a2 =~= (a2 + b2).subrange(0, a2.len() as int));
    assert(b1 =~= (a1 + b1).subrange(a1.len() as int, (a1 + b1).len() as int));
    assert(b2 =~= (a2 + b2).subrange(a2.len() as int, (a2 + b2).len() as int));
}

proof fn lemma_enc_u32_len(x: u32)
    ensures
        enc_u32(x).len() == 4,
{
    vstd::bytes::lemma_auto_spec_u32_to_from_le_bytes();
    assert(spec_u32_to_le_bytes(x).len() == 4);
}

proof fn lemma_enc_u32_inj(x: u32, y: u32)
    requires
        enc_u32(x) == enc_u32(y),
    ensures
        x == y,
{
    vstd::bytes::lemma_auto_spec_u32_to_from_le_bytes();
    assert(spec_u32_to_le_bytes(x).len() == 4);
    assert(spec_u32_to_le_bytes(y).len() == 4);
    assert(vstd::bytes::spec_u32_from_le_bytes(spec_u32_to_le_bytes(x)) == x);
    assert(vstd::bytes::spec_u32_from_le_bytes(spec_u32_to_le_bytes(y)) == y);
}

proof fn lemma_enc_u64_len(x: u64)
    ensures
        enc_u64(x).len() == 8,
{
    vstd::bytes::lemma_auto_spec_u64_to_from_le_bytes();
    assert(spec_u64_to_le_bytes(x).len() == 8);
}

proof fn lemma_enc_u64_inj(x: u64, y: u64)
    requires
        enc_u64(x) == enc_u64(y),
    ensures
        x == y,
{
    vstd::bytes::lemma_auto_spec_u64_to_from_le_bytes();
    assert(spec_u64_to_le_bytes(x).len() == 8);
    assert(spec_u64_to_le_bytes(y).len() == 8);
    assert(vstd::bytes::spec_u64_from_le_bytes(spec_u64_to_le_bytes(x)) == x);
    assert(vstd::bytes::spec_u64_from_le_bytes(spec_u64_to_le_bytes(y)) == y);
}

proof fn lemma_enc_chars_rec_len(s: Seq<char>)
    ensures
        enc_chars_rec(s).len() == 4 * s.len(),
    decreases s.len(),
{
    if s.len() > 0 {
        lemma_enc_u32_len(s.last() as u32);
        lemma_enc_chars_rec_len(s.drop_last());
    }
}

/// Characters with equal code points are equal.
proof fn lemma_char_inj(c1: char, c2: char)
    requires
        c1 as u32 == c2 as u32,
    ensures
        c1 == c2,
{
}

/// Equal-length character sequences with equal codings are equal.
proof fn lemma_enc_chars_rec_inj(s1: Seq<char>, s2: Seq<char>)
    requires
        s1.len() == s2.len(),
        enc_chars_rec(s1) == enc_chars_rec(s2),
    ensures
        s1 == s2,
    decreases s1.len(),
{
    if s1.len() > 0 {
        lemma_enc_chars_rec_len(s1.drop_last());
        lemma_enc_chars_rec_len(s2.drop_last());
        lemma_enc_u32_len(s1.last() as u32);
        lemma_enc_u32_len(s2.last() as u32);
        lemma_unpack(
            enc_chars_rec(s1.drop_last()),
            enc_char(s1.last()),
            enc_chars_rec(s2.drop_last()),
            enc_char(s2.last()),
        );
        lemma_enc_chars_rec_inj(s1.drop_last(), s2.drop_last());
        lemma_enc_u32_inj(s1.last() as u32, s2.last() as u32);
        assert(s1.last() as u32 == s2.last() as u32);
        lemma_char_inj(s1.last(), s2.last());
        assert(s1.last() == s2.last());
        assert(s1 =~= s1.drop_last().push(s1.last()));
        assert(s2 =~= s2.drop_last().push(s2.last()));
        assert(s1 =~= s2);
    } else {
        assert(s1 =~= s2);
    }
}

/// A coded string at the front of equal byte sequences is decoded
/// unambiguously: the strings and the remainders agree.
proof fn lemma_enc_chars_prefix(s1: Seq<char>, r1: Seq<u8>, s2: Seq<char>, r2: Seq<u8>)
    requires
        enc_chars(s1) + r1 == enc_chars(s2) + r2,
        s1.len() < 0x1_0000_0000_0000_0000,
        s2.len() < 0x1_0000_0000_0000_0000,
    ensures
        s1 == s2,
        r1 == r2,
{
    lemma_enc_u64_len(s1.len() as u64);
    lemma_enc_u64_len(s2.len() as u64);
    lemma_enc_chars_rec_len(s1);
    lemma_enc_chars_rec_len(s2);
    assert(enc_chars(s1) + r1 =~= enc_u64(s1.len() as u64) + (enc_chars_rec(s1) + r1));
    assert(enc_chars(s2) + r2 =~= enc_u64(s2.len() as u64) + (enc_chars_rec(s2) + r2));
    lemma_unpack(
        enc_u64(s1.len() as u64),
        enc_chars_rec(s1) + r1,
        enc_u64(s2.len() as u64),
        enc_chars_rec(s2) + r2,
    );
    lemma_enc_u64_inj(s1.len() as u64, s2.len() as u64);
    assert(s1.len() as u64 == s2.len() as u64);
    assert(s1.len() == s2.len());
    lemma_unpack(enc_chars_rec(s1), r1, enc_chars_rec(s2), r2);
    lemma_enc_chars_rec_inj(s1, s2);
}

/// A coded border at the front of equal byte sequences is decoded
/// unambiguously.
proof fn lemma_enc_border_prefix(b1: BorderV, r1: Seq<u8>, b2: BorderV, r2: Seq<u8>)
    requires
        enc_border(b1) + r1 == enc_border(b2) + r2,
        border_bounded(b1),
        border_bounded(b2),
    ensures
        b1 == b2,
        r1 == r2,
{
    lemma_enc_u64_len(b1.size);
    lemma_enc_u64_len(b2.size);
    assert(enc_border(b1) + r1 =~= enc_chars(b1.color) + (enc_u64(b1.size) + (enc_chars(b1.kind)
        + r1)));
    assert(enc_border(b2) + r2 =~= enc_chars(b2.color) + (enc_u64(b2.size) + (enc_chars(b2.kind)
        + r2)));
    lemma_enc_chars_prefix(
        b1.color,
        enc_u64(b1.size) + (enc_chars(b1.kind) + r1),
        b2.color,
        enc_u64(b2.size) + (enc_chars(b2.kind) + r2),
    );
    lemma_unpack(
        enc_u64(b1.size),
        enc_chars(b1.kind) + r1,
        enc_u64(b2.size),
        enc_chars(b2.kind) + r2,
    );
    lemma_enc_u64_inj(b1.size, b2.size);
    lemma_enc_chars_prefix(b1.kind, r1, b2.kind, r2);
}

/// A coded optional border at the front of equal byte sequences is
/// decoded unambiguously: the tag byte separates the two cases.
proof fn lemma_enc_opt_border_prefix(
    ob1: Option<BorderV>,
    r1: Seq<u8>,
    ob2: Option<BorderV>,
    r2: Seq<u8>,
)
    requires
        enc_opt_border(ob1) + r1 == enc_opt_border(ob2) + r2,
        ob1 matches Option::Some(b) ==> border_bounded(b),
        ob2 matches Option::Some(b) ==> border_bounded(b),
    ensures
        ob1 == ob2,
        r1 == r2,
{
    let whole = enc_opt_border(ob1) + r1;
    match (ob1, ob2) {
        (Option::None, Option::None) => {
            lemma_unpack(seq![0u8], r1, seq![0u8], r2);
        },
        (Option::None, Option::Some(b2)) => {
            assert(whole[0] == 0u8);
            assert((enc_opt_border(ob2) + r2)[0] == 1u8);
        },
        (Option::Some(b1), Option::None) => {
            assert(whole[0] == 1u8);
            assert((enc_opt_border(ob2) + r2)[0] == 0u8);
        },
        (Option::Some(b1), Option::Some(b2)) => {
            assert(enc_opt_border(ob1) + r1 =~= seq![1u8] + (enc_border(b1) + r1));
            assert(enc_opt_border(ob2) + r2 =~= seq![1u8] + (enc_border(b2) + r2));
            lemma_unpack(seq![1u8], enc_border(b1) + r1, seq![1u8], enc_border(b2) + r2);
            lemma_enc_border_prefix(b1, r1, b2, r2);
        },
    }
}

/// A coded border triple at the front of equal byte sequences is
/// decoded unambiguously.
#[verifier::rlimit(100)]
proof fn lemma_enc_triple_prefix(
    a1: Option<BorderV>,
    b1: Option<BorderV>,
    c1: Option<BorderV>,
    r1: Seq<u8>,
    a2: Option<BorderV>,
    b2: Option<BorderV>,
    c2: Option<BorderV>,
    r2: Seq<u8>,
)
    requires
        enc_border_triple(a1, b1, c1) + r1 == enc_border_triple(a2, b2, c2) + r2,
        a1 matches Option::Some(b) ==> border_bounded(b),
        b1 matches Option::Some(b) ==> border_bounded(b),
        c1 matches Option::Some(b) ==> border_bounded(b),
        a2 matches Option::Some(b) ==> border_bounded(b),
        b2 matches Option::Some(b) ==> border_bounded(b),
        c2 matches Option::Some(b) ==> border_bounded(b),
    ensures
        a1 == a2,
        b1 == b2,
        c1 == c2,
        r1 == r2,
{
    vstd::seq_lib::lemma_concat_associative(
        enc_opt_border(a1) + enc_opt_border(b1),
        enc_opt_border(c1),
        r1,
    );
    vstd::seq_lib::lemma_concat_associative(
        enc_opt_border(a1),
        enc_opt_border(b1),
        enc_opt_border(c1) + r1,
    );
    vstd::seq_lib::lemma_concat_associative(
        enc_opt_border(a2) + enc_opt_border(b2),
        enc_opt_border(c2),
        r2,
    );
    vstd::seq_lib::lemma_concat_associative(
        enc_opt_border(a2),
        enc_opt_border(b2),
        enc_opt_border(c2) + r2,
    );
    assert(enc_border_triple(a1, b1, c1) + r1 == enc_opt_border(a1) + (enc_opt_border(b1) + (
    enc_opt_border(c1) + r1)));
    assert(enc_border_triple(a2, b2, c2) + r2 == enc_opt_border(a2) + (enc_opt_border(b2) + (
    enc_opt_border(c2) + r2)));
    lemma_enc_opt_border_prefix(
        a1,
        enc_opt_border(b1) + (enc_opt_border(c1) + r1),
        a2,
        enc_opt_border(b2) + (enc_opt_border(c2) + r2),
    );
    lemma_enc_opt_border_prefix(b1, enc_opt_border(c1) + r1, b2, enc_opt_border(c2) + r2);
    lemma_enc_opt_border_prefix(c1, r1, c2, r2);
}

/// A coded border set at the front of equal byte sequences is decoded
/// unambiguously.
proof fn lemma_enc_borders_prefix(bs1: BordersV, r1: Seq<u8>, bs2: BordersV, r2: Seq<u8>)
    requires
        enc_borders(bs1) + r1 == enc_borders(bs2) + r2,
        borders_bounded(bs1),
        borders_bounded(bs2),
    ensures
        bs1 == bs2,
        r1 == r2,
{
    let s1 = enc_border_triple(bs1.right, bs1.inside_h, bs1.inside_v);
    let s2 = enc_border_triple(bs2.right, bs2.inside_h, bs2.inside_v);
    vstd::seq_lib::lemma_concat_associative(
        enc_border_triple(bs1.top, bs1.left, bs1.bottom),
        s1,
        r1,
    );
    vstd::seq_lib::lemma_concat_associative(
        enc_border_triple(bs2.top, bs2.left, bs2.bottom),
        s2,
        r2,
    );
    assert(enc_borders(bs1) + r1 == enc_border_triple(bs1.top, bs1.left, bs1.bottom) + (s1 + r1));
    assert(enc_borders(bs2) + r2 == enc_border_triple(bs2.top, bs2.left, bs2.bottom) + (s2 + r2));
    lemma_enc_triple_prefix(
        bs1.top,
        bs1.left,
        bs1.bottom,
        s1 + r1,
        bs2.top,
        bs2.left,
        bs2.bottom,
        s2 + r2,
    );
    lemma_enc_triple_prefix(
        bs1.right,
        bs1.inside_h,
        bs1.inside_v,
        r1,
        bs2.right,
        bs2.inside_h,
        bs2.inside_v,
        r2,
    );
}

/// A coded optional width at the front of equal byte sequences is
/// decoded unambiguously.
proof fn lemma_enc_opt_width_prefix(
    w1: Option<WidthSetting>,
    r1: Seq<u8>,
    w2: Option<WidthSetting>,
    r2: Seq<u8>,
)
    requires
        enc_opt_width(w1) + r1 == enc_opt_width(w2) + r2,
    ensures
        w1 == w2,
        r1 == r2,
{
    match (w1, w2) {
        (Option::None, Option::None) => {
            lemma_unpack(seq![0u8], r1, seq![0u8], r2);
        },
        (Option::None, Option::Some(b2)) => {
            assert((enc_opt_width(w1) + r1)[0] == 0u8);
            assert((enc_opt_width(w2) + r2)[0] == 1u8);
        },
        (Option::Some(b1), Option::None) => {
            assert((enc_opt_width(w1) + r1)[0] == 1u8);
            assert((enc_opt_width(w2) + r2)[0] == 0u8);
        },
        (Option::Some(ws1), Option::Some(ws2)) => {
            assert(enc_opt_width(w1) + r1 =~= seq![1u8] + (enc_u32(ws1.width) + (seq![
                enc_width_kind(ws1.kind),
            ] + r1)));
            assert(enc_opt_width(w2) + r2 =~= seq![1u8] + (enc_u32(ws2.width) + (seq![
                enc_width_kind(ws2.kind),
            ] + r2)));
            lemma_unpack(
                seq![1u8],
                enc_u32(ws1.width) + (seq![enc_width_kind(ws1.kind)] + r1),
                seq![1u8],
                enc_u32(ws2.width) + (seq![enc_width_kind(ws2.kind)] + r2),
            );
            lemma_enc_u32_len(ws1.width);
            lemma_enc_u32_len(ws2.width);
            lemma_unpack(
                enc_u32(ws1.width),
                seq![enc_width_kind(ws1.kind)] + r1,
                enc_u32(ws2.width),
                seq![enc_width_kind(ws2.kind)] + r2,
            );
            lemma_enc_u32_inj(ws1.width, ws2.width);
            lemma_unpack(seq![enc_width_kind(ws1.kind)], r1, seq![enc_width_kind(ws2.kind)], r2);
            assert(seq![enc_width_kind(ws1.kind)][0] == enc_width_kind(ws1.kind));
            assert(seq![enc_width_kind(ws2.kind)][0] == enc_width_kind(ws2.kind));
            assert(enc_width_kind(ws1.kind) == enc_width_kind(ws2.kind));
            assert(ws1.kind == ws2.kind);
        },
    }
}

/// A coded optional justification at the front of equal byte sequences
/// is decoded unambiguously.
proof fn lemma_enc_opt_align_prefix(
    a1: Option<TableAlign>,
    r1: Seq<u8>,
    a2: Option<TableAlign>,
    r2: Seq<u8>,
)
    requires
        enc_opt_align(a1) + r1 == enc_opt_align(a2) + r2,
    ensures
        a1 == a2,
        r1 == r2,
{
    match (a1, a2) {
        (Option::None, Option::None) => {
            lemma_unpack(seq![0u8], r1, seq![0u8], r2);
        },
        (Option::None, Option::Some(x2)) => {
            assert((enc_opt_align(a1) + r1)[0] == 0u8);
            assert((enc_opt_align(a2) + r2)[0] == 1u8);
        },
        (Option::Some(x1), Option::None) => {
            assert((enc_opt_align(a1) + r1)[0] == 1u8);
            assert((enc_opt_align(a2) + r2)[0] == 0u8);
        },
        (Option::Some(x1), Option::Some(x2)) => {
            lemma_unpack(seq![1u8, enc_align(x1)], r1, seq![1u8, enc_align(x2)], r2);
            assert(seq![1u8, enc_align(x1)][1] == seq![1u8, enc_align(x2)][1]);
            assert(x1 == x2);
        },
    }
}

/// Equal canonical forms of two table style bags mean equal bags.
#[verifier::rlimit(100)]
proof fn lemma_enc_table_props_inj(p1: TablePropsV, p2: TablePropsV)
    requires
        enc_table_props(p1) == enc_table_props(p2),
        table_props_bounded(p1),
        table_props_bounded(p2),
    ensures
        p1 == p2,
{
    let e: Seq<u8> = Seq::empty();
    assert(enc_table_props(p1) + e =~= enc_opt_width(p1.width) + (enc_opt_align(p1.justification)
        + (enc_borders(p1.borders) + e)));
    assert(enc_table_props(p2) + e =~= enc_opt_width(p2.width) + (enc_opt_align(p2.justification)
        + (enc_borders(p2.borders) + e)));
    assert(enc_table_props(p1) + e == enc_table_props(p2) + e);
    lemma_enc_opt_width_prefix(
        p1.width,
        enc_opt_align(p1.justification) + (enc_borders(p1.borders) + e),
        p2.width,
        enc_opt_align(p2.justification) + (enc_borders(p2.borders) + e),
    );
    lemma_enc_opt_align_prefix(
        p1.justification,
        enc_borders(p1.borders) + e,
        p2.justification,
        enc_borders(p2.borders) + e,
    );
    lemma_enc_borders_prefix(p1.borders, e, p2.borders, e);
}

/// Law (sensitivity): two tables with the same rows whose style bags
/// differ have different canonical forms — so their content hashes are
/// digests of different byte strings, and any change to a style field
/// is visible to the hasher on the next computation.
pub proof fn lemma_style_sensitivity(t1: TableV, t2: TableV)
    requires
        t1.rows == t2.rows,
        t1.property != t2.property,
        table_props_bounded(t1.property),
        table_props_bounded(t2.property),
    ensures
        enc_table(t1) != enc_table(t2),
{
    if enc_table(t1) == enc_table(t2) {
        let suffix = enc_u64(t1.rows.len() as u64) + enc_rows(t1.rows);
        assert(enc_table(t1) =~= enc_table_props(t1.property) + suffix);
        assert(enc_table(t2) =~= enc_table_props(t2.property) + suffix);
        assert(enc_table_props(t1.property).len() == enc_table_props(t2.property).len());
        lemma_unpack(enc_table_props(t1.property), suffix, enc_table_props(t2.property), suffix);
        lemma_enc_table_props_inj(t1.property, t2.property);
        assert(false);
    }
}

pub open spec fn cell_props_bounded(p: CellPropsV) -> bool {
    borders_bounded(p.borders)
}

/// Equal canonical forms of two cell style bags mean equal bags.
proof fn lemma_enc_cell_props_inj(p1: CellPropsV, p2: CellPropsV)
    requires
        enc_cell_props(p1) == enc_cell_props(p2),
        cell_props_bounded(p1),
        cell_props_bounded(p2),
    ensures
        p1 == p2,
{
    let e: Seq<u8> = Seq::empty();
    assert(enc_cell_props(p1) + e =~= enc_opt_width(p1.width) + (enc_borders(p1.borders) + e));
    assert(enc_cell_props(p2) + e =~= enc_opt_width(p2.width) + (enc_borders(p2.borders) + e));
    assert(enc_cell_props(p1) + e == enc_cell_props(p2) + e);
    lemma_enc_opt_width_prefix(
        p1.width,
        enc_borders(p1.borders) + e,
        p2.width,
        enc_borders(p2.borders) + e,
    );
    lemma_enc_borders_prefix(p1.borders, e, p2.borders, e);
}

/// Law (sensitivity, cells): two cells with the same children whose
/// style bags differ have different canonical forms, so their content
/// hashes are digests of different byte strings.
pub proof fn lemma_cell_style_sensitivity(c1: TableCellV, c2: TableCellV)
    requires
        c1.children == c2.children,
        c1.property != c2.property,
        cell_props_bounded(c1.property),
        cell_props_bounded(c2.property),
    ensures
        enc_cell(c1) != enc_cell(c2),
{
    if enc_cell(c1) == enc_cell(c2) {
        let suffix = enc_u64(c1.children.len() as u64) + enc_cell_children(c1.children);
        assert(enc_cell(c1) =~= enc_cell_props(c1.property) + suffix);
        assert(enc_cell(c2) =~= enc_cell_props(c2.property) + suffix);
        lemma_unpack(enc_cell_props(c1.property), suffix, enc_cell_props(c2.property), suffix);
        lemma_enc_cell_props_inj(c1.property, c2.property);
        assert(false);
    }
}

} // verus!
