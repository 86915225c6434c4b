//! In-memory model of the part of a word-processing document that the
//! virtual tables project: top-level tables, their rows and cells, the
//! text runs inside a cell, and the style bags (width, justification,
//! borders) that scans read and updates rewrite.
//!
//! Style bags are typed records with explicit optional fields, so the
//! projection defaults (width -> 0, width type -> empty string, borders
//! -> null) are decided here once, not guessed per access.
use vstd::prelude::*;

verus! {

/// How a width value is interpreted, mirroring the document format's
/// width-type enumeration.
#[derive(Clone, Copy, PartialEq, Eq, Structural, Debug)]
pub enum WidthKind {
    Dxa,
    Auto,
    Pct,
    Nil,
    Unsupported,
}

/// Table justification values accepted by updates.
#[derive(Clone, Copy, PartialEq, Eq, Structural, Debug)]
pub enum TableAlign {
    Left,
    Center,
    Right,
}

/// One of the six border positions a table or cell style bag can name.
#[derive(Clone, Copy, PartialEq, Eq, Structural, Debug)]
pub enum BorderPos {
    Top,
    Left,
    Bottom,
    Right,
    InsideH,
    InsideV,
}

/// One edge's rendering: colour, line weight, and the border style name
/// (one of the document format's border-style strings, e.g. "single").
#[derive(Debug)]
pub struct Border {
    pub color: String,
    pub size: u64,
    pub kind: String,
}

pub ghost struct BorderV {
    pub color: Seq<char>,
    pub size: u64,
    pub kind: Seq<char>,
}

impl View for Border {
    type V = BorderV;

    open spec fn view(&self) -> BorderV {
        BorderV { color: self.color@, size: self.size, kind: self.kind@ }
    }
}

/// The border set of a style bag: each of the six positions may be set
/// independently; positions not named by an update stay untouched.
#[derive(Debug)]
pub struct Borders {
    pub top: Option<Border>,
    pub left: Option<Border>,
    pub bottom: Option<Border>,
    pub right: Option<Border>,
    pub inside_h: Option<Border>,
    pub inside_v: Option<Border>,
}

pub ghost struct BordersV {
    pub top: Option<BorderV>,
    pub left: Option<BorderV>,
    pub bottom: Option<BorderV>,
    pub right: Option<BorderV>,
    pub inside_h: Option<BorderV>,
    pub inside_v: Option<BorderV>,
}

pub open spec fn opt_border_view(b: Option<Border>) -> Option<BorderV> {
    match b {
        Option::Some(x) => Option::Some(x@),
        Option::None => Option::None,
    }
}

impl View for Borders {
    type V = BordersV;

    open spec fn view(&self) -> BordersV {
        BordersV {
            top: opt_border_view(self.top),
            left: opt_border_view(self.left),
            bottom: opt_border_view(self.bottom),
            right: opt_border_view(self.right),
            inside_h: opt_border_view(self.inside_h),
            inside_v: opt_border_view(self.inside_v),
        }
    }
}

/// A border set with nothing set, as a specification value.
pub open spec fn empty_borders() -> BordersV {
    BordersV {
        top: Option::None,
        left: Option::None,
        bottom: Option::None,
        right: Option::None,
        inside_h: Option::None,
        inside_v: Option::None,
    }
}

/// Replacing one position of a border set, leaving the five others as
/// they were.
pub open spec fn spec_borders_set(bs: BordersV, pos: BorderPos, b: BorderV) -> BordersV {
    match pos {
        BorderPos::Top => BordersV { top: Option::Some(b), ..bs },
        BorderPos::Left => BordersV { left: Option::Some(b), ..bs },
        BorderPos::Bottom => BordersV { bottom: Option::Some(b), ..bs },
        BorderPos::Right => BordersV { right: Option::Some(b), ..bs },
        BorderPos::InsideH => BordersV { inside_h: Option::Some(b), ..bs },
        BorderPos::InsideV => BordersV { inside_v: Option::Some(b), ..bs },
    }
}

impl Borders {
    /// A border set with nothing set at any position.
    pub fn new() -> (r: Borders)
        ensures
            r@ == empty_borders(),
    {
        Borders {
            top: Option::None,
            left: Option::None,
            bottom: Option::None,
            right: Option::None,
            inside_h: Option::None,
            inside_v: Option::None,
        }
    }

    /// Sets the border at `pos`, leaving the other positions untouched.
    pub fn set(&mut self, pos: BorderPos, b: Border)
        ensures
            final(self)@ == spec_borders_set(old(self)@, pos, b@),
    {
        match pos {
            BorderPos::Top => {
                self.top = Option::Some(b);
            },
            BorderPos::Left => {
                self.left = Option::Some(b);
            },
            BorderPos::Bottom => {
                self.bottom = Option::Some(b);
            },
            BorderPos::Right => {
                self.right = Option::Some(b);
            },
            BorderPos::InsideH => {
                self.inside_h = Option::Some(b);
            },
            BorderPos::InsideV => {
                self.inside_v = Option::Some(b);
            },
        }
    }
}

/// A width together with its interpretation, as one style-bag entry.
#[derive(Clone, Copy, PartialEq, Eq, Structural, Debug)]
pub struct WidthSetting {
    pub width: u32,
    pub kind: WidthKind,
}

/// The style bag of a table.
#[derive(Debug)]
pub struct TableProps {
    pub width: Option<WidthSetting>,
    pub justification: Option<TableAlign>,
    pub borders: Borders,
}

pub ghost struct TablePropsV {
    pub width: Option<WidthSetting>,
    pub justification: Option<TableAlign>,
    pub borders: BordersV,
}

impl View for TableProps {
    type V = TablePropsV;

    open spec fn view(&self) -> TablePropsV {
        TablePropsV {
            width: self.width,
            justification: self.justification,
            borders: self.borders@,
        }
    }
}

impl TableProps {
    /// A table style bag with nothing set.
    pub fn new() -> (r: TableProps)
        ensures
            r@.width is None,
            r@.justification is None,
            r@.borders == empty_borders(),
    {
        TableProps { width: Option::None, justification: Option::None, borders: Borders::new() }
    }
}

/// The style bag of a table cell.
#[derive(Debug)]
pub struct CellProps {
    pub width: Option<WidthSetting>,
    pub borders: Borders,
}

pub ghost struct CellPropsV {
    pub width: Option<WidthSetting>,
    pub borders: BordersV,
}

impl View for CellProps {
    type V = CellPropsV;

    open spec fn view(&self) -> CellPropsV {
        CellPropsV { width: self.width, borders: self.borders@ }
    }
}

impl CellProps {
    /// A cell style bag with nothing set.
    pub fn new() -> (r: CellProps)
        ensures
            r@.width is None,
            r@.borders == empty_borders(),
    {
        CellProps { width: Option::None, borders: Borders::new() }
    }
}

/// A child of a text run: a text fragment, or anything else (a tab, a
/// break, an image), which projections ignore.
#[derive(Debug)]
pub enum RunChild {
    Text(String),
    Other,
}

pub ghost enum RunChildV {
    Text(Seq<char>),
    Other,
}

impl View for RunChild {
    type V = RunChildV;

    open spec fn view(&self) -> RunChildV {
        match self {
            RunChild::Text(t) => RunChildV::Text(t@),
            RunChild::Other => RunChildV::Other,
        }
    }
}

/// A text run inside a paragraph.
#[derive(Debug)]
pub struct Run {
    pub children: Vec<RunChild>,
}

pub ghost struct RunV {
    pub children: Seq<RunChildV>,
}

impl View for Run {
    type V = RunV;

    open spec fn view(&self) -> RunV {
        RunV { children: self.children@.map_values(|c: RunChild| c@) }
    }
}

/// A child of a paragraph: a run, or anything else, which projections
/// ignore.
#[derive(Debug)]
pub enum ParaChild {
    Run(Run),
    Other,
}

pub ghost enum ParaChildV {
    Run(RunV),
    Other,
}

impl View for ParaChild {
    type V = ParaChildV;

    open spec fn view(&self) -> ParaChildV {
        match self {
            ParaChild::Run(r) => ParaChildV::Run(r@),
            ParaChild::Other => ParaChildV::Other,
        }
    }
}

/// A paragraph of a cell.
#[derive(Debug)]
pub struct Paragraph {
    pub children: Vec<ParaChild>,
}

pub ghost struct ParagraphV {
    pub children: Seq<ParaChildV>,
}

impl View for Paragraph {
    type V = ParagraphV;

    open spec fn view(&self) -> ParagraphV {
        ParagraphV { children: self.children@.map_values(|c: ParaChild| c@) }
    }
}

/// A child of a table cell: a paragraph, or anything else (for example a
/// nested table), which projections ignore.
#[derive(Debug)]
pub enum CellChild {
    Paragraph(Paragraph),
    Other,
}

pub ghost enum CellChildV {
    Paragraph(ParagraphV),
    Other,
}

impl View for CellChild {
    type V = CellChildV;

    open spec fn view(&self) -> CellChildV {
        match self {
            CellChild::Paragraph(p) => CellChildV::Paragraph(p@),
            CellChild::Other => CellChildV::Other,
        }
    }
}

/// One cell of a table row.
#[derive(Debug)]
pub struct TableCell {
    pub children: Vec<CellChild>,
    pub property: CellProps,
}

pub ghost struct TableCellV {
    pub children: Seq<CellChildV>,
    pub property: CellPropsV,
}

impl View for TableCell {
    type V = TableCellV;

    open spec fn view(&self) -> TableCellV {
        TableCellV {
            children: self.children@.map_values(|c: CellChild| c@),
            property: self.property@,
        }
    }
}

/// One row of a table.
#[derive(Debug)]
pub struct TableRow {
    pub cells: Vec<TableCell>,
}

pub ghost struct TableRowV {
    pub cells: Seq<TableCellV>,
}

impl View for TableRow {
    type V = TableRowV;

    open spec fn view(&self) -> TableRowV {
        TableRowV { cells: self.cells@.map_values(|c: TableCell| c@) }
    }
}

/// A top-level table.
#[derive(Debug)]
pub struct Table {
    pub rows: Vec<TableRow>,
    pub property: TableProps,
}

pub ghost struct TableV {
    pub rows: Seq<TableRowV>,
    pub property: TablePropsV,
}

impl View for Table {
    type V = TableV;

    open spec fn view(&self) -> TableV {
        TableV { rows: self.rows@.map_values(|r: TableRow| r@), property: self.property@ }
    }
}

/// A top-level child of the document body: a table, or anything else (a
/// paragraph, a section break), which the virtual tables skip.
#[derive(Debug)]
pub enum DocChild {
    Table(Table),
    Other,
}

pub ghost enum DocChildV {
    Table(TableV),
    Other,
}

impl View for DocChild {
    type V = DocChildV;

    open spec fn view(&self) -> DocChildV {
        match self {
            DocChild::Table(t) => DocChildV::Table(t@),
            DocChild::Other => DocChildV::Other,
        }
    }
}

/// The document body: an ordered list of top-level children.
#[derive(Debug)]
pub struct Document {
    pub children: Vec<DocChild>,
}

pub ghost struct DocumentV {
    pub children: Seq<DocChildV>,
}

impl View for Document {
    type V = DocumentV;

    open spec fn view(&self) -> DocumentV {
        DocumentV { children: self.children@.map_values(|c: DocChild| c@) }
    }
}

impl Document {
    /// A document with no children.
    pub fn new() -> (r: Document)
        ensures
            r@.children == Seq::<DocChildV>::empty(),
    {
        let d = Document { children: Vec::new() };
        proof {
            assert(d@.children =~= Seq::<DocChildV>::empty());
        }
        d
    }
}

/// The string form of a width kind, as the document format serializes
/// it.
pub open spec fn spec_width_kind_str(k: WidthKind) -> Seq<char> {
    match k {
        WidthKind::Dxa => "dxa"@,
        WidthKind::Auto => "auto"@,
        WidthKind::Pct => "pct"@,
        WidthKind::Nil => "nil"@,
        WidthKind::Unsupported => "unsupported"@,
    }
}

/// Reading a width kind back from text, as the document format's parser
/// does: both spellings of each named kind are accepted, anything else
/// is the unsupported kind.
pub open spec fn spec_parse_width_kind(s: Seq<char>) -> WidthKind {
    if s == "DXA"@ || s == "dxa"@ {
        WidthKind::Dxa
    } else if s == "Auto"@ || s == "auto"@ {
        WidthKind::Auto
    } else if s == "Pct"@ || s == "pct"@ {
        WidthKind::Pct
    } else if s == "Nil"@ || s == "nil"@ {
        WidthKind::Nil
    } else {
        WidthKind::Unsupported
    }
}

/// The string form of a justification value.
pub open spec fn spec_align_str(a: TableAlign) -> Seq<char> {
    match a {
        TableAlign::Left => "left"@,
        TableAlign::Center => "center"@,
        TableAlign::Right => "right"@,
    }
}

/// Parsing a justification value from text; text that names no
/// alignment yields nothing, and such an update is silently ignored.
pub open spec fn spec_parse_align(s: Seq<char>) -> Option<TableAlign> {
    if s == "start"@ || s == "left"@ {
        Option::Some(TableAlign::Left)
    } else if s == "right"@ || s == "end"@ {
        Option::Some(TableAlign::Right)
    } else if s == "center"@ {
        Option::Some(TableAlign::Center)
    } else {
        Option::None
    }
}

impl WidthKind {
    /// The serialized string form of this width kind.
    pub fn as_text(&self) -> (r: &'static str)
        ensures
            r@ == spec_width_kind_str(*self),
    {
        match self {
            WidthKind::Dxa => "dxa",
            WidthKind::Auto => "auto",
            WidthKind::Pct => "pct",
            WidthKind::Nil => "nil",
            WidthKind::Unsupported => "unsupported",
        }
    }

    /// Parses a width kind from text; never fails, unknown text is the
    /// unsupported kind.
    pub fn parse(s: &str) -> (r: WidthKind)
        ensures
            r == spec_parse_width_kind(s@),
    {
        if crate::rows::str_eq(s, "DXA") || crate::rows::str_eq(s, "dxa") {
            WidthKind::Dxa
        } else if crate::rows::str_eq(s, "Auto") || crate::rows::str_eq(s, "auto") {
            WidthKind::Auto
        } else if crate::rows::str_eq(s, "Pct") || crate::rows::str_eq(s, "pct") {
            WidthKind::Pct
        } else if crate::rows::str_eq(s, "Nil") || crate::rows::str_eq(s, "nil") {
            WidthKind::Nil
        } else {
            WidthKind::Unsupported
        }
    }
}

impl TableAlign {
    /// The serialized string form of this justification.
    pub fn as_text(&self) -> (r: &'static str)
        ensures
            r@ == spec_align_str(*self),
    {
        match self {
            TableAlign::Left => "left",
            TableAlign::Center => "center",
            TableAlign::Right => "right",
        }
    }

    /// Parses a justification value from text.
    pub fn parse(s: &str) -> (r: Option<TableAlign>)
        ensures
            r == spec_parse_align(s@),
    {
        if crate::rows::str_eq(s, "start") || crate::rows::str_eq(s, "left") {
            Option::Some(TableAlign::Left)
        } else if crate::rows::str_eq(s, "right") || crate::rows::str_eq(s, "end") {
            Option::Some(TableAlign::Right)
        } else if crate::rows::str_eq(s, "center") {
            Option::Some(TableAlign::Center)
        } else {
            Option::None
        }
    }
}

/// The text of a run: its text fragments concatenated, anything else
/// contributing nothing.
pub open spec fn spec_run_children_text(s: Seq<RunChildV>) -> Seq<char>
    decreases s.len(),
{
    if s.len() == 0 {
        Seq::empty()
    } else {
        spec_run_children_text(s.drop_last()) + (match s.last() {
            RunChildV::Text(t) => t,
            RunChildV::Other => Seq::empty(),
        })
    }
}

/// The text of a paragraph: the text of its runs, in order, with no
/// separator.
pub open spec fn spec_para_children_text(s: Seq<ParaChildV>) -> Seq<char>
    decreases s.len(),
{
    if s.len() == 0 {
        Seq::empty()
    } else {
        spec_para_children_text(s.drop_last()) + (match s.last() {
            ParaChildV::Run(r) => spec_run_children_text(r.children),
            ParaChildV::Other => Seq::empty(),
        })
    }
}

/// The text content of a cell: every text run of every paragraph,
/// concatenated in document order with no separator.
pub open spec fn spec_cell_children_text(s: Seq<CellChildV>) -> Seq<char>
    decreases s.len(),
{
    if s.len() == 0 {
        Seq::empty()
    } else {
        spec_cell_children_text(s.drop_last()) + (match s.last() {
            CellChildV::Paragraph(p) => spec_para_children_text(p.children),
            CellChildV::Other => Seq::empty(),
        })
    }
}

pub open spec fn spec_cell_text(c: TableCellV) -> Seq<char> {
    spec_cell_children_text(c.children)
}

} // verus!
