//! Value types of the storage interface: typed column values, virtual
//! rows, row keys, schemas, and the error values the adapter reports.
use vstd::prelude::*;

verus! {

/// A row key: the content hash of the projected element, as hex text.
pub type Key = String;

/// A typed column value of a virtual row.
#[derive(Debug)]
pub enum Value {
    Str(String),
    U32(u32),
    Null,
}

pub ghost enum ValueV {
    Str(Seq<char>),
    U32(u32),
    Null,
}

impl View for Value {
    type V = ValueV;

    open spec fn view(&self) -> ValueV {
        match self {
            Value::Str(s) => ValueV::Str(s@),
            Value::U32(n) => ValueV::U32(*n),
            Value::Null => ValueV::Null,
        }
    }
}

/// A virtual row: an ordered list of column-name/value pairs, generated
/// per scan or fetch and never cached.
#[derive(Debug)]
pub struct Row {
    pub entries: Vec<(String, Value)>,
}

impl View for Row {
    type V = Seq<(Seq<char>, ValueV)>;

    open spec fn view(&self) -> Seq<(Seq<char>, ValueV)> {
        self.entries@.map_values(|e: (String, Value)| (e.0@, e.1@))
    }
}

/// The value of the first entry of `r` named `name`, if any.
pub open spec fn spec_row_lookup(r: Seq<(Seq<char>, ValueV)>, name: Seq<char>) -> Option<ValueV>
    decreases r.len(),
{
    if r.len() == 0 {
        Option::None
    } else if r.first().0 == name {
        Option::Some(r.first().1)
    } else {
        spec_row_lookup(r.drop_first(), name)
    }
}

/// String equality by contents.
pub fn str_eq(a: &str, b: &str) -> (r: bool)
    ensures
        r == (a@ == b@),
{
    let sa: String = a.to_owned();
    let sb: String = b.to_owned();
    sa == sb
}

impl Row {
    /// Looks a column up by name, returning the first entry that carries
    /// it.
    pub fn get(&self, name: &str) -> (r: Option<&Value>)
        ensures
            match r {
                Option::Some(v) => spec_row_lookup(self@, name@) == Option::Some(v@),
                Option::None => spec_row_lookup(self@, name@) is None,
            },
    {
        let n = self.entries.len();
        proof {
            assert(self@.skip(0) =~= self@);
        }
        for i in 0..n
            invariant
                n == self.entries.len(),
                spec_row_lookup(self@, name@) == spec_row_lookup(self@.skip(i as int), name@),
        {
            proof {
                let j = i as int;
                assert(self@.skip(j).first() == (self.entries@[j].0@, self.entries@[j].1@));
                assert(self@.skip(j).drop_first() =~= self@.skip(j + 1));
            }
            if str_eq(self.entries[i].0.as_str(), name) {
                return Option::Some(&self.entries[i].1);
            }
        }
        proof {
            assert(self@.skip(n as int).len() == 0);
        }
        Option::None
    }
}

/// The column types the two virtual tables use.
#[derive(Clone, Copy, PartialEq, Eq, Structural, Debug)]
pub enum DataType {
    Text,
    Uint32,
}

/// One column of a virtual-table schema.
#[derive(Debug)]
pub struct ColumnDef {
    pub name: String,
    pub data_type: DataType,
    pub nullable: bool,
}

pub ghost struct ColumnDefV {
    pub name: Seq<char>,
    pub data_type: DataType,
    pub nullable: bool,
}

impl View for ColumnDef {
    type V = ColumnDefV;

    open spec fn view(&self) -> ColumnDefV {
        ColumnDefV { name: self.name@, data_type: self.data_type, nullable: self.nullable }
    }
}

/// The fixed schema of one virtual table.
#[derive(Debug)]
pub struct Schema {
    pub table_name: String,
    pub column_defs: Vec<ColumnDef>,
}

pub ghost struct SchemaV {
    pub table_name: Seq<char>,
    pub column_defs: Seq<ColumnDefV>,
}

impl View for Schema {
    type V = SchemaV;

    open spec fn view(&self) -> SchemaV {
        SchemaV {
            table_name: self.table_name@,
            column_defs: self.column_defs@.map_values(|c: ColumnDef| c@),
        }
    }
}

/// The write operations the storage interface names but the adapter has
/// no mapping for; each is always reported, never silently applied.
#[derive(Clone, Copy, PartialEq, Eq, Structural, Debug)]
pub enum StoreError {
    InsertSchemaUnsupported,
    DeleteSchemaUnsupported,
    AppendDataUnsupported,
    DeleteDataUnsupported,
}

impl StoreError {
    /// The message reported to the storage-interface caller.
    pub fn message(&self) -> (r: String)
        ensures
            *self is InsertSchemaUnsupported ==> r@ == "[Storage] StoreMut::insert_schema is not supported"@,
            *self is DeleteSchemaUnsupported ==> r@ == "[Storage] StoreMut::delete_schema is not supported"@,
            *self is AppendDataUnsupported ==> r@ == "[Storage] StoreMut::append_data is not supported"@,
            *self is DeleteDataUnsupported ==> r@ == "[Storage] StoreMut::delete_data is not supported"@,
    {
        match self {
            StoreError::InsertSchemaUnsupported => String::from_str(
                "[Storage] StoreMut::insert_schema is not supported",
            ),
            StoreError::DeleteSchemaUnsupported => String::from_str(
                "[Storage] StoreMut::delete_schema is not supported",
            ),
            StoreError::AppendDataUnsupported => String::from_str(
                "[Storage] StoreMut::append_data is not supported",
            ),
            StoreError::DeleteDataUnsupported => String::from_str(
                "[Storage] StoreMut::delete_data is not supported",
            ),
        }
    }
}

/// The view of one scanned or updated key/row pair.
pub type RowV = Seq<(Seq<char>, ValueV)>;

/// The view of a whole scan result or update batch: key/row pairs in
/// order.
pub type ScanV = Seq<(Seq<char>, RowV)>;

/// The views of a list of key/row pairs.
pub open spec fn kv_views(v: Seq<(String, Row)>) -> ScanV {
    v.map_values(|p: (String, Row)| (p.0@, p.1@))
}

/// The first row of `s` whose key is `key`, if any.
pub open spec fn spec_find_row(s: ScanV, key: Seq<char>) -> Option<RowV>
    decreases s.len(),
{
    if s.len() == 0 {
        Option::None
    } else if s.first().0 == key {
        Option::Some(s.first().1)
    } else {
        spec_find_row(s.drop_first(), key)
    }
}

/// The view of an optionally returned row.
pub open spec fn opt_row_view(o: Option<Row>) -> Option<RowV> {
    match o {
        Option::Some(r) => Option::Some(r@),
        Option::None => Option::None,
    }
}

} // verus!
