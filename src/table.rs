//! Typed columnar tables, the coercion of one JSON value into one cell, and
//! the mapping of attribute objects into a table by row.
use vstd::prelude::*;
use crate::json::{field, get_field, member, views, Json, JsonView, Real};

verus! {

/// The type that a column declares for its cells.
#[derive(Clone, Copy, PartialEq, Eq, Structural, Debug)]
pub enum ColumnType {
    Boolean,
    Integer,
    Float,
    Text,
}

/// One cell of a table; `Null` where no value of the column's type was had.
#[derive(Debug, PartialEq)]
pub enum Cell {
    Null,
    Boolean(bool),
    Integer(i32),
    Float(Real),
    Text(String),
}

/// What a cell holds, with text as characters.
pub enum CellView {
    Null,
    Boolean(bool),
    Integer(i32),
    Float(Real),
    Text(Seq<char>),
}

impl View for Cell {
    type V = CellView;

    open spec fn view(&self) -> CellView {
        match self {
            Cell::Null => CellView::Null,
            Cell::Boolean(b) => CellView::Boolean(*b),
            Cell::Integer(i) => CellView::Integer(*i),
            Cell::Float(r) => CellView::Float(*r),
            Cell::Text(s) => CellView::Text(s@),
        }
    }
}

/// How absent and empty text is treated when a table is filled.
#[derive(Clone, Copy, PartialEq, Eq, Structural, Debug)]
pub enum NullPolicy {
    /// Every value is coerced as it is.
    Lenient,
    /// As `Lenient`, and empty text is no value.
    EmptyAsNull,
    /// Text cells are never null: what gives no text gives empty text.
    EmptyDefault,
}

/// The coercion of one JSON value into a cell of type `ty`: the value where
/// it has that type, else null.
pub open spec fn coerced(ty: ColumnType, v: JsonView) -> CellView {
    match ty {
        ColumnType::Boolean => match v {
            JsonView::Bool(b) => CellView::Boolean(b),
            _ => CellView::Null,
        },
        ColumnType::Integer => match v {
            JsonView::Number(n) => match n.int {
                Some(i) => if i32::MIN <= i <= i32::MAX {
                    CellView::Integer(i as i32)
                } else {
                    CellView::Null
                },
                None => CellView::Null,
            },
            _ => CellView::Null,
        },
        ColumnType::Float => match v {
            JsonView::Number(n) => match n.real {
                Some(r) => CellView::Float(r),
                None => CellView::Null,
            },
            _ => CellView::Null,
        },
        ColumnType::Text => match v {
            JsonView::Str(s) => CellView::Text(s),
            _ => CellView::Null,
        },
    }
}

/// The cell that a column of type `ty` holds before any value is written.
pub open spec fn blank(policy: NullPolicy, ty: ColumnType) -> CellView {
    if policy == NullPolicy::EmptyDefault && ty == ColumnType::Text {
        CellView::Text(Seq::empty())
    } else {
        CellView::Null
    }
}

/// The coercion of `v` into a cell of type `ty` under `policy`.
pub open spec fn coerced_under(policy: NullPolicy, ty: ColumnType, v: JsonView) -> CellView {
    match coerced(ty, v) {
        CellView::Null => blank(policy, ty),
        CellView::Text(s) => if policy == NullPolicy::EmptyAsNull && s.len() == 0 {
            CellView::Null
        } else {
            CellView::Text(s)
        },
        c => c,
    }
}

/// A cell of type `ty` is null or holds a value of that type.
pub open spec fn fits(c: CellView, ty: ColumnType) -> bool {
    match c {
        CellView::Null => true,
        CellView::Boolean(_) => ty == ColumnType::Boolean,
        CellView::Integer(_) => ty == ColumnType::Integer,
        CellView::Float(_) => ty == ColumnType::Float,
        CellView::Text(_) => ty == ColumnType::Text,
    }
}

impl Cell {
    /// A copy of this cell.
    pub fn duplicate(&self) -> (r: Cell)
        ensures
            r@ == self@,
    {
        match self {
            Cell::Null => Cell::Null,
            Cell::Boolean(b) => Cell::Boolean(*b),
            Cell::Integer(i) => Cell::Integer(*i),
            Cell::Float(r) => Cell::Float(*r),
            Cell::Text(s) => Cell::Text(s.clone()),
        }
    }

    /// Whether this cell holds no value.
    pub fn is_null(&self) -> (r: bool)
        ensures
            r == (self@ is Null),
    {
        match self {
            Cell::Null => true,
            _ => false,
        }
    }
}

/// Coerces one JSON value into a cell of type `ty`; a value of another type
/// gives null, never an error.
pub fn coerce(ty: ColumnType, v: &Json) -> (r: Cell)
    ensures
        r@ == coerced(ty, v@),
{
    match ty {
        ColumnType::Boolean => match v {
            Json::Bool(b) => Cell::Boolean(*b),
            _ => Cell::Null,
        },
        ColumnType::Integer => match v {
            Json::Number(n) => match n.int {
                Some(i) => if i32::MIN as i64 <= i && i <= i32::MAX as i64 {
                    Cell::Integer(i as i32)
                } else {
                    Cell::Null
                },
                None => Cell::Null,
            },
            _ => Cell::Null,
        },
        ColumnType::Float => match v {
            Json::Number(n) => match n.real {
                Some(r) => Cell::Float(r),
                None => Cell::Null,
            },
            _ => Cell::Null,
        },
        ColumnType::Text => match v {
            Json::Str(s) => Cell::Text(s.clone()),
            _ => Cell::Null,
        },
    }
}

/// The cell that a column of type `ty` holds before any value is written.
pub fn blank_cell(policy: NullPolicy, ty: ColumnType) -> (r: Cell)
    ensures
        r@ == blank(policy, ty),
{
    if policy == NullPolicy::EmptyDefault && ty == ColumnType::Text {
        Cell::Text(String::new())
    } else {
        Cell::Null
    }
}

/// Coerces `v` into a cell of type `ty` under `policy`.
pub fn coerce_under(policy: NullPolicy, ty: ColumnType, v: &Json) -> (r: Cell)
    ensures
        r@ == coerced_under(policy, ty, v@),
{
    let c = coerce(ty, v);
    match c {
        Cell::Null => blank_cell(policy, ty),
        Cell::Text(s) => if policy == NullPolicy::EmptyAsNull && s.as_str().is_empty() {
            Cell::Null
        } else {
            Cell::Text(s)
        },
        c => c,
    }
}

/// A named column of typed cells.
#[derive(Debug, PartialEq)]
pub struct Column {
    pub name: String,
    pub ty: ColumnType,
    pub cells: Vec<Cell>,
}

pub struct ColumnView {
    pub name: Seq<char>,
    pub ty: ColumnType,
    pub cells: Seq<CellView>,
}

impl View for Column {
    type V = ColumnView;

    open spec fn view(&self) -> ColumnView {
        ColumnView { name: self.name@, ty: self.ty, cells: self.cells@.map_values(|c: Cell| c@) }
    }
}

/// A column-major table with a fixed number of rows.
#[derive(Debug, PartialEq)]
pub struct Table {
    pub nrows: usize,
    pub columns: Vec<Column>,
}

pub struct TableView {
    pub nrows: nat,
    pub columns: Seq<ColumnView>,
}

impl View for Table {
    type V = TableView;

    open spec fn view(&self) -> TableView {
        TableView { nrows: self.nrows as nat, columns: self.columns@.map_values(|c: Column| c@) }
    }
}

impl TableView {
    /// Every column has one cell per row, and each cell is null or of the
    /// column's type.
    pub open spec fn wf(self) -> bool {
        forall|c: int| 0 <= c < self.columns.len() ==> {
            &&& #[trigger] self.columns[c].cells.len() == self.nrows
            &&& forall|i: int| 0 <= i < self.nrows ==> fits(#[trigger] self.columns[c].cells[i], self.columns[c].ty)
        }
    }
}

/// What the mapping of attribute object `obj` writes over cell `old` of `col`:
/// the coerced member of the column's name, or `old` where there is none.
pub open spec fn cell_after(policy: NullPolicy, col: ColumnView, obj: JsonView, old: CellView) -> CellView {
    match field(obj, col.name) {
        Some(v) => coerced_under(policy, col.ty, v),
        None => old,
    }
}

/// The attribute object of a row: the record itself, or, where the records
/// nest it in the member `nest`, that member (null where it is absent).
pub open spec fn row_object(rec: JsonView, nest: Option<Seq<char>>) -> JsonView {
    match nest {
        Some(key) => match field(rec, key) {
            Some(a) => a,
            None => JsonView::Null,
        },
        None => rec,
    }
}

/// The name of the member that nests attribute objects, as characters.
pub open spec fn nest_view(nest: Option<&str>) -> Option<Seq<char>> {
    match nest {
        Some(k) => Some(k@),
        None => None,
    }
}

/// The table `t` after row `i` has taken the attribute object of record
/// `recs[i]`, for every row.
pub open spec fn mapped(t: TableView, recs: Seq<JsonView>, nest: Option<Seq<char>>, policy: NullPolicy) -> TableView {
    TableView {
        nrows: t.nrows,
        columns: Seq::new(
            t.columns.len(),
            |c: int| ColumnView {
                name: t.columns[c].name,
                ty: t.columns[c].ty,
                cells: Seq::new(
                    t.nrows,
                    |i: int| cell_after(policy, t.columns[c], row_object(recs[i], nest), t.columns[c].cells[i]),
                ),
            },
        ),
    }
}

/// A table of `nrows` rows, one column per entry of `schema`, every cell blank.
pub open spec fn blank_table(schema: Seq<(Seq<char>, ColumnType)>, nrows: nat, policy: NullPolicy) -> TableView {
    TableView {
        nrows,
        columns: Seq::new(
            schema.len(),
            |c: int| ColumnView {
                name: schema[c].0,
                ty: schema[c].1,
                cells: Seq::new(nrows, |i: int| blank(policy, schema[c].1)),
            },
        ),
    }
}

/// Inserting a member under another key does not change what a key looks up.
pub proof fn lemma_member_insert(fs: Seq<(Seq<char>, JsonView)>, p: int, e: (Seq<char>, JsonView), key: Seq<char>)
    requires
        0 <= p <= fs.len(),
        e.0 != key,
    ensures
        member(fs.insert(p, e), key) == member(fs, key),
    decreases fs.len(),
{
    let g = fs.insert(p, e);
    if p == fs.len() {
        assert(g.drop_last() =~= fs);
    } else {
        assert(g.last() == fs.last());
        assert(g.drop_last() =~= fs.drop_last().insert(p, e));
        lemma_member_insert(fs.drop_last(), p, e, key);
    }
}

/// A member whose key names no column is ignored: where record `i` is
/// replaced by one whose attribute object (the record itself, or its member
/// `nest`) has such a member inserted anywhere, mapping gives the same table.
pub proof fn lemma_unknown_key_ignored(
    t: TableView,
    recs: Seq<JsonView>,
    nest: Option<Seq<char>>,
    i: int,
    rec2: JsonView,
    fs: Seq<(Seq<char>, JsonView)>,
    p: int,
    extra: (Seq<char>, JsonView),
    policy: NullPolicy,
)
    requires
        recs.len() == t.nrows,
        0 <= i < recs.len(),
        row_object(recs[i], nest) == JsonView::Object(fs),
        row_object(rec2, nest) == JsonView::Object(fs.insert(p, extra)),
        0 <= p <= fs.len(),
        forall|c: int| 0 <= c < t.columns.len() ==> #[trigger] t.columns[c].name != extra.0,
    ensures
        mapped(t, recs.update(i, rec2), nest, policy) == mapped(t, recs, nest, policy),
{
    let gs = fs.insert(p, extra);
    let recs2 = recs.update(i, rec2);
    let a = mapped(t, recs2, nest, policy);
    let b = mapped(t, recs, nest, policy);
    assert forall|c: int| 0 <= c < t.columns.len() implies #[trigger] a.columns[c] == b.columns[c] by {
        lemma_member_insert(fs, p, extra, t.columns[c].name);
        assert(field(JsonView::Object(gs), t.columns[c].name) == field(JsonView::Object(fs), t.columns[c].name));
        assert forall|k: int| 0 <= k < t.nrows implies #[trigger] a.columns[c].cells[k] == b.columns[c].cells[k] by {
            if k == i {
                assert(recs2[k] == rec2);
            } else {
                assert(recs2[k] == recs[k]);
            }
        }
        assert(a.columns[c].cells =~= b.columns[c].cells);
    }
    assert(a.columns =~= b.columns);
}

/// A text value in an integer column gives a null cell, not a failure,
/// whether the attribute object is the record or nested in it.
pub proof fn lemma_text_in_integer_column_is_null(
    t: TableView,
    recs: Seq<JsonView>,
    nest: Option<Seq<char>>,
    c: int,
    i: int,
    policy: NullPolicy,
)
    requires
        0 <= c < t.columns.len(),
        t.columns[c].ty == ColumnType::Integer,
        0 <= i < t.nrows,
        field(row_object(recs[i], nest), t.columns[c].name) matches Some(JsonView::Str(_)),
    ensures
        mapped(t, recs, nest, policy).columns[c].cells[i] == CellView::Null,
{
}

/// The number of attribute objects differs from the number of rows.
#[derive(Clone, Copy, PartialEq, Eq, Structural, Debug)]
pub struct SchemaMismatch {
    pub rows: usize,
    pub records: usize,
}

impl Table {
    /// A table of `nrows` rows and no column.
    pub fn new(nrows: usize) -> (r: Table)
        ensures
            r@.nrows == nrows,
            r@.columns.len() == 0,
            r@.wf(),
    {
        Table { nrows, columns: Vec::new() }
    }

    /// Appends a column of null cells.
    pub fn add_column(&mut self, name: &str, ty: ColumnType)
        requires
            old(self)@.wf(),
        ensures
            final(self)@.wf(),
            final(self)@.nrows == old(self)@.nrows,
            final(self)@.columns == old(self)@.columns.push(
                ColumnView { name: name@, ty, cells: Seq::new(old(self)@.nrows, |i: int| CellView::Null) },
            ),
    {
        let col = new_column(name, ty, self.nrows, NullPolicy::Lenient);
        self.columns.push(col);
        proof {
            assert(self@.columns =~= old(self)@.columns.push(col@));
            assert(col@.cells =~= Seq::new(old(self)@.nrows, |i: int| CellView::Null));
            let v = self@;
            assert forall|c: int| 0 <= c < v.columns.len() implies {
                &&& #[trigger] v.columns[c].cells.len() == v.nrows
                &&& forall|i: int| 0 <= i < v.nrows ==> fits(#[trigger] v.columns[c].cells[i], v.columns[c].ty)
            } by {
                if c < old(self)@.columns.len() {
                    assert(v.columns[c] == old(self)@.columns[c]);
                    assert(old(self)@.columns[c].cells.len() == old(self)@.nrows);
                }
            }
        }
    }

    /// The name and type of each column, in order.
    pub fn schema(&self) -> (r: Vec<(String, ColumnType)>)
        ensures
            r@.len() == self@.columns.len(),
            forall|c: int| 0 <= c < r@.len() ==> (#[trigger] r@[c]).0@ == self@.columns[c].name
                && r@[c].1 == self@.columns[c].ty,
    {
        let mut out: Vec<(String, ColumnType)> = Vec::new();
        let mut c: usize = 0;
        while c < self.columns.len()
            invariant
                c <= self@.columns.len(),
                out@.len() == c,
                forall|k: int| 0 <= k < c ==> (#[trigger] out@[k]).0@ == self@.columns[k].name
                    && out@[k].1 == self@.columns[k].ty,
            decreases self@.columns.len() - c,
        {
            out.push((self.columns[c].name.clone(), self.columns[c].ty));
            c = c + 1;
        }
        out
    }

    /// The cell at `row` of the first column named `name`.
    pub fn cell(&self, name: &str, row: usize) -> (r: Option<&Cell>)
        requires
            self@.wf(),
        ensures
            match r {
                Some(c) => row < self@.nrows && exists|k: int|
                    0 <= k < self@.columns.len() && #[trigger] self@.columns[k].name == name@
                        && self@.columns[k].cells[row as int] == c@
                        && forall|k2: int| 0 <= k2 < k ==> #[trigger] self@.columns[k2].name != name@,
                None => row >= self@.nrows || forall|k: int|
                    0 <= k < self@.columns.len() ==> #[trigger] self@.columns[k].name != name@,
            },
    {
        if row >= self.nrows {
            return None;
        }
        let key = String::from_str(name);
        let mut k: usize = 0;
        while k < self.columns.len()
            invariant
                self@.wf(),
                row < self@.nrows,
                key@ == name@,
                k <= self@.columns.len(),
                forall|j: int| 0 <= j < k ==> #[trigger] self@.columns[j].name != name@,
            decreases self@.columns.len() - k,
        {
            if self.columns[k].name == key {
                assert(self@.columns[k as int].cells.len() == self@.nrows);
                assert(self@.columns[k as int].name == name@);
                assert(self@.columns[k as int].cells[row as int] == self.columns[k as int].cells@[row as int]@);
                return Some(&self.columns[k].cells[row]);
            }
            k = k + 1;
        }
        None
    }
}

/// A column of `nrows` blank cells.
fn new_column(name: &str, ty: ColumnType, nrows: usize, policy: NullPolicy) -> (r: Column)
    ensures
        r@ == (ColumnView { name: name@, ty, cells: Seq::new(nrows as nat, |i: int| blank(policy, ty)) }),
{
    let mut cells: Vec<Cell> = Vec::new();
    let mut i: usize = 0;
    while i < nrows
        invariant
            i <= nrows,
            cells@.len() == i,
            forall|j: int| 0 <= j < i ==> #[trigger] cells@[j]@ == blank(policy, ty),
        decreases nrows - i,
    {
        cells.push(blank_cell(policy, ty));
        i = i + 1;
    }
    let r = Column { name: String::from_str(name), ty, cells };
    assert(r@.cells =~= Seq::new(nrows as nat, |i: int| blank(policy, ty)));
    r
}

/// A table of `nrows` rows with one blank column per entry of `schema`.
pub fn new_table(schema: &Vec<(String, ColumnType)>, nrows: usize, policy: NullPolicy) -> (r: Table)
    ensures
        r@ == blank_table(schema@.map_values(|e: (String, ColumnType)| (e.0@, e.1)), nrows as nat, policy),
        r@.wf(),
{
    let ghost sv = schema@.map_values(|e: (String, ColumnType)| (e.0@, e.1));
    let mut columns: Vec<Column> = Vec::new();
    let mut c: usize = 0;
    while c < schema.len()
        invariant
            c <= schema@.len(),
            sv == schema@.map_values(|e: (String, ColumnType)| (e.0@, e.1)),
            columns@.len() == c,
            forall|k: int| 0 <= k < c ==> #[trigger] columns@[k]@ == (ColumnView {
                name: sv[k].0,
                ty: sv[k].1,
                cells: Seq::new(nrows as nat, |i: int| blank(policy, sv[k].1)),
            }),
        decreases schema@.len() - c,
    {
        columns.push(new_column(schema[c].0.as_str(), schema[c].1, nrows, policy));
        c = c + 1;
    }
    let r = Table { nrows, columns };
    assert(r@.columns =~= blank_table(sv, nrows as nat, policy).columns);
    r
}

/// Writes the attribute object of record `i` into row `i`, for every row:
/// each member whose key names a column is coerced to that column's type;
/// other members are skipped. Where the number of records is not the number
/// of rows, nothing is written and the mismatch is reported.
pub fn map_records(table: &mut Table, objs: &Vec<Json>, nest: Option<&str>, policy: NullPolicy) -> (r: Result<(), SchemaMismatch>)
    requires
        old(table)@.wf(),
    ensures
        final(table)@.wf(),
        r is Err <==> objs@.len() != old(table)@.nrows,
        r is Err ==> final(table)@ == old(table)@ && r == Err::<(), SchemaMismatch>(
            SchemaMismatch { rows: old(table).nrows, records: objs@.len() as usize },
        ),
        r is Ok ==> final(table)@ == mapped(old(table)@, views(objs@), nest_view(nest), policy),
{
    if objs.len() != table.nrows {
        return Err(SchemaMismatch { rows: table.nrows, records: objs.len() });
    }
    let ghost t = table@;
    let null = Json::Null;
    let n = table.nrows;
    let mut columns: Vec<Column> = Vec::new();
    let mut c: usize = 0;
    while c < table.columns.len()
        invariant
            t == table@,
            t.wf(),
            null@ == JsonView::Null,
            n == t.nrows,
            objs@.len() == n,
            c <= t.columns.len(),
            columns@.len() == c,
            forall|k: int| 0 <= k < c ==> #[trigger] columns@[k]@ == mapped(t, views(objs@), nest_view(nest), policy).columns[k],
        decreases t.columns.len() - c,
    {
        let col = &table.columns[c];
        let ghost cv = t.columns[c as int];
        assert(cv == col@);
        assert(cv.cells.len() == n);
        let mut cells: Vec<Cell> = Vec::new();
        let mut i: usize = 0;
        while i < n
            invariant
                t == table@,
                cv == col@,
                c < t.columns.len(),
                cv == t.columns[c as int],
                cv.cells.len() == n,
                objs@.len() == n,
                i <= n,
                cells@.len() == i,
                null@ == JsonView::Null,
                forall|j: int| 0 <= j < i ==> #[trigger] cells@[j]@ == cell_after(policy, cv, row_object(objs@[j]@, nest_view(nest)), cv.cells[j]),
            decreases n - i,
        {
            let obj: &Json = match nest {
                Some(key) => match get_field(&objs[i], key) {
                    Some(a) => a,
                    None => &null,
                },
                None => &objs[i],
            };
            let cell = match get_field(obj, col.name.as_str()) {
                Some(v) => coerce_under(policy, col.ty, v),
                None => col.cells[i].duplicate(),
            };
            cells.push(cell);
            i = i + 1;
        }
        let newcol = Column { name: col.name.clone(), ty: col.ty, cells };
        assert(newcol@.cells =~= mapped(t, views(objs@), nest_view(nest), policy).columns[c as int].cells);
        columns.push(newcol);
        c = c + 1;
    }
    table.columns = columns;
    proof {
        let m = mapped(t, views(objs@), nest_view(nest), policy);
        assert(table@.columns =~= m.columns);
        assert forall|k: int| 0 <= k < m.columns.len() implies {
            &&& #[trigger] m.columns[k].cells.len() == m.nrows
            &&& forall|i: int| 0 <= i < m.nrows ==> fits(#[trigger] m.columns[k].cells[i], m.columns[k].ty)
        } by {
            assert forall|i: int| 0 <= i < m.nrows implies fits(#[trigger] m.columns[k].cells[i], m.columns[k].ty) by {
                assert(t.columns[k].cells.len() == t.nrows);
                assert(fits(t.columns[k].cells[i], t.columns[k].ty));
            }
        }
    }
    Ok(())
}

/// Writes the attribute objects into the table, object `i` into row `i`,
/// coercing each member whose key names a column to that column's type and
/// skipping the rest; a value of another type gives a null cell. Where the
/// number of objects is not the number of rows, the table is left as it was
/// and the mismatch is reported.
pub fn map_attributes(table: &mut Table, objs: &Vec<Json>) -> (r: Result<(), SchemaMismatch>)
    requires
        old(table)@.wf(),
    ensures
        final(table)@.wf(),
        r is Err <==> objs@.len() != old(table)@.nrows,
        r is Err ==> final(table)@ == old(table)@ && r == Err::<(), SchemaMismatch>(
            SchemaMismatch { rows: old(table).nrows, records: objs@.len() as usize },
        ),
        r is Ok ==> final(table)@ == mapped(old(table)@, views(objs@), None, NullPolicy::Lenient),
{
    map_records(table, objs, None, NullPolicy::Lenient)
}

} // verus!
