use vstd::prelude::*;
use crate::json_reader::{result_view, ParseError, ParseErrorView};
use crate::value::{int_text, JsonValue, Number, ParseResult, ParseResultView, ValueView};

verus! {

/// A batch of rows as arrow decodes it from a Parquet file; Verus sees it
/// through `batch_field_names` and `batch_cells` alone.
#[verifier::external_body]
pub struct Batch {
    batch: arrow::record_batch::RecordBatch,
}

/// One cell of a batch, read according to its column's type: text, a 64-bit
/// integer, a 64-bit float (as serde_json's text for it, `None` when it is not
/// finite), a boolean, or, for any other type, arrow's display text of the
/// cell (`None` when arrow cannot display it).
#[derive(Debug, PartialEq)]
pub enum Cell {
    Null,
    Text(String),
    Int(i64),
    Float(Option<String>),
    Bool(bool),
    Other(Option<String>),
}

/// The names of a batch's fields, in schema order.
pub uninterp spec fn batch_field_names(b: Batch) -> Seq<Seq<char>>;

/// The number of rows of a batch.
pub uninterp spec fn batch_row_count(b: Batch) -> nat;

/// The cells of a batch, column by column.
pub uninterp spec fn batch_cells(b: Batch) -> Seq<Seq<Cell>>;

/// What a batch holds, as plain values: its field names, its number of rows
/// and its cells, column by column.
pub open spec fn batch_contents(b: Batch) -> (Seq<Seq<char>>, nat, Seq<Seq<Cell>>) {
    (batch_field_names(b), batch_row_count(b), batch_cells(b))
}

/// The batches that parquet's Arrow reader decodes from the bytes of a
/// Parquet file, in file order, as their contents; the message of its error
/// when it cannot.
pub uninterp spec fn parquet_table(data: Seq<u8>) -> Result<Seq<(Seq<Seq<char>>, nat, Seq<Seq<Cell>>)>, Seq<char>>;

/// The column types that the reader tells apart.
#[derive(Debug, Clone, Copy, PartialEq, Eq, Structural)]
pub enum ColumnKind {
    Text,
    Int,
    Float,
    Bool,
    Other,
}

/// Whether a non-null cell was read as a column of kind `k` reads it.
pub open spec fn cell_of_kind(c: Cell, k: ColumnKind) -> bool {
    match c {
        Cell::Null => true,
        Cell::Text(_) => k == ColumnKind::Text,
        Cell::Int(_) => k == ColumnKind::Int,
        Cell::Float(_) => k == ColumnKind::Float,
        Cell::Bool(_) => k == ColumnKind::Bool,
        Cell::Other(_) => k == ColumnKind::Other,
    }
}

/// Relies on `parquet::arrow::arrow_reader::ParquetRecordBatchReaderBuilder`
/// (`try_new_with_options` over `bytes::Bytes`, then `build`) and on collecting
/// the reader's batches; any error becomes its message. An Arrow schema embedded
/// in the file is ignored (`with_skip_arrow_metadata`), so column types come from
/// the Parquet schema alone and text columns are checked as UTF-8. Decoding depends on the
/// bytes alone.
#[verifier::external_body]
fn read_batches(data: &[u8]) -> (r: Result<Vec<Batch>, String>)
    ensures
        match r {
            Ok(batches) => parquet_table(data@) == Ok::<_, Seq<char>>(contents_of_batches(batches@)),
            Err(m) => parquet_table(data@) == Err::<Seq<(Seq<Seq<char>>, nat, Seq<Seq<Cell>>)>, _>(m@),
        },
{
    let bytes = bytes::Bytes::from(data.to_vec());
    let options = parquet::arrow::arrow_reader::ArrowReaderOptions::new().with_skip_arrow_metadata(true);
    let builder = parquet::arrow::arrow_reader::ParquetRecordBatchReaderBuilder::try_new_with_options(bytes, options)
        .map_err(|e| e.to_string())?;
    let reader = builder.build().map_err(|e| e.to_string())?;
    reader.map(|b| b.map(|batch| Batch { batch })).collect::<Result<Vec<_>, _>>().map_err(|e| e.to_string())
}

/// Relies on `RecordBatch::num_columns` and on its schema having one field
/// per column.
#[verifier::external_body]
fn batch_num_columns(b: &Batch) -> (r: usize)
    ensures
        r == batch_cells(*b).len(),
        r == batch_field_names(*b).len(),
{
    b.batch.num_columns()
}

/// Relies on `RecordBatch::num_rows`: every column has that many cells.
#[verifier::external_body]
fn batch_num_rows(b: &Batch) -> (r: usize)
    ensures
        r == batch_row_count(*b),
        forall|c: int| 0 <= c < batch_cells(*b).len() ==> #[trigger] batch_cells(*b)[c].len() == r,
{
    b.batch.num_rows()
}

/// Relies on `Schema::field` and `Field::name`: the name of field `col`.
#[verifier::external_body]
fn batch_field_name(b: &Batch, col: usize) -> (r: String)
    requires
        col < batch_field_names(*b).len(),
    ensures
        r@ == batch_field_names(*b)[col as int],
{
    b.batch.schema().field(col).name().to_string()
}

/// Relies on `Array::is_null` for the column `col`.
#[verifier::external_body]
fn cell_is_null(b: &Batch, col: usize, row: usize) -> (r: bool)
    requires
        col < batch_cells(*b).len(),
        row < batch_cells(*b)[col as int].len(),
    ensures
        r == (batch_cells(*b)[col as int][row as int] is Null),
{
    arrow::array::Array::is_null(b.batch.column(col).as_ref(), row)
}

/// Relies on `Array::data_type` for the column `col`, one arm per type read.
#[verifier::external_body]
fn column_kind(b: &Batch, col: usize) -> (r: ColumnKind)
    requires
        col < batch_cells(*b).len(),
    ensures
        forall|row: int|
            0 <= row < batch_cells(*b)[col as int].len() ==> cell_of_kind(
                #[trigger] batch_cells(*b)[col as int][row],
                r,
            ),
{
    match arrow::array::Array::data_type(b.batch.column(col).as_ref()) {
        arrow::datatypes::DataType::Utf8 => ColumnKind::Text,
        arrow::datatypes::DataType::Int64 => ColumnKind::Int,
        arrow::datatypes::DataType::Float64 => ColumnKind::Float,
        arrow::datatypes::DataType::Boolean => ColumnKind::Bool,
        _ => ColumnKind::Other,
    }
}

/// Relies on arrow's `StringArray::value`, after a downcast of column `col`, which
/// cannot fail for a column of the matching data type.
#[verifier::external_body]
fn text_cell(b: &Batch, col: usize, row: usize) -> (r: String)
    requires
        col < batch_cells(*b).len(),
        row < batch_cells(*b)[col as int].len(),
        batch_cells(*b)[col as int][row as int] is Text,
    ensures
        batch_cells(*b)[col as int][row as int] == Cell::Text(r),
{
    let column = b.batch.column(col).as_any().downcast_ref::<arrow::array::StringArray>();
    column.map(|a| a.value(row).to_string()).unwrap_or_default()
}

/// Relies on arrow's `Int64Array::value`, after a downcast of column `col`, which
/// cannot fail for a column of the matching data type.
#[verifier::external_body]
fn int_cell(b: &Batch, col: usize, row: usize) -> (r: i64)
    requires
        col < batch_cells(*b).len(),
        row < batch_cells(*b)[col as int].len(),
        batch_cells(*b)[col as int][row as int] is Int,
    ensures
        batch_cells(*b)[col as int][row as int] == Cell::Int(r),
{
    let column = b.batch.column(col).as_any().downcast_ref::<arrow::array::Int64Array>();
    column.map(|a| a.value(row)).unwrap_or_default()
}

/// Relies on arrow's `Float64Array::value`, after a downcast of column `col`,
/// which cannot fail for a Float64 column, and on serde_json's
/// `Number::from_f64` and its text (`None` for a value that is not finite).
#[verifier::external_body]
fn float_cell(b: &Batch, col: usize, row: usize) -> (r: Option<String>)
    requires
        col < batch_cells(*b).len(),
        row < batch_cells(*b)[col as int].len(),
        batch_cells(*b)[col as int][row as int] is Float,
    ensures
        batch_cells(*b)[col as int][row as int] == Cell::Float(r),
{
    let column = b.batch.column(col).as_any().downcast_ref::<arrow::array::Float64Array>();
    column.and_then(|a| serde_json::Number::from_f64(a.value(row))).map(|n| n.to_string())
}

/// Relies on arrow's `BooleanArray::value`, after a downcast of column `col`, which
/// cannot fail for a column of the matching data type.
#[verifier::external_body]
fn bool_cell(b: &Batch, col: usize, row: usize) -> (r: bool)
    requires
        col < batch_cells(*b).len(),
        row < batch_cells(*b)[col as int].len(),
        batch_cells(*b)[col as int][row as int] is Bool,
    ensures
        batch_cells(*b)[col as int][row as int] == Cell::Bool(r),
{
    let column = b.batch.column(col).as_any().downcast_ref::<arrow::array::BooleanArray>();
    column.map(|a| a.value(row)).unwrap_or_default()
}

/// Relies on `arrow::util::display::array_value_to_string`: the display text
/// of one cell of a column of any other type.
#[verifier::external_body]
fn display_cell(b: &Batch, col: usize, row: usize) -> (r: Option<String>)
    requires
        col < batch_cells(*b).len(),
        row < batch_cells(*b)[col as int].len(),
        !(batch_cells(*b)[col as int][row as int] is Null),
    ensures
        cell_of_kind(batch_cells(*b)[col as int][row as int], ColumnKind::Other)
            ==> batch_cells(*b)[col as int][row as int] == Cell::Other(r),
{
    arrow::util::display::array_value_to_string(b.batch.column(col).as_ref(), row).ok()
}

/// The value of a cell: null, text, a number, a boolean; a float that is not
/// finite becomes `0`; a cell of another type becomes its display text, or
/// null when it has none.
pub open spec fn cell_value(c: Cell) -> ValueView {
    match c {
        Cell::Null => ValueView::Null,
        Cell::Text(s) => ValueView::Str(s@),
        Cell::Int(n) => ValueView::Number(int_text(n as int)),
        Cell::Float(Some(t)) => ValueView::Number(t@),
        Cell::Float(None) => ValueView::Number(seq!['0']),
        Cell::Bool(x) => ValueView::Bool(x),
        Cell::Other(Some(t)) => ValueView::Str(t@),
        Cell::Other(None) => ValueView::Null,
    }
}

/// Row `row` of a table as an object: one member per field, named by the
/// field and in schema order.
pub open spec fn row_value(names: Seq<Seq<char>>, cells: Seq<Seq<Cell>>, row: int) -> ValueView {
    ValueView::Object(Seq::new(names.len(), |c: int| (names[c], cell_value(cells[c][row]))))
}

/// The rows of one batch, given its contents, in order.
pub open spec fn contents_rows(c: (Seq<Seq<char>>, nat, Seq<Seq<Cell>>)) -> Seq<ValueView> {
    Seq::new(c.1, |row: int| row_value(c.0, c.2, row))
}

/// The rows of one batch, in order.
pub open spec fn batch_rows(b: Batch) -> Seq<ValueView> {
    contents_rows(batch_contents(b))
}

/// The rows of a decoded table, batch after batch.
pub open spec fn table_rows(t: Seq<(Seq<Seq<char>>, nat, Seq<Seq<Cell>>)>) -> Seq<ValueView> {
    t.map_values(|c: (Seq<Seq<char>>, nat, Seq<Seq<Cell>>)| contents_rows(c)).flatten()
}

/// The value of cell `row` of column `col`, whose type is `kind`.
fn read_cell(b: &Batch, col: usize, kind: ColumnKind, row: usize) -> (r: JsonValue)
    requires
        col < batch_cells(*b).len(),
        row < batch_cells(*b)[col as int].len(),
        cell_of_kind(batch_cells(*b)[col as int][row as int], kind),
    ensures
        r@ == cell_value(batch_cells(*b)[col as int][row as int]),
{
    if cell_is_null(b, col, row) {
        return JsonValue::Null;
    }
    match kind {
        ColumnKind::Text => JsonValue::String(text_cell(b, col, row)),
        ColumnKind::Int => JsonValue::Number(Number::from_i64(int_cell(b, col, row))),
        ColumnKind::Float => match float_cell(b, col, row) {
            Some(t) => JsonValue::Number(Number::from_text(t)),
            None => JsonValue::Number(Number::from_usize(0)),
        },
        ColumnKind::Bool => JsonValue::Bool(bool_cell(b, col, row)),
        ColumnKind::Other => match display_cell(b, col, row) {
            Some(t) => JsonValue::String(t),
            None => JsonValue::Null,
        },
    }
}

pub open spec fn values_view(vs: Seq<JsonValue>) -> Seq<ValueView> {
    vs.map_values(|v: JsonValue| v@)
}

/// Row `row` of a batch whose field names and column kinds are known.
fn read_row(b: &Batch, names: &Vec<String>, kinds: &Vec<ColumnKind>, row: usize) -> (r: JsonValue)
    requires
        names@.len() == batch_field_names(*b).len(),
        names@.len() == batch_cells(*b).len(),
        kinds@.len() == names@.len(),
        forall|c: int| 0 <= c < names@.len() ==> #[trigger] names@[c]@ == batch_field_names(*b)[c],
        forall|c: int, w: int|
            0 <= c < kinds@.len() && 0 <= w < batch_cells(*b)[c].len() ==> cell_of_kind(
                #[trigger] batch_cells(*b)[c][w],
                kinds@[c],
            ),
        forall|c: int| 0 <= c < names@.len() ==> row < #[trigger] batch_cells(*b)[c].len(),
    ensures
        r@ == row_value(batch_field_names(*b), batch_cells(*b), row as int),
{
    let ghost cells = batch_cells(*b);
    let ghost fields = batch_field_names(*b);
    let mut members: Vec<(String, JsonValue)> = Vec::new();
    let mut col: usize = 0;
    while col < names.len()
        invariant
            col <= names@.len(),
            cells == batch_cells(*b),
            fields == batch_field_names(*b),
            names@.len() == fields.len(),
            names@.len() == cells.len(),
            kinds@.len() == names@.len(),
            forall|c: int| 0 <= c < names@.len() ==> #[trigger] names@[c]@ == fields[c],
            forall|c: int, w: int|
                0 <= c < kinds@.len() && 0 <= w < cells[c].len() ==> cell_of_kind(
                    #[trigger] cells[c][w],
                    kinds@[c],
                ),
            forall|c: int| 0 <= c < names@.len() ==> row < #[trigger] cells[c].len(),
            members@.len() == col,
            forall|c: int|
                0 <= c < col ==> #[trigger] members@[c].0@ == fields[c] && members@[c].1@
                    == cell_value(cells[c][row as int]),
        decreases names@.len() - col,
    {
        assert(row < cells[col as int].len());
        let v = read_cell(b, col, kinds[col], row);
        members.push((names[col].clone(), v));
        col += 1;
    }
    let r = JsonValue::Object(members);
    assert(r@->Object_0 =~= row_value(fields, cells, row as int)->Object_0);
    r
}

/// The rows of one batch.
pub fn batch_to_rows(b: &Batch) -> (r: Vec<JsonValue>)
    ensures
        values_view(r@) == batch_rows(*b),
{
    let ncols = batch_num_columns(b);
    let nrows = batch_num_rows(b);
    let ghost cells = batch_cells(*b);
    let mut names: Vec<String> = Vec::new();
    let mut kinds: Vec<ColumnKind> = Vec::new();
    let mut col: usize = 0;
    while col < ncols
        invariant
            col <= ncols,
            ncols == cells.len(),
            ncols == batch_field_names(*b).len(),
            cells == batch_cells(*b),
            names@.len() == col,
            kinds@.len() == col,
            forall|c: int| 0 <= c < col ==> #[trigger] names@[c]@ == batch_field_names(*b)[c],
            forall|c: int, w: int|
                0 <= c < col && 0 <= w < cells[c].len() ==> cell_of_kind(#[trigger] cells[c][w], kinds@[c]),
        decreases ncols - col,
    {
        names.push(batch_field_name(b, col));
        kinds.push(column_kind(b, col));
        col += 1;
    }
    let mut rows: Vec<JsonValue> = Vec::new();
    let mut row: usize = 0;
    while row < nrows
        invariant
            row <= nrows,
            nrows == batch_row_count(*b),
            ncols == cells.len(),
            cells == batch_cells(*b),
            names@.len() == batch_field_names(*b).len(),
            names@.len() == ncols,
            kinds@.len() == ncols,
            forall|c: int| 0 <= c < ncols ==> #[trigger] cells[c].len() == nrows,
            forall|c: int| 0 <= c < ncols ==> #[trigger] names@[c]@ == batch_field_names(*b)[c],
            forall|c: int, w: int|
                0 <= c < ncols && 0 <= w < cells[c].len() ==> cell_of_kind(#[trigger] cells[c][w], kinds@[c]),
            values_view(rows@) == batch_rows(*b).take(row as int),
        decreases nrows - row,
    {
        let v = read_row(b, &names, &kinds, row);
        let ghost before = rows@;
        rows.push(v);
        proof {
            assert(values_view(rows@) =~= values_view(before).push(v@));
            assert(batch_rows(*b).take(row + 1) =~= batch_rows(*b).take(row as int).push(batch_rows(*b)[row as int]));
        }
        row += 1;
    }
    assert(batch_rows(*b).take(row as int) =~= batch_rows(*b));
    rows
}

pub open spec fn contents_of_batches(batches: Seq<Batch>) -> Seq<(Seq<Seq<char>>, nat, Seq<Seq<Cell>>)> {
    batches.map_values(|b: Batch| batch_contents(b))
}

/// The rows of all batches, batch after batch, as one array.
pub fn rows_from_batches(batches: &Vec<Batch>) -> (r: ParseResult)
    ensures
        r@ == ParseResultView::Single(ValueView::Array(table_rows(contents_of_batches(batches@)))),
{
    let ghost parts = contents_of_batches(batches@).map_values(
        |c: (Seq<Seq<char>>, nat, Seq<Seq<Cell>>)| contents_rows(c),
    );
    let mut all: Vec<JsonValue> = Vec::new();
    let mut i: usize = 0;
    while i < batches.len()
        invariant
            i <= batches.len(),
            parts == contents_of_batches(batches@).map_values(
                |c: (Seq<Seq<char>>, nat, Seq<Seq<Cell>>)| contents_rows(c),
            ),
            values_view(all@) == parts.take(i as int).flatten(),
        decreases batches.len() - i,
    {
        let mut rows = batch_to_rows(&batches[i]);
        let ghost before = all@;
        let ghost added = rows@;
        all.append(&mut rows);
        proof {
            assert(parts[i as int] == batch_rows(batches@[i as int]));
            assert(values_view(all@) =~= values_view(before) + values_view(added));
            assert(parts.take(i + 1) =~= parts.take(i as int).push(parts[i as int]));
            parts.take(i as int).lemma_flatten_push(parts[i as int]);
        }
        i += 1;
    }
    assert(parts.take(i as int) =~= parts);
    let r = JsonValue::Array(all);
    assert(r@->Array_0 =~= values_view(all@));
    ParseResult::Single(r)
}

/// What a Parquet file holds: the rows of the table that arrow decodes from
/// it, batch after batch, as one array of objects; or `InvalidParquet` with the
/// reader's message.
pub open spec fn parquet_reading(data: Seq<u8>) -> Result<ParseResultView, ParseErrorView> {
    match parquet_table(data) {
        Ok(t) => Ok(ParseResultView::Single(ValueView::Array(table_rows(t)))),
        Err(m) => Err(ParseErrorView::InvalidParquet(m)),
    }
}

/// Reads a Parquet file, as `parquet_reading` says.
pub fn parse_parquet_content(data: &[u8]) -> (r: Result<ParseResult, ParseError>)
    ensures
        result_view(r) == parquet_reading(data@),
{
    match read_batches(data) {
        Ok(batches) => Ok(rows_from_batches(&batches)),
        Err(m) => Err(ParseError::InvalidParquet(m)),
    }
}

} // verus!
