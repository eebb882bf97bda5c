//! Batches: the columns of one chunk of a dataset, checked against its schema.
use crate::arrow_specs::{
    batch_accepted, column_has_field_type, column_is_dense, column_slots, column_type,
    schema_fields, try_new_batch, FieldSpec,
};
use crate::logical_type::LogicalType;
use crate::schema::{arrow_fields, DatasetSchema};
use crate::std_specs::share;
use arrow::array::ArrayData;
use arrow::datatypes::Schema;
use std::sync::Arc;
use vstd::prelude::*;

verus! {

/// Why columns could not be assembled into a batch of a schema.
#[derive(Clone, Copy, Debug, PartialEq, Eq, Structural)]
pub enum BatchError {
    /// There are `found` columns where the schema has `expected`.
    ColumnCount { expected: usize, found: usize },
    /// The column at `index` does not have the type that the schema declares.
    ColumnType { index: usize },
    /// The columns have the declared count and types, but there is no column
    /// at all, a column holds a null, or the columns differ in their number of
    /// rows.
    Rejected,
}

/// A batch that could not be assembled, and why.
#[derive(Clone, Copy, Debug, PartialEq, Eq, Structural)]
pub struct BatchFailure {
    /// The position of the batch among those given.
    pub batch: usize,
    /// What is wrong with it.
    pub error: BatchError,
}

/// Whether each of the first `upto` columns has the type that the schema
/// declares at its position.
pub open spec fn types_match(
    schema: Seq<(Seq<char>, LogicalType)>,
    columns: Seq<ArrayData>,
    upto: int,
) -> bool {
    forall|i: int| 0 <= i < upto ==> column_type(#[trigger] columns[i]) == Some(schema[i].1)
}

/// Whether there is at least one column, no column holds a null, and all
/// columns have the same number of rows.
pub open spec fn rows_accepted(columns: Seq<ArrayData>) -> bool {
    &&& columns.len() > 0
    &&& forall|i: int| 0 <= i < columns.len() ==> column_is_dense(#[trigger] columns[i])
    &&& forall|i: int|
        0 <= i < columns.len() ==> (#[trigger] column_slots(columns[i])).len() == column_slots(
            columns[0],
        ).len()
}

/// Whether the columns form a batch of the schema.
pub open spec fn batch_valid(schema: Seq<(Seq<char>, LogicalType)>, columns: Seq<ArrayData>) -> bool {
    &&& columns.len() == schema.len()
    &&& types_match(schema, columns, columns.len() as int)
    &&& rows_accepted(columns)
}

/// Whether `error` is what is wrong with the columns as a batch of the schema.
/// The column count is looked at first, then the column types from the first
/// column on, then the rows.
pub open spec fn batch_fails_with(
    schema: Seq<(Seq<char>, LogicalType)>,
    columns: Seq<ArrayData>,
    error: BatchError,
) -> bool {
    match error {
        BatchError::ColumnCount { expected, found } => {
            &&& expected == schema.len()
            &&& found == columns.len()
            &&& expected != found
        },
        BatchError::ColumnType { index } => {
            &&& columns.len() == schema.len()
            &&& index < columns.len()
            &&& column_type(columns[index as int]) != Some(schema[index as int].1)
            &&& types_match(schema, columns, index as int)
        },
        BatchError::Rejected => {
            &&& columns.len() == schema.len()
            &&& types_match(schema, columns, columns.len() as int)
            &&& !rows_accepted(columns)
        },
    }
}

/// A valid batch is one that Arrow accepts for the schema's fields.
pub proof fn lemma_valid_is_accepted(
    schema: Seq<(Seq<char>, LogicalType)>,
    columns: Seq<ArrayData>,
)
    ensures
        batch_valid(schema, columns) <==> batch_accepted(arrow_fields(schema), columns),
{
    let fields = arrow_fields(schema);
    if batch_valid(schema, columns) {
        assert forall|i: int| 0 <= i < columns.len() implies #[trigger] column_type(columns[i])
            == fields[i].data_type by {
            assert(column_type(columns[i]) == Some(schema[i].1));
        }
    }
    if batch_accepted(fields, columns) {
        assert forall|i: int| 0 <= i < columns.len() implies column_type(#[trigger] columns[i])
            == Some(schema[i].1) by {
            assert(column_type(columns[i]) == fields[i].data_type);
        }
        assert forall|i: int| 0 <= i < columns.len() implies column_is_dense(
            #[trigger] columns[i],
        ) by {
            assert(!fields[i].nullable);
        }
    }
}

/// Columns are either a valid batch of a schema or fail with exactly one
/// error.
pub proof fn lemma_one_outcome(
    schema: Seq<(Seq<char>, LogicalType)>,
    columns: Seq<ArrayData>,
    first: BatchError,
    second: BatchError,
)
    requires
        batch_fails_with(schema, columns, first),
    ensures
        !batch_valid(schema, columns),
        batch_fails_with(schema, columns, second) ==> first == second,
{
    if let BatchError::ColumnType { index } = first {
        assert(column_type(columns[index as int]) != Some(schema[index as int].1));
        if let BatchError::ColumnType { index: other } = second {
            if batch_fails_with(schema, columns, second) && other != index {
                if other < index {
                    assert(column_type(columns[other as int]) == Some(schema[other as int].1));
                } else {
                    assert(column_type(columns[index as int]) == Some(schema[index as int].1));
                }
            }
        }
    }
    if let BatchError::ColumnType { index } = second {
        if batch_fails_with(schema, columns, second) {
            assert(column_type(columns[index as int]) != Some(schema[index as int].1));
        }
    }
}

/// What a batch holds: the fields of its schema and its columns, in order.
pub struct BatchView {
    /// The fields of the batch's schema.
    pub fields: Seq<FieldSpec>,
    /// The columns, one per field.
    pub columns: Seq<ArrayData>,
}

/// The columns of one chunk of a dataset together with the dataset's schema.
/// Every batch is one that Arrow accepts for its schema.
#[derive(Debug)]
pub struct Batch {
    schema: Arc<Schema>,
    columns: Vec<ArrayData>,
    rows: usize,
}

impl View for Batch {
    type V = BatchView;

    closed spec fn view(&self) -> BatchView {
        BatchView { fields: schema_fields(*self.schema), columns: self.columns@ }
    }
}

impl Batch {
    #[verifier::type_invariant]
    spec fn well_formed(&self) -> bool {
        &&& batch_accepted(schema_fields(*self.schema), self.columns@)
        &&& self.rows == column_slots(self.columns@[0]).len()
    }

    /// The number of rows, which is that of every column.
    pub fn num_rows(&self) -> (rows: usize)
        ensures
            batch_accepted(self@.fields, self@.columns),
            forall|i: int|
                0 <= i < self@.columns.len() ==> (#[trigger] column_slots(
                    self@.columns[i],
                )).len() == rows,
    {
        proof {
            use_type_invariant(self);
        }
        self.rows
    }

    /// The number of columns.
    pub fn num_columns(&self) -> (count: usize)
        ensures
            count == self@.columns.len(),
            count == self@.fields.len(),
            count > 0,
    {
        proof {
            use_type_invariant(self);
        }
        self.columns.len()
    }

    /// The column at `index`.
    pub fn column(&self, index: usize) -> (column: &ArrayData)
        requires
            index < self@.columns.len(),
        ensures
            *column == self@.columns[index as int],
    {
        &self.columns[index]
    }

    /// The schema that the batch shares with the other batches of its dataset.
    pub fn schema(&self) -> (schema: &Arc<Schema>)
        ensures
            schema_fields(**schema) == self@.fields,
    {
        &self.schema
    }

    /// Gives up the batch for its schema and its columns.
    pub fn into_parts(self) -> (parts: (Arc<Schema>, Vec<ArrayData>))
        ensures
            schema_fields(*parts.0) == self@.fields,
            parts.1@ == self@.columns,
            batch_accepted(self@.fields, self@.columns),
    {
        proof {
            use_type_invariant(&self);
        }
        (self.schema, self.columns)
    }
}

/// Tests the columns of one chunk: whether they form a batch of the schema,
/// and if not, what is wrong with them. Nothing is cast, skipped or repaired.
pub fn check_batch(schema: &DatasetSchema, columns: &Vec<ArrayData>) -> (checked: Result<
    (),
    BatchError,
>)
    ensures
        checked is Ok <==> batch_valid(schema@, columns@),
        checked matches Err(error) ==> batch_fails_with(schema@, columns@, error),
{
    let expected: usize = schema.len();
    let found: usize = columns.len();
    if found != expected {
        return Err(BatchError::ColumnCount { expected, found });
    }
    let arrow = schema.arrow_schema();
    let mut i: usize = 0;
    while i < found
        invariant
            found == columns.len(),
            found == schema@.len(),
            i <= found,
            schema_fields(**arrow) == arrow_fields(schema@),
            types_match(schema@, columns@, i as int),
        decreases found - i,
    {
        if !column_has_field_type(&columns[i], arrow, i) {
            return Err(BatchError::ColumnType { index: i });
        }
        i += 1;
    }
    proof {
        lemma_valid_is_accepted(schema@, columns@);
    }
    match try_new_batch(arrow, columns) {
        Ok(_) => Ok(()),
        Err(_) => Err(BatchError::Rejected),
    }
}

/// Assembles the columns of one chunk, which must form a batch of the schema,
/// into that batch. The batch holds the columns as given, in order.
///
/// Columns that form no batch are never assembled: callers test them with
/// [`check_batch`] first.
pub fn assemble_batch(schema: &DatasetSchema, columns: Vec<ArrayData>) -> (batch: Batch)
    requires
        batch_valid(schema@, columns@),
    ensures
        batch@.columns == columns@,
        batch@.fields == arrow_fields(schema@),
{
    let arrow = schema.arrow_schema();
    proof {
        lemma_valid_is_accepted(schema@, columns@);
        assert forall|i: int| 0 <= i < columns.len() implies column_type(
            #[trigger] columns[i],
        ) is Some by {
            assert(column_type(columns[i]) == Some(schema@[i].1));
        }
    }
    match try_new_batch(arrow, &columns) {
        Ok(rows) => Batch { schema: share(arrow), columns, rows },
        Err(_) => unreached(),
    }
}

/// Whether every chunk's columns form a batch of the schema.
pub open spec fn batches_valid(
    schema: Seq<(Seq<char>, LogicalType)>,
    record_batches: Seq<Vec<ArrayData>>,
) -> bool {
    forall|i: int|
        0 <= i < record_batches.len() ==> batch_valid(schema, (#[trigger] record_batches[i])@)
}

/// Whether `failure` names the first chunk whose columns form no batch of the
/// schema, and what is wrong with it.
pub open spec fn batches_fail_with(
    schema: Seq<(Seq<char>, LogicalType)>,
    record_batches: Seq<Vec<ArrayData>>,
    failure: BatchFailure,
) -> bool {
    &&& failure.batch < record_batches.len()
    &&& forall|i: int|
        0 <= i < failure.batch ==> batch_valid(schema, (#[trigger] record_batches[i])@)
    &&& batch_fails_with(schema, record_batches[failure.batch as int]@, failure.error)
}

/// Whether `batches` are the batches of the schema that hold the chunks'
/// columns, chunk by chunk.
pub open spec fn assembled_from(
    schema: Seq<(Seq<char>, LogicalType)>,
    record_batches: Seq<Vec<ArrayData>>,
    batches: Seq<Batch>,
) -> bool {
    &&& batches.len() == record_batches.len()
    &&& forall|i: int|
        0 <= i < batches.len() ==> {
            &&& (#[trigger] batches[i])@.columns == record_batches[i]@
            &&& batches[i]@.fields == arrow_fields(schema)
        }
}

/// Tests the chunks of a dataset in the order given: whether each one's
/// columns form a batch of the schema, and if not, which is the first that
/// does not and what is wrong with it.
pub fn check_batches(schema: &DatasetSchema, record_batches: &Vec<Vec<ArrayData>>) -> (checked:
    Result<(), BatchFailure>)
    ensures
        checked is Ok <==> batches_valid(schema@, record_batches@),
        checked matches Err(failure) ==> batches_fail_with(schema@, record_batches@, failure),
{
    let total: usize = record_batches.len();
    let mut i: usize = 0;
    while i < total
        invariant
            total == record_batches.len(),
            i <= total,
            forall|j: int| 0 <= j < i ==> batch_valid(schema@, (#[trigger] record_batches[j])@),
        decreases total - i,
    {
        if let Err(error) = check_batch(schema, &record_batches[i]) {
            return Err(BatchFailure { batch: i, error });
        }
        i += 1;
    }
    Ok(())
}

/// Assembles each chunk's columns, which must form a batch of the schema, into
/// that batch, in the order given.
///
/// A dataset with a batch missing has no identity, so chunks of which one
/// forms no batch are never assembled: callers test them with
/// [`check_batches`] first.
pub fn assemble_batches(schema: &DatasetSchema, record_batches: Vec<Vec<ArrayData>>) -> (batches:
    Vec<Batch>)
    requires
        batches_valid(schema@, record_batches@),
    ensures
        assembled_from(schema@, record_batches@, batches@),
{
    let mut batches: Vec<Batch> = Vec::new();
    for columns in it: record_batches
        invariant
            it.seq() == record_batches@,
            batches_valid(schema@, record_batches@),
            batches.len() == it.index(),
            forall|i: int|
                0 <= i < batches.len() ==> {
                    &&& (#[trigger] batches[i])@.columns == record_batches[i]@
                    &&& batches[i]@.fields == arrow_fields(schema@)
                },
    {
        assert(batch_valid(schema@, record_batches[batches.len() as int]@));
        batches.push(assemble_batch(schema, columns));
    }
    batches
}

} // verus!
