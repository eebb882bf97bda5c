//! The Arrow types that the library handles, and what it relies on of them.
//!
//! Nothing in this module is proved. Each contract restates what the named
//! Arrow function does; the rest of the crate is verified against them.
//!
//! Arrow values are opaque to the verifier. The contracts speak of them through
//! six descriptions: the fields and the metadata of a schema and of a schema
//! builder, the rows of a column, and the logical type of a column. A logical
//! type stands for one Arrow data type:
//!
//! | logical type          | Arrow data type                                  |
//! |-----------------------|--------------------------------------------------|
//! | `Int16`               | `DataType::Int16`                                |
//! | `Int32`               | `DataType::Int32`                                |
//! | `Int64`               | `DataType::Int64`                                |
//! | `Float16`             | `DataType::Float16`                              |
//! | `Float32`             | `DataType::Float32`                              |
//! | `Float64`             | `DataType::Float64`                              |
//! | `Utf8`                | `DataType::Utf8`                                 |
//! | `Boolean`             | `DataType::Boolean`                              |
//! | `TimestampNanosecond` | `DataType::Timestamp(Nanosecond, Some(""))`      |
//!
//! The data types are pairwise different, so a field or a column has the data
//! type of at most one logical type.
use crate::logical_type::LogicalType;
use arrow::array::{make_array, ArrayData};
use arrow::datatypes::{DataType, Field, Schema, SchemaBuilder, TimeUnit};
use arrow::error::ArrowError;
use arrow::record_batch::RecordBatch;
use std::sync::Arc;
use vstd::prelude::*;

verus! {

/// `arrow::datatypes::Schema`: an ordered collection of fields.
#[verifier::external_type_specification]
#[verifier::external_body]
pub struct ExSchema(Schema);

/// `arrow::datatypes::SchemaBuilder`: the fields of a schema under construction.
#[verifier::external_type_specification]
#[verifier::external_body]
pub struct ExSchemaBuilder(SchemaBuilder);

/// `arrow::array::ArrayData`: the values of one column.
#[verifier::external_type_specification]
#[verifier::external_body]
pub struct ExArrayData(ArrayData);

/// `arrow::error::ArrowError`.
#[verifier::external_type_specification]
#[verifier::external_body]
pub struct ExArrowError(ArrowError);

/// What the library reads of one Arrow field.
pub struct FieldSpec {
    /// The field's name.
    pub name: Seq<char>,
    /// The logical type whose Arrow data type the field has; `None` if its data
    /// type is that of no logical type.
    pub data_type: Option<LogicalType>,
    /// Whether the field admits nulls.
    pub nullable: bool,
    /// The field's metadata, key by key.
    pub metadata: Map<Seq<char>, Seq<char>>,
}

/// The fields pushed into a schema builder so far, in order.
pub uninterp spec fn builder_fields(builder: SchemaBuilder) -> Seq<FieldSpec>;

/// The fields of a schema, in order.
pub uninterp spec fn schema_fields(schema: Schema) -> Seq<FieldSpec>;

/// The metadata of a schema builder, key by key.
pub uninterp spec fn builder_metadata(builder: SchemaBuilder) -> Map<Seq<char>, Seq<char>>;

/// The metadata of a schema, key by key.
pub uninterp spec fn schema_metadata(schema: Schema) -> Map<Seq<char>, Seq<char>>;

/// One entry per row of a column, in order: whether the row holds a value
/// (`true`) or is null (`false`). There are `ArrayData::len` entries, and
/// `ArrayData::null_count` of them are `false`.
pub uninterp spec fn column_slots(column: ArrayData) -> Seq<bool>;

/// The logical type whose Arrow data type a column has; `None` if its data type
/// is that of no logical type.
pub uninterp spec fn column_type(column: ArrayData) -> Option<LogicalType>;

/// Metadata without any key.
pub open spec fn no_metadata() -> Map<Seq<char>, Seq<char>> {
    Map::empty()
}

/// A field of a logical type, without metadata.
pub open spec fn plain_field(name: Seq<char>, data_type: LogicalType, nullable: bool) -> FieldSpec {
    FieldSpec { name, data_type: Some(data_type), nullable, metadata: no_metadata() }
}

/// Whether a column has no null row.
pub open spec fn column_is_dense(column: ArrayData) -> bool {
    forall|row: int| 0 <= row < column_slots(column).len() ==> column_slots(column)[row]
}

/// The rule by which `RecordBatch::try_new` accepts columns for a schema:
/// there is at least one column and as many columns as fields, a column of a
/// field that is not nullable has no null, all columns have as many rows as the
/// first, and each column has the data type of its field.
pub open spec fn batch_accepted(fields: Seq<FieldSpec>, columns: Seq<ArrayData>) -> bool {
    &&& columns.len() == fields.len()
    &&& columns.len() > 0
    &&& forall|i: int|
        0 <= i < columns.len() && !(#[trigger] fields[i]).nullable ==> column_is_dense(columns[i])
    &&& forall|i: int|
        0 <= i < columns.len() ==> (#[trigger] column_slots(columns[i])).len() == column_slots(
            columns[0],
        ).len()
    &&& forall|i: int|
        0 <= i < columns.len() ==> #[trigger] column_type(columns[i]) == fields[i].data_type
}

/// `SchemaBuilder::new`: a builder with no field and no metadata.
#[verifier::external_body]
pub(crate) fn schema_builder() -> (builder: SchemaBuilder)
    ensures
        builder_fields(builder) == Seq::<FieldSpec>::empty(),
        builder_metadata(builder) == no_metadata(),
{
    SchemaBuilder::new()
}

/// `Field::new` and `SchemaBuilder::push`: appends a field with the given name
/// and nullability, the Arrow data type of the logical type, and no metadata.
/// The fields pushed before and the builder's metadata stay as they are.
#[verifier::external_body]
pub(crate) fn push_field(
    builder: &mut SchemaBuilder,
    name: &str,
    data_type: LogicalType,
    nullable: bool,
)
    ensures
        builder_fields(*final(builder)) == builder_fields(*old(builder)).push(
            plain_field(name@, data_type, nullable),
        ),
        builder_metadata(*final(builder)) == builder_metadata(*old(builder)),
{
    let arrow_type = match data_type {
        LogicalType::Int16 => DataType::Int16,
        LogicalType::Int32 => DataType::Int32,
        LogicalType::Int64 => DataType::Int64,
        LogicalType::Float16 => DataType::Float16,
        LogicalType::Float32 => DataType::Float32,
        LogicalType::Float64 => DataType::Float64,
        LogicalType::Utf8 => DataType::Utf8,
        LogicalType::Boolean => DataType::Boolean,
        LogicalType::TimestampNanosecond => {
            DataType::Timestamp(TimeUnit::Nanosecond, Some("".into()))
        },
    };
    builder.push(Field::new(name, arrow_type, nullable));
}

/// `SchemaBuilder::finish`: the schema of the fields pushed, in order, with
/// the builder's metadata.
#[verifier::external_body]
pub(crate) fn finish_schema(builder: SchemaBuilder) -> (schema: Schema)
    ensures
        schema_fields(schema) == builder_fields(builder),
        schema_metadata(schema) == builder_metadata(builder),
{
    builder.finish()
}

/// `ArrayData::data_type`, `Schema::field` and `Field::data_type`, compared with
/// `DataType`'s equality: whether the column has the data type of the schema's
/// field at `index`. `Schema::field` panics on an index that is out of bounds.
#[verifier::external_body]
pub(crate) fn column_has_field_type(
    column: &ArrayData,
    schema: &Arc<Schema>,
    index: usize,
) -> (same: bool)
    requires
        index < schema_fields(**schema).len(),
        schema_fields(**schema)[index as int].data_type is Some,
    ensures
        same == (column_type(*column) == schema_fields(**schema)[index as int].data_type),
{
    column.data_type() == schema.field(index).data_type()
}

/// `RecordBatch::try_new` on the schema and on the arrays that `make_array`
/// makes of the columns: it succeeds exactly when [`batch_accepted`] holds, and
/// the batch then has as many rows (`RecordBatch::num_rows`) as its first
/// column.
///
/// `make_array` is unimplemented for a few data types, none of them that of a
/// logical type. For the others it relies on the column data being valid,
/// which Arrow guarantees of every `ArrayData` built without `unsafe`.
#[verifier::external_body]
pub(crate) fn try_new_batch(schema: &Arc<Schema>, columns: &Vec<ArrayData>) -> (rows: Result<
    usize,
    ArrowError,
>)
    requires
        forall|i: int| 0 <= i < columns.len() ==> column_type(#[trigger] columns[i]) is Some,
    ensures
        rows is Ok <==> batch_accepted(schema_fields(**schema), columns@),
        rows matches Ok(n) ==> n == column_slots(columns[0]).len(),
{
    let arrays = columns.iter().map(|column| make_array(column.clone())).collect();
    match RecordBatch::try_new(Arc::clone(schema), arrays) {
        Ok(batch) => Ok(batch.num_rows()),
        Err(error) => Err(error),
    }
}

} // verus!
