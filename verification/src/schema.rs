//! The schema of a dataset: its columns, by name and logical type, in order.
use crate::arrow_specs::{
    builder_fields, builder_metadata, finish_schema, no_metadata, plain_field, push_field,
    schema_builder, schema_fields, schema_metadata, FieldSpec,
};
use crate::logical_type::{
    convert_to_data_type, lookup_data_type, spec_convert_to_data_type, LogicalType,
};
use arrow::datatypes::Schema;
use std::sync::Arc;
use vstd::prelude::*;

verus! {

/// One column of a dataset. A column never admits nulls.
#[derive(Debug)]
pub struct ColumnSchema {
    /// The column's name.
    pub name: String,
    /// The type of the column's values.
    pub data_type: LogicalType,
}

impl View for ColumnSchema {
    type V = (Seq<char>, LogicalType);

    open spec fn view(&self) -> (Seq<char>, LogicalType) {
        (self.name@, self.data_type)
    }
}

impl ColumnSchema {
    /// Whether the column admits nulls: it never does.
    pub fn nullable(&self) -> (nullable: bool)
        ensures
            !nullable,
    {
        false
    }
}

/// Why no schema could be built from a declaration.
#[derive(Clone, Copy, Debug, PartialEq, Eq, Structural)]
pub enum SchemaError {
    /// There are not as many type names as column names.
    LengthMismatch { names: usize, types: usize },
    /// The type name at `index` is outside the vocabulary.
    UnknownType { index: usize },
}

/// Whether every type name is in the vocabulary.
pub open spec fn all_types_known(field_types: Seq<String>) -> bool {
    forall|i: int|
        0 <= i < field_types.len() ==> spec_convert_to_data_type(
            (#[trigger] field_types[i])@,
        ) is Some
}

/// Whether `index` is the position of the first type name outside the
/// vocabulary.
pub open spec fn first_unknown_type(field_types: Seq<String>, index: int) -> bool {
    &&& 0 <= index < field_types.len()
    &&& spec_convert_to_data_type(field_types[index]@) is None
    &&& forall|i: int|
        0 <= i < index ==> spec_convert_to_data_type((#[trigger] field_types[i])@) is Some
}

/// Whether a declaration describes a schema: it has as many type names as
/// column names, and every type name is in the vocabulary.
pub open spec fn declaration_valid(field_names: Seq<String>, field_types: Seq<String>) -> bool {
    &&& field_names.len() == field_types.len()
    &&& all_types_known(field_types)
}

/// Whether `error` is what is wrong with a declaration. The lengths are
/// looked at first, then the type names from the first on.
pub open spec fn declaration_fails_with(
    field_names: Seq<String>,
    field_types: Seq<String>,
    error: SchemaError,
) -> bool {
    match error {
        SchemaError::LengthMismatch { names, types } => {
            &&& names == field_names.len()
            &&& types == field_types.len()
            &&& names != types
        },
        SchemaError::UnknownType { index } => {
            &&& field_names.len() == field_types.len()
            &&& first_unknown_type(field_types, index as int)
        },
    }
}

/// A declaration either describes a schema or fails with exactly one error.
pub proof fn lemma_one_declaration_outcome(
    field_names: Seq<String>,
    field_types: Seq<String>,
    first: SchemaError,
    second: SchemaError,
)
    requires
        declaration_fails_with(field_names, field_types, first),
    ensures
        !declaration_valid(field_names, field_types),
        declaration_fails_with(field_names, field_types, second) ==> first == second,
{
    if let SchemaError::UnknownType { index } = first {
        assert(spec_convert_to_data_type(field_types[index as int]@) is None);
        if let SchemaError::UnknownType { index: other } = second {
            if declaration_fails_with(field_names, field_types, second) && other != index {
                if other < index {
                    assert(spec_convert_to_data_type(field_types[other as int]@) is Some);
                } else {
                    assert(spec_convert_to_data_type(field_types[index as int]@) is Some);
                }
            }
        }
    }
}

/// The columns that a declaration describes: the names paired with the
/// logical types of the type names, position by position.
pub open spec fn declared_columns(field_names: Seq<String>, field_types: Seq<String>) -> Seq<
    (Seq<char>, LogicalType),
> {
    Seq::new(
        field_names.len(),
        |i: int| (field_names[i]@, spec_convert_to_data_type(field_types[i]@).unwrap()),
    )
}

/// The Arrow fields that stand for a sequence of columns: one per column, in
/// order, with the column's name and type, no nulls admitted and no metadata.
pub open spec fn arrow_fields(columns: Seq<(Seq<char>, LogicalType)>) -> Seq<FieldSpec> {
    Seq::new(columns.len(), |i: int| plain_field(columns[i].0, columns[i].1, false))
}

/// The ordered columns of a dataset together with the Arrow schema that
/// stands for them. It is built once and shared by every batch of the dataset.
#[derive(Debug)]
pub struct DatasetSchema {
    columns: Vec<ColumnSchema>,
    arrow: Arc<Schema>,
}

impl View for DatasetSchema {
    type V = Seq<(Seq<char>, LogicalType)>;

    closed spec fn view(&self) -> Seq<(Seq<char>, LogicalType)> {
        Seq::new(self.columns@.len(), |i: int| self.columns@[i]@)
    }
}

impl DatasetSchema {
    #[verifier::type_invariant]
    spec fn well_formed(&self) -> bool {
        &&& schema_fields(*self.arrow) == arrow_fields(self@)
        &&& schema_metadata(*self.arrow) == no_metadata()
    }

    /// The number of columns.
    pub fn len(&self) -> (len: usize)
        ensures
            len == self@.len(),
    {
        self.columns.len()
    }

    /// The column at `index`.
    pub fn column(&self, index: usize) -> (column: &ColumnSchema)
        requires
            index < self@.len(),
        ensures
            column@ == self@[index as int],
    {
        &self.columns[index]
    }

    /// The Arrow schema of the columns: one field per column, in order, each
    /// with the column's name and type and with no nulls admitted. Neither the
    /// fields nor the schema carry metadata.
    pub fn arrow_schema(&self) -> (schema: &Arc<Schema>)
        ensures
            schema_fields(**schema) == arrow_fields(self@),
            schema_metadata(**schema) == no_metadata(),
    {
        proof {
            use_type_invariant(self);
        }
        &self.arrow
    }
}

/// Tests a declaration: whether it describes a schema, and if not, what is
/// wrong with it. The lengths are looked at first, then the type names from
/// the first on.
pub fn check_declaration(field_names: &Vec<String>, field_types: &Vec<String>) -> (checked: Result<
    (),
    SchemaError,
>)
    ensures
        checked is Ok <==> declaration_valid(field_names@, field_types@),
        checked matches Err(error) ==> declaration_fails_with(field_names@, field_types@, error),
{
    let total: usize = field_names.len();
    if total != field_types.len() {
        return Err(SchemaError::LengthMismatch { names: total, types: field_types.len() });
    }
    let mut i: usize = 0;
    while i < total
        invariant
            total == field_names.len(),
            total == field_types.len(),
            i <= total,
            forall|j: int|
                0 <= j < i ==> spec_convert_to_data_type((#[trigger] field_types@[j])@) is Some,
        decreases total - i,
    {
        if lookup_data_type(field_types[i].as_str()).is_none() {
            return Err(SchemaError::UnknownType { index: i });
        }
        i += 1;
    }
    Ok(())
}

/// Builds the schema that a valid declaration describes.
pub(crate) fn build_schema(field_names: &Vec<String>, field_types: &Vec<String>) -> (schema:
    DatasetSchema)
    requires
        declaration_valid(field_names@, field_types@),
    ensures
        schema@ == declared_columns(field_names@, field_types@),
{
    let total: usize = field_names.len();
    let mut columns: Vec<ColumnSchema> = Vec::new();
    let mut builder = schema_builder();
    let mut i: usize = 0;
    while i < total
        invariant
            total == field_names.len(),
            total == field_types.len(),
            all_types_known(field_types@),
            i <= total,
            columns@.len() == i,
            forall|j: int|
                0 <= j < i ==> (#[trigger] columns@[j])@ == declared_columns(
                    field_names@,
                    field_types@,
                )[j],
            builder_fields(builder) == Seq::new(
                i as nat,
                |j: int| plain_field(columns@[j]@.0, columns@[j]@.1, false),
            ),
            builder_metadata(builder) == no_metadata(),
        decreases total - i,
    {
        let column = ColumnSchema {
            name: field_names[i].clone(),
            data_type: convert_to_data_type(field_types[i].as_str()),
        };
        let ghost before = columns@;
        push_field(&mut builder, column.name.as_str(), column.data_type, column.nullable());
        columns.push(column);
        assert(forall|j: int| 0 <= j < i ==> columns@[j] == before[j]);
        assert(builder_fields(builder) =~= Seq::new(
            (i + 1) as nat,
            |j: int| plain_field(columns@[j]@.0, columns@[j]@.1, false),
        ));
        i += 1;
    }
    let arrow = Arc::new(finish_schema(builder));
    assert(schema_fields(*arrow) =~= arrow_fields(
        Seq::new(columns@.len(), |j: int| columns@[j]@),
    ));
    let schema = DatasetSchema { columns, arrow };
    assert(schema@ =~= declared_columns(field_names@, field_types@));
    schema
}

/// Builds the schema of a dataset from its column names and type names, all
/// of which must be in the vocabulary.
///
/// Fails exactly if the two lists differ in length; nothing is truncated. On
/// success the schema holds one column per name, in the order given.
pub fn get_schema(field_names: Vec<String>, field_types: Vec<String>) -> (built: Result<
    DatasetSchema,
    SchemaError,
>)
    requires
        all_types_known(field_types@),
    ensures
        built is Ok <==> field_names.len() == field_types.len(),
        match built {
            Ok(schema) => schema@ == declared_columns(field_names@, field_types@),
            Err(error) => error == (SchemaError::LengthMismatch {
                names: field_names.len(),
                types: field_types.len(),
            }),
        },
{
    if field_names.len() != field_types.len() {
        return Err(
            SchemaError::LengthMismatch { names: field_names.len(), types: field_types.len() },
        );
    }
    Ok(build_schema(&field_names, &field_types))
}

} // verus!
