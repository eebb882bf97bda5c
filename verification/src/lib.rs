//! Identity fingerprints for tabular datasets held as Arrow columns.
//!
//! A dataset is a set of columnar batches that share one schema. Its identity
//! is a 128-bit digest computed by a caller-supplied hashing kernel; this crate
//! provides what surrounds that kernel: the vocabulary of column types, the
//! schema built from column names and type names, the validation of batches
//! against the schema, and the accumulator that folds digests of added and
//! removed batch sets into a running identity with wrap-around arithmetic.
//!
//! A dataset has an identity only as a whole, so the functions that build,
//! assemble and digest take valid input only: a declaration whose type names
//! are all in the vocabulary, chunks that are batches of the schema, a delta
//! tag that names a delta. Each has a check beside it that tests an input and
//! says exactly what is wrong with one that is not valid: [`lookup_data_type`],
//! [`check_declaration`], [`check_batch`], [`check_batches`],
//! [`check_dataset`], [`IDHasher::check_write`] and [`parse_delta`].
pub mod arrow_specs;
pub mod batch;
pub mod hasher;
pub mod logical_type;
pub mod schema;
pub mod std_specs;

pub use batch::{
    assemble_batch, assemble_batches, check_batch, check_batches, Batch, BatchError, BatchFailure,
};
pub use hasher::{check_dataset, id_hash, parse_delta, Delta, IDHasher, IdHashError};
pub use logical_type::{convert_to_data_type, lookup_data_type, LogicalType};
pub use schema::{check_declaration, get_schema, ColumnSchema, DatasetSchema, SchemaError};
