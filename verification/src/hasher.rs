//! The running identity of a dataset, and the one-shot digest of a set of
//! batches.
//!
//! The digest of a set of batches comes from a hashing kernel that the caller
//! supplies. What this module adds is the rule by which digests are folded
//! into an identity: addition and subtraction modulo 2^128, so that removing
//! what was added gives back the identity from before.
use crate::arrow_specs::schema_fields;
use crate::batch::{
    assemble_batches, assembled_from, batches_fail_with, batches_valid, check_batches, Batch,
    BatchFailure,
};
use crate::logical_type::LogicalType;
use crate::schema::{
    all_types_known, arrow_fields, build_schema, check_declaration, declaration_fails_with,
    declaration_valid, declared_columns, get_schema, DatasetSchema, SchemaError,
};
use crate::std_specs::share;
use arrow::array::ArrayData;
use arrow::datatypes::Schema;
use std::sync::Arc;
use vstd::prelude::*;

verus! {

/// The direction in which the digest of a set of batches is folded into an
/// identity.
#[derive(Clone, Copy, Debug, PartialEq, Eq, Structural)]
pub enum Delta {
    /// The batches were added to the dataset.
    Add,
    /// The batches were removed from the dataset.
    Remove,
}

/// Why no digest can be computed or folded.
#[derive(Clone, Copy, Debug, PartialEq, Eq, Structural)]
pub enum IdHashError {
    /// The declaration of the columns describes no schema.
    Schema(SchemaError),
    /// One of the chunks is no batch of the schema.
    Batch(BatchFailure),
    /// The delta tag is neither `"Add"` nor `"Remove"`.
    UnknownDelta,
}

/// The number of values of an identity: 2^128.
pub open spec fn modulus() -> int {
    0x1_0000_0000_0000_0000_0000_0000_0000_0000int
}

/// The identity that results from folding a digest into an identity.
pub open spec fn fold_delta(state: u128, delta: Delta, digest: u128) -> u128 {
    match delta {
        Delta::Add => ((state + digest) % modulus()) as u128,
        Delta::Remove => ((state - digest) % modulus()) as u128,
    }
}

/// The delta that a tag names, if it names one.
pub open spec fn spec_parse_delta(tag: Seq<char>) -> Option<Delta> {
    if tag == "Add"@ {
        Some(Delta::Add)
    } else if tag == "Remove"@ {
        Some(Delta::Remove)
    } else {
        None
    }
}

/// Reads a delta tag; `None` exactly for a tag other than `"Add"` and
/// `"Remove"`.
pub fn parse_delta(tag: &str) -> (delta: Option<Delta>)
    ensures
        delta == spec_parse_delta(tag@),
{
    if tag.eq("Add") {
        Some(Delta::Add)
    } else if tag.eq("Remove") {
        Some(Delta::Remove)
    } else {
        None
    }
}

/// Removing a digest that was added gives back the identity from before, and
/// so does adding a digest that was removed, whether or not a sum passed
/// 2^128 on the way.
pub proof fn lemma_remove_undoes_add(state: u128, digest: u128)
    ensures
        fold_delta(fold_delta(state, Delta::Add, digest), Delta::Remove, digest) == state,
        fold_delta(fold_delta(state, Delta::Remove, digest), Delta::Add, digest) == state,
{
}

/// Folding wraps around at most once: a sum that reaches 2^128 loses 2^128,
/// and a difference below zero gains it.
pub proof fn lemma_fold_wraps_once(state: u128, delta: Delta, digest: u128)
    ensures
        fold_delta(state, delta, digest) == match delta {
            Delta::Add => if state + digest >= modulus() {
                state + digest - modulus()
            } else {
                state + digest
            },
            Delta::Remove => if state < digest {
                state - digest + modulus()
            } else {
                state - digest
            },
        },
{
}

/// Two deltas give the same identity in either order.
pub proof fn lemma_deltas_commute(
    state: u128,
    first: Delta,
    first_digest: u128,
    second: Delta,
    second_digest: u128,
)
    ensures
        fold_delta(fold_delta(state, first, first_digest), second, second_digest) == fold_delta(
            fold_delta(state, second, second_digest),
            first,
            first_digest,
        ),
{
    let after_first = fold_delta(state, first, first_digest);
    let after_second = fold_delta(state, second, second_digest);
    lemma_fold_wraps_once(state, first, first_digest);
    lemma_fold_wraps_once(state, second, second_digest);
    lemma_fold_wraps_once(after_first, second, second_digest);
    lemma_fold_wraps_once(after_second, first, first_digest);
}

/// Whether `batches` and `schema` are what the kernel is handed for the
/// chunks of a dataset with the given columns: the batches that hold the
/// chunks' columns, chunk by chunk, and the Arrow schema of the columns.
pub open spec fn kernel_input(
    columns: Seq<(Seq<char>, LogicalType)>,
    record_batches: Seq<Vec<ArrayData>>,
    batches: Seq<Batch>,
    schema: Arc<Schema>,
) -> bool {
    &&& assembled_from(columns, record_batches, batches)
    &&& schema_fields(*schema) == arrow_fields(columns)
}

/// Whether `digest` is what the kernel may return for the chunks of a dataset
/// with the given columns.
pub open spec fn kernel_digest<H: FnOnce(Vec<Batch>, Arc<Schema>) -> u128>(
    hasher: H,
    columns: Seq<(Seq<char>, LogicalType)>,
    record_batches: Seq<Vec<ArrayData>>,
    digest: u128,
) -> bool {
    exists|batches: Vec<Batch>, schema: Arc<Schema>|
        {
            &&& kernel_input(columns, record_batches, batches@, schema)
            &&& #[trigger] call_ensures(hasher, (batches, schema), digest)
        }
}

/// The running identity of a dataset: a 128-bit state that starts at zero and
/// changes only by folding in the digest of a set of added or removed batches.
#[derive(Debug)]
pub struct IDHasher {
    hash: u128,
    schema: DatasetSchema,
}

impl View for IDHasher {
    type V = u128;

    closed spec fn view(&self) -> u128 {
        self.hash
    }
}

impl IDHasher {
    /// The columns of the dataset.
    pub closed spec fn columns(&self) -> Seq<(Seq<char>, LogicalType)> {
        self.schema@
    }

    /// An identity of zero for the dataset that the declaration describes.
    /// The type names must all be in the vocabulary.
    ///
    /// Fails exactly if the two lists differ in length; nothing is truncated.
    pub fn new(field_names: Vec<String>, field_types: Vec<String>) -> (made: Result<
        IDHasher,
        SchemaError,
    >)
        requires
            all_types_known(field_types@),
        ensures
            made is Ok <==> field_names.len() == field_types.len(),
            match made {
                Ok(hasher) => {
                    &&& hasher@ == 0
                    &&& hasher.columns() == declared_columns(field_names@, field_types@)
                },
                Err(error) => error == (SchemaError::LengthMismatch {
                    names: field_names.len(),
                    types: field_types.len(),
                }),
            },
    {
        match get_schema(field_names, field_types) {
            Ok(schema) => Ok(IDHasher { hash: 0, schema }),
            Err(error) => Err(error),
        }
    }

    /// The schema of the dataset.
    pub fn schema(&self) -> (schema: &DatasetSchema)
        ensures
            schema@ == self.columns(),
    {
        &self.schema
    }

    /// Adds a digest to the identity, modulo 2^128.
    pub fn add_assign(&mut self, other: u128)
        ensures
            final(self)@ == fold_delta(old(self)@, Delta::Add, other),
            final(self).columns() == old(self).columns(),
    {
        self.hash = self.hash.wrapping_add(other);
    }

    /// Subtracts a digest from the identity, modulo 2^128.
    pub fn sub_assign(&mut self, other: u128)
        ensures
            final(self)@ == fold_delta(old(self)@, Delta::Remove, other),
            final(self).columns() == old(self).columns(),
    {
        self.hash = self.hash.wrapping_sub(other);
    }

    /// Folds the digest of a set of batches into the identity.
    pub fn apply_delta(&mut self, delta: Delta, digest: u128)
        ensures
            final(self)@ == fold_delta(old(self)@, delta, digest),
            final(self).columns() == old(self).columns(),
    {
        match delta {
            Delta::Add => self.add_assign(digest),
            Delta::Remove => self.sub_assign(digest),
        }
    }

    /// Tests what [`IDHasher::write_batches`] asks of the chunks and of the
    /// delta tag. A chunk that is no batch of the schema is reported before a
    /// tag that names no delta.
    pub fn check_write(&self, batches: &Vec<Vec<ArrayData>>, delta: &str) -> (checked: Result<
        (),
        IdHashError,
    >)
        ensures
            checked is Ok <==> batches_valid(self.columns(), batches@) && spec_parse_delta(
                delta@,
            ) is Some,
            match checked {
                Ok(()) => true,
                Err(IdHashError::Batch(failure)) => batches_fail_with(
                    self.columns(),
                    batches@,
                    failure,
                ),
                Err(IdHashError::UnknownDelta) => {
                    &&& batches_valid(self.columns(), batches@)
                    &&& spec_parse_delta(delta@) is None
                },
                Err(IdHashError::Schema(_)) => false,
            },
    {
        if let Err(failure) = check_batches(&self.schema, batches) {
            return Err(IdHashError::Batch(failure));
        }
        if parse_delta(delta).is_none() {
            return Err(IdHashError::UnknownDelta);
        }
        Ok(())
    }

    /// Assembles the chunks into batches of the dataset's schema, has the
    /// kernel digest them, and folds the digest into the identity as the delta
    /// tag says.
    ///
    /// Every chunk must be a batch of the schema and the tag must be `"Add"`
    /// or `"Remove"`; no other tag is taken for either or passed over. Callers
    /// test both with [`IDHasher::check_write`] first.
    pub fn write_batches<H: FnOnce(Vec<Batch>, Arc<Schema>) -> u128>(
        &mut self,
        batches: Vec<Vec<ArrayData>>,
        delta: &str,
        hasher: H,
    )
        requires
            batches_valid(old(self).columns(), batches@),
            spec_parse_delta(delta@) is Some,
            forall|assembled: Vec<Batch>, schema: Arc<Schema>|
                kernel_input(old(self).columns(), batches@, assembled@, schema) ==> call_requires(
                    hasher,
                    (assembled, schema),
                ),
        ensures
            final(self).columns() == old(self).columns(),
            exists|digest: u128|
                {
                    &&& #[trigger] kernel_digest(hasher, old(self).columns(), batches@, digest)
                    &&& final(self)@ == fold_delta(
                        old(self)@,
                        spec_parse_delta(delta@).unwrap(),
                        digest,
                    )
                },
    {
        let assembled = assemble_batches(&self.schema, batches);
        let schema = share(self.schema.arrow_schema());
        assert(kernel_input(self.columns(), batches@, assembled@, schema));
        let digest = hasher(assembled, schema);
        assert(kernel_digest(hasher, self.columns(), batches@, digest));
        match parse_delta(delta) {
            Some(delta) => self.apply_delta(delta, digest),
            None => unreached(),
        }
    }

    /// The identity as it stands. Reading it changes nothing, so reading it
    /// again gives the same value.
    pub fn finalize(&self) -> (identity: u128)
        ensures
            identity == self@,
    {
        self.hash
    }
}

/// Tests what [`id_hash`] asks of a dataset given at once: that the
/// declaration describes a schema and that every chunk is a batch of it. The
/// declaration is looked at first, then the chunks in the order given.
pub fn check_dataset(
    record_batches: &Vec<Vec<ArrayData>>,
    field_names: &Vec<String>,
    field_types: &Vec<String>,
) -> (checked: Result<(), IdHashError>)
    ensures
        checked is Ok <==> {
            &&& declaration_valid(field_names@, field_types@)
            &&& batches_valid(declared_columns(field_names@, field_types@), record_batches@)
        },
        match checked {
            Ok(()) => true,
            Err(IdHashError::Schema(error)) => declaration_fails_with(
                field_names@,
                field_types@,
                error,
            ),
            Err(IdHashError::Batch(failure)) => {
                &&& declaration_valid(field_names@, field_types@)
                &&& batches_fail_with(
                    declared_columns(field_names@, field_types@),
                    record_batches@,
                    failure,
                )
            },
            Err(IdHashError::UnknownDelta) => false,
        },
{
    if let Err(error) = check_declaration(field_names, field_types) {
        return Err(IdHashError::Schema(error));
    }
    let schema = build_schema(field_names, field_types);
    if let Err(failure) = check_batches(&schema, record_batches) {
        return Err(IdHashError::Batch(failure));
    }
    Ok(())
}

/// The digest of a dataset given at once: builds the schema from the
/// declaration, assembles the chunks into batches of it, and returns what the
/// kernel makes of them.
///
/// The lists of the declaration must be of equal length, every type name must
/// be in the vocabulary, and every chunk must be a batch of the schema: there
/// is no digest of a part of a dataset. Callers test this with
/// [`check_dataset`] first.
pub fn id_hash<H: FnOnce(Vec<Batch>, Arc<Schema>) -> u128>(
    record_batches: Vec<Vec<ArrayData>>,
    field_names: Vec<String>,
    field_types: Vec<String>,
    hasher: H,
) -> (digest: u128)
    requires
        declaration_valid(field_names@, field_types@),
        batches_valid(declared_columns(field_names@, field_types@), record_batches@),
        forall|assembled: Vec<Batch>, schema: Arc<Schema>|
            kernel_input(
                declared_columns(field_names@, field_types@),
                record_batches@,
                assembled@,
                schema,
            ) ==> call_requires(hasher, (assembled, schema)),
    ensures
        kernel_digest(
            hasher,
            declared_columns(field_names@, field_types@),
            record_batches@,
            digest,
        ),
{
    let schema = build_schema(&field_names, &field_types);
    let assembled = assemble_batches(&schema, record_batches);
    let shared = share(schema.arrow_schema());
    assert(kernel_input(schema@, record_batches@, assembled@, shared));
    hasher(assembled, shared)
}

} // verus!
