use arrow::array::{make_array, Array, ArrayData, Int64Array, StringArray};
use arrow::datatypes::Schema;
use idhash_core::{
    check_dataset, id_hash, parse_delta, Batch, BatchError, BatchFailure, Delta, IDHasher,
    IdHashError, SchemaError,
};
use std::sync::Arc;

fn strings(items: &[&str]) -> Vec<String> {
    items.iter().map(|item| item.to_string()).collect()
}

fn hasher_of(columns: &[(&str, &str)]) -> IDHasher {
    let names = columns.iter().map(|column| column.0.to_string()).collect();
    let types = columns.iter().map(|column| column.1.to_string()).collect();
    IDHasher::new(names, types).unwrap()
}

/// A stand-in for the hashing kernel: the wrapping sum, over all rows of all
/// batches, of a 128-bit FNV-1a hash of the row's values as text, each value
/// preceded by the name of its column.
fn row_sum_kernel(batches: Vec<Batch>, schema: Arc<Schema>) -> u128 {
    let mut digest: u128 = 0;
    for batch in batches.iter() {
        let arrays: Vec<_> = (0..batch.num_columns())
            .map(|index| make_array(batch.column(index).clone()))
            .collect();
        for row in 0..batch.num_rows() {
            let mut hash: u128 = 0x6c62272e07bb014262b821756295c58d;
            for (index, array) in arrays.iter().enumerate() {
                let text = format!("{}={:?};", schema.field(index).name(), array.slice(row, 1));
                for byte in text.bytes() {
                    hash ^= byte as u128;
                    hash = hash.wrapping_mul(0x0000000001000000000000000000013b);
                }
            }
            digest = digest.wrapping_add(hash);
        }
    }
    digest
}

fn chunk(numbers: Vec<i64>, words: Vec<&str>) -> Vec<ArrayData> {
    vec![
        Int64Array::from(numbers).into_data(),
        StringArray::from(words).into_data(),
    ]
}

#[test]
fn delta_tags_are_add_and_remove() {
    assert_eq!(parse_delta("Add"), Some(Delta::Add));
    assert_eq!(parse_delta("Remove"), Some(Delta::Remove));
}

#[test]
fn any_other_delta_tag_names_nothing() {
    assert_eq!(parse_delta(""), None);
    assert_eq!(parse_delta("add"), None);
    assert_eq!(parse_delta("ADD"), None);
    assert_eq!(parse_delta("remove"), None);
    assert_eq!(parse_delta("Update"), None);
    assert_eq!(parse_delta("Add "), None);
}

#[test]
fn add_assign_adds_to_the_identity() {
    let mut hasher = hasher_of(&[("a", "int64")]);
    hasher.add_assign(5);
    assert_eq!(hasher.finalize(), 5);
    hasher.add_assign(37);
    assert_eq!(hasher.finalize(), 42);
}

#[test]
fn add_assign_wraps_around() {
    let mut hasher = hasher_of(&[("a", "int64")]);
    hasher.add_assign(u128::MAX);
    assert_eq!(hasher.finalize(), u128::MAX);
    hasher.add_assign(1);
    assert_eq!(hasher.finalize(), 0);
    hasher.add_assign(u128::MAX - 1);
    hasher.add_assign(3);
    assert_eq!(hasher.finalize(), 1);
}

#[test]
fn sub_assign_subtracts_from_the_identity() {
    let mut hasher = hasher_of(&[("a", "int64")]);
    hasher.add_assign(42);
    hasher.sub_assign(2);
    assert_eq!(hasher.finalize(), 40);
}

#[test]
fn sub_assign_wraps_around() {
    let mut hasher = hasher_of(&[("a", "int64")]);
    hasher.sub_assign(1);
    assert_eq!(hasher.finalize(), u128::MAX);
    hasher.sub_assign(u128::MAX);
    assert_eq!(hasher.finalize(), 0);
    hasher.add_assign(10);
    hasher.sub_assign(11);
    assert_eq!(hasher.finalize(), 0xffff_ffff_ffff_ffff_ffff_ffff_ffff_ffff);
}

#[test]
fn apply_delta_folds_in_the_direction_given() {
    let mut hasher = hasher_of(&[("a", "int64")]);
    hasher.apply_delta(Delta::Add, 100);
    assert_eq!(hasher.finalize(), 100);
    hasher.apply_delta(Delta::Remove, 30);
    assert_eq!(hasher.finalize(), 70);
    hasher.apply_delta(Delta::Remove, 71);
    assert_eq!(hasher.finalize(), u128::MAX);
}

#[test]
fn remove_undoes_add_even_across_overflow() {
    let mut hasher = hasher_of(&[("a", "int64")]);
    hasher.add_assign(u128::MAX - 4);
    let before = hasher.finalize();
    hasher.apply_delta(Delta::Add, 1 << 127);
    assert_ne!(hasher.finalize(), before);
    hasher.apply_delta(Delta::Remove, 1 << 127);
    assert_eq!(hasher.finalize(), before);
    hasher.apply_delta(Delta::Remove, 77);
    hasher.apply_delta(Delta::Add, 77);
    assert_eq!(hasher.finalize(), before);
}

#[test]
fn two_adds_give_the_same_identity_in_either_order() {
    let first: u128 = 0xfedc_ba98_7654_3210_0123_4567_89ab_cdef;
    let second: u128 = 0x8000_0000_0000_0000_0000_0000_0000_0001;
    let mut one_way = hasher_of(&[("a", "int64")]);
    one_way.apply_delta(Delta::Add, first);
    one_way.apply_delta(Delta::Add, second);
    let mut other_way = hasher_of(&[("a", "int64")]);
    other_way.apply_delta(Delta::Add, second);
    other_way.apply_delta(Delta::Add, first);
    assert_eq!(one_way.finalize(), other_way.finalize());
    assert_eq!(
        one_way.finalize(),
        0x7edc_ba98_7654_3210_0123_4567_89ab_cdf0
    );
}

#[test]
fn an_add_and_a_remove_give_the_same_identity_in_either_order() {
    let mut one_way = hasher_of(&[("a", "int64")]);
    one_way.apply_delta(Delta::Add, 5);
    one_way.apply_delta(Delta::Remove, 9);
    let mut other_way = hasher_of(&[("a", "int64")]);
    other_way.apply_delta(Delta::Remove, 9);
    other_way.apply_delta(Delta::Add, 5);
    assert_eq!(one_way.finalize(), other_way.finalize());
    assert_eq!(one_way.finalize(), u128::MAX - 3);
}

#[test]
fn finalize_twice_gives_the_same_value() {
    let mut hasher = hasher_of(&[("a", "int64")]);
    assert_eq!(hasher.finalize(), hasher.finalize());
    hasher.add_assign(12345);
    let first = hasher.finalize();
    let second = hasher.finalize();
    assert_eq!(first, 12345);
    assert_eq!(second, 12345);
}

#[test]
fn one_dataset_gives_one_digest() {
    let digest = |chunks: Vec<Vec<ArrayData>>| {
        id_hash(
            chunks,
            strings(&["a", "b"]),
            strings(&["int64", "string"]),
            row_sum_kernel,
        )
    };
    let first = digest(vec![chunk(vec![1, 2, 3], vec!["x", "y", "z"])]);
    let second = digest(vec![chunk(vec![1, 2, 3], vec!["x", "y", "z"])]);
    assert_eq!(first, second);
    let other = digest(vec![chunk(vec![1, 2, 4], vec!["x", "y", "z"])]);
    assert_ne!(first, other);
}

#[test]
fn the_kernel_gets_the_batches_and_the_schema() {
    let chunks = vec![
        chunk(vec![1, 2, 3], vec!["x", "y", "z"]),
        chunk(vec![4], vec!["w"]),
    ];
    let expected = chunks.clone();
    assert_eq!(
        check_dataset(&chunks, &strings(&["a", "b"]), &strings(&["int64", "string"])),
        Ok(())
    );
    let digest = id_hash(
        chunks,
        strings(&["a", "b"]),
        strings(&["int64", "string"]),
        |batches: Vec<Batch>, schema: Arc<Schema>| {
            assert_eq!(batches.len(), 2);
            assert_eq!(schema.fields().len(), 2);
            assert_eq!(schema.field(0).name(), "a");
            assert_eq!(schema.field(1).name(), "b");
            for (batch, columns) in batches.iter().zip(expected.iter()) {
                assert_eq!(batch.schema().as_ref(), schema.as_ref());
                assert_eq!(batch.column(0), &columns[0]);
                assert_eq!(batch.column(1), &columns[1]);
            }
            (batches[0].num_rows() * 10 + batches[1].num_rows()) as u128
        },
    );
    assert_eq!(digest, 31);
}

#[test]
fn the_digest_does_not_depend_on_the_order_of_the_batches() {
    let first = chunk(vec![1, 2, 3], vec!["x", "y", "z"]);
    let second = chunk(vec![4, 5], vec!["v", "w"]);
    let third = chunk(vec![], vec![]);
    let digest = |chunks: Vec<Vec<ArrayData>>| {
        id_hash(
            chunks,
            strings(&["a", "b"]),
            strings(&["int64", "string"]),
            row_sum_kernel,
        )
    };
    let in_order = digest(vec![first.clone(), second.clone(), third.clone()]);
    assert_eq!(in_order, digest(vec![second.clone(), first.clone(), third.clone()]));
    assert_eq!(in_order, digest(vec![third.clone(), second.clone(), first.clone()]));
    assert_eq!(in_order, digest(vec![second.clone(), third.clone(), first.clone()]));
    let merged = chunk(vec![4, 1, 5, 2, 3], vec!["v", "x", "w", "y", "z"]);
    assert_eq!(in_order, digest(vec![merged]));
    assert_ne!(in_order, digest(vec![first, second.clone(), second]));
}

#[test]
fn a_bad_declaration_fails_the_check_of_a_dataset() {
    assert_eq!(
        check_dataset(
            &vec![chunk(vec![1], vec!["x"])],
            &strings(&["a", "b"]),
            &strings(&["int64"])
        ),
        Err(IdHashError::Schema(SchemaError::LengthMismatch {
            names: 2,
            types: 1
        }))
    );
    assert_eq!(
        check_dataset(&vec![], &strings(&["a"]), &strings(&[])),
        Err(IdHashError::Schema(SchemaError::LengthMismatch {
            names: 1,
            types: 0
        }))
    );
    assert_eq!(
        check_dataset(&vec![], &strings(&["a"]), &strings(&["uint8"])),
        Err(IdHashError::Schema(SchemaError::UnknownType { index: 0 }))
    );
    assert_eq!(
        check_dataset(
            &vec![chunk(vec![1], vec!["x"])],
            &strings(&["a", "b"]),
            &strings(&["int64", "varchar"])
        ),
        Err(IdHashError::Schema(SchemaError::UnknownType { index: 1 }))
    );
}

#[test]
fn a_bad_chunk_fails_the_check_of_a_dataset() {
    let chunks = vec![
        chunk(vec![1], vec!["x"]),
        vec![Int64Array::from(vec![2]).into_data()],
    ];
    assert_eq!(
        check_dataset(&chunks, &strings(&["a", "b"]), &strings(&["int64", "string"])),
        Err(IdHashError::Batch(BatchFailure {
            batch: 1,
            error: BatchError::ColumnCount {
                expected: 2,
                found: 1
            },
        }))
    );
}

#[test]
fn a_declaration_is_checked_before_the_chunks() {
    assert_eq!(
        check_dataset(&vec![vec![]], &strings(&["a"]), &strings(&["nothing"])),
        Err(IdHashError::Schema(SchemaError::UnknownType { index: 0 }))
    );
}

#[test]
fn a_dataset_without_chunks_has_a_digest() {
    assert_eq!(
        check_dataset(&vec![], &strings(&["a"]), &strings(&["int64"])),
        Ok(())
    );
    let digest = id_hash(
        vec![],
        strings(&["a"]),
        strings(&["int64"]),
        row_sum_kernel,
    );
    assert_eq!(digest, 0);
}

#[test]
fn write_batches_folds_the_digest_of_the_kernel() {
    let mut hasher = hasher_of(&[("a", "int64"), ("b", "string")]);
    let added = vec![chunk(vec![1, 2, 3], vec!["x", "y", "z"])];
    assert_eq!(hasher.check_write(&added, "Add"), Ok(()));
    hasher.write_batches(
        added,
        "Add",
        |_batches: Vec<Batch>, _schema: Arc<Schema>| 1000_u128,
    );
    assert_eq!(hasher.finalize(), 1000);
    let removed = vec![chunk(vec![1], vec!["x"])];
    assert_eq!(hasher.check_write(&removed, "Remove"), Ok(()));
    hasher.write_batches(
        removed,
        "Remove",
        |_batches: Vec<Batch>, _schema: Arc<Schema>| 1001_u128,
    );
    assert_eq!(hasher.finalize(), u128::MAX);
}

#[test]
fn an_unknown_delta_fails_the_check_of_a_write() {
    let mut hasher = hasher_of(&[("a", "int64"), ("b", "string")]);
    hasher.add_assign(9);
    let chunks = vec![chunk(vec![1, 2, 3], vec!["x", "y", "z"])];
    for tag in ["Replace", "add", "REMOVE", "", "Update"] {
        assert_eq!(
            hasher.check_write(&chunks, tag),
            Err(IdHashError::UnknownDelta)
        );
    }
    assert_eq!(hasher.check_write(&vec![], "add"), Err(IdHashError::UnknownDelta));
    assert_eq!(hasher.finalize(), 9);
}

#[test]
fn a_bad_chunk_fails_the_check_of_a_write() {
    let mut hasher = hasher_of(&[("a", "int64"), ("b", "string")]);
    hasher.add_assign(9);
    let chunks = vec![
        chunk(vec![1, 2, 3], vec!["x", "y", "z"]),
        chunk(vec![1, 2, 3], vec!["x", "y"]),
    ];
    assert_eq!(
        hasher.check_write(&chunks, "Add"),
        Err(IdHashError::Batch(BatchFailure {
            batch: 1,
            error: BatchError::Rejected,
        }))
    );
    assert_eq!(hasher.finalize(), 9);
}

#[test]
fn a_bad_chunk_is_reported_before_an_unknown_delta() {
    let hasher = hasher_of(&[("a", "int64")]);
    let chunks = vec![vec![StringArray::from(vec!["x"]).into_data()]];
    assert_eq!(
        hasher.check_write(&chunks, "Replace"),
        Err(IdHashError::Batch(BatchFailure {
            batch: 0,
            error: BatchError::ColumnType { index: 0 },
        }))
    );
    assert_eq!(hasher.finalize(), 0);
}

#[test]
fn adding_then_removing_batches_restores_the_identity() {
    let mut hasher = hasher_of(&[("a", "int64"), ("b", "string")]);
    hasher
        .write_batches(
            vec![chunk(vec![7, 8], vec!["p", "q"])],
            "Add",
            row_sum_kernel,
        );
    let before = hasher.finalize();
    let chunks = vec![
        chunk(vec![1, 2, 3], vec!["x", "y", "z"]),
        chunk(vec![4], vec!["w"]),
    ];
    hasher
        .write_batches(chunks.clone(), "Add", row_sum_kernel);
    assert_ne!(hasher.finalize(), before);
    hasher
        .write_batches(chunks, "Remove", row_sum_kernel);
    assert_eq!(hasher.finalize(), before);
}

#[test]
fn disjoint_adds_give_the_same_identity_in_either_order() {
    let first = vec![chunk(vec![1, 2, 3], vec!["x", "y", "z"])];
    let second = vec![chunk(vec![4, 5], vec!["v", "w"])];
    let mut one_way = hasher_of(&[("a", "int64"), ("b", "string")]);
    one_way
        .write_batches(first.clone(), "Add", row_sum_kernel);
    one_way
        .write_batches(second.clone(), "Add", row_sum_kernel);
    let mut other_way = hasher_of(&[("a", "int64"), ("b", "string")]);
    other_way
        .write_batches(second, "Add", row_sum_kernel);
    other_way
        .write_batches(first, "Add", row_sum_kernel);
    assert_eq!(one_way.finalize(), other_way.finalize());
}

#[test]
fn digest_then_add_then_remove_end_to_end() {
    let names = strings(&["a", "b"]);
    let types = strings(&["int64", "string"]);
    let batch = chunk(vec![1, 2, 3], vec!["x", "y", "z"]);
    let digest = id_hash(
        vec![batch.clone()],
        names.clone(),
        types.clone(),
        row_sum_kernel,
    );
    let again = id_hash(
        vec![batch.clone()],
        names.clone(),
        types.clone(),
        row_sum_kernel,
    );
    assert_eq!(digest, again);
    let mut hasher = IDHasher::new(names, types).unwrap();
    assert_eq!(hasher.finalize(), 0);
    hasher
        .write_batches(vec![batch.clone()], "Add", row_sum_kernel);
    assert_eq!(hasher.finalize(), digest);
    hasher
        .write_batches(vec![batch], "Remove", row_sum_kernel);
    assert_eq!(hasher.finalize(), 0);
}
