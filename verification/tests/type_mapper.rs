use idhash_core::{convert_to_data_type, lookup_data_type, LogicalType};

#[test]
fn maps_every_name_of_the_vocabulary() {
    assert_eq!(convert_to_data_type("int16"), LogicalType::Int16);
    assert_eq!(convert_to_data_type("int32"), LogicalType::Int32);
    assert_eq!(convert_to_data_type("int64"), LogicalType::Int64);
    assert_eq!(convert_to_data_type("float16"), LogicalType::Float16);
    assert_eq!(convert_to_data_type("float32"), LogicalType::Float32);
    assert_eq!(convert_to_data_type("float64"), LogicalType::Float64);
    assert_eq!(convert_to_data_type("string"), LogicalType::Utf8);
    assert_eq!(convert_to_data_type("bool"), LogicalType::Boolean);
    assert_eq!(
        convert_to_data_type("datetime64[ns]"),
        LogicalType::TimestampNanosecond
    );
}

#[test]
fn object_is_an_alias_of_string() {
    assert_eq!(convert_to_data_type("object"), LogicalType::Utf8);
    assert_eq!(convert_to_data_type("object"), convert_to_data_type("string"));
    assert_eq!(lookup_data_type("object"), Some(LogicalType::Utf8));
}

#[test]
fn lookup_finds_what_convert_maps() {
    for name in [
        "int16",
        "int32",
        "int64",
        "float16",
        "float32",
        "float64",
        "string",
        "bool",
        "datetime64[ns]",
        "object",
    ] {
        assert_eq!(lookup_data_type(name), Some(convert_to_data_type(name)));
    }
}

#[test]
fn names_outside_the_vocabulary_are_not_found() {
    assert_eq!(lookup_data_type(""), None);
    assert_eq!(lookup_data_type("int8"), None);
    assert_eq!(lookup_data_type("uint8"), None);
    assert_eq!(lookup_data_type("uint64"), None);
    assert_eq!(lookup_data_type("Int64"), None);
    assert_eq!(lookup_data_type("int64 "), None);
    assert_eq!(lookup_data_type("datetime64[us]"), None);
    assert_eq!(lookup_data_type("str"), None);
    assert_eq!(lookup_data_type("boolean"), None);
}
