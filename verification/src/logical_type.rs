//! The closed vocabulary of column types and the names that select them.
use vstd::prelude::*;

verus! {

/// The type of the values in one column.
#[derive(Clone, Copy, Debug, PartialEq, Eq, Structural)]
pub enum LogicalType {
    /// 16-bit signed integers.
    Int16,
    /// 32-bit signed integers.
    Int32,
    /// 64-bit signed integers.
    Int64,
    /// Half-precision floating point.
    Float16,
    /// Single-precision floating point.
    Float32,
    /// Double-precision floating point.
    Float64,
    /// UTF-8 text.
    Utf8,
    /// Booleans.
    Boolean,
    /// Timestamps counted in nanoseconds, with the empty time zone.
    TimestampNanosecond,
}

/// The logical type that a type name selects, if the name is in the vocabulary.
///
/// The vocabulary is closed. `"object"` is a documented alias of `"string"`;
/// every name outside the list selects nothing.
pub open spec fn spec_convert_to_data_type(name: Seq<char>) -> Option<LogicalType> {
    if name == "int16"@ {
        Some(LogicalType::Int16)
    } else if name == "int32"@ {
        Some(LogicalType::Int32)
    } else if name == "int64"@ {
        Some(LogicalType::Int64)
    } else if name == "float16"@ {
        Some(LogicalType::Float16)
    } else if name == "float32"@ {
        Some(LogicalType::Float32)
    } else if name == "float64"@ {
        Some(LogicalType::Float64)
    } else if name == "string"@ {
        Some(LogicalType::Utf8)
    } else if name == "bool"@ {
        Some(LogicalType::Boolean)
    } else if name == "datetime64[ns]"@ {
        Some(LogicalType::TimestampNanosecond)
    } else if name == "object"@ {
        Some(LogicalType::Utf8)
    } else {
        None
    }
}

/// Maps a type name of the vocabulary to its logical type.
///
/// A name outside the vocabulary has no logical type and gets no default:
/// callers test a name with [`lookup_data_type`] first.
pub fn convert_to_data_type(data_type: &str) -> (mapped: LogicalType)
    requires
        spec_convert_to_data_type(data_type@) is Some,
    ensures
        spec_convert_to_data_type(data_type@) == Some(mapped),
{
    match lookup_data_type(data_type) {
        Some(mapped) => mapped,
        None => unreached(),
    }
}

/// Looks a type name up in the vocabulary; `None` exactly for a name outside
/// it. The match is exact, letter case included.
pub fn lookup_data_type(data_type: &str) -> (found: Option<LogicalType>)
    ensures
        found == spec_convert_to_data_type(data_type@),
{
    if data_type.eq("int16") {
        Some(LogicalType::Int16)
    } else if data_type.eq("int32") {
        Some(LogicalType::Int32)
    } else if data_type.eq("int64") {
        Some(LogicalType::Int64)
    } else if data_type.eq("float16") {
        Some(LogicalType::Float16)
    } else if data_type.eq("float32") {
        Some(LogicalType::Float32)
    } else if data_type.eq("float64") {
        Some(LogicalType::Float64)
    } else if data_type.eq("string") {
        Some(LogicalType::Utf8)
    } else if data_type.eq("bool") {
        Some(LogicalType::Boolean)
    } else if data_type.eq("datetime64[ns]") {
        Some(LogicalType::TimestampNanosecond)
    } else if data_type.eq("object") {
        Some(LogicalType::Utf8)
    } else {
        None
    }
}

} // verus!
