//! The registry of variable types that the controller names in recipes.

use vstd::prelude::*;

use vstd::utf8::is_ascii_chars;

use crate::text::{ascii_lower, ascii_lower_char, lower_of, lowercase, same_text};

verus! {

/// Variable types for decoding custom variables.
#[derive(Debug, Clone, Copy, PartialEq, Eq, Structural)]
pub enum DataType {
    /// Six doubles.
    Vec6,
    /// Three doubles.
    Vec3,
    /// Six signed 32-bit integers.
    IVec6,
    /// Six unsigned 32-bit integers.
    UVec6,
    F64,
    U64,
    U32,
    I32,
    Bool,
    U8,
    /// A type name the registry does not know.
    NotFound,
}

/// The type that a lower-case type name stands for; any other name is unresolved.
pub open spec fn type_named(name: Seq<char>) -> DataType {
    if name == "vector6d"@ {
        DataType::Vec6
    } else if name == "vector3d"@ {
        DataType::Vec3
    } else if name == "vector6int32"@ {
        DataType::IVec6
    } else if name == "vector6uint32"@ {
        DataType::UVec6
    } else if name == "double"@ {
        DataType::F64
    } else if name == "uint64"@ {
        DataType::U64
    } else if name == "uint32"@ {
        DataType::U32
    } else if name == "int32"@ {
        DataType::I32
    } else if name == "bool"@ {
        DataType::Bool
    } else if name == "uint8"@ {
        DataType::U8
    } else {
        DataType::NotFound
    }
}

impl DataType {
    /// The type a controller type name stands for, ignoring case.
    ///
    /// Every name gives a type: names outside the table give `NotFound`.
    pub fn new(var_type: &str) -> (r: DataType)
        ensures
            r == type_named(lower_of(var_type@)),
            is_ascii_chars(var_type@) ==> r == type_named(ascii_lower(var_type@)),
    {
        let lower = lowercase(var_type);
        DataType::from_lowercase(lower.as_str())
    }

    /// The type a lower-case type name stands for, by exact match against the table.
    pub fn from_lowercase(name: &str) -> (r: DataType)
        ensures
            r == type_named(name@),
    {
        if same_text(name, "vector6d") {
            DataType::Vec6
        } else if same_text(name, "vector3d") {
            DataType::Vec3
        } else if same_text(name, "vector6int32") {
            DataType::IVec6
        } else if same_text(name, "vector6uint32") {
            DataType::UVec6
        } else if same_text(name, "double") {
            DataType::F64
        } else if same_text(name, "uint64") {
            DataType::U64
        } else if same_text(name, "uint32") {
            DataType::U32
        } else if same_text(name, "int32") {
            DataType::I32
        } else if same_text(name, "bool") {
            DataType::Bool
        } else if same_text(name, "uint8") {
            DataType::U8
        } else {
            DataType::NotFound
        }
    }
}

/// Type names are matched without regard to case: two names that differ only
/// in the case of their ASCII letters resolve to the same type.
pub proof fn lemma_names_ignore_case(a: Seq<char>, b: Seq<char>)
    requires
        a.len() == b.len(),
        forall|i: int| 0 <= i < a.len() ==> ascii_lower_char(#[trigger] a[i]) == ascii_lower_char(
            b[i],
        ),
    ensures
        type_named(ascii_lower(a)) == type_named(ascii_lower(b)),
{
    assert(ascii_lower(a) =~= ascii_lower(b));
}

} // verus!
