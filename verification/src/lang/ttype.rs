//! Types by name.
use crate::lang::{Type, TypeModel};
use crate::text::{chars_of, same_text};
use vstd::prelude::*;
use vstd::string::*;

verus! {

/// The type that `name` names: the primitive type with exactly that name, or
/// else a struct type, which is resolved later.
pub open spec fn type_of_name(name: Seq<char>) -> TypeModel {
    if name == "text"@ {
        TypeModel::Text
    } else if name == "char"@ {
        TypeModel::Character
    } else if name == "bool"@ {
        TypeModel::Bool
    } else if name == "int"@ {
        TypeModel::Int
    } else if name == "int8"@ {
        TypeModel::Int8
    } else if name == "int16"@ {
        TypeModel::Int16
    } else if name == "int32"@ {
        TypeModel::Int32
    } else if name == "int64"@ {
        TypeModel::Int64
    } else if name == "uint"@ {
        TypeModel::UInt
    } else if name == "uint8"@ {
        TypeModel::UInt8
    } else if name == "uint16"@ {
        TypeModel::UInt16
    } else if name == "uint32"@ {
        TypeModel::UInt32
    } else if name == "uint64"@ {
        TypeModel::UInt64
    } else if name == "float"@ {
        TypeModel::Float
    } else if name == "float32"@ {
        TypeModel::Float32
    } else if name == "float64"@ {
        TypeModel::Float64
    } else {
        TypeModel::Struct(name)
    }
}

/// The characters of the names of the primitive types.
pub proof fn lemma_type_names()
    ensures
        "text"@ == seq!['t', 'e', 'x', 't'],
        "char"@ == seq!['c', 'h', 'a', 'r'],
        "bool"@ == seq!['b', 'o', 'o', 'l'],
        "int"@ == seq!['i', 'n', 't'],
        "int8"@ == seq!['i', 'n', 't', '8'],
        "int16"@ == seq!['i', 'n', 't', '1', '6'],
        "int32"@ == seq!['i', 'n', 't', '3', '2'],
        "int64"@ == seq!['i', 'n', 't', '6', '4'],
        "uint"@ == seq!['u', 'i', 'n', 't'],
        "uint8"@ == seq!['u', 'i', 'n', 't', '8'],
        "uint16"@ == seq!['u', 'i', 'n', 't', '1', '6'],
        "uint32"@ == seq!['u', 'i', 'n', 't', '3', '2'],
        "uint64"@ == seq!['u', 'i', 'n', 't', '6', '4'],
        "float"@ == seq!['f', 'l', 'o', 'a', 't'],
        "float32"@ == seq!['f', 'l', 'o', 'a', 't', '3', '2'],
        "float64"@ == seq!['f', 'l', 'o', 'a', 't', '6', '4'],
{
    reveal_strlit("text");
    assert("text"@ =~= seq!['t', 'e', 'x', 't']);
    reveal_strlit("char");
    assert("char"@ =~= seq!['c', 'h', 'a', 'r']);
    reveal_strlit("bool");
    assert("bool"@ =~= seq!['b', 'o', 'o', 'l']);
    reveal_strlit("int");
    assert("int"@ =~= seq!['i', 'n', 't']);
    reveal_strlit("int8");
    assert("int8"@ =~= seq!['i', 'n', 't', '8']);
    reveal_strlit("int16");
    assert("int16"@ =~= seq!['i', 'n', 't', '1', '6']);
    reveal_strlit("int32");
    assert("int32"@ =~= seq!['i', 'n', 't', '3', '2']);
    reveal_strlit("int64");
    assert("int64"@ =~= seq!['i', 'n', 't', '6', '4']);
    reveal_strlit("uint");
    assert("uint"@ =~= seq!['u', 'i', 'n', 't']);
    reveal_strlit("uint8");
    assert("uint8"@ =~= seq!['u', 'i', 'n', 't', '8']);
    reveal_strlit("uint16");
    assert("uint16"@ =~= seq!['u', 'i', 'n', 't', '1', '6']);
    reveal_strlit("uint32");
    assert("uint32"@ =~= seq!['u', 'i', 'n', 't', '3', '2']);
    reveal_strlit("uint64");
    assert("uint64"@ =~= seq!['u', 'i', 'n', 't', '6', '4']);
    reveal_strlit("float");
    assert("float"@ =~= seq!['f', 'l', 'o', 'a', 't']);
    reveal_strlit("float32");
    assert("float32"@ =~= seq!['f', 'l', 'o', 'a', 't', '3', '2']);
    reveal_strlit("float64");
    assert("float64"@ =~= seq!['f', 'l', 'o', 'a', 't', '6', '4']);
}

impl Type {
    /// The type that `value` names.
    pub fn from_name(value: &str) -> (r: Self)
        ensures
            r@ == type_of_name(value@),
    {
        let name = chars_of(value);
        if same_text(&name, "text") {
            Type::Text
        } else if same_text(&name, "char") {
            Type::Character
        } else if same_text(&name, "bool") {
            Type::Bool
        } else if same_text(&name, "int") {
            Type::Int
        } else if same_text(&name, "int8") {
            Type::Int8
        } else if same_text(&name, "int16") {
            Type::Int16
        } else if same_text(&name, "int32") {
            Type::Int32
        } else if same_text(&name, "int64") {
            Type::Int64
        } else if same_text(&name, "uint") {
            Type::UInt
        } else if same_text(&name, "uint8") {
            Type::UInt8
        } else if same_text(&name, "uint16") {
            Type::UInt16
        } else if same_text(&name, "uint32") {
            Type::UInt32
        } else if same_text(&name, "uint64") {
            Type::UInt64
        } else if same_text(&name, "float") {
            Type::Float
        } else if same_text(&name, "float32") {
            Type::Float32
        } else if same_text(&name, "float64") {
            Type::Float64
        } else {
            Type::Struct(String::from_str(value))
        }
    }
}

} // verus!
