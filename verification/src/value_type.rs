//! The types of the values a model takes and gives, and their short names.

use crate::decimal::{decimal, push_decimal};
use vstd::prelude::*;
use vstd::string::*;

verus! {

/// The element type of a tensor.
#[derive(Debug, Clone, Copy, PartialEq, Eq)]
pub enum TensorElementType {
    Bfloat16,
    Bool,
    Float16,
    Float32,
    Float64,
    Int16,
    Int32,
    Int64,
    Int8,
    String,
    Uint16,
    Uint32,
    Uint64,
    Uint8,
}

/// The type of a model input or output.
#[derive(Debug)]
pub enum ValueType {
    /// A tensor; a dimension of `-1` is decided at run time.
    Tensor { ty: TensorElementType, dimensions: Vec<i64> },
    Mapping { key: TensorElementType, value: TensorElementType },
    Sequence(Box<ValueType>),
}

/// The short name of an element type.
pub open spec fn element_type_text(t: TensorElementType) -> Seq<char> {
    match t {
        TensorElementType::Bfloat16 => "bf16"@,
        TensorElementType::Bool => "bool"@,
        TensorElementType::Float16 => "f16"@,
        TensorElementType::Float32 => "f32"@,
        TensorElementType::Float64 => "f64"@,
        TensorElementType::Int16 => "i16"@,
        TensorElementType::Int32 => "i32"@,
        TensorElementType::Int64 => "i64"@,
        TensorElementType::Int8 => "i8"@,
        TensorElementType::String => "str"@,
        TensorElementType::Uint16 => "u16"@,
        TensorElementType::Uint32 => "u32"@,
        TensorElementType::Uint64 => "u64"@,
        TensorElementType::Uint8 => "u8"@,
    }
}

/// One dimension: `dyn` where the size is open, else the size in decimal.
pub open spec fn dimension_text(c: i64) -> Seq<char> {
    if c == -1 {
        "dyn"@
    } else {
        decimal(c as int)
    }
}

/// The dimensions in order, joined by a comma and a space.
pub open spec fn dimensions_text(dims: Seq<i64>) -> Seq<char>
    decreases dims.len(),
{
    if dims.len() == 0 {
        Seq::empty()
    } else if dims.len() == 1 {
        dimension_text(dims[0])
    } else {
        dimensions_text(dims.drop_last()) + ", "@ + dimension_text(dims.last())
    }
}

/// The text of a value type: `Tensor<f32>(1, dyn, 768)`, `Map<i64, str>`,
/// `Sequence<..>` around the text of what the sequence holds.
pub open spec fn value_type_text(value: ValueType) -> Seq<char>
    decreases value,
{
    match value {
        ValueType::Tensor { ty, dimensions } => "Tensor<"@ + element_type_text(ty) + ">("@
            + dimensions_text(dimensions@) + ")"@,
        ValueType::Mapping { key, value } => "Map<"@ + element_type_text(key) + ", "@
            + element_type_text(value) + ">"@,
        ValueType::Sequence(inner) => "Sequence<"@ + value_type_text(*inner) + ">"@,
    }
}

pub fn display_element_type(t: TensorElementType) -> (text: &'static str)
    ensures
        text@ == element_type_text(t),
{
    match t {
        TensorElementType::Bfloat16 => "bf16",
        TensorElementType::Bool => "bool",
        TensorElementType::Float16 => "f16",
        TensorElementType::Float32 => "f32",
        TensorElementType::Float64 => "f64",
        TensorElementType::Int16 => "i16",
        TensorElementType::Int32 => "i32",
        TensorElementType::Int64 => "i64",
        TensorElementType::Int8 => "i8",
        TensorElementType::String => "str",
        TensorElementType::Uint16 => "u16",
        TensorElementType::Uint32 => "u32",
        TensorElementType::Uint64 => "u64",
        TensorElementType::Uint8 => "u8",
    }
}

fn push_dimensions(text: &mut String, dimensions: &Vec<i64>)
    ensures
        final(text)@ == old(text)@ + dimensions_text(dimensions@),
{
    let mut i: usize = 0;
    while i < dimensions.len()
        invariant
            i <= dimensions.len(),
            text@ == old(text)@ + dimensions_text(dimensions@.take(i as int)),
        decreases dimensions.len() - i,
    {
        let ghost before = text@;
        let ghost done = dimensions@.take(i as int);
        let ghost next = dimensions@.take(i + 1);
        if i > 0 {
            text.append(", ");
        }
        let c = dimensions[i];
        if c == -1 {
            text.append("dyn");
        } else {
            push_decimal(text, c);
        }
        proof {
            assert(next.drop_last() =~= done);
            assert(next.last() == c);
            assert(text@ =~= old(text)@ + dimensions_text(next));
        }
        i = i + 1;
    }
    assert(dimensions@.take(i as int) =~= dimensions@);
}

fn push_value_type(text: &mut String, value: &ValueType)
    ensures
        final(text)@ == old(text)@ + value_type_text(*value),
    decreases *value,
{
    match value {
        ValueType::Tensor { ty, dimensions } => {
            text.append("Tensor<");
            text.append(display_element_type(*ty));
            text.append(">(");
            push_dimensions(text, dimensions);
            text.append(")");
            assert(text@ =~= old(text)@ + value_type_text(*value));
        },
        ValueType::Mapping { key, value: held } => {
            text.append("Map<");
            text.append(display_element_type(*key));
            text.append(", ");
            text.append(display_element_type(*held));
            text.append(">");
            assert(text@ =~= old(text)@ + value_type_text(*value));
        },
        ValueType::Sequence(inner) => {
            text.append("Sequence<");
            push_value_type(text, inner);
            text.append(">");
            assert(text@ =~= old(text)@ + value_type_text(*value));
        },
    }
}

pub fn display_value_type(value: &ValueType) -> (text: String)
    ensures
        text@ == value_type_text(*value),
{
    let mut text = String::new();
    push_value_type(&mut text, value);
    assert(text@ =~= value_type_text(*value));
    text
}

} // verus!
