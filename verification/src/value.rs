//! The values that the format can carry, and their mathematical models.

use vstd::prelude::*;

verus! {

/// A named field of a struct, with its value.
#[derive(Debug, PartialEq, Eq)]
pub struct Field {
    /// The field's name.
    pub name: &'static str,
    /// The field's value.
    pub value: Value,
}

/// A value of one of the kinds that can be serialized.
///
/// Floating-point numbers are held as the bits of their IEEE-754
/// representation.
#[derive(Debug, PartialEq, Eq)]
#[allow(inconsistent_fields)]
pub enum Value {
    /// A boolean.
    Bool(bool),
    /// A signed number of 8 bits.
    Integer8(i8),
    /// A signed number of 16 bits.
    Integer16(i16),
    /// A signed number of 32 bits.
    Integer32(i32),
    /// A signed number of 64 bits.
    Integer64(i64),
    /// An unsigned number of 8 bits.
    UnsignedInteger8(u8),
    /// An unsigned number of 16 bits.
    UnsignedInteger16(u16),
    /// An unsigned number of 32 bits.
    UnsignedInteger32(u32),
    /// An unsigned number of 64 bits.
    UnsignedInteger64(u64),
    /// The bits of a single-precision number.
    Float(u32),
    /// The bits of a double-precision number.
    Double(u64),
    /// A character.
    Char(char),
    /// A string.
    String(String),
    /// Opaque data of variable length.
    Bytes(Vec<u8>),
    /// Optional data, absent or present.
    Optional(Option<Box<Value>>),
    /// The value that holds nothing.
    Unit,
    /// A struct without fields, with its name.
    UnitStruct { name: &'static str },
    /// A variant that holds nothing, with the name of its union, its
    /// discriminant and its own name.
    UnitVariant { name: &'static str, variant_index: u32, variant: &'static str },
    /// A struct with one unnamed field.
    NewtypeStruct { name: &'static str, value: Box<Value> },
    /// A variant with one unnamed value.
    NewtypeVariant {
        name: &'static str,
        variant_index: u32,
        variant: &'static str,
        value: Box<Value>,
    },
    /// A sequence, whose length is part of its encoding.
    Sequence(Vec<Value>),
    /// A tuple, whose length is known in advance.
    Tuple(Vec<Value>),
    /// A struct with unnamed fields.
    TupleStruct { name: &'static str, fields: Vec<Value> },
    /// A variant with unnamed values.
    TupleVariant {
        name: &'static str,
        variant_index: u32,
        variant: &'static str,
        fields: Vec<Value>,
    },
    /// A map, which the format cannot carry.
    Dictionary,
    /// A struct with named fields.
    Struct { name: &'static str, fields: Vec<Field> },
    /// A variant with named fields.
    StructVariant {
        name: &'static str,
        variant_index: u32,
        variant: &'static str,
        fields: Vec<Field>,
    },
}

/// The mathematical value of a [`Field`].
pub struct SpecField {
    pub name: Seq<char>,
    pub value: SpecValue,
}

/// The mathematical value of a [`Value`].
#[allow(inconsistent_fields)]
pub enum SpecValue {
    Bool(bool),
    Integer8(i8),
    Integer16(i16),
    Integer32(i32),
    Integer64(i64),
    UnsignedInteger8(u8),
    UnsignedInteger16(u16),
    UnsignedInteger32(u32),
    UnsignedInteger64(u64),
    Float(u32),
    Double(u64),
    Char(char),
    String(Seq<char>),
    Bytes(Seq<u8>),
    Optional(Option<Box<SpecValue>>),
    Unit,
    UnitStruct { name: Seq<char> },
    UnitVariant { name: Seq<char>, variant_index: u32, variant: Seq<char> },
    NewtypeStruct { name: Seq<char>, value: Box<SpecValue> },
    NewtypeVariant { name: Seq<char>, variant_index: u32, variant: Seq<char>, value: Box<SpecValue> },
    Sequence(Seq<SpecValue>),
    Tuple(Seq<SpecValue>),
    TupleStruct { name: Seq<char>, fields: Seq<SpecValue> },
    TupleVariant { name: Seq<char>, variant_index: u32, variant: Seq<char>, fields: Seq<SpecValue> },
    Dictionary,
    Struct { name: Seq<char>, fields: Seq<SpecField> },
    StructVariant { name: Seq<char>, variant_index: u32, variant: Seq<char>, fields: Seq<SpecField> },
}

/// The mathematical values of a list of values, in order.
pub open spec fn models(values: Seq<Value>) -> Seq<SpecValue>
    decreases values,
{
    if values.len() == 0 {
        Seq::empty()
    } else {
        models(values.drop_last()).push(values.last().model())
    }
}

/// The mathematical values of a list of fields, in order.
pub open spec fn field_models(fields: Seq<Field>) -> Seq<SpecField>
    decreases fields,
{
    if fields.len() == 0 {
        Seq::empty()
    } else {
        field_models(fields.drop_last()).push(fields.last().model())
    }
}

impl Field {
    /// The mathematical value of the field.
    pub open spec fn model(&self) -> SpecField
        decreases self,
    {
        SpecField { name: self.name@, value: self.value.model() }
    }
}

impl View for Field {
    type V = SpecField;

    open spec fn view(&self) -> SpecField {
        self.model()
    }
}

impl Value {
    /// The mathematical value of the value.
    pub open spec fn model(&self) -> SpecValue
        decreases self,
    {
        match self {
            Value::Bool(value) => SpecValue::Bool(*value),
            Value::Integer8(value) => SpecValue::Integer8(*value),
            Value::Integer16(value) => SpecValue::Integer16(*value),
            Value::Integer32(value) => SpecValue::Integer32(*value),
            Value::Integer64(value) => SpecValue::Integer64(*value),
            Value::UnsignedInteger8(value) => SpecValue::UnsignedInteger8(*value),
            Value::UnsignedInteger16(value) => SpecValue::UnsignedInteger16(*value),
            Value::UnsignedInteger32(value) => SpecValue::UnsignedInteger32(*value),
            Value::UnsignedInteger64(value) => SpecValue::UnsignedInteger64(*value),
            Value::Float(bits) => SpecValue::Float(*bits),
            Value::Double(bits) => SpecValue::Double(*bits),
            Value::Char(value) => SpecValue::Char(*value),
            Value::String(value) => SpecValue::String(value@),
            Value::Bytes(value) => SpecValue::Bytes(value@),
            Value::Optional(None) => SpecValue::Optional(None),
            Value::Optional(Some(value)) => SpecValue::Optional(Some(Box::new(value.model()))),
            Value::Unit => SpecValue::Unit,
            Value::UnitStruct { name } => SpecValue::UnitStruct { name: name@ },
            Value::UnitVariant { name, variant_index, variant } => SpecValue::UnitVariant {
                name: name@,
                variant_index: *variant_index,
                variant: variant@,
            },
            Value::NewtypeStruct { name, value } => SpecValue::NewtypeStruct {
                name: name@,
                value: Box::new(value.model()),
            },
            Value::NewtypeVariant { name, variant_index, variant, value } =>
                SpecValue::NewtypeVariant {
                    name: name@,
                    variant_index: *variant_index,
                    variant: variant@,
                    value: Box::new(value.model()),
                },
            Value::Sequence(items) => SpecValue::Sequence(models(items@)),
            Value::Tuple(items) => SpecValue::Tuple(models(items@)),
            Value::TupleStruct { name, fields } => SpecValue::TupleStruct {
                name: name@,
                fields: models(fields@),
            },
            Value::TupleVariant { name, variant_index, variant, fields } =>
                SpecValue::TupleVariant {
                    name: name@,
                    variant_index: *variant_index,
                    variant: variant@,
                    fields: models(fields@),
                },
            Value::Dictionary => SpecValue::Dictionary,
            Value::Struct { name, fields } => SpecValue::Struct {
                name: name@,
                fields: field_models(fields@),
            },
            Value::StructVariant { name, variant_index, variant, fields } =>
                SpecValue::StructVariant {
                    name: name@,
                    variant_index: *variant_index,
                    variant: variant@,
                    fields: field_models(fields@),
                },
        }
    }
}

impl View for Value {
    type V = SpecValue;

    open spec fn view(&self) -> SpecValue {
        self.model()
    }
}

/// The models of a list are as many as the list's items, each the model of
/// the item in its place.
pub proof fn lemma_models(values: Seq<Value>)
    ensures
        models(values).len() == values.len(),
        forall|i: int| 0 <= i < values.len() ==> #[trigger] models(values)[i] == values[i]@,
    decreases values.len(),
{
    if values.len() > 0 {
        lemma_models(values.drop_last());
    }
}

/// The models of a list of fields are as many as the fields, each the model
/// of the field in its place.
pub proof fn lemma_field_models(fields: Seq<Field>)
    ensures
        field_models(fields).len() == fields.len(),
        forall|i: int| 0 <= i < fields.len() ==> #[trigger] field_models(fields)[i] == fields[i]@,
    decreases fields.len(),
{
    if fields.len() > 0 {
        lemma_field_models(fields.drop_last());
    }
}

} // verus!
