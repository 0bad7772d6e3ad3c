//! Wire-safe primitives.
//!
//! A generic query transport can carry only a restricted primitive set. This
//! module holds the value types of that set as the core uses them: 32-bit
//! integers, booleans and strings. The transport's floating-point primitive
//! is never needed by this catalog — every numeric quantity the device
//! reports is 8 or 16 bits wide and widens into the 32-bit integer primitive
//! without loss — so the adapter around the core owns any float formatting.

use vstd::prelude::*;

verus! {

/// One wire primitive value.
#[derive(Debug, Clone, PartialEq, Eq)]
pub enum WireValue {
    /// 32-bit signed integer primitive.
    Int(i32),
    /// Boolean primitive.
    Bool(bool),
    /// String primitive.
    Text(String),
}

/// One named primitive field of a flattened wire projection.
#[derive(Debug, Clone, PartialEq, Eq)]
pub struct WireField {
    /// Field name: a fixed record prefix concatenated with the domain field name.
    pub name: String,
    /// The widened primitive value.
    pub value: WireValue,
}

/// A wire-safe result value returned to the transport.
#[derive(Debug, Clone, PartialEq, Eq)]
pub enum WireOutput {
    /// The operation returns nothing.
    Unit,
    /// A single integer primitive (e.g. an enumeration ordinal).
    Int(i32),
    /// A single boolean primitive.
    Bool(bool),
    /// A flattened composite record, one primitive field per leaf quantity.
    Fields(Vec<WireField>),
    /// A raw byte sequence, one integer primitive per byte.
    Ints(Vec<i32>),
}

/// The mathematical value carried by an integer wire primitive.
pub open spec fn wire_value_as_int(v: WireValue) -> int
    recommends
        v is Int,
{
    match v {
        WireValue::Int(i) => i as int,
        _ => 0,
    }
}

/// Spec-level image of a flattened wire field: a name and its value.
pub struct WireFieldModel {
    /// The field name as a character sequence.
    pub name: Seq<char>,
    /// The primitive value.
    pub value: WireValue,
}

impl WireField {
    /// The spec-level image of this field.
    pub open spec fn model(self) -> WireFieldModel {
        WireFieldModel { name: self.name@, value: self.value }
    }
}

/// The spec-level image of a flattened projection.
pub open spec fn fields_model(v: Seq<WireField>) -> Seq<WireFieldModel> {
    v.map_values(|f: WireField| f.model())
}

} // verus!
