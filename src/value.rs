//! JSON values: leaves (null, numbers, strings, booleans) and containers
//! (objects, arrays).

use crate::document::{data_entries, JsonData};
use crate::number::{literal_for_bits, literal_of, NumberLiteral};
use vstd::prelude::*;

verus! {

/// What `serde_json` reads from a text as a JSON number, given as the bit pattern
/// of the nearest `f64`; `None` where the text is not a JSON number.
pub uninterp spec fn parsed_number_bits(text: Seq<char>) -> Option<u64>;

/// Relies on `serde_json::from_str::<serde_json::Number>` (the JSON number grammar,
/// surrounding whitespace allowed; with serde_json's `float_roundtrip` feature the
/// reading is the correctly rounded `f64`) and on `Number::as_f64`, taken as a bit
/// pattern. The result depends on the text alone.
///
/// Number buffers are read by the JSON grammar on purpose, not by Rust's `f64`
/// parser: texts such as `1.`, `+1`, `.5`, `inf` or `NaN`, which that parser takes,
/// are not JSON numbers and are refused. (Floating-point code has no place in this
/// library, so the reading goes through serde_json.)
#[verifier::external_body]
pub(crate) fn number_bits_from_text(text: &str) -> (r: Option<u64>)
    ensures
        r == parsed_number_bits(text@),
{
    match serde_json::from_str::<serde_json::Number>(text) {
        Ok(n) => n.as_f64().map(|x| x.to_bits()),
        Err(_) => None,
    }
}

/// A number: the bit pattern of an IEEE-754 binary64 value, with the text it is
/// shown as while it is edited.
pub struct JsonNumber {
    pub bits: u64,
    pub text: String,
}

impl Clone for JsonNumber {
    fn clone(&self) -> (r: Self)
        ensures
            r == *self,
    {
        JsonNumber { bits: self.bits, text: self.text.clone() }
    }
}

impl JsonNumber {
    /// Reads a number from text in the JSON number grammar; the text is kept as
    /// the number's shown form.
    pub fn parse(text: &str) -> (r: Option<JsonNumber>)
        ensures
            match parsed_number_bits(text@) {
                Some(b) => r == Some(JsonNumber { bits: b, text: r->0.text }) && r->0.text@
                    == text@,
                None => r is None,
            },
    {
        match number_bits_from_text(text) {
            Some(bits) => Some(JsonNumber { bits, text: text.to_string() }),
            None => None,
        }
    }

    /// The literal that this number is written as.
    pub fn literal(&self) -> (r: NumberLiteral)
        ensures
            r == literal_of(self.bits),
    {
        literal_for_bits(self.bits)
    }
}

/// The types a value can be given in the editor, in the order they are offered.
#[derive(Clone, Copy, Debug, PartialEq, Eq, Structural)]
pub enum JsonValueType {
    Number,
    String,
    Boolean,
    Null,
    Object,
    Array,
}

/// The mathematical value of a JSON node: what a value holds, with documents
/// as sequences of key and value.
pub ghost enum JsonModel {
    Number(u64, Seq<char>),
    String(Seq<char>),
    Boolean(bool),
    Null,
    Object(Seq<(Seq<char>, JsonModel)>),
    Array(Seq<JsonModel>),
}

/// One JSON node.
pub enum JsonValue {
    Number(JsonNumber),
    String(String),
    Boolean(bool),
    Null,
    Object(JsonData),
    Array(Vec<JsonValue>),
}

/// The mathematical value of a node.
pub open spec fn model(v: JsonValue) -> JsonModel
    decreases v,
{
    match v {
        JsonValue::Number(n) => JsonModel::Number(n.bits, n.text@),
        JsonValue::String(s) => JsonModel::String(s@),
        JsonValue::Boolean(b) => JsonModel::Boolean(b),
        JsonValue::Null => JsonModel::Null,
        JsonValue::Object(d) => JsonModel::Object(data_entries(d)),
        JsonValue::Array(items) => JsonModel::Array(
            Seq::new(
                items@.len(),
                |i: int|
                    {
                        if 0 <= i < items@.len() {
                            model(items@[i])
                        } else {
                            JsonModel::Null
                        }
                    },
            ),
        ),
    }
}

impl View for JsonValue {
    type V = JsonModel;

    open spec fn view(&self) -> JsonModel {
        model(*self)
    }
}

impl Clone for JsonValue {
    fn clone(&self) -> (r: Self)
        ensures
            r@ == self@,
        decreases self,
    {
        match self {
            JsonValue::Number(n) => JsonValue::Number(JsonNumber::clone(n)),
            JsonValue::String(s) => JsonValue::String(s.clone()),
            JsonValue::Boolean(b) => JsonValue::Boolean(*b),
            JsonValue::Null => JsonValue::Null,
            JsonValue::Object(d) => JsonValue::Object(d.clone()),
            JsonValue::Array(items) => {
                let mut out: Vec<JsonValue> = Vec::new();
                let mut i: usize = 0;
                while i < items.len()
                    invariant
                        *self == JsonValue::Array(*items),
                        i <= items@.len(),
                        out@.len() == i,
                        forall|j: int| 0 <= j < i ==> (#[trigger] out@[j])@ == items@[j]@,
                    decreases items@.len() - i,
                {
                    proof {
                        vstd::std_specs::vec::axiom_vec_index_decreases(*items, i as int);
                        assert(decreases_to!(*self => self->Array_0));
                    }
                    out.push(JsonValue::clone(&items[i]));
                    i = i + 1;
                }
                let r = JsonValue::Array(out);
                assert(model(r) == model(*self)) by {
                    if let JsonModel::Array(a) = model(r) {
                        if let JsonModel::Array(b) = model(*self) {
                            assert(a =~= b);
                        }
                    }
                }
                r
            },
        }
    }
}

/// The type of a value.
pub open spec fn type_of(v: JsonValue) -> JsonValueType {
    match v {
        JsonValue::Number(_) => JsonValueType::Number,
        JsonValue::String(_) => JsonValueType::String,
        JsonValue::Boolean(_) => JsonValueType::Boolean,
        JsonValue::Null => JsonValueType::Null,
        JsonValue::Object(_) => JsonValueType::Object,
        JsonValue::Array(_) => JsonValueType::Array,
    }
}

/// An object or an array.
pub open spec fn is_container(v: JsonValue) -> bool {
    v is Object || v is Array
}

impl JsonValue {
    /// The type of this value.
    pub fn value_type(&self) -> (r: JsonValueType)
        ensures
            r == type_of(*self),
    {
        match self {
            JsonValue::Number(_) => JsonValueType::Number,
            JsonValue::String(_) => JsonValueType::String,
            JsonValue::Boolean(_) => JsonValueType::Boolean,
            JsonValue::Null => JsonValueType::Null,
            JsonValue::Object(_) => JsonValueType::Object,
            JsonValue::Array(_) => JsonValueType::Array,
        }
    }

    /// Whether this value is an object or an array.
    pub fn is_container(&self) -> (r: bool)
        ensures
            r == is_container(*self),
    {
        match self {
            JsonValue::Object(_) | JsonValue::Array(_) => true,
            _ => false,
        }
    }
}

} // verus!

verus! {

/// A copy of a sequence of elements.
pub fn clone_elements(items: &Vec<JsonValue>) -> (r: Vec<JsonValue>)
    ensures
        model(JsonValue::Array(r)) == model(JsonValue::Array(*items)),
{
    let mut out: Vec<JsonValue> = Vec::new();
    let mut i: usize = 0;
    while i < items.len()
        invariant
            i <= items@.len(),
            out@.len() == i,
            forall|j: int| 0 <= j < i ==> (#[trigger] out@[j])@ == items@[j]@,
        decreases items@.len() - i,
    {
        out.push(items[i].clone());
        i = i + 1;
    }
    assert(model(JsonValue::Array(out))->Array_0 =~= model(JsonValue::Array(*items))->Array_0);
    out
}

} // verus!
