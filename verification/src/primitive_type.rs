//! The seven primitive types that a JSON value can have.

use vstd::prelude::*;
use vstd::string::StringExecFns;
use crate::json::{Json, JsonView, Number};
use crate::text::is_word;

verus! {

/// A primitive type as the `type` keyword names it.
#[derive(Clone, Copy, Debug, PartialEq, Eq, Structural)]
pub enum PrimitiveType {
    Array,
    Boolean,
    Integer,
    Null,
    Number,
    Object,
    String,
}

impl PrimitiveType {
    /// The name of the type in a schema.
    pub open spec fn name(self) -> Seq<char> {
        match self {
            PrimitiveType::Array => "array"@,
            PrimitiveType::Boolean => "boolean"@,
            PrimitiveType::Integer => "integer"@,
            PrimitiveType::Null => "null"@,
            PrimitiveType::Number => "number"@,
            PrimitiveType::Object => "object"@,
            PrimitiveType::String => "string"@,
        }
    }

    /// The type that `name` stands for, if it is the name of one.
    pub open spec fn named(name: Seq<char>) -> Option<PrimitiveType> {
        if name == "array"@ {
            Some(PrimitiveType::Array)
        } else if name == "boolean"@ {
            Some(PrimitiveType::Boolean)
        } else if name == "integer"@ {
            Some(PrimitiveType::Integer)
        } else if name == "null"@ {
            Some(PrimitiveType::Null)
        } else if name == "number"@ {
            Some(PrimitiveType::Number)
        } else if name == "object"@ {
            Some(PrimitiveType::Object)
        } else if name == "string"@ {
            Some(PrimitiveType::String)
        } else {
            None
        }
    }

    /// Whether `instance` has this type. A number counts as an integer only
    /// when it is written as one.
    pub open spec fn holds(self, instance: JsonView) -> bool {
        match self {
            PrimitiveType::Array => instance is Array,
            PrimitiveType::Boolean => instance is Bool,
            PrimitiveType::Integer => instance matches JsonView::Number(n) && n is Integer,
            PrimitiveType::Null => instance is Null,
            PrimitiveType::Number => instance is Number,
            PrimitiveType::Object => instance is Object,
            PrimitiveType::String => instance is String,
        }
    }

    /// Reads the name of a type.
    pub fn from_name(name: &String) -> (kind: Option<PrimitiveType>)
        ensures
            kind == PrimitiveType::named(name@),
    {
        if is_word(name, "array") {
            Some(PrimitiveType::Array)
        } else if is_word(name, "boolean") {
            Some(PrimitiveType::Boolean)
        } else if is_word(name, "integer") {
            Some(PrimitiveType::Integer)
        } else if is_word(name, "null") {
            Some(PrimitiveType::Null)
        } else if is_word(name, "number") {
            Some(PrimitiveType::Number)
        } else if is_word(name, "object") {
            Some(PrimitiveType::Object)
        } else if is_word(name, "string") {
            Some(PrimitiveType::String)
        } else {
            None
        }
    }

    /// The name of the type, as a schema writes it.
    pub fn to_string(&self) -> (name: String)
        ensures
            name@ == self.name(),
    {
        match self {
            PrimitiveType::Array => String::from_str("array"),
            PrimitiveType::Boolean => String::from_str("boolean"),
            PrimitiveType::Integer => String::from_str("integer"),
            PrimitiveType::Null => String::from_str("null"),
            PrimitiveType::Number => String::from_str("number"),
            PrimitiveType::Object => String::from_str("object"),
            PrimitiveType::String => String::from_str("string"),
        }
    }

    /// Whether `instance` has this type.
    pub fn matches(&self, instance: &Json) -> (held: bool)
        ensures
            held == self.holds(instance@),
    {
        match self {
            PrimitiveType::Array => matches!(instance, Json::Array(_)),
            PrimitiveType::Boolean => matches!(instance, Json::Bool(_)),
            PrimitiveType::Integer => matches!(instance, Json::Number(Number::Integer(_))),
            PrimitiveType::Null => matches!(instance, Json::Null),
            PrimitiveType::Number => matches!(instance, Json::Number(_)),
            PrimitiveType::Object => matches!(instance, Json::Object(_)),
            PrimitiveType::String => matches!(instance, Json::String(_)),
        }
    }
}

} // verus!
