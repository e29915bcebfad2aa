//! The builtin scalar types.

use crate::text::{concat, str_eq};
use vstd::prelude::*;
use vstd::string::*;

verus! {

/// The builtin scalar types of the schema language.
#[derive(Debug, PartialEq, Eq, Structural, Clone, Copy, Hash)]
pub enum ScalarType {
    Int,
    Float,
    Boolean,
    String,
    DateTime,
    Json,
    XML,
    Bytes,
    Decimal,
    Duration,
}

impl ScalarType {
    /// The name of the type in the schema language.
    pub open spec fn text(self) -> Seq<char> {
        match self {
            ScalarType::Int => "Int"@,
            ScalarType::Float => "Float"@,
            ScalarType::Boolean => "Boolean"@,
            ScalarType::String => "String"@,
            ScalarType::DateTime => "DateTime"@,
            ScalarType::Json => "Json"@,
            ScalarType::XML => "XML"@,
            ScalarType::Bytes => "Bytes"@,
            ScalarType::Decimal => "Decimal"@,
            ScalarType::Duration => "Duration"@,
        }
    }

    /// The type that the name stands for, if it names one.
    pub open spec fn of_text(s: Seq<char>) -> Option<ScalarType> {
        if s == "Int"@ {
            Some(ScalarType::Int)
        } else if s == "Float"@ {
            Some(ScalarType::Float)
        } else if s == "Boolean"@ {
            Some(ScalarType::Boolean)
        } else if s == "String"@ {
            Some(ScalarType::String)
        } else if s == "DateTime"@ {
            Some(ScalarType::DateTime)
        } else if s == "Json"@ {
            Some(ScalarType::Json)
        } else if s == "XML"@ {
            Some(ScalarType::XML)
        } else if s == "Bytes"@ {
            Some(ScalarType::Bytes)
        } else if s == "Decimal"@ {
            Some(ScalarType::Decimal)
        } else if s == "Duration"@ {
            Some(ScalarType::Duration)
        } else {
            None
        }
    }

    /// The type that `s` names, or a message that says that it names none.
    pub fn from_str(s: &str) -> (r: Result<ScalarType, String>)
        ensures
            match r {
                Ok(t) => ScalarType::of_text(s@) == Some(t),
                Err(msg) => ScalarType::of_text(s@) is None && msg@ == "type "@ + s@
                    + " is not a known scalar type."@,
            },
    {
        if str_eq(s, "Int") {
            Ok(ScalarType::Int)
        } else if str_eq(s, "Float") {
            Ok(ScalarType::Float)
        } else if str_eq(s, "Boolean") {
            Ok(ScalarType::Boolean)
        } else if str_eq(s, "String") {
            Ok(ScalarType::String)
        } else if str_eq(s, "DateTime") {
            Ok(ScalarType::DateTime)
        } else if str_eq(s, "Json") {
            Ok(ScalarType::Json)
        } else if str_eq(s, "XML") {
            Ok(ScalarType::XML)
        } else if str_eq(s, "Bytes") {
            Ok(ScalarType::Bytes)
        } else if str_eq(s, "Decimal") {
            Ok(ScalarType::Decimal)
        } else if str_eq(s, "Duration") {
            Ok(ScalarType::Duration)
        } else {
            let mut msg: String = concat("type ", s);
            msg.append(" is not a known scalar type.");
            Err(msg)
        }
    }

    /// The name of the type in the schema language.
    pub fn to_string(&self) -> (r: String)
        ensures
            r@ == self.text(),
    {
        match self {
            ScalarType::Int => "Int".to_owned(),
            ScalarType::Float => "Float".to_owned(),
            ScalarType::Boolean => "Boolean".to_owned(),
            ScalarType::String => "String".to_owned(),
            ScalarType::DateTime => "DateTime".to_owned(),
            ScalarType::Json => "Json".to_owned(),
            ScalarType::XML => "XML".to_owned(),
            ScalarType::Bytes => "Bytes".to_owned(),
            ScalarType::Decimal => "Decimal".to_owned(),
            ScalarType::Duration => "Duration".to_owned(),
        }
    }
}

/// Reading a type's name back gives the type.
pub proof fn lemma_scalar_type_round_trip(t: ScalarType)
    ensures
        ScalarType::of_text(t.text()) == Some(t),
{
    reveal_strlit("Int");
    reveal_strlit("Float");
    reveal_strlit("Boolean");
    reveal_strlit("String");
    reveal_strlit("DateTime");
    reveal_strlit("Json");
    reveal_strlit("XML");
    reveal_strlit("Bytes");
    reveal_strlit("Decimal");
    reveal_strlit("Duration");
    match t {
        ScalarType::Int => {},
        ScalarType::Float => {
            assert("Float"@.len() != "Int"@.len());
        },
        ScalarType::Boolean => {
            assert("Boolean"@[0] != "Int"@[0]);
            assert("Boolean"@[0] != "Float"@[0]);
        },
        ScalarType::String => {
            assert("String"@[0] != "Int"@[0]);
            assert("String"@[0] != "Float"@[0]);
            assert("String"@[0] != "Boolean"@[0]);
        },
        ScalarType::DateTime => {
            assert("DateTime"@[0] != "Int"@[0]);
            assert("DateTime"@[0] != "Float"@[0]);
            assert("DateTime"@[0] != "Boolean"@[0]);
            assert("DateTime"@[0] != "String"@[0]);
        },
        ScalarType::Json => {
            assert("Json"@[0] != "Int"@[0]);
            assert("Json"@[0] != "Float"@[0]);
            assert("Json"@[0] != "Boolean"@[0]);
            assert("Json"@[0] != "String"@[0]);
            assert("Json"@[0] != "DateTime"@[0]);
        },
        ScalarType::XML => {
            assert("XML"@[0] != "Int"@[0]);
            assert("XML"@[0] != "Float"@[0]);
            assert("XML"@[0] != "Boolean"@[0]);
            assert("XML"@[0] != "String"@[0]);
            assert("XML"@[0] != "DateTime"@[0]);
            assert("XML"@[0] != "Json"@[0]);
        },
        ScalarType::Bytes => {
            assert("Bytes"@[0] != "Int"@[0]);
            assert("Bytes"@[0] != "Float"@[0]);
            assert("Bytes"@[1] != "Boolean"@[1]);
            assert("Bytes"@[0] != "String"@[0]);
            assert("Bytes"@[0] != "DateTime"@[0]);
            assert("Bytes"@[0] != "Json"@[0]);
            assert("Bytes"@[0] != "XML"@[0]);
        },
        ScalarType::Decimal => {
            assert("Decimal"@[0] != "Int"@[0]);
            assert("Decimal"@[0] != "Float"@[0]);
            assert("Decimal"@[0] != "Boolean"@[0]);
            assert("Decimal"@[0] != "String"@[0]);
            assert("Decimal"@[1] != "DateTime"@[1]);
            assert("Decimal"@[0] != "Json"@[0]);
            assert("Decimal"@[0] != "XML"@[0]);
            assert("Decimal"@[0] != "Bytes"@[0]);
        },
        ScalarType::Duration => {
            assert("Duration"@[0] != "Int"@[0]);
            assert("Duration"@[0] != "Float"@[0]);
            assert("Duration"@[0] != "Boolean"@[0]);
            assert("Duration"@[0] != "String"@[0]);
            assert("Duration"@[1] != "DateTime"@[1]);
            assert("Duration"@[0] != "Json"@[0]);
            assert("Duration"@[0] != "XML"@[0]);
            assert("Duration"@[0] != "Bytes"@[0]);
            assert("Duration"@[1] != "Decimal"@[1]);
        },
    }
}

} // verus!
