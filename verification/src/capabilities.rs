//! What a database connector is able to do.

use crate::text::{concat, str_eq};
use vstd::prelude::*;
use vstd::string::*;

verus! {

/// Something that a connector may be able to do.
#[derive(Debug, PartialEq, Eq, Structural, Clone, Copy)]
pub enum Capabilities {
    ScalarLists,
    Enums,
    Json,
}

/// The name was not that of a capability.
#[derive(Debug, PartialEq)]
pub struct UnknownCapabilityError(pub String);

impl Capabilities {
    /// The name of the capability.
    pub open spec fn name_of(self) -> Seq<char> {
        match self {
            Capabilities::Enums => "enums"@,
            Capabilities::Json => "json"@,
            Capabilities::ScalarLists => "scalar_lists"@,
        }
    }

    /// The capability of the given name, if there is one.
    pub open spec fn named(s: Seq<char>) -> Option<Capabilities> {
        if s == "enums"@ {
            Some(Capabilities::Enums)
        } else if s == "json"@ {
            Some(Capabilities::Json)
        } else if s == "scalar_lists"@ {
            Some(Capabilities::ScalarLists)
        } else {
            None
        }
    }

    /// The bit that stands for the capability in a set of capabilities.
    pub fn bits(self) -> (r: u8)
        ensures
            r == match self {
                Capabilities::ScalarLists => 1u8,
                Capabilities::Enums => 2u8,
                Capabilities::Json => 4u8,
            },
    {
        match self {
            Capabilities::ScalarLists => 1,
            Capabilities::Enums => 2,
            Capabilities::Json => 4,
        }
    }

    /// The capability of the given name, or the name where it names none.
    pub fn from_str(s: &str) -> (r: Result<Capabilities, UnknownCapabilityError>)
        ensures
            match r {
                Ok(c) => Capabilities::named(s@) == Some(c),
                Err(e) => Capabilities::named(s@) is None && e.0@ == s@,
            },
    {
        if str_eq(s, "enums") {
            Ok(Capabilities::Enums)
        } else if str_eq(s, "json") {
            Ok(Capabilities::Json)
        } else if str_eq(s, "scalar_lists") {
            Ok(Capabilities::ScalarLists)
        } else {
            Err(UnknownCapabilityError(s.to_owned()))
        }
    }
}

/// Reading the name of a capability gives the capability.
pub proof fn lemma_capability_round_trip(c: Capabilities)
    ensures
        Capabilities::named(c.name_of()) == Some(c),
{
    reveal_strlit("enums");
    reveal_strlit("json");
    reveal_strlit("scalar_lists");
    assert("json"@.len() != "enums"@.len());
    assert("scalar_lists"@.len() != "enums"@.len());
    assert("scalar_lists"@.len() != "json"@.len());
}

impl UnknownCapabilityError {
    /// What the error says: the name, and the names that there are.
    pub fn message(&self) -> (r: String)
        ensures
            r@ == "Unknown capability `"@ + self.0@
                + "`. Available capabilities: [\"enums\", \"json\", \"scalar_lists\"]"@,
    {
        let mut s: String = concat("Unknown capability `", self.0.as_str());
        s.append("`. Available capabilities: [\"enums\", \"json\", \"scalar_lists\"]");
        s
    }
}

/// How the log is written.
#[derive(Debug, PartialEq, Eq, Structural, Clone, Copy)]
pub enum LogFormat {
    Text,
    Json,
}

} // verus!
