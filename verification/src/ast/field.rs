//! What a field lets one read.

use crate::ast::{Attribute, Comment, Field, Identifier, Span};
use vstd::prelude::*;

verus! {

impl Field {
    /// The name of the field.
    pub fn identifier(&self) -> (r: &Identifier)
        ensures
            *r == self.name,
    {
        &self.name
    }

    /// The place where the field was written.
    pub fn span(&self) -> (r: &Span)
        ensures
            *r == self.span,
    {
        &self.span
    }

    /// The attributes of the field.
    pub fn attributes(&self) -> (r: &Vec<Attribute>)
        ensures
            *r == self.attributes,
    {
        &self.attributes
    }

    /// The comment that documents the field.
    pub fn documentation(&self) -> (r: &Option<Comment>)
        ensures
            *r == self.documentation,
    {
        &self.documentation
    }

    /// Whether the field was commented out.
    pub fn is_commented_out(&self) -> (r: bool)
        ensures
            r == self.is_commented_out,
    {
        self.is_commented_out
    }
}

} // verus!
