use crate::ident::Ident;
use crate::t_expr::{AttrVal, Attribute, Expression, Predicate};
use vstd::prelude::*;

verus! {

/// Strings are the simplest expressions: they render as their own characters.
impl Expression for String {
    open spec fn text_spec(&self) -> Seq<char> {
        self@
    }

    fn to_text(&self) -> String {
        self.clone()
    }
}

/// The simplest vocabulary tags nodes with a bare identifier, which renders
/// as its own text, and attaches [`PlainAttr`] attributes.
impl Predicate for Ident {
    type Attr = PlainAttr;

    open spec fn text_spec(&self) -> Seq<char> {
        self@
    }

    fn to_text(&self) -> String {
        Ident::to_text(self)
    }
}

/// A minimal attribute: an optional name and a value over string expressions.
#[derive(Clone, PartialEq, Eq)]
pub struct PlainAttr {
    /// The attribute's name, when it is named.
    pub name: Option<Ident>,
    /// The attribute's value.
    pub value: AttrVal<String>,
}

impl Attribute for PlainAttr {
    type Expression = String;

    open spec fn name_spec(&self) -> Option<Ident> {
        self.name
    }

    open spec fn value_spec(&self) -> AttrVal<String> {
        self.value
    }

    fn name(&self) -> (r: Option<Ident>) {
        match &self.name {
            Option::Some(i) => Option::Some(i.clone()),
            Option::None => Option::None,
        }
    }

    fn value(&self) -> (r: AttrVal<String>) {
        match &self.value {
            AttrVal::Ident(i) => AttrVal::Ident(i.clone()),
            AttrVal::Expr(s) => AttrVal::Expr(s.clone()),
        }
    }
}

} // verus!
