//! Vesper: a minimal, human-readable structural notation for nested,
//! attributed tree data.
//!
//! The crate holds the generic tree node type ([`TExpr`]) together with its
//! canonical text renderer ([`TExprDisplay`]), plus the capability traits
//! ([`Predicate`], [`Attribute`], [`Expression`]) through which concrete
//! vocabularies plug into the same tree and renderer.

mod errors;
mod ident;
mod laws;
mod plain;
mod t_expr;

pub use errors::VesperError;
pub use ident::{ident_start_char, ident_tail_char, is_valid_ident, Ident};
pub use laws::{
    count_char, lemma_attributes_in_order, lemma_attributes_local,
    lemma_child_rendered_one_deeper, lemma_children_in_order, lemma_comment_placement,
    lemma_leaf_rendering, lemma_render_deterministic, lemma_render_starts_with_indent,
    lemma_wrap_threshold,
};
pub use plain::PlainAttr;
pub use t_expr::{
    attr_sep, attr_text, attrs_text, children_text, line_spec, render_spec, tab_repeat, AttrVal,
    Attribute, Expression, Predicate, TExpr, TExprDisplay, MAX_ATTRS, MAX_CHILDREN, MAX_LINE_VARS,
};
