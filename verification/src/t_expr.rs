use crate::errors::VesperError;
use crate::ident::Ident;
use vstd::prelude::*;

verus! {

/// Maximum number of attributes one node may carry.
pub const MAX_ATTRS: usize = 0xffff;

/// Maximum number of children one node may carry.
pub const MAX_CHILDREN: usize = 0xff;

/// Number of attributes placed on a line before the attribute list wraps onto
/// a continuation line.
pub const MAX_LINE_VARS: usize = 8;

/// A node tag: classifies the role of a node within a vocabulary, and names
/// the attribute type that the vocabulary attaches to nodes.
pub trait Predicate: Sized + Clone + Eq {
    /// The attribute type used by nodes tagged with this predicate type.
    type Attr: Attribute;

    /// The text that the renderer prints for this predicate.
    spec fn text_spec(&self) -> Seq<char>;

    /// Prints the predicate.
    fn to_text(&self) -> (r: String)
        ensures
            r@ == self.text_spec(),
    ;
}

/// An arbitrary displayable expression value carried by an attribute.
pub trait Expression: Sized + Clone + Eq {
    /// The text that the renderer prints for this expression.
    spec fn text_spec(&self) -> Seq<char>;

    /// Prints the expression.
    fn to_text(&self) -> (r: String)
        ensures
            r@ == self.text_spec(),
    ;
}

/// The value of an attribute: either a bare identifier or a nested
/// expression.
#[derive(Clone, PartialEq, Eq)]
pub enum AttrVal<E: Expression> {
    /// A bare identifier value.
    Ident(Ident),
    /// A nested expression value.
    Expr(E),
}

impl<E: Expression> AttrVal<E> {
    /// The text that the renderer prints for this value.
    pub open spec fn text_spec(self) -> Seq<char> {
        match self {
            AttrVal::Ident(i) => i@,
            AttrVal::Expr(e) => e.text_spec(),
        }
    }

    /// Prints the value.
    pub fn to_text(&self) -> (r: String)
        ensures
            r@ == self.text_spec(),
    {
        match self {
            AttrVal::Ident(i) => i.to_text(),
            AttrVal::Expr(e) => e.to_text(),
        }
    }
}

/// One attribute attached to a node: an optionally named, displayable value.
pub trait Attribute: Sized + Clone + Eq {
    /// The expression type used for attribute values.
    type Expression: Expression;

    /// The attribute's optional name.
    spec fn name_spec(&self) -> Option<Ident>;

    /// The attribute's value.
    spec fn value_spec(&self) -> AttrVal<Self::Expression>;

    /// Returns the attribute's name, if it has one.
    fn name(&self) -> (r: Option<Ident>)
        ensures
            r == self.name_spec(),
    ;

    /// Returns the attribute's value.
    fn value(&self) -> (r: AttrVal<Self::Expression>)
        ensures
            r.text_spec() == self.value_spec().text_spec(),
    ;

    /// Whether the attribute carries a name.
    fn is_named(&self) -> (r: bool)
        ensures
            r == (self.name_spec() is Some),
    {
        self.name().is_some()
    }
}

/// One node of the tree: a subject identifier, a predicate tag, an ordered
/// attribute list, ordered exclusively-owned children, and an optional
/// trailing comment.
pub struct TExpr<P: Predicate> {
    /// The node's name.
    pub subject: Ident,
    /// The node's kind within the vocabulary.
    pub predicate: P,
    /// Ordered attributes, at most [`MAX_ATTRS`]; order is significant and
    /// duplicates are permitted.
    pub attributes: Vec<P::Attr>,
    /// Ordered children, at most [`MAX_CHILDREN`]; each child is owned by
    /// exactly this node.
    pub content: Vec<TExpr<P>>,
    /// Optional free-text annotation, rendered but never interpreted.
    pub comment: Option<String>,
}

/// The indentation unit `tab` repeated `n` times.
pub open spec fn tab_repeat(tab: Seq<char>, n: nat) -> Seq<char>
    decreases n,
{
    if n == 0 {
        Seq::empty()
    } else {
        tab_repeat(tab, (n - 1) as nat) + tab
    }
}

/// The text of one attribute: its name and a space when the attribute is
/// named, then its value.
pub open spec fn attr_text<A: Attribute>(a: A) -> Seq<char> {
    match a.name_spec() {
        Option::Some(n) => n@ + seq![' '] + a.value_spec().text_spec(),
        Option::None => a.value_spec().text_spec(),
    }
}

/// The separator placed before attribute number `j` (counting from zero, so
/// `j >= 1`): a comma, then either a line break with one extra indentation
/// unit — after every [`MAX_LINE_VARS`] attributes — or a single space.
pub open spec fn attr_sep(j: int, depth: nat, tab: Seq<char>) -> Seq<char> {
    seq![','] + if j % (MAX_LINE_VARS as int) == 0 {
        seq!['\n'] + tab_repeat(tab, depth + 1)
    } else {
        seq![' ']
    }
}

/// The text of the first `n` attributes of `attrs`, separators included: the
/// attributes appear in sequence order, a separator stands between
/// consecutive attributes and never after the last.
pub open spec fn attrs_text<A: Attribute>(attrs: Seq<A>, n: int, depth: nat, tab: Seq<char>) -> Seq<
    char,
>
    decreases n,
{
    if n <= 0 {
        Seq::empty()
    } else if n == 1 {
        attr_text(attrs[0])
    } else {
        attrs_text(attrs, n - 1, depth, tab) + attr_sep(n - 1, depth, tab) + attr_text(attrs[n - 1])
    }
}

/// The node's own line: indentation, predicate, a space, subject, then — only
/// when attributes are present — `: ` and the attribute block, then — only
/// when a comment is present — ` -- ` and the comment verbatim, then the line
/// terminator.
pub open spec fn line_spec<P: Predicate>(e: TExpr<P>, depth: nat, tab: Seq<char>) -> Seq<char> {
    tab_repeat(tab, depth) + e.predicate.text_spec() + seq![' '] + e.subject@ + (if e.attributes@.len()
        > 0 {
        seq![':', ' '] + attrs_text(e.attributes@, e.attributes@.len() as int, depth, tab)
    } else {
        Seq::empty()
    }) + (match e.comment {
        Option::Some(c) => seq![' ', '-', '-', ' '] + c@,
        Option::None => Seq::empty(),
    }) + seq!['\n']
}

/// The full canonical text of a node rendered at `depth`: its own line,
/// followed by every child in sequence order rendered one level deeper.
pub open spec fn render_spec<P: Predicate>(e: TExpr<P>, depth: nat, tab: Seq<char>) -> Seq<char>
    decreases e,
{
    line_spec(e, depth, tab) + children_text(e.content@, depth + 1, tab)
}

/// The concatenation, in sequence order, of the full text of each node of
/// `cs` rendered at `depth`.
pub open spec fn children_text<P: Predicate>(cs: Seq<TExpr<P>>, depth: nat, tab: Seq<char>) -> Seq<
    char,
>
    decreases cs,
{
    if cs.len() == 0 {
        Seq::empty()
    } else {
        children_text(cs.drop_last(), depth, tab) + render_spec(cs.last(), depth, tab)
    }
}

impl<P: Predicate> TExpr<P> {
    /// Builds a node from its parts, rejecting attribute or child sequences
    /// longer than the confined ceilings.
    pub fn new(
        subject: Ident,
        predicate: P,
        attributes: Vec<P::Attr>,
        content: Vec<TExpr<P>>,
        comment: Option<String>,
    ) -> (r: Result<TExpr<P>, VesperError>)
        ensures
            r is Ok <==> (attributes@.len() <= MAX_ATTRS && content@.len() <= MAX_CHILDREN),
            r is Ok ==> r->Ok_0 == (TExpr {
                subject,
                predicate,
                attributes,
                content,
                comment,
            }),
            r is Err ==> r->Err_0 == VesperError::CapacityExceeded,
    {
        if attributes.len() > MAX_ATTRS || content.len() > MAX_CHILDREN {
            Err(VesperError::CapacityExceeded)
        } else {
            Ok(TExpr { subject, predicate, attributes, content, comment })
        }
    }

    /// A renderer view of this node as a root: depth zero, with a two-space
    /// indentation unit.
    pub fn display(&self) -> (r: TExprDisplay<'_, P>)
        ensures
            r.expr_spec() == *self,
            r.indent_spec() == 0,
            r.tab_spec() == "  "@,
    {
        TExprDisplay { expr: self, indent: 0, tab: String::from_str("  ") }
    }
}

/// A read-only renderer view: a borrowed node together with the depth it is
/// rendered at and the indentation unit of the whole render pass.
pub struct TExprDisplay<'expr, P: Predicate> {
    expr: &'expr TExpr<P>,
    indent: usize,
    tab: String,
}

impl<'expr, P: Predicate> TExprDisplay<'expr, P> {
    /// The node under view.
    pub closed spec fn expr_spec(&self) -> TExpr<P> {
        *self.expr
    }

    /// The depth the node is rendered at.
    pub closed spec fn indent_spec(&self) -> nat {
        self.indent as nat
    }

    /// The indentation unit, inherited unchanged by every nested view.
    pub closed spec fn tab_spec(&self) -> Seq<char> {
        self.tab@
    }

    /// A derived view of a child node: one level deeper, with the same
    /// indentation unit.
    pub fn indented(parent: &Self, expr: &'expr TExpr<P>) -> (r: TExprDisplay<'expr, P>)
        requires
            parent.indent_spec() < usize::MAX,
        ensures
            r.expr_spec() == *expr,
            r.indent_spec() == parent.indent_spec() + 1,
            r.tab_spec() == parent.tab_spec(),
    {
        TExprDisplay { expr, indent: parent.indent + 1, tab: parent.tab.clone() }
    }

    /// Renders the node and its whole subtree into the canonical text.
    pub fn to_text(&self) -> (r: String)
        ensures
            r@ == render_spec(self.expr_spec(), self.indent_spec(), self.tab_spec()),
    {
        let ind = repeat_tab(self.tab.as_str(), self.indent);
        render_text(self.expr, Ghost(self.indent as nat), ind.as_str(), self.tab.as_str())
    }
}

/// Builds the indentation prefix for depth `n`.
fn repeat_tab(tab: &str, n: usize) -> (r: String)
    ensures
        r@ == tab_repeat(tab@, n as nat),
{
    let mut out = String::new();
    let mut i: usize = 0;
    while i < n
        invariant
            i <= n,
            out@ == tab_repeat(tab@, i as nat),
        decreases n - i,
    {
        out.append(tab);
        i = i + 1;
    }
    out
}

/// Renders one node and its subtree, given the already-built indentation
/// prefix for its depth.
fn render_text<P: Predicate>(e: &TExpr<P>, depth: Ghost<nat>, indent: &str, tab: &str) -> (r:
    String)
    requires
        indent@ == tab_repeat(tab@, depth@),
    ensures
        r@ == render_spec(*e, depth@, tab@),
    decreases *e,
{
    proof {
        reveal_strlit(" ");
        reveal_strlit(",");
        reveal_strlit("\n");
        reveal_strlit(": ");
        reveal_strlit(" -- ");
    }
    let mut out = String::from_str(indent);
    let ptext = e.predicate.to_text();
    out.append(ptext.as_str());
    out.append(" ");
    let stext = e.subject.to_text();
    out.append(stext.as_str());
    assert(out@ =~= tab_repeat(tab@, depth@) + e.predicate.text_spec() + seq![' '] + e.subject@);
    let ghost head: Seq<char> = out@;

    if e.attributes.len() > 0 {
        out.append(": ");
        assert(out@ =~= head + seq![':', ' ']);
        let ghost pre: Seq<char> = out@;
        let mut i: usize = 0;
        while i < e.attributes.len()
            invariant
                i <= e.attributes@.len(),
                out@ == pre + attrs_text(e.attributes@, i as int, depth@, tab@),
                indent@ == tab_repeat(tab@, depth@),
            decreases e.attributes@.len() - i,
        {
            proof {
                reveal_strlit(" ");
                reveal_strlit(",");
                reveal_strlit("\n");
            }
            let ghost before: Seq<char> = out@;
            if i > 0 {
                out.append(",");
                if i % MAX_LINE_VARS == 0 {
                    out.append("\n");
                    out.append(indent);
                    out.append(tab);
                } else {
                    out.append(" ");
                }
                assert(out@ =~= before + attr_sep(i as int, depth@, tab@));
            }
            let ghost with_sep: Seq<char> = out@;
            let attr = &e.attributes[i];
            let nm = attr.name();
            match nm {
                Option::Some(id) => {
                    let t = id.to_text();
                    out.append(t.as_str());
                    out.append(" ");
                },
                Option::None => {},
            }
            let v = attr.value();
            let vt = v.to_text();
            out.append(vt.as_str());
            assert(out@ =~= with_sep + attr_text(e.attributes@[i as int]));
            assert(out@ == pre + attrs_text(e.attributes@, i as int + 1, depth@, tab@));
            i = i + 1;
        }
        assert(out@ == head + (seq![':', ' '] + attrs_text(
            e.attributes@,
            e.attributes@.len() as int,
            depth@,
            tab@,
        )));
    }

    match &e.comment {
        Option::Some(c) => {
            out.append(" -- ");
            out.append(c.as_str());
        },
        Option::None => {},
    }
    out.append("\n");
    assert(out@ =~= line_spec(*e, depth@, tab@));

    let mut j: usize = 0;
    while j < e.content.len()
        invariant
            j <= e.content@.len(),
            out@ == line_spec(*e, depth@, tab@) + children_text(
                e.content@.take(j as int),
                depth@ + 1,
                tab@,
            ),
            indent@ == tab_repeat(tab@, depth@),
        decreases e.content@.len() - j,
    {
        let mut child_indent = String::from_str(indent);
        child_indent.append(tab);
        proof {
            assert(decreases_to!(*e => e.content@[j as int]));
        }
        let ct = render_text(&e.content[j], Ghost(depth@ + 1), child_indent.as_str(), tab);
        out.append(ct.as_str());
        proof {
            let cs = e.content@;
            assert(cs.take(j as int + 1).drop_last() =~= cs.take(j as int));
            assert(cs.take(j as int + 1).last() == cs[j as int]);
        }
        j = j + 1;
    }
    assert(e.content@.take(e.content@.len() as int) =~= e.content@);
    out
}

} // verus!
