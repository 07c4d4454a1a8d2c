use crate::t_expr::{
    attr_sep, attr_text, attrs_text, children_text, line_spec, render_spec, tab_repeat, Attribute,
    Predicate, TExpr, MAX_LINE_VARS,
};
use vstd::prelude::*;

verus! {

/// The number of occurrences of `c` in `s`.
pub open spec fn count_char(s: Seq<char>, c: char) -> int
    decreases s.len(),
{
    if s.len() == 0 {
        0
    } else {
        count_char(s.drop_last(), c) + if s.last() == c {
            1int
        } else {
            0int
        }
    }
}

proof fn lemma_count_concat(a: Seq<char>, b: Seq<char>, c: char)
    ensures
        count_char(a + b, c) == count_char(a, c) + count_char(b, c),
    decreases b.len(),
{
    if b.len() == 0 {
        assert(a + b =~= a);
    } else {
        lemma_count_concat(a, b.drop_last(), c);
        assert((a + b).drop_last() =~= a + b.drop_last());
        assert((a + b).last() == b.last());
    }
}

proof fn lemma_count_tab_repeat(tab: Seq<char>, n: nat, c: char)
    requires
        count_char(tab, c) == 0,
    ensures
        count_char(tab_repeat(tab, n), c) == 0,
    decreases n,
{
    if n > 0 {
        lemma_count_tab_repeat(tab, (n - 1) as nat, c);
        lemma_count_concat(tab_repeat(tab, (n - 1) as nat), tab, c);
    }
}

/// Rendering is deterministic: the canonical text is a function of the tree,
/// the depth and the indentation unit alone, so rendering one tree twice with
/// one unit yields byte-identical output.
pub proof fn lemma_render_deterministic<P: Predicate>(
    e: TExpr<P>,
    depth: nat,
    tab: Seq<char>,
    r1: Seq<char>,
    r2: Seq<char>,
)
    requires
        r1 == render_spec(e, depth, tab),
        r2 == render_spec(e, depth, tab),
    ensures
        r1 == r2,
{
}

/// Children render in construction order and none is dropped, merged or
/// reordered: the rendering of a child sequence splits, at any index, into
/// the renderings of the children before it and those from it on.
pub proof fn lemma_children_in_order<P: Predicate>(
    cs: Seq<TExpr<P>>,
    depth: nat,
    tab: Seq<char>,
    i: int,
)
    requires
        0 <= i <= cs.len(),
    ensures
        children_text(cs, depth, tab) == children_text(cs.take(i), depth, tab) + children_text(
            cs.skip(i),
            depth,
            tab,
        ),
    decreases cs.len(),
{
    if i == cs.len() {
        assert(cs.take(i) =~= cs);
        assert(cs.skip(i) =~= Seq::<TExpr<P>>::empty());
        assert(children_text(cs, depth, tab) + children_text(cs.skip(i), depth, tab)
            =~= children_text(cs, depth, tab));
    } else {
        let dl = cs.drop_last();
        lemma_children_in_order(dl, depth, tab, i);
        assert(dl.take(i) =~= cs.take(i));
        assert(cs.skip(i).drop_last() =~= dl.skip(i));
        assert(cs.skip(i).last() == cs.last());
        assert(children_text(cs.take(i), depth, tab) + (children_text(dl.skip(i), depth, tab)
            + render_spec(cs.last(), depth, tab)) =~= (children_text(cs.take(i), depth, tab)
            + children_text(dl.skip(i), depth, tab)) + render_spec(cs.last(), depth, tab));
    }
}

/// Attributes render in construction order and none is dropped, merged or
/// reordered: the block of the first `n` attributes is the block of the first
/// `n - 1`, unchanged, followed by a separator and the text of attribute
/// `n - 1` — and no separator follows the last attribute.
pub proof fn lemma_attributes_in_order<A: Attribute>(
    attrs: Seq<A>,
    n: int,
    depth: nat,
    tab: Seq<char>,
)
    requires
        1 <= n,
    ensures
        attrs_text(attrs, n, depth, tab) == if n == 1 {
            attr_text(attrs[0])
        } else {
            attrs_text(attrs, n - 1, depth, tab) + attr_sep(n - 1, depth, tab) + attr_text(
                attrs[n - 1],
            )
        },
{
}

/// The block of the first `n` attributes is determined by those attributes
/// alone: no later attribute can change it, so the block of a full list is
/// the blocks of its prefixes, each extended only at its end.
pub proof fn lemma_attributes_local<A: Attribute>(
    a1: Seq<A>,
    a2: Seq<A>,
    n: int,
    depth: nat,
    tab: Seq<char>,
)
    requires
        forall|k: int| 0 <= k < n ==> a1[k] == a2[k],
    ensures
        attrs_text(a1, n, depth, tab) == attrs_text(a2, n, depth, tab),
    decreases n,
{
    if n > 1 {
        lemma_attributes_local(a1, a2, n - 1, depth, tab);
    }
}

/// Every node's rendering opens with its own indentation: exactly `depth`
/// copies of the indentation unit.
pub proof fn lemma_render_starts_with_indent<P: Predicate>(e: TExpr<P>, depth: nat, tab: Seq<char>)
    ensures
        render_spec(e, depth, tab).len() >= tab_repeat(tab, depth).len(),
        render_spec(e, depth, tab).take(tab_repeat(tab, depth).len() as int) == tab_repeat(
            tab,
            depth,
        ),
{
    let ind = tab_repeat(tab, depth);
    assert(render_spec(e, depth, tab).take(ind.len() as int) =~= ind);
}

/// Depth monotonicity: each child of a node rendered at `depth` appears in
/// the parent's output as one contiguous block, rendered at exactly
/// `depth + 1` — and so, by [`lemma_render_starts_with_indent`], its own line
/// opens one indentation unit deeper than the parent's.
pub proof fn lemma_child_rendered_one_deeper<P: Predicate>(
    e: TExpr<P>,
    depth: nat,
    tab: Seq<char>,
    i: int,
)
    requires
        0 <= i < e.content@.len(),
    ensures
        render_spec(e, depth, tab) == (line_spec(e, depth, tab) + children_text(
            e.content@.take(i),
            depth + 1,
            tab,
        )) + render_spec(e.content@[i], depth + 1, tab) + children_text(
            e.content@.skip(i + 1),
            depth + 1,
            tab,
        ),
{
    let cs = e.content@;
    lemma_children_in_order(cs, depth + 1, tab, i);
    lemma_children_in_order(cs.skip(i), depth + 1, tab, 1);
    let one = cs.skip(i).take(1);
    assert(one.len() == 1);
    assert(one.drop_last() =~= Seq::<TExpr<P>>::empty());
    assert(one.last() == cs[i]);
    assert(children_text(one.drop_last(), depth + 1, tab) == Seq::<char>::empty());
    assert(children_text(one, depth + 1, tab) == children_text(one.drop_last(), depth + 1, tab)
        + render_spec(one.last(), depth + 1, tab));
    assert(children_text(one, depth + 1, tab) =~= render_spec(cs[i], depth + 1, tab));
    assert(cs.skip(i).skip(1) =~= cs.skip(i + 1));
    let pre = line_spec(e, depth, tab) + children_text(cs.take(i), depth + 1, tab);
    let post = children_text(cs.skip(i + 1), depth + 1, tab);
    assert(render_spec(e, depth, tab) =~= pre + render_spec(cs[i], depth + 1, tab) + post);
}

/// Wrap threshold: an attribute list of length `n` introduces exactly
/// `(n - 1) / MAX_LINE_VARS` line breaks inside the attribute block, as long
/// as no attribute text and no indentation unit contains a line break itself.
pub proof fn lemma_wrap_threshold<A: Attribute>(attrs: Seq<A>, n: int, depth: nat, tab: Seq<char>)
    requires
        1 <= n <= attrs.len(),
        count_char(tab, '\n') == 0,
        forall|k: int| 0 <= k < n ==> count_char(attr_text(#[trigger] attrs[k]), '\n') == 0,
    ensures
        count_char(attrs_text(attrs, n, depth, tab), '\n') == (n - 1) / (MAX_LINE_VARS as int),
    decreases n,
{
    let lv = MAX_LINE_VARS as int;
    assert(count_char(Seq::<char>::empty(), '\n') == 0);
    assert(seq![','].drop_last() =~= Seq::<char>::empty());
    assert(count_char(seq![','], '\n') == 0);
    assert(seq![' '].drop_last() =~= Seq::<char>::empty());
    assert(count_char(seq![' '], '\n') == 0);
    assert(seq!['\n'].drop_last() =~= Seq::<char>::empty());
    assert(count_char(seq!['\n'], '\n') == 1);
    if n == 1 {
    } else {
        lemma_wrap_threshold(attrs, n - 1, depth, tab);
        let head = attrs_text(attrs, n - 1, depth, tab);
        let sep = attr_sep(n - 1, depth, tab);
        lemma_count_concat(head, sep, '\n');
        lemma_count_concat(head + sep, attr_text(attrs[n - 1]), '\n');
        if (n - 1) % lv == 0 {
            lemma_count_tab_repeat(tab, depth + 1, '\n');
            lemma_count_concat(seq!['\n'], tab_repeat(tab, depth + 1), '\n');
            lemma_count_concat(seq![','], seq!['\n'] + tab_repeat(tab, depth + 1), '\n');
            assert(count_char(sep, '\n') == 1);
        } else {
            lemma_count_concat(seq![','], seq![' '], '\n');
            assert(count_char(sep, '\n') == 0);
        }
        assert((n - 2) / lv + (if (n - 1) % lv == 0 {
            1int
        } else {
            0int
        }) == (n - 1) / lv) by (nonlinear_arith)
            requires
                n >= 2,
                lv == 8,
        ;
    }
}

/// Comment placement: a node with a comment renders its own line with ` -- `
/// and the comment text verbatim standing exactly once, after the whole
/// attribute block and immediately before the line terminator.
pub proof fn lemma_comment_placement<P: Predicate>(e: TExpr<P>, depth: nat, tab: Seq<char>)
    requires
        e.comment is Some,
    ensures
        line_spec(e, depth, tab) == tab_repeat(tab, depth) + e.predicate.text_spec() + seq![' ']
            + e.subject@ + (if e.attributes@.len() > 0 {
            seq![':', ' '] + attrs_text(
                e.attributes@,
                e.attributes@.len() as int,
                depth,
                tab,
            )
        } else {
            Seq::empty()
        }) + seq![' ', '-', '-', ' '] + e.comment->0@ + seq!['\n'],
{
}

/// Leaf rendering: a node with no attributes, no children and no comment
/// renders as exactly one line — indentation, predicate, a space, the
/// subject, and the line terminator, with no trailing separators.
pub proof fn lemma_leaf_rendering<P: Predicate>(e: TExpr<P>, depth: nat, tab: Seq<char>)
    requires
        e.attributes@.len() == 0,
        e.content@.len() == 0,
        e.comment is None,
    ensures
        render_spec(e, depth, tab) == tab_repeat(tab, depth) + e.predicate.text_spec() + seq![' ']
            + e.subject@ + seq!['\n'],
{
    assert(render_spec(e, depth, tab) =~= tab_repeat(tab, depth) + e.predicate.text_spec()
        + seq![' '] + e.subject@ + seq!['\n']);
}

} // verus!
