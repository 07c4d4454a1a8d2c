use vesper::{AttrVal, Ident, PlainAttr, TExpr, TExprDisplay, VesperError};

fn ident(s: &str) -> Ident {
    Ident::from_str(s).unwrap()
}

fn named(name: &str, value: &str) -> PlainAttr {
    PlainAttr { name: Some(ident(name)), value: AttrVal::Expr(value.to_string()) }
}

fn unnamed(value: &str) -> PlainAttr {
    PlainAttr { name: None, value: AttrVal::Expr(value.to_string()) }
}

fn leaf(predicate: &str, subject: &str) -> TExpr<Ident> {
    TExpr {
        subject: ident(subject),
        predicate: ident(predicate),
        attributes: vec![],
        content: vec![],
        comment: None,
    }
}

#[test]
fn display() {
    let expr = TExpr {
        subject: ident("test"),
        predicate: ident("predicate"),
        attributes: vec![named("attr1", "value"), named("attr2", "value")],
        content: vec![],
        comment: None,
    };
    assert_eq!(expr.display().to_text(), "predicate test: attr1 value, attr2 value\n");
}

#[test]
fn rendering_is_deterministic() {
    let expr = TExpr {
        subject: ident("Point"),
        predicate: ident("struct"),
        attributes: vec![unnamed("int32"), named("tag", "v1")],
        content: vec![leaf("field", "x"), leaf("field", "y")],
        comment: Some("planar".to_string()),
    };
    assert_eq!(expr.display().to_text(), expr.display().to_text());
}

#[test]
fn struct_with_one_child() {
    let expr = TExpr {
        subject: ident("Point"),
        predicate: ident("struct"),
        attributes: vec![PlainAttr { name: None, value: AttrVal::Ident(ident("int32")) }],
        content: vec![leaf("field", "x")],
        comment: None,
    };
    assert_eq!(expr.display().to_text(), "struct Point: int32\n  field x\n");
}

#[test]
fn nine_attributes_wrap_once() {
    let names = ["a0", "a1", "a2", "a3", "a4", "a5", "a6", "a7", "a8"];
    let expr = TExpr {
        subject: ident("subj"),
        predicate: ident("pred"),
        attributes: names.iter().map(|n| unnamed(n)).collect(),
        content: vec![],
        comment: None,
    };
    assert_eq!(expr.display().to_text(), "pred subj: a0, a1, a2, a3, a4, a5, a6, a7,\n  a8\n");
}

#[test]
fn wrap_break_counts() {
    for (len, breaks) in [(1usize, 0usize), (7, 0), (8, 0), (9, 1), (16, 1), (17, 2), (25, 3)] {
        let attrs: Vec<PlainAttr> = (0..len).map(|k| unnamed(&format!("a{k}"))).collect();
        let expr = TExpr {
            subject: ident("subj"),
            predicate: ident("pred"),
            attributes: attrs,
            content: vec![],
            comment: None,
        };
        let text = expr.display().to_text();
        let newlines = text.chars().filter(|c| *c == '\n').count();
        // one line terminator, plus the internal breaks of the attribute block
        assert_eq!(newlines, breaks + 1, "attribute list of length {len}");
    }
}

#[test]
fn comment_rendered_once_before_terminator() {
    let expr = TExpr {
        subject: ident("node"),
        predicate: ident("kind"),
        attributes: vec![unnamed("v")],
        content: vec![],
        comment: Some("x".to_string()),
    };
    assert_eq!(expr.display().to_text(), "kind node: v -- x\n");

    let bare = TExpr { comment: Some("x".to_string()), ..leaf("kind", "node") };
    assert_eq!(bare.display().to_text(), "kind node -- x\n");
}

#[test]
fn leaf_renders_one_line() {
    let expr = leaf("field", "x");
    assert_eq!(expr.display().to_text(), "field x\n");
}

#[test]
fn attributes_keep_order_and_duplicates() {
    let expr = TExpr {
        subject: ident("s"),
        predicate: ident("p"),
        attributes: vec![named("b", "2"), named("a", "1"), named("a", "1")],
        content: vec![],
        comment: None,
    };
    assert_eq!(expr.display().to_text(), "p s: b 2, a 1, a 1\n");
}

#[test]
fn children_keep_order_and_deepen() {
    let inner = TExpr {
        subject: ident("y"),
        predicate: ident("field"),
        attributes: vec![],
        content: vec![leaf("bit", "z")],
        comment: None,
    };
    let expr = TExpr {
        subject: ident("Point"),
        predicate: ident("struct"),
        attributes: vec![],
        content: vec![leaf("field", "x"), inner],
        comment: None,
    };
    assert_eq!(expr.display().to_text(), "struct Point\n  field x\n  field y\n    bit z\n");
}

#[test]
fn indented_view_starts_one_level_deeper() {
    let parent = leaf("struct", "Point");
    let child = leaf("field", "x");
    let parent_view = parent.display();
    let child_view = TExprDisplay::indented(&parent_view, &child);
    assert_eq!(child_view.to_text(), "  field x\n");
}

#[test]
fn construction_respects_capacity() {
    let kids: Vec<TExpr<Ident>> = (0..256).map(|_| leaf("field", "x")).collect();
    let r = TExpr::new(ident("s"), ident("p"), vec![], kids, None);
    assert!(matches!(r, Err(VesperError::CapacityExceeded)));

    let attrs: Vec<PlainAttr> = (0..65536).map(|_| unnamed("v")).collect();
    let r = TExpr::new(ident("s"), ident("p"), attrs, vec![], None);
    assert!(matches!(r, Err(VesperError::CapacityExceeded)));

    let ok = TExpr::new(ident("s"), ident("p"), vec![unnamed("v")], vec![leaf("f", "x")], None);
    match ok {
        Ok(t) => assert_eq!(t.display().to_text(), "p s: v\n  f x\n"),
        Err(_) => panic!("capacity wrongly exceeded"),
    }
}
