use utf32_lit::ast::str_lit;
use utf32_lit::ast::str_to_chars;
use utf32_lit::ast::Expr;
use utf32_lit::ast::Item;
use utf32_lit::ast::ItemKind;
use utf32_lit::ast::NodeKind;
use utf32_lit::rewrite::utf32;
use utf32_lit::rewrite::utf32_all_strings;
use utf32_lit::rewrite::utf32_literal;
use utf32_lit::rewrite::RewriteError;

fn char_lit(value: char, span: u64) -> Expr {
    Expr::CharLit { value, span }
}

fn char_array(text: &str, span: u64) -> Expr {
    Expr::Node {
        kind: NodeKind::Array,
        children: text.chars().map(|c| char_lit(c, span)).collect(),
        span,
    }
}

#[test]
fn scalar_decomposition_multibyte() {
    // One element per Unicode scalar value: 3, not the 4 encoded bytes.
    let e = str_lit("\u{e6}bc", 5);
    let r = utf32(&e);
    assert_eq!(
        r,
        Expr::Node {
            kind: NodeKind::Array,
            children: vec![char_lit('\u{e6}', 5), char_lit('b', 5), char_lit('c', 5)],
            span: 5,
        }
    );
}

#[test]
fn str_to_chars_counts_scalars() {
    let cs = str_to_chars("\u{e6}bc");
    assert_eq!(cs, vec!['\u{e6}', 'b', 'c']);
    assert_eq!(cs.len(), 3);
    assert_eq!("\u{e6}bc".len(), 4);
}

#[test]
fn empty_literal_becomes_empty_array() {
    let r = utf32(&str_lit("", 3));
    assert_eq!(
        r,
        Expr::Node { kind: NodeKind::Array, children: vec![], span: 3 }
    );
}

#[test]
fn aggregate_recursion() {
    let e = Expr::Node {
        kind: NodeKind::Array,
        children: vec![str_lit("foo", 1), str_lit("bubble", 2), str_lit("baz", 3)],
        span: 0,
    };
    let r = utf32(&e);
    assert_eq!(
        r,
        Expr::Node {
            kind: NodeKind::Array,
            children: vec![char_array("foo", 1), char_array("bubble", 2), char_array("baz", 3)],
            span: 0,
        }
    );
}

#[test]
fn no_literal_no_op() {
    let build = || Expr::Node {
        kind: NodeKind::Binary,
        children: vec![
            Expr::Atom { span: 1 },
            Expr::Node {
                kind: NodeKind::Call,
                children: vec![Expr::Atom { span: 2 }, char_lit('x', 3)],
                span: 4,
            },
        ],
        span: 5,
    };
    assert_eq!(utf32(&build()), build());
}

#[test]
fn char_literal_unchanged() {
    assert_eq!(utf32(&char_lit('q', 8)), char_lit('q', 8));
}

#[test]
fn deep_nesting_is_reached() {
    // A literal buried under several operator and call layers.
    let e = Expr::Node {
        kind: NodeKind::Unary,
        children: vec![Expr::Node {
            kind: NodeKind::Call,
            children: vec![
                Expr::Atom { span: 1 },
                Expr::Node {
                    kind: NodeKind::Cond,
                    children: vec![Expr::Atom { span: 2 }, str_lit("hi", 9)],
                    span: 3,
                },
            ],
            span: 4,
        }],
        span: 5,
    };
    let r = utf32(&e);
    assert_eq!(
        r,
        Expr::Node {
            kind: NodeKind::Unary,
            children: vec![Expr::Node {
                kind: NodeKind::Call,
                children: vec![
                    Expr::Atom { span: 1 },
                    Expr::Node {
                        kind: NodeKind::Cond,
                        children: vec![Expr::Atom { span: 2 }, char_array("hi", 9)],
                        span: 3,
                    },
                ],
                span: 4,
            }],
            span: 5,
        }
    );
}

#[test]
fn item_mode_reaches_nested_declarations() {
    // A module holding a constant whose initializer hides a literal
    // inside a call argument, plus a nested module with a function body.
    let e = Item {
        kind: ItemKind::ModDecl,
        exprs: vec![],
        items: vec![
            Item {
                kind: ItemKind::ConstDecl,
                exprs: vec![Expr::Node {
                    kind: NodeKind::Call,
                    children: vec![Expr::Atom { span: 1 }, str_lit("hello", 2)],
                    span: 3,
                }],
                items: vec![],
                span: 4,
            },
            Item {
                kind: ItemKind::ModDecl,
                exprs: vec![],
                items: vec![Item {
                    kind: ItemKind::FnDecl,
                    exprs: vec![str_lit("deep", 6)],
                    items: vec![],
                    span: 7,
                }],
                span: 8,
            },
        ],
        span: 9,
    };
    let r = utf32_all_strings(&e);
    assert_eq!(
        r,
        Item {
            kind: ItemKind::ModDecl,
            exprs: vec![],
            items: vec![
                Item {
                    kind: ItemKind::ConstDecl,
                    exprs: vec![Expr::Node {
                        kind: NodeKind::Call,
                        children: vec![Expr::Atom { span: 1 }, char_array("hello", 2)],
                        span: 3,
                    }],
                    items: vec![],
                    span: 4,
                },
                Item {
                    kind: ItemKind::ModDecl,
                    exprs: vec![],
                    items: vec![Item {
                        kind: ItemKind::FnDecl,
                        exprs: vec![char_array("deep", 6)],
                        items: vec![],
                        span: 7,
                    }],
                    span: 8,
                },
            ],
            span: 9,
        }
    );
}

#[test]
fn item_without_literals_unchanged() {
    let build = || Item {
        kind: ItemKind::FnDecl,
        exprs: vec![Expr::Atom { span: 1 }, char_lit('z', 2)],
        items: vec![],
        span: 3,
    };
    assert_eq!(utf32_all_strings(&build()), build());
}

#[test]
fn fixed_point_expression() {
    let e = Expr::Node {
        kind: NodeKind::Array,
        children: vec![str_lit("foo", 1), Expr::Atom { span: 2 }],
        span: 3,
    };
    let once = utf32(&e);
    let twice = utf32(&once);
    assert_eq!(twice, once);
}

#[test]
fn fixed_point_item() {
    let it = Item {
        kind: ItemKind::ConstDecl,
        exprs: vec![str_lit("abc", 1)],
        items: vec![],
        span: 2,
    };
    let once = utf32_all_strings(&it);
    let twice = utf32_all_strings(&once);
    assert_eq!(twice, once);
}

#[test]
fn narrow_entry_accepts_literal() {
    let r = utf32_literal(&str_lit("ok", 4));
    assert_eq!(r, Ok(char_array("ok", 4)));
}

#[test]
fn narrow_entry_rejects_non_literal() {
    let r = utf32_literal(&Expr::Atom { span: 9 });
    assert_eq!(r, Err(RewriteError { span: 9 }));
    let err = r.unwrap_err();
    assert_eq!(err.message(), "expected string literal");
}

#[test]
fn narrow_entry_rejects_aggregate() {
    let e = Expr::Node {
        kind: NodeKind::Array,
        children: vec![str_lit("foo", 1)],
        span: 6,
    };
    assert_eq!(utf32_literal(&e), Err(RewriteError { span: 6 }));
}

#[test]
fn spans_survive_rewriting() {
    let r = utf32(&str_lit("s", 11));
    assert_eq!(r.span(), 11);
    let inner = Expr::Node {
        kind: NodeKind::Block,
        children: vec![str_lit("t", 12)],
        span: 13,
    };
    let out = utf32(&inner);
    assert_eq!(out.span(), 13);
    match out {
        Expr::Node { children, .. } => assert_eq!(children[0].span(), 12),
        _ => panic!("expected an interior node"),
    }
}
