//! The properties the rewriter is answerable for, each proved once and
//! for all over the mathematical model.

use vstd::prelude::*;

use crate::ast::ExprModel;
use crate::ast::ItemModel;
use crate::ast::NodeKind;
use crate::ast::span_of;
use crate::rewrite::char_array_children;
use crate::rewrite::lemma_char_array_children;
use crate::rewrite::lemma_rewrite_item_seq;
use crate::rewrite::lemma_rewrite_seq;
use crate::rewrite::lemma_str_free_item_seq;
use crate::rewrite::lemma_str_free_seq;
use crate::rewrite::rewrite;
use crate::rewrite::rewrite_item;
use crate::rewrite::rewrite_item_seq;
use crate::rewrite::rewrite_seq;
use crate::rewrite::str_free;
use crate::rewrite::str_free_item;

verus! {

/// Scalar decomposition: the rewrite of a string literal is an array
/// node at the literal's own span, with exactly one character literal
/// per Unicode scalar value of the text, in the text's order.
pub proof fn lemma_scalar_decomposition(text: Seq<char>, span: u64)
    ensures
        rewrite(ExprModel::StrLit { text, span }) == (ExprModel::Node {
            kind: NodeKind::Array,
            children: char_array_children(text, span),
            span,
        }),
        char_array_children(text, span).len() == text.len(),
        forall|i: int|
            0 <= i < text.len() ==> char_array_children(text, span)[i] == (ExprModel::CharLit {
                value: text[i] as u32,
                span,
            }),
{
    lemma_char_array_children(text, span);
}

/// Aggregate recursion: rewriting an interior node keeps its kind, its
/// span and its number of children, and rewrites each child in place.
pub proof fn lemma_aggregate_recursion(kind: NodeKind, elems: Seq<ExprModel>, span: u64)
    ensures
        rewrite(ExprModel::Node { kind, children: elems, span }) == (ExprModel::Node {
            kind,
            children: rewrite_seq(elems),
            span,
        }),
        rewrite_seq(elems).len() == elems.len(),
        forall|i: int| 0 <= i < elems.len() ==> rewrite_seq(elems)[i] == rewrite(elems[i]),
{
    lemma_rewrite_seq(elems);
}

/// No-literal no-op: a tree without a string literal comes back
/// structurally unchanged.
pub proof fn lemma_no_literal_noop(m: ExprModel)
    requires
        str_free(m),
    ensures
        rewrite(m) == m,
    decreases m,
{
    match m {
        ExprModel::Node { kind, children, span } => {
            lemma_str_free_seq(children);
            lemma_rewrite_seq(children);
            assert forall|i: int| 0 <= i < children.len() implies rewrite_seq(children)[i]
                == children[i] by {
                lemma_no_literal_noop(children[i]);
            }
            assert(rewrite_seq(children) =~= children);
        },
        _ => {},
    }
}

/// No-literal no-op, item mode: a declaration without a string literal
/// anywhere inside comes back structurally unchanged.
pub proof fn lemma_no_literal_noop_item(it: ItemModel)
    requires
        str_free_item(it),
    ensures
        rewrite_item(it) == it,
    decreases it,
{
    lemma_str_free_seq(it.exprs);
    lemma_rewrite_seq(it.exprs);
    assert forall|i: int| 0 <= i < it.exprs.len() implies rewrite_seq(it.exprs)[i]
        == it.exprs[i] by {
        lemma_no_literal_noop(it.exprs[i]);
    }
    assert(rewrite_seq(it.exprs) =~= it.exprs);
    lemma_str_free_item_seq(it.items);
    lemma_rewrite_item_seq(it.items);
    assert forall|i: int| 0 <= i < it.items.len() implies rewrite_item_seq(it.items)[i]
        == it.items[i] by {
        lemma_no_literal_noop_item(it.items[i]);
    }
    assert(rewrite_item_seq(it.items) =~= it.items);
    assert(rewrite_item(it) =~= it);
}

/// Full coverage: after rewriting, no string-literal node remains
/// anywhere in the tree, at any depth.
pub proof fn lemma_rewrite_str_free(m: ExprModel)
    ensures
        str_free(rewrite(m)),
    decreases m,
{
    match m {
        ExprModel::StrLit { text, span } => {
            lemma_char_array_children(text, span);
            lemma_str_free_seq(char_array_children(text, span));
        },
        ExprModel::Node { kind, children, span } => {
            lemma_rewrite_seq(children);
            lemma_str_free_seq(rewrite_seq(children));
            assert forall|i: int| 0 <= i < children.len() implies str_free(
                rewrite_seq(children)[i],
            ) by {
                lemma_rewrite_str_free(children[i]);
            }
        },
        _ => {},
    }
}

/// Full coverage, item mode: after rewriting, no string-literal node
/// remains anywhere in the declaration, however deeply nested.
pub proof fn lemma_rewrite_item_str_free(it: ItemModel)
    ensures
        str_free_item(rewrite_item(it)),
    decreases it,
{
    lemma_rewrite_seq(it.exprs);
    lemma_str_free_seq(rewrite_seq(it.exprs));
    assert forall|i: int| 0 <= i < it.exprs.len() implies str_free(rewrite_seq(it.exprs)[i]) by {
        lemma_rewrite_str_free(it.exprs[i]);
    }
    lemma_rewrite_item_seq(it.items);
    lemma_str_free_item_seq(rewrite_item_seq(it.items));
    assert forall|i: int| 0 <= i < it.items.len() implies str_free_item(
        rewrite_item_seq(it.items)[i],
    ) by {
        lemma_rewrite_item_str_free(it.items[i]);
    }
}

/// Fixed point: rewriting a second time changes nothing, because the
/// first pass left no string literal behind.
pub proof fn lemma_fixed_point(m: ExprModel)
    ensures
        rewrite(rewrite(m)) == rewrite(m),
{
    lemma_rewrite_str_free(m);
    lemma_no_literal_noop(rewrite(m));
}

/// Fixed point, item mode.
pub proof fn lemma_fixed_point_item(it: ItemModel)
    ensures
        rewrite_item(rewrite_item(it)) == rewrite_item(it),
{
    lemma_rewrite_item_str_free(it);
    lemma_no_literal_noop_item(rewrite_item(it));
}

/// Source positions survive the rewrite: the root of the result carries
/// the root span of the input.
pub proof fn lemma_span_preserved(m: ExprModel)
    ensures
        span_of(rewrite(m)) == span_of(m),
{
    match m {
        ExprModel::StrLit { .. } => {},
        ExprModel::CharLit { .. } => {},
        ExprModel::Atom { .. } => {},
        ExprModel::Node { .. } => {},
    }
}

} // verus!
