//! The literal rewriter: every string-literal node reachable from the
//! input is replaced by an array node holding one character literal per
//! Unicode scalar value, tagged with the literal's own span; every other
//! node is rebuilt unchanged around its rewritten children.

use vstd::prelude::*;

use crate::ast::Expr;
use crate::ast::ExprModel;
use crate::ast::Item;
use crate::ast::ItemModel;
use crate::ast::NodeKind;
use crate::ast::lemma_item_model_seq;
use crate::ast::lemma_model_seq;
use crate::ast::vec_push;
use crate::ast::model_seq;
use crate::ast::item_model_seq;
use crate::ast::span_of;

verus! {
/// The character literals of `text`, in order, all tagged with `span`:
/// the children of the node that replaces a string literal.
pub open spec fn char_array_children(text: Seq<char>, span: u64) -> Seq<ExprModel>
    decreases text.len(),
{
    if text.len() == 0 {
        Seq::<ExprModel>::empty()
    } else {
        char_array_children(text.drop_last(), span).push(
            ExprModel::CharLit { value: text.last() as u32, span },
        )
    }
}

/// `char_array_children` is the pointwise character-literal image of the
/// text.
pub proof fn lemma_char_array_children(text: Seq<char>, span: u64)
    ensures
        char_array_children(text, span).len() == text.len(),
        forall|i: int|
            0 <= i < text.len() ==> char_array_children(text, span)[i] == (ExprModel::CharLit {
                value: text[i] as u32,
                span,
            }),
    decreases text.len(),
{
    if text.len() != 0 {
        lemma_char_array_children(text.drop_last(), span);
        assert forall|i: int| 0 <= i < text.len() implies char_array_children(text, span)[i]
            == (ExprModel::CharLit { value: text[i] as u32, span }) by {
            if i < text.len() - 1 {
                assert(text.drop_last()[i] == text[i]);
            }
        }
    }
}

/// The replacement for a string literal of text `text` at `span`: an
/// array node whose children are the character literals of `text`, in
/// order, all tagged with `span`.
pub open spec fn char_array(text: Seq<char>, span: u64) -> ExprModel {
    ExprModel::Node { kind: NodeKind::Array, children: char_array_children(text, span), span }
}

/// What the rewriter does to one expression tree.
pub open spec fn rewrite(m: ExprModel) -> ExprModel
    decreases m,
{
    match m {
        ExprModel::StrLit { text, span } => char_array(text, span),
        ExprModel::CharLit { value, span } => ExprModel::CharLit { value, span },
        ExprModel::Atom { span } => ExprModel::Atom { span },
        ExprModel::Node { kind, children, span } => ExprModel::Node {
            kind,
            children: rewrite_seq(children),
            span,
        },
    }
}

/// The rewriter applied to each element of a list of trees.
pub open spec fn rewrite_seq(ms: Seq<ExprModel>) -> Seq<ExprModel>
    decreases ms,
{
    if ms.len() == 0 {
        Seq::<ExprModel>::empty()
    } else {
        rewrite_seq(ms.drop_last()).push(rewrite(ms.last()))
    }
}

/// `rewrite_seq` is the pointwise rewrite of its argument.
pub proof fn lemma_rewrite_seq(ms: Seq<ExprModel>)
    ensures
        rewrite_seq(ms).len() == ms.len(),
        forall|i: int| 0 <= i < ms.len() ==> rewrite_seq(ms)[i] == rewrite(ms[i]),
    decreases ms.len(),
{
    if ms.len() != 0 {
        lemma_rewrite_seq(ms.drop_last());
    }
}

/// What the rewriter does to one declaration: every expression it owns,
/// directly or through nested declarations, is rewritten.
pub open spec fn rewrite_item(it: ItemModel) -> ItemModel
    decreases it,
{
    ItemModel {
        kind: it.kind,
        exprs: rewrite_seq(it.exprs),
        items: rewrite_item_seq(it.items),
        span: it.span,
    }
}

/// The rewriter applied to each element of a list of declarations.
pub open spec fn rewrite_item_seq(its: Seq<ItemModel>) -> Seq<ItemModel>
    decreases its,
{
    if its.len() == 0 {
        Seq::<ItemModel>::empty()
    } else {
        rewrite_item_seq(its.drop_last()).push(rewrite_item(its.last()))
    }
}

/// `rewrite_item_seq` is the pointwise rewrite of its argument.
pub proof fn lemma_rewrite_item_seq(its: Seq<ItemModel>)
    ensures
        rewrite_item_seq(its).len() == its.len(),
        forall|i: int| 0 <= i < its.len() ==> rewrite_item_seq(its)[i] == rewrite_item(its[i]),
    decreases its.len(),
{
    if its.len() != 0 {
        lemma_rewrite_item_seq(its.drop_last());
    }
}

/// Whether a tree holds no string-literal node at all.
pub open spec fn str_free(m: ExprModel) -> bool
    decreases m,
{
    match m {
        ExprModel::StrLit { .. } => false,
        ExprModel::CharLit { .. } => true,
        ExprModel::Atom { .. } => true,
        ExprModel::Node { children, .. } => str_free_seq(children),
    }
}

/// Whether every tree in a list holds no string-literal node.
pub open spec fn str_free_seq(ms: Seq<ExprModel>) -> bool
    decreases ms,
{
    ms.len() == 0 || (str_free_seq(ms.drop_last()) && str_free(ms.last()))
}

/// `str_free_seq` holds exactly when `str_free` holds of every element.
pub proof fn lemma_str_free_seq(ms: Seq<ExprModel>)
    ensures
        str_free_seq(ms) <==> (forall|i: int| 0 <= i < ms.len() ==> str_free(ms[i])),
    decreases ms.len(),
{
    if ms.len() != 0 {
        lemma_str_free_seq(ms.drop_last());
        if str_free_seq(ms) {
            assert forall|i: int| 0 <= i < ms.len() implies str_free(ms[i]) by {
                if i < ms.len() - 1 {
                    assert(ms.drop_last()[i] == ms[i]);
                }
            }
        }
    }
}

/// Whether a declaration owns no string-literal node, at any depth.
pub open spec fn str_free_item(it: ItemModel) -> bool
    decreases it,
{
    str_free_seq(it.exprs) && str_free_item_seq(it.items)
}

/// Whether every declaration in a list owns no string-literal node.
pub open spec fn str_free_item_seq(its: Seq<ItemModel>) -> bool
    decreases its,
{
    its.len() == 0 || (str_free_item_seq(its.drop_last()) && str_free_item(its.last()))
}

/// `str_free_item_seq` holds exactly when `str_free_item` holds of every
/// element.
pub proof fn lemma_str_free_item_seq(its: Seq<ItemModel>)
    ensures
        str_free_item_seq(its) <==> (forall|i: int| 0 <= i < its.len() ==> str_free_item(its[i])),
    decreases its.len(),
{
    if its.len() != 0 {
        lemma_str_free_item_seq(its.drop_last());
        if str_free_item_seq(its) {
            assert forall|i: int| 0 <= i < its.len() implies str_free_item(its[i]) by {
                if i < its.len() - 1 {
                    assert(its.drop_last()[i] == its[i]);
                }
            }
        }
    }
}

/// Expression mode: rebuilds the tree with every string literal replaced
/// by the array of its characters, everything else unchanged.
pub fn utf32(e: &Expr) -> (r: Expr)
    ensures
        r@ == rewrite(e@),
    decreases *e,
{
    match e {
        Expr::StrLit { text, span } => {
            let mut children: Vec<Expr> = Vec::new();
            let mut i: usize = 0;
            while i < text.len()
                invariant
                    i <= text@.len(),
                    children@.len() == i as nat,
                    forall|j: int|
                        0 <= j < i ==> children@[j] == (Expr::CharLit {
                            value: text@[j],
                            span: *span,
                        }),
                decreases text@.len() - i,
            {
                let c = Expr::CharLit { value: text[i], span: *span };
                vec_push(&mut children, c);
                i = i + 1;
            }
            let ghost cv: Seq<Expr> = children@;
            let result = Expr::Node { kind: NodeKind::Array, children, span: *span };
            proof {
                lemma_model_seq(cv);
                lemma_char_array_children(text@, *span);
                assert(model_seq(cv) =~= char_array_children(text@, *span));
                assert(result@ =~= rewrite(e@));
            }
            result
        },
        Expr::CharLit { value, span } => Expr::CharLit { value: *value, span: *span },
        Expr::Atom { span } => Expr::Atom { span: *span },
        Expr::Node { kind, children, span } => {
            let new_children = utf32_vec(children);
            let result = Expr::Node { kind: *kind, children: new_children, span: *span };
            proof {
                lemma_model_seq(new_children@);
                lemma_model_seq(children@);
                lemma_rewrite_seq(model_seq(children@));
                assert(model_seq(new_children@) =~= rewrite_seq(model_seq(children@)));
                assert(result@ =~= rewrite(e@));
            }
            result
        },
    }
}

/// The rewriter applied to each element of a vector of trees.
fn utf32_vec(es: &Vec<Expr>) -> (r: Vec<Expr>)
    ensures
        r@.len() == es@.len(),
        forall|i: int| 0 <= i < es@.len() ==> r@[i].model() == rewrite(es@[i].model()),
    decreases *es,
{
    let mut r: Vec<Expr> = Vec::new();
    let mut i: usize = 0;
    while i < es.len()
        invariant
            i <= es@.len(),
            r@.len() == i as nat,
            forall|j: int| 0 <= j < i ==> r@[j].model() == rewrite(es@[j].model()),
        decreases es@.len() - i,
    {
        let x = utf32(&es[i]);
        vec_push(&mut r, x);
        i = i + 1;
    }
    r
}

/// Item mode: rebuilds the declaration with every string literal it owns,
/// at any depth, replaced by the array of its characters.
pub fn utf32_all_strings(it: &Item) -> (r: Item)
    ensures
        r@ == rewrite_item(it@),
    decreases *it,
{
    let new_exprs = utf32_vec(&it.exprs);
    let new_items = utf32_items_vec(&it.items);
    let result = Item { kind: it.kind, exprs: new_exprs, items: new_items, span: it.span };
    proof {
        lemma_model_seq(result.exprs@);
        lemma_model_seq(it.exprs@);
        lemma_rewrite_seq(model_seq(it.exprs@));
        assert(model_seq(result.exprs@) =~= rewrite_seq(model_seq(it.exprs@)));
        lemma_item_model_seq(result.items@);
        lemma_item_model_seq(it.items@);
        lemma_rewrite_item_seq(item_model_seq(it.items@));
        assert(item_model_seq(result.items@) =~= rewrite_item_seq(item_model_seq(it.items@)));
        assert(result@ =~= rewrite_item(it@));
    }
    result
}

/// The rewriter applied to each element of a vector of declarations.
fn utf32_items_vec(its: &Vec<Item>) -> (r: Vec<Item>)
    ensures
        r@.len() == its@.len(),
        forall|i: int| 0 <= i < its@.len() ==> r@[i].model() == rewrite_item(its@[i].model()),
    decreases *its,
{
    let mut r: Vec<Item> = Vec::new();
    let mut i: usize = 0;
    while i < its.len()
        invariant
            i <= its@.len(),
            r@.len() == i as nat,
            forall|j: int| 0 <= j < i ==> r@[j].model() == rewrite_item(its@[j].model()),
        decreases its@.len() - i,
    {
        let x = utf32_all_strings(&its[i]);
        vec_push(&mut r, x);
        i = i + 1;
    }
    r
}

/// The diagnostic text of the narrow entry: the expected kind of input.
pub open spec fn expected_literal_message() -> Seq<char> {
    "expected string literal"@
}

/// The diagnostic of the narrow entry: which kind was expected, anchored
/// to the offending node's source position.
#[derive(Debug, PartialEq, Eq)]
pub struct RewriteError {
    pub span: u64,
}

impl RewriteError {
    /// The diagnostic text, naming the expected kind.
    pub fn message(&self) -> (s: String)
        ensures
            s@ == expected_literal_message(),
    {
        "expected string literal".to_owned()
    }
}

/// The narrow single-literal entry: accepts a bare string literal only;
/// anything else is refused with a diagnostic at its span, and no output
/// node is produced.
pub fn utf32_literal(e: &Expr) -> (r: Result<Expr, RewriteError>)
    ensures
        r is Ok <==> e@ is StrLit,
        r is Ok ==> r->Ok_0@ == rewrite(e@),
        r is Err ==> r->Err_0 == (RewriteError { span: span_of(e@) }),
{
    match e {
        Expr::StrLit { .. } => Ok(utf32(e)),
        _ => Err(RewriteError { span: e.span() }),
    }
}

} // verus!
