//! The syntax-tree model: expression nodes, their node kinds, and the
//! mathematical view of a tree as a ghost datatype over `Seq`.

use vstd::prelude::*;
use vstd::string::StrSliceExecFns;

verus! {

/// The kind tag of an interior node: which syntactic position its
/// children occupy. The rewriter treats all of them alike (default
/// recursive descent), so the tag only rides along.
#[derive(Debug, Clone, Copy, PartialEq, Eq, Structural)]
pub enum NodeKind {
    /// An array or other aggregate literal; its children are the elements.
    Array,
    /// A structured initializer; its children are the field values.
    StructInit,
    /// A call; its children are the callee followed by the arguments.
    Call,
    /// A binary operator; its children are the two operands.
    Binary,
    /// A unary operator; its child is the operand.
    Unary,
    /// A conditional; its children are condition and branches.
    Cond,
    /// A match-like construct; its children are scrutinee and arms.
    Match,
    /// A block; its children are the statement expressions.
    Block,
}

/// One parsed expression node. `span` is the node's source-position tag.
#[derive(Debug, PartialEq, Eq)]
pub enum Expr {
    /// A string literal, already escape-decoded into its Unicode scalar values.
    StrLit { text: Vec<char>, span: u64 },
    /// A character literal.
    CharLit { value: char, span: u64 },
    /// Any childless non-literal node (identifier, numeric literal, ...).
    Atom { span: u64 },
    /// Any interior node: a kind tag plus its child expressions.
    Node { kind: NodeKind, children: Vec<Expr>, span: u64 },
}

/// The mathematical image of an `Expr`: the same tree with `Seq` in
/// place of `Vec`, and a character literal carried as its Unicode
/// scalar value.
#[verifier::ext_equal]
pub enum ExprModel {
    StrLit { text: Seq<char>, span: u64 },
    CharLit { value: u32, span: u64 },
    Atom { span: u64 },
    Node { kind: NodeKind, children: Seq<ExprModel>, span: u64 },
}

impl Expr {
    /// The mathematical view of this node and everything below it.
    pub open spec fn model(self) -> ExprModel
        decreases self,
    {
        match self {
            Expr::StrLit { text, span } => ExprModel::StrLit { text: text@, span },
            Expr::CharLit { value, span } => ExprModel::CharLit { value: value as u32, span },
            Expr::Atom { span } => ExprModel::Atom { span },
            Expr::Node { kind, children, span } => ExprModel::Node {
                kind,
                children: model_seq(children@),
                span,
            },
        }
    }
}

impl View for Expr {
    type V = ExprModel;

    open spec fn view(&self) -> ExprModel {
        (*self).model()
    }
}

/// The views of a list of nodes, in order.
pub open spec fn model_seq(es: Seq<Expr>) -> Seq<ExprModel>
    decreases es,
{
    if es.len() == 0 {
        Seq::<ExprModel>::empty()
    } else {
        model_seq(es.drop_last()).push(es.last().model())
    }
}

/// `model_seq` is the pointwise view of its argument.
pub proof fn lemma_model_seq(es: Seq<Expr>)
    ensures
        model_seq(es).len() == es.len(),
        forall|i: int| 0 <= i < es.len() ==> model_seq(es)[i] == es[i].model(),
    decreases es.len(),
{
    if es.len() != 0 {
        lemma_model_seq(es.drop_last());
    }
}

/// The source-position tag of a node, whatever its variant.
pub open spec fn span_of(m: ExprModel) -> u64 {
    match m {
        ExprModel::StrLit { span, .. } => span,
        ExprModel::CharLit { span, .. } => span,
        ExprModel::Atom { span } => span,
        ExprModel::Node { span, .. } => span,
    }
}

impl Expr {
    /// The source-position tag of this node.
    pub fn span(&self) -> (s: u64)
        ensures
            s == span_of(self@),
    {
        match self {
            Expr::StrLit { span, .. } => *span,
            Expr::CharLit { span, .. } => *span,
            Expr::Atom { span } => *span,
            Expr::Node { span, .. } => *span,
        }
    }
}

/// `Vec::push`, with its effect on the view stated directly, so that
/// loop invariants about the new view need no further unfolding.
pub(crate) fn vec_push<T>(v: &mut Vec<T>, e: T)
    ensures
        final(v)@.len() == old(v)@.len() + 1,
        forall|j: int| 0 <= j < old(v)@.len() ==> final(v)@[j] == old(v)@[j],
        final(v)@[old(v)@.len() as int] == e,
{
    let ghost prev: Seq<T> = v@;
    v.push(e);
    proof {
        vstd::seq::axiom_seq_push_len(prev, e);
        vstd::seq::axiom_seq_push_index_same(prev, e, prev.len() as int);
        assert forall|j: int| 0 <= j < prev.len() implies v@[j] == prev[j] by {
            vstd::seq::axiom_seq_push_index_different(prev, e, j);
        }
    }
}

/// Decodes a string slice into its Unicode scalar values, in order: the
/// decomposition step of the substitution.
pub fn str_to_chars(s: &str) -> (r: Vec<char>)
    ensures
        r@ == s@,
{
    let n: usize = s.unicode_len();
    let mut r: Vec<char> = Vec::new();
    let mut i: usize = 0;
    while i < n
        invariant
            n == s@.len(),
            i <= n,
            r@.len() == i as nat,
            forall|j: int| 0 <= j < i ==> r@[j] == s@[j],
        decreases n - i,
    {
        let c = s.get_char(i);
        vec_push(&mut r, c);
        i = i + 1;
    }
    proof {
        assert(r@ =~= s@);
    }
    r
}

/// A string-literal node built from a string slice.
pub fn str_lit(text: &str, span: u64) -> (e: Expr)
    ensures
        e@ == (ExprModel::StrLit { text: text@, span }),
{
    Expr::StrLit { text: str_to_chars(text), span }
}

/// The kind tag of a declaration.
#[derive(Debug, Clone, Copy, PartialEq, Eq, Structural)]
pub enum ItemKind {
    /// A constant declaration; its one expression is the initializer.
    ConstDecl,
    /// A function declaration; its expressions are the body statements.
    FnDecl,
    /// A module declaration; its nested items are the members.
    ModDecl,
}

/// One parsed declaration: a kind tag, the expressions it owns directly,
/// and the declarations nested inside it.
#[derive(Debug, PartialEq, Eq)]
pub struct Item {
    pub kind: ItemKind,
    pub exprs: Vec<Expr>,
    pub items: Vec<Item>,
    pub span: u64,
}

/// The mathematical image of an `Item`.
#[verifier::ext_equal]
pub struct ItemModel {
    pub kind: ItemKind,
    pub exprs: Seq<ExprModel>,
    pub items: Seq<ItemModel>,
    pub span: u64,
}

impl Item {
    /// The mathematical view of this declaration and everything below it.
    pub open spec fn model(self) -> ItemModel
        decreases self,
    {
        ItemModel {
            kind: self.kind,
            exprs: model_seq(self.exprs@),
            items: item_model_seq(self.items@),
            span: self.span,
        }
    }
}

impl View for Item {
    type V = ItemModel;

    open spec fn view(&self) -> ItemModel {
        (*self).model()
    }
}

/// The views of a list of declarations, in order.
pub open spec fn item_model_seq(its: Seq<Item>) -> Seq<ItemModel>
    decreases its,
{
    if its.len() == 0 {
        Seq::<ItemModel>::empty()
    } else {
        item_model_seq(its.drop_last()).push(its.last().model())
    }
}

/// `item_model_seq` is the pointwise view of its argument.
pub proof fn lemma_item_model_seq(its: Seq<Item>)
    ensures
        item_model_seq(its).len() == its.len(),
        forall|i: int| 0 <= i < its.len() ==> item_model_seq(its)[i] == its[i].model(),
    decreases its.len(),
{
    if its.len() != 0 {
        lemma_item_model_seq(its.drop_last());
    }
}

} // verus!
