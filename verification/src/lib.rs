//! Rewrites string-literal nodes of a small expression grammar into
//! character-array nodes, one element per Unicode scalar value, with
//! the transformation and its laws stated and proved over a
//! mathematical model of the tree.

pub mod ast;
pub mod laws;
pub mod rewrite;

pub use ast::Expr;
pub use ast::ExprModel;
pub use ast::Item;
pub use ast::ItemKind;
pub use ast::ItemModel;
pub use ast::NodeKind;
pub use rewrite::utf32;
pub use rewrite::utf32_all_strings;
pub use rewrite::utf32_literal;
pub use rewrite::RewriteError;
