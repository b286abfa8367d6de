//! The parts of a parsed controller module that route discovery reads.
//!
//! A parser outside the library produces these values; the library only
//! walks them.
use crate::text::opt_seq;
use vstd::prelude::*;

verus! {

/// One segment of a path such as `Vec::<T>::new`, with its generic type
/// arguments (an argument that is not a type stands as `TypeRef::Other`).
#[derive(Debug)]
pub struct PathSegment {
    pub ident: String,
    pub args: Vec<TypeRef>,
}

/// A written type.
#[derive(Debug)]
pub enum TypeRef {
    /// A path type such as `Json<Payload>`.
    Path(Vec<PathSegment>),
    /// An opaque `impl Trait` type.
    ImplTrait,
    /// Any other type.
    Other,
}

/// A literal.
#[derive(Debug)]
pub enum Lit {
    /// A string literal, with its value.
    Str(String),
    /// Any other literal.
    Other,
}

/// An expression.
#[derive(Debug)]
pub enum Expr {
    /// `func(args)`.
    Call { func: Box<Expr>, args: Vec<Expr> },
    /// `receiver.method(args)`.
    MethodCall { receiver: Box<Expr>, method: String, args: Vec<Expr> },
    /// A path such as `format::json` or `get_user`.
    Path(Vec<PathSegment>),
    /// A literal.
    Lit(Lit),
    /// `return` with its value, if any.
    Return(Option<Box<Expr>>),
    /// A block of statements.
    Block(Vec<Stmt>),
    /// `if cond { then_branch } else else_branch`.
    If { cond: Box<Expr>, then_branch: Vec<Stmt>, else_branch: Option<Box<Expr>> },
    /// `match scrutinee { .. }`, with the bodies of its arms in order.
    Match { scrutinee: Box<Expr>, arms: Vec<Expr> },
    /// Any other expression.
    Other,
}

/// A statement.
#[derive(Debug)]
pub enum Stmt {
    /// `let` with its initializer, if any.
    Local(Option<Expr>),
    /// An expression statement.
    Expr(Expr),
    /// A nested item or a macro statement.
    Other,
}

/// A parameter of a function.
#[derive(Debug)]
pub struct FnParam {
    /// The bound name, where the pattern is a plain identifier.
    pub name: Option<String>,
    pub ty: TypeRef,
}

/// A function declaration.
#[derive(Debug)]
pub struct ItemFn {
    pub name: String,
    pub params: Vec<FnParam>,
    /// The declared return type; `None` where none is written.
    pub output: Option<TypeRef>,
    pub body: Vec<Stmt>,
}

/// A top-level item of a module.
#[derive(Debug)]
pub enum Item {
    Fn(ItemFn),
    Other,
}

/// A parsed controller module.
#[derive(Debug)]
pub struct SourceModule {
    /// The file name, for messages.
    pub file_name: String,
    pub items: Vec<Item>,
}

/// The identifier of the last segment of a path.
pub open spec fn last_ident(segs: Seq<PathSegment>) -> Option<Seq<char>> {
    if segs.len() > 0 {
        Some(segs.last().ident@)
    } else {
        None
    }
}

/// The identifier of the last segment of a path, if it has one.
pub fn last_segment_ident(segs: &Vec<PathSegment>) -> (r: Option<String>)
    ensures
        opt_seq(r) == last_ident(segs@),
{
    if segs.len() > 0 {
        Some(segs[segs.len() - 1].ident.clone())
    } else {
        None
    }
}


} // verus!
