//! The parsed structure of a document, as far as hint extraction reads it.

use vstd::prelude::*;

verus! {

/// The offsets at which a piece of source text starts and ends.
#[derive(Clone, Copy, Debug, PartialEq, Eq, Structural)]
pub struct Span {
    pub start: u32,
    pub end: u32,
}

/// The kinds of literal that carry a type hint.
#[derive(Clone, Copy, Debug, PartialEq, Eq, Structural)]
pub enum LiteralKind {
    Array,
    Bool,
    Integer,
    Str,
}

/// What an expression is: a literal of some kind, or anything else.
#[derive(Clone, Copy, Debug, PartialEq, Eq, Structural)]
pub enum ExpressionKind {
    Literal(LiteralKind),
    Other,
}

/// An expression and the place where it stands in the source.
#[derive(Clone, Copy, Debug, PartialEq, Eq, Structural)]
pub struct Expression {
    pub kind: ExpressionKind,
    pub span: Span,
}

/// A statement of a function body: a local binding with the expression that
/// it binds, or any other statement.
#[derive(Clone, Copy, Debug, PartialEq, Eq, Structural)]
pub enum Statement {
    Let(Expression),
    Other,
}

/// How a function came to be: written in the source as an ordinary function,
/// or provided by the compiler or the backend.
#[derive(Clone, Copy, Debug, PartialEq, Eq, Structural)]
pub enum FunctionKind {
    Normal,
    LowLevel,
    Builtin,
}

/// A function declaration with its statements in source order.
#[derive(Clone, Debug, PartialEq, Eq)]
pub struct FunctionDecl {
    pub kind: FunctionKind,
    pub body: Vec<Statement>,
}

/// A message of the parser about a place in the source.
#[derive(Clone, Debug, PartialEq, Eq)]
pub struct Diagnostic {
    pub message: String,
    pub span: Span,
}

/// A snapshot of the parsed structure of one document, with the diagnostics
/// that the parser produced alongside it. The tree may be partial where the
/// diagnostics are not empty.
#[derive(Clone, Debug, PartialEq, Eq)]
pub struct SyntaxTree {
    pub functions: Vec<FunctionDecl>,
    pub diagnostics: Vec<Diagnostic>,
}

/// The mathematical value of a [`FunctionDecl`].
pub ghost struct FunctionDeclView {
    pub kind: FunctionKind,
    pub body: Seq<Statement>,
}

/// The mathematical value of a [`Diagnostic`].
pub ghost struct DiagnosticView {
    pub message: Seq<char>,
    pub span: Span,
}

/// The mathematical value of a [`SyntaxTree`].
pub ghost struct SyntaxTreeView {
    pub functions: Seq<FunctionDeclView>,
    pub diagnostics: Seq<DiagnosticView>,
}

impl View for FunctionDecl {
    type V = FunctionDeclView;

    open spec fn view(&self) -> FunctionDeclView {
        FunctionDeclView { kind: self.kind, body: self.body@ }
    }
}

impl View for Diagnostic {
    type V = DiagnosticView;

    open spec fn view(&self) -> DiagnosticView {
        DiagnosticView { message: self.message@, span: self.span }
    }
}

impl View for SyntaxTree {
    type V = SyntaxTreeView;

    open spec fn view(&self) -> SyntaxTreeView {
        SyntaxTreeView {
            functions: self.functions@.map_values(|f: FunctionDecl| f@),
            diagnostics: self.diagnostics@.map_values(|d: Diagnostic| d@),
        }
    }
}

impl SyntaxTree {
    /// Whether the parser reported anything, in which case the tree may be
    /// partial.
    pub fn has_diagnostics(&self) -> (b: bool)
        ensures
            b == (self@.diagnostics.len() > 0),
    {
        self.diagnostics.len() > 0
    }
}

} // verus!
