//! The declaration that a builder is asked for, as the host hands it in.

use crate::span::Span;
use crate::token::Token;
use vstd::prelude::*;

verus! {

/// One annotation entry on a declaration or on a field: `#[name tokens]`.
#[derive(Debug)]
pub struct Attribute {
    /// The path before the body. Only a path that is the single word `builder`
    /// makes the entry one of this library's.
    pub name: String,
    /// The raw tokens after the path.
    pub tokens: Vec<Token>,
    /// The location of the whole entry.
    pub span: Span,
}

/// One generic parameter of a declaration.
#[derive(Clone, Debug)]
pub struct GenericParam {
    /// How the parameter is referred to: `T`, `'a`, `N`.
    pub name: String,
    /// The parameter as it was declared, bounds included: `T: Clone`.
    pub decl: String,
}

/// The generic parameters of a declaration, in order, and its `where` clause.
#[derive(Debug)]
pub struct Generics {
    pub params: Vec<GenericParam>,
    pub where_clause: Option<String>,
}

/// One field of a record, before its annotations are read.
#[derive(Debug)]
pub struct FieldDecl {
    pub attrs: Vec<Attribute>,
    pub ident: Option<String>,
    /// The type expression, as it was written.
    pub ty: String,
}

/// The shape of a record's body.
#[derive(Debug)]
pub enum Fields {
    /// `{ a: A, b: B }`
    Named(Vec<FieldDecl>),
    /// `(A, B)`
    Unnamed,
    /// No body at all.
    Unit,
}

/// What kind of type a declaration declares.
#[derive(Debug)]
pub enum Data {
    Struct(Fields),
    Enum,
    Union,
}

/// One type declaration.
#[derive(Debug)]
pub struct Declaration {
    pub attrs: Vec<Attribute>,
    pub ident: String,
    pub generics: Generics,
    pub data: Data,
    /// The location of the whole declaration.
    pub span: Span,
}

} // verus!
