//! The structural description of a record type that the generators consume.

use vstd::prelude::*;

verus! {

/// A reference to a type: an ordered path of identifier segments plus an
/// ordered list of generic-argument type expressions.
///
/// `Option<u32>` is `path = ["Option"], args = [u32]`; the qualified path
/// `T::Value` is `path = ["T", "Value"], args = []`.
#[derive(Debug)]
pub struct TypeExpr {
    pub path: Vec<String>,
    pub args: Vec<TypeExpr>,
}

impl TypeExpr {
    /// The optional-wrapper shape: a path of exactly one segment named
    /// `Option`.  Its argument count is checked separately, so that a bare or
    /// multi-argument `Option` can be reported as a configuration error.
    pub open spec fn is_option_shape(self) -> bool {
        self.path@.len() == 1 && self.path@[0]@ == "Option"@
    }

    /// The marker-wrapper shape: a path of exactly one segment named
    /// `PhantomData`.  A field of this shape tags the record with a type
    /// parameter without holding a value of it, so bound inference never
    /// looks inside it.
    pub open spec fn is_marker_shape(self) -> bool {
        self.path@.len() == 1 && self.path@[0]@ == "PhantomData"@
    }

    /// A single-segment path with exactly one generic argument: the only
    /// wrapper shape the generators unwrap.
    pub open spec fn is_unary_wrapper(self) -> bool {
        self.path@.len() == 1 && self.args@.len() == 1
    }
}

/// One token out of an attribute's payload, after the host front end has
/// split the payload into identifiers, punctuation and literals.
#[derive(Debug, PartialEq, Eq, Clone)]
pub enum Token {
    /// An opening parenthesis.
    LParen,
    /// A closing parenthesis.
    RParen,
    /// An identifier.
    Ident(String),
    /// The `=` sign.
    Equals,
    /// A string literal, with its text.
    StrLit(String),
    /// Any token of another kind, such as a non-string literal.
    Other,
}

/// One attribute occurrence on a field, still unparsed: the attribute's path
/// identifier (such as `builder` or `debug`), its payload tokens, and the
/// source location the front end recorded for it.
#[derive(Debug, PartialEq, Eq, Clone)]
pub struct RawAttr {
    pub path: String,
    pub tokens: Vec<Token>,
    pub span: usize,
}

/// A named field of the record: its identifier, declared type expression,
/// attribute occurrences in declaration order, and source location.
#[derive(Debug)]
pub struct FieldDescriptor {
    pub name: String,
    pub ty: TypeExpr,
    pub attrs: Vec<RawAttr>,
    pub span: usize,
}

/// A declared generic parameter: its identifier and the rendered text of any
/// bounds already present on its declaration.  The pre-existing bounds are
/// carried through to the generated output unchanged and never inspected.
#[derive(Debug, PartialEq, Eq, Clone)]
pub struct GenericParam {
    pub name: String,
    pub bounds: Vec<String>,
}

/// The full structural description of one record type, with generic
/// parameters and fields in declaration order.
#[derive(Debug)]
pub struct TypeDescriptor {
    pub name: String,
    pub generics: Vec<GenericParam>,
    pub fields: Vec<FieldDescriptor>,
}

/// Compares an identifier from the description against a fixed name.
pub fn ident_is(s: &String, lit: &str) -> (r: bool)
    ensures
        r == (s@ == lit@),
{
    let owned: String = lit.to_owned();
    s.eq(&owned)
}

} // verus!
