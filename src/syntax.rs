//! The tree model that the host hands to the rules: expressions, items,
//! annotations and the spans that anchor diagnostics.
use vstd::prelude::*;

verus! {

/// A source location: a file of the source map and a byte range in it.
#[derive(Clone, Copy, Debug, PartialEq, Eq, Structural)]
pub struct Span {
    pub file: usize,
    pub lo: usize,
    pub hi: usize,
}

/// A name as written in the source, with the span of its token.
#[derive(Clone, Debug)]
pub struct Ident {
    pub name: String,
    pub span: Span,
}

/// A type as it stands in a type-relative path (`Ty::name`).
#[derive(Clone, Debug)]
pub enum Ty {
    /// A plain path type, by its segments.
    Path(Vec<Ident>),
    /// Any other type form (a reference, a tuple, ...).
    Other(Span),
}

/// The two forms a path expression can take.
#[derive(Clone, Debug)]
pub enum QPath {
    /// `a::b::c`, by its segments.
    Resolved(Vec<Ident>),
    /// `<Ty>::name`: a segment relative to a type.
    TypeRelative(Ty, Ident),
}

/// An expression node of the analysed program.
#[derive(Debug)]
pub enum Expr {
    /// A call of a function value: `callee(args)`.
    Call { callee: Box<Expr>, args: Vec<Expr>, span: Span },
    /// A method call: `receiver.method(args)`.
    MethodCall { method: Ident, receiver: Box<Expr>, args: Vec<Expr>, span: Span },
    /// A path used as a value.
    Path { path: QPath, span: Span },
    /// Any other expression (literal, block, operator, closure ...), with
    /// the expressions nested in it.
    Other { children: Vec<Expr>, span: Span },
}

/// One entry inside an annotation's list.
#[derive(Clone, Debug)]
pub enum MetaEntry {
    /// `key`, `key = "value"` or `key(...)`: `value` holds the string
    /// value where there is one.
    Item { key: String, value: Option<String>, span: Span },
    /// An entry that is not keyed (a bare literal).
    Literal(Span),
}

/// A structured annotation (`#[ns(...)]`) attached to a declaration.
#[derive(Clone, Debug)]
pub struct Attribute {
    /// The annotation's namespace (its path, e.g. `serde`).
    pub name: String,
    /// The entries of its list, or `None` where it is no list.
    pub entries: Option<Vec<MetaEntry>>,
    pub span: Span,
}

/// A field of a struct or of an enum variant.
#[derive(Clone, Debug)]
pub struct Field {
    pub attrs: Vec<Attribute>,
    pub span: Span,
}

/// A variant of an enum.
#[derive(Clone, Debug)]
pub struct Variant {
    pub name: Ident,
    pub attrs: Vec<Attribute>,
    pub fields: Vec<Field>,
    pub span: Span,
}

#[derive(Clone, Debug)]
pub enum ItemKind {
    Struct(Vec<Field>),
    Enum(Vec<Variant>),
    /// Any other item (function, module, impl ...).
    Other,
}

/// An item declaration with its annotations.
#[derive(Clone, Debug)]
pub struct Item {
    pub name: Ident,
    pub attrs: Vec<Attribute>,
    pub kind: ItemKind,
    pub span: Span,
}

} // verus!
