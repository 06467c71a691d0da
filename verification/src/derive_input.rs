//! The declaration layer's input: what it reads from an annotated type
//! declaration, held as plain values.

use vstd::prelude::*;

verus! {

/// The payload of an injection marker, after the front end has parsed the
/// marker's content as an expression.
pub enum InjectExpr {
    /// A parenthesized expression; the layer strips parentheses before
    /// classifying.
    Paren(Box<InjectExpr>),
    /// A closure expression, held as its token text; the generated
    /// construction code invokes it with no arguments.
    Closure(String),
    /// Any other expression: the generated construction code falls back to
    /// the field type's default value.
    Other,
}

/// One field type, as the declaration layer reads it: its token text, for
/// emission, and, when the type is a plain named path, the identifier of
/// the path's last segment, for parameter-name derivation on positional
/// fields.
pub struct FieldType {
    pub text: String,
    pub path_ident: Option<String>,
}

/// One declared field.  A field carrying an injection marker is locally
/// computed from the marker's expression; every other field is an injected
/// dependency.
pub struct Field {
    /// The declared field name; present exactly on named-field shapes.
    pub name: Option<String>,
    pub ty: FieldType,
    /// The injection marker with its payload, when the field carries one.
    pub inject: Option<InjectExpr>,
}

/// The field list of a product-type declaration.
pub enum Fields {
    Named(Vec<Field>),
    Unnamed(Vec<Field>),
    Unit,
}

/// The data of a type declaration.  Only product types (structs) are
/// supported by the declaration layer.
pub enum Data {
    Struct(Fields),
    Enum,
    Union,
}

/// The generic parameters of a declaration, by name.
pub struct Generics {
    pub params: Vec<String>,
}

/// An annotated type declaration, as handed to the declaration layer.
pub struct DeriveInput {
    pub ident: String,
    pub generics: Generics,
    pub data: Data,
}

} // verus!
