use vstd::prelude::*;

verus! {

/// Visibility of a declaration or a field, as the source language states it.
/// `Unrecognized` stands for any form outside the four known ones, reserved
/// for forward compatibility.
#[derive(Clone, Copy, PartialEq, Eq, Structural, Debug)]
pub enum DeclVis {
    Public,
    Crate,
    Restricted,
    Inherited,
    Unrecognized,
}

/// A literal standing inside an attribute argument: only string literals
/// carry information for this generator.
#[derive(Debug, PartialEq, Eq)]
pub enum AttrLit {
    Str(String),
    Other,
}

/// One interpreted attribute argument: a bare word, a parenthesized list of
/// nested items keyed by an identifier, or a `name = value` pair.
#[derive(Debug, PartialEq, Eq)]
pub enum AttrMeta {
    Word(String),
    List(String, Vec<AttrNested>),
    NameValue(String, AttrLit),
}

/// An item inside a parenthesized attribute list: either a nested meta item
/// or a bare literal.
#[derive(Debug, PartialEq, Eq)]
pub enum AttrNested {
    Meta(AttrMeta),
    Lit(AttrLit),
}

/// An attribute attached to a declaration, field or variant: its path
/// segments and its interpreted argument shape. `meta` is `None` where the
/// argument form could not be interpreted as a structured meta item.
#[derive(Debug, PartialEq, Eq)]
pub struct Attr {
    pub path: Vec<String>,
    pub meta: Option<AttrMeta>,
}

/// A named field of a struct with named members.
#[derive(Debug, PartialEq, Eq)]
pub struct NamedField {
    pub name: String,
    pub vis: DeclVis,
    pub ty: String,
    pub attrs: Vec<Attr>,
}

/// A positional field of a tuple-like struct; `index` is its zero-based
/// position.
#[derive(Debug, PartialEq, Eq)]
pub struct UnnamedField {
    pub index: usize,
    pub vis: DeclVis,
    pub ty: String,
    pub attrs: Vec<Attr>,
}

/// A field of an enum variant: only its declared type and attributes drive
/// generation; variant fields carry no translated visibility of their own.
#[derive(Debug, PartialEq, Eq)]
pub struct VariantField {
    pub ty: String,
    pub attrs: Vec<Attr>,
}

/// One variant of an enumeration, with its own attributes and its ordered
/// fields (empty for unit-like variants).
#[derive(Debug, PartialEq, Eq)]
pub struct EnumVariant {
    pub name: String,
    pub attrs: Vec<Attr>,
    pub fields: Vec<VariantField>,
}

/// The structural shape of a declaration. Order of fields and variants is
/// significant: it drives offset computation and emission order.
#[derive(Debug, PartialEq, Eq)]
pub enum Shape {
    NamedStruct(Vec<NamedField>),
    TupleStruct(Vec<UnnamedField>),
    UnitStruct,
    Enum(Vec<EnumVariant>),
    Union,
}

/// A parsed type declaration as the host compiler hands it over: identifier,
/// visibility, the three rendered generics fragments (empty strings where the
/// declaration has none), and exactly one shape.
#[derive(Debug, PartialEq, Eq)]
pub struct TypeDecl {
    pub name: String,
    pub vis: DeclVis,
    pub impl_generics: String,
    pub ty_generics: String,
    pub where_clause: String,
    pub shape: Shape,
}

} // verus!
