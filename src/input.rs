//! The description of a type that error boilerplate is generated for.
use vstd::prelude::*;

verus! {

/// The value of a `name = value` option.
#[derive(Clone, Debug, PartialEq, Eq)]
pub enum Literal {
    Str(String),
    Other,
}

/// One option inside an attribute list such as `#[error(no_from, msg = "...")]`.
#[derive(Clone, Debug, PartialEq, Eq)]
pub enum NestedItem {
    Word(String),
    NameValue(String, Literal),
    Other,
}

/// An attribute attached to a type or a case.
#[derive(Clone, Debug, PartialEq, Eq)]
pub enum Attribute {
    /// A doc comment, with its text as written (`/// Custom error`).
    Doc(String),
    /// A list attribute: its name and its options.
    List(String, Vec<NestedItem>),
    Other,
}

/// A named member of a case: its name and its type, as source text.
#[derive(Clone, Debug, PartialEq, Eq)]
pub struct NamedField {
    pub ident: String,
    pub ty: String,
}

/// The members of a case or of a struct.
#[derive(Clone, Debug, PartialEq, Eq)]
pub enum VariantData {
    Unit,
    /// Positional members, by type.
    Tuple(Vec<String>),
    Struct(Vec<NamedField>),
}

/// One case of a tagged union.
#[derive(Clone, Debug, PartialEq, Eq)]
pub struct Variant {
    pub ident: String,
    pub attrs: Vec<Attribute>,
    pub data: VariantData,
}

/// A single-case form (a struct) or a tagged union (an enum) with its cases in order.
#[derive(Clone, Debug, PartialEq, Eq)]
pub enum Body {
    Struct(VariantData),
    Enum(Vec<Variant>),
}

/// The generic parameters of the type, as the three pieces of source text that an
/// implementation for it needs.
#[derive(Clone, Debug, PartialEq, Eq)]
pub struct Generics {
    pub impl_generics: String,
    pub ty_generics: String,
    pub where_clause: String,
}

#[derive(Clone, Debug, PartialEq, Eq)]
pub struct TypeDescription {
    pub ident: String,
    pub attrs: Vec<Attribute>,
    pub generics: Generics,
    pub body: Body,
}

pub enum NestedItemModel {
    Word(Seq<char>),
    /// `None` where the value is not a string literal.
    NameValue(Seq<char>, Option<Seq<char>>),
    Other,
}

pub enum AttributeModel {
    Doc(Seq<char>),
    List(Seq<char>, Seq<NestedItemModel>),
    Other,
}

pub struct NamedFieldModel {
    pub ident: Seq<char>,
    pub ty: Seq<char>,
}

pub enum VariantDataModel {
    Unit,
    Tuple(Seq<Seq<char>>),
    Struct(Seq<NamedFieldModel>),
}

pub struct VariantModel {
    pub ident: Seq<char>,
    pub attrs: Seq<AttributeModel>,
    pub data: VariantDataModel,
}

pub enum BodyModel {
    Struct(VariantDataModel),
    Enum(Seq<VariantModel>),
}

pub struct GenericsModel {
    pub impl_generics: Seq<char>,
    pub ty_generics: Seq<char>,
    pub where_clause: Seq<char>,
}

pub struct TypeDescriptionModel {
    pub ident: Seq<char>,
    pub attrs: Seq<AttributeModel>,
    pub generics: GenericsModel,
    pub body: BodyModel,
}

impl View for NestedItem {
    type V = NestedItemModel;

    open spec fn view(&self) -> NestedItemModel {
        match self {
            NestedItem::Word(k) => NestedItemModel::Word(k@),
            NestedItem::NameValue(k, Literal::Str(v)) => NestedItemModel::NameValue(k@, Some(v@)),
            NestedItem::NameValue(k, Literal::Other) => NestedItemModel::NameValue(k@, None),
            NestedItem::Other => NestedItemModel::Other,
        }
    }
}

impl View for Attribute {
    type V = AttributeModel;

    open spec fn view(&self) -> AttributeModel {
        match self {
            Attribute::Doc(t) => AttributeModel::Doc(t@),
            Attribute::List(k, items) => AttributeModel::List(
                k@,
                items@.map_values(|i: NestedItem| i@),
            ),
            Attribute::Other => AttributeModel::Other,
        }
    }
}

impl View for NamedField {
    type V = NamedFieldModel;

    open spec fn view(&self) -> NamedFieldModel {
        NamedFieldModel { ident: self.ident@, ty: self.ty@ }
    }
}

impl View for VariantData {
    type V = VariantDataModel;

    open spec fn view(&self) -> VariantDataModel {
        match self {
            VariantData::Unit => VariantDataModel::Unit,
            VariantData::Tuple(tys) => VariantDataModel::Tuple(tys@.map_values(|t: String| t@)),
            VariantData::Struct(fs) => VariantDataModel::Struct(
                fs@.map_values(|f: NamedField| f@),
            ),
        }
    }
}

impl View for Variant {
    type V = VariantModel;

    open spec fn view(&self) -> VariantModel {
        VariantModel {
            ident: self.ident@,
            attrs: self.attrs@.map_values(|a: Attribute| a@),
            data: self.data@,
        }
    }
}

impl View for Body {
    type V = BodyModel;

    open spec fn view(&self) -> BodyModel {
        match self {
            Body::Struct(d) => BodyModel::Struct(d@),
            Body::Enum(vs) => BodyModel::Enum(vs@.map_values(|v: Variant| v@)),
        }
    }
}

impl View for Generics {
    type V = GenericsModel;

    open spec fn view(&self) -> GenericsModel {
        GenericsModel {
            impl_generics: self.impl_generics@,
            ty_generics: self.ty_generics@,
            where_clause: self.where_clause@,
        }
    }
}

impl View for TypeDescription {
    type V = TypeDescriptionModel;

    open spec fn view(&self) -> TypeDescriptionModel {
        TypeDescriptionModel {
            ident: self.ident@,
            attrs: self.attrs@.map_values(|a: Attribute| a@),
            generics: self.generics@,
            body: self.body@,
        }
    }
}

} // verus!
