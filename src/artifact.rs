//! What generation produces: the bodies of the display, description and cause
//! operations and the conversion functions, as instructions for a code emitter.
use crate::input::{Generics, GenericsModel};
use vstd::prelude::*;

verus! {

/// How a branch matches its case.
#[derive(Clone, Debug, PartialEq, Eq)]
pub enum Pattern {
    Unit,
    /// The case's single positional member.
    Tuple,
    /// The case's single named member, by name.
    Struct(String),
}

/// What a branch yields.
#[derive(Clone, Debug, PartialEq, Eq)]
pub enum Expr {
    /// A fixed message.
    Message(String),
    /// The member's own rendered text.
    MemberText,
    /// The member's own description.
    MemberDescription,
    /// The member, as the cause.
    MemberCause,
    /// No cause.
    NoCause,
}

/// One branch of a dispatch over the cases.
#[derive(Clone, Debug, PartialEq, Eq)]
pub struct Arm {
    pub case_ident: String,
    pub pattern: Pattern,
    pub expr: Expr,
}

/// A function from the member's type to the whole type, building the case.
/// Member types are not compared across cases: two cases that wrap the same type each
/// get a conversion, and the compiler reports the clash.
#[derive(Clone, Debug, PartialEq, Eq)]
pub struct Conversion {
    pub case_ident: String,
    pub pattern: Pattern,
    pub source_ty: String,
}

/// The body of one operation: one expression for a single-case form, or one branch
/// per case, in declaration order.
#[derive(Clone, Debug, PartialEq, Eq)]
pub enum Block {
    Direct(Expr),
    Dispatch(Vec<Arm>),
}

#[derive(Clone, Debug, PartialEq, Eq)]
pub struct Artifact {
    pub ident: String,
    pub generics: Generics,
    pub display: Block,
    pub description: Block,
    pub cause: Block,
    pub conversions: Vec<Conversion>,
}

/// Why generation was refused; each names the type or case at fault.
#[derive(Clone, Debug, PartialEq, Eq)]
pub enum DeriveError {
    /// A struct with members.
    StructWithFields(String),
    /// An enum without cases.
    NoVariants(String),
    /// A case written with empty parentheses.
    EmptyTupleCase(String),
    /// A case written with empty braces.
    EmptyStructCase(String),
    /// A case with more than one member.
    TooManyMembers(String),
    /// A `msg` option whose value is not a string literal.
    MsgNotString(String),
    /// A case with both `msg` and `msg_embedded`.
    MsgConflict(String),
}

pub enum PatternModel {
    Unit,
    Tuple,
    Struct(Seq<char>),
}

pub enum ExprModel {
    Message(Seq<char>),
    MemberText,
    MemberDescription,
    MemberCause,
    NoCause,
}

pub struct ArmModel {
    pub case_ident: Seq<char>,
    pub pattern: PatternModel,
    pub expr: ExprModel,
}

pub struct ConversionModel {
    pub case_ident: Seq<char>,
    pub pattern: PatternModel,
    pub source_ty: Seq<char>,
}

pub enum BlockModel {
    Direct(ExprModel),
    Dispatch(Seq<ArmModel>),
}

pub struct ArtifactModel {
    pub ident: Seq<char>,
    pub generics: GenericsModel,
    pub display: BlockModel,
    pub description: BlockModel,
    pub cause: BlockModel,
    pub conversions: Seq<ConversionModel>,
}

pub enum DeriveErrorModel {
    StructWithFields(Seq<char>),
    NoVariants(Seq<char>),
    EmptyTupleCase(Seq<char>),
    EmptyStructCase(Seq<char>),
    TooManyMembers(Seq<char>),
    MsgNotString(Seq<char>),
    MsgConflict(Seq<char>),
}

impl View for Pattern {
    type V = PatternModel;

    open spec fn view(&self) -> PatternModel {
        match self {
            Pattern::Unit => PatternModel::Unit,
            Pattern::Tuple => PatternModel::Tuple,
            Pattern::Struct(f) => PatternModel::Struct(f@),
        }
    }
}

impl View for Expr {
    type V = ExprModel;

    open spec fn view(&self) -> ExprModel {
        match self {
            Expr::Message(m) => ExprModel::Message(m@),
            Expr::MemberText => ExprModel::MemberText,
            Expr::MemberDescription => ExprModel::MemberDescription,
            Expr::MemberCause => ExprModel::MemberCause,
            Expr::NoCause => ExprModel::NoCause,
        }
    }
}

impl View for Arm {
    type V = ArmModel;

    open spec fn view(&self) -> ArmModel {
        ArmModel { case_ident: self.case_ident@, pattern: self.pattern@, expr: self.expr@ }
    }
}

impl View for Conversion {
    type V = ConversionModel;

    open spec fn view(&self) -> ConversionModel {
        ConversionModel {
            case_ident: self.case_ident@,
            pattern: self.pattern@,
            source_ty: self.source_ty@,
        }
    }
}

impl View for Block {
    type V = BlockModel;

    open spec fn view(&self) -> BlockModel {
        match self {
            Block::Direct(e) => BlockModel::Direct(e@),
            Block::Dispatch(arms) => BlockModel::Dispatch(arms@.map_values(|a: Arm| a@)),
        }
    }
}

impl View for Artifact {
    type V = ArtifactModel;

    open spec fn view(&self) -> ArtifactModel {
        ArtifactModel {
            ident: self.ident@,
            generics: self.generics@,
            display: self.display@,
            description: self.description@,
            cause: self.cause@,
            conversions: self.conversions@.map_values(|c: Conversion| c@),
        }
    }
}

impl View for DeriveError {
    type V = DeriveErrorModel;

    open spec fn view(&self) -> DeriveErrorModel {
        match self {
            DeriveError::StructWithFields(n) => DeriveErrorModel::StructWithFields(n@),
            DeriveError::NoVariants(n) => DeriveErrorModel::NoVariants(n@),
            DeriveError::EmptyTupleCase(n) => DeriveErrorModel::EmptyTupleCase(n@),
            DeriveError::EmptyStructCase(n) => DeriveErrorModel::EmptyStructCase(n@),
            DeriveError::TooManyMembers(n) => DeriveErrorModel::TooManyMembers(n@),
            DeriveError::MsgNotString(n) => DeriveErrorModel::MsgNotString(n@),
            DeriveError::MsgConflict(n) => DeriveErrorModel::MsgConflict(n@),
        }
    }
}

impl Pattern {
    /// A copy of the pattern.
    pub fn clone_pattern(&self) -> (r: Pattern)
        ensures
            r@ == self@,
    {
        match self {
            Pattern::Unit => Pattern::Unit,
            Pattern::Tuple => Pattern::Tuple,
            Pattern::Struct(f) => Pattern::Struct(f.clone()),
        }
    }
}

/// The text that reports a failure to the author, with the likely fix where there is one.
pub open spec fn error_text(e: DeriveErrorModel) -> Seq<char> {
    match e {
        DeriveErrorModel::StructWithFields(n) => n
            + " has fields: only a struct without fields can derive an error. Use an enum instead."@,
        DeriveErrorModel::NoVariants(n) => n + " has no variants"@,
        DeriveErrorModel::EmptyTupleCase(n) => n
            + " looks awkward with no fields. Did you mean to add a type, eg. `"@ + n
            + "(::std::io::Error)` but forgot?"@,
        DeriveErrorModel::EmptyStructCase(n) => n
            + " looks awkward with no fields in it. Please use a unit variant instead. Example: `"@
            + n + "`"@,
        DeriveErrorModel::TooManyMembers(n) => n
            + " has more than one field. A variant can only wrap a single value."@,
        DeriveErrorModel::MsgNotString(n) => n + " does not have a string value for `msg`"@,
        DeriveErrorModel::MsgConflict(n) => n + " can't have both error `msg` and `msg_embedded` set"@,
    }
}

impl DeriveError {
    /// The report of this failure.
    pub fn message(&self) -> (r: String)
        ensures
            r@ == error_text(self@),
    {
        match self {
            DeriveError::StructWithFields(n) => n.clone().concat(
                " has fields: only a struct without fields can derive an error. Use an enum instead.",
            ),
            DeriveError::NoVariants(n) => n.clone().concat(" has no variants"),
            DeriveError::EmptyTupleCase(n) => n.clone().concat(
                " looks awkward with no fields. Did you mean to add a type, eg. `",
            ).concat(n.as_str()).concat("(::std::io::Error)` but forgot?"),
            DeriveError::EmptyStructCase(n) => n.clone().concat(
                " looks awkward with no fields in it. Please use a unit variant instead. Example: `",
            ).concat(n.as_str()).concat("`"),
            DeriveError::TooManyMembers(n) => n.clone().concat(
                " has more than one field. A variant can only wrap a single value.",
            ),
            DeriveError::MsgNotString(n) => n.clone().concat(" does not have a string value for `msg`"),
            DeriveError::MsgConflict(n) => n.clone().concat(
                " can't have both error `msg` and `msg_embedded` set",
            ),
        }
    }
}

/// The model of a result: each side by its view.
pub open spec fn view_result<T: View, E: View>(r: Result<T, E>) -> Result<T::V, E::V> {
    match r {
        Ok(t) => Ok(t@),
        Err(e) => Err(e@),
    }
}

} // verus!
