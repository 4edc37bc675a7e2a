//! Generation: each case classified by its shape, its branches appended to the four
//! buffers, and the buffers assembled into one artifact.
use crate::annotation::{variant_config, InfoModel, VariantInfo};
use crate::artifact::{
    view_result, Arm, ArmModel, Artifact, ArtifactModel, Block, BlockModel, Conversion,
    ConversionModel, DeriveError, DeriveErrorModel, Expr, ExprModel, Pattern, PatternModel,
};
use crate::input::{
    Body, BodyModel, NamedField, TypeDescription, TypeDescriptionModel, Variant, VariantData,
    VariantDataModel, VariantModel,
};
use crate::message::{default_message, resolved_message, title};
use crate::text::label_str;
use vstd::prelude::*;

verus! {

/// The three branches and the conversion, if any, that one case contributes.
pub struct CaseArms {
    pub display: ArmModel,
    pub description: ArmModel,
    pub cause: ArmModel,
    pub conversion: Option<ConversionModel>,
}

pub open spec fn arm(ident: Seq<char>, pattern: PatternModel, expr: ExprModel) -> ArmModel {
    ArmModel { case_ident: ident, pattern, expr }
}

/// A case without members: its message everywhere, no cause, no conversion.
pub open spec fn unit_arms(ident: Seq<char>, msg: Seq<char>) -> CaseArms {
    CaseArms {
        display: arm(ident, PatternModel::Unit, ExprModel::Message(msg)),
        description: arm(ident, PatternModel::Unit, ExprModel::Message(msg)),
        cause: arm(ident, PatternModel::Unit, ExprModel::NoCause),
        conversion: None,
    }
}

/// A case with one member of type `ty`, under its configuration.
pub open spec fn member_arms(
    ident: Seq<char>,
    pattern: PatternModel,
    ty: Seq<char>,
    info: InfoModel,
    msg: Seq<char>,
) -> CaseArms {
    CaseArms {
        display: arm(
            ident,
            pattern,
            if info.msg_embedded {
                ExprModel::MemberText
            } else {
                ExprModel::Message(msg)
            },
        ),
        description: arm(
            ident,
            pattern,
            if info.msg_embedded {
                ExprModel::MemberText
            } else if info.std_error {
                ExprModel::MemberDescription
            } else {
                ExprModel::Message(msg)
            },
        ),
        cause: arm(
            ident,
            pattern,
            if info.std_error {
                ExprModel::MemberCause
            } else {
                ExprModel::NoCause
            },
        ),
        conversion: if info.from {
            Some(ConversionModel { case_ident: ident, pattern, source_ty: ty })
        } else {
            None
        },
    }
}

/// What one case contributes, or why it is refused: its shape is checked first, then
/// its configuration.
pub open spec fn variant_outcome(v: VariantModel) -> Result<CaseArms, DeriveErrorModel> {
    match v.data {
        VariantDataModel::Unit => match variant_config(v) {
            Ok(info) => Ok(unit_arms(v.ident, resolved_message(info, v.attrs, v.ident))),
            Err(e) => Err(e),
        },
        VariantDataModel::Tuple(tys) => if tys.len() == 0 {
            Err(DeriveErrorModel::EmptyTupleCase(v.ident))
        } else if tys.len() > 1 {
            Err(DeriveErrorModel::TooManyMembers(v.ident))
        } else {
            match variant_config(v) {
                Ok(info) => Ok(
                    member_arms(
                        v.ident,
                        PatternModel::Tuple,
                        tys[0],
                        info,
                        resolved_message(info, v.attrs, v.ident),
                    ),
                ),
                Err(e) => Err(e),
            }
        },
        VariantDataModel::Struct(fs) => if fs.len() == 0 {
            Err(DeriveErrorModel::EmptyStructCase(v.ident))
        } else if fs.len() > 1 {
            Err(DeriveErrorModel::TooManyMembers(v.ident))
        } else {
            match variant_config(v) {
                Ok(info) => Ok(
                    member_arms(
                        v.ident,
                        PatternModel::Struct(fs[0].ident),
                        fs[0].ty,
                        info,
                        resolved_message(info, v.attrs, v.ident),
                    ),
                ),
                Err(e) => Err(e),
            }
        },
    }
}

/// The four buffers: branches of display, description and cause, and conversions.
pub struct BuffersModel {
    pub display: Seq<ArmModel>,
    pub description: Seq<ArmModel>,
    pub cause: Seq<ArmModel>,
    pub conversions: Seq<ConversionModel>,
}

pub open spec fn empty_buffers() -> BuffersModel {
    BuffersModel { display: seq![], description: seq![], cause: seq![], conversions: seq![] }
}

pub open spec fn add_case(b: BuffersModel, c: CaseArms) -> BuffersModel {
    BuffersModel {
        display: b.display.push(c.display),
        description: b.description.push(c.description),
        cause: b.cause.push(c.cause),
        conversions: match c.conversion {
            Some(conv) => b.conversions.push(conv),
            None => b.conversions,
        },
    }
}

/// The buffers filled from the cases in order, or the failure of the first case refused.
pub open spec fn case_buffers(vs: Seq<VariantModel>) -> Result<BuffersModel, DeriveErrorModel>
    decreases vs.len(),
{
    if vs.len() == 0 {
        Ok(empty_buffers())
    } else {
        match case_buffers(vs.drop_last()) {
            Ok(b) => match variant_outcome(vs.last()) {
                Ok(c) => Ok(add_case(b, c)),
                Err(e) => Err(e),
            },
            Err(e) => Err(e),
        }
    }
}

pub open spec fn member_count(data: VariantDataModel) -> nat {
    match data {
        VariantDataModel::Unit => 0,
        VariantDataModel::Tuple(tys) => tys.len(),
        VariantDataModel::Struct(fs) => fs.len(),
    }
}

/// The artifact generated for a type, or why there is none.
pub open spec fn derive_spec(d: TypeDescriptionModel) -> Result<ArtifactModel, DeriveErrorModel> {
    match d.body {
        BodyModel::Struct(data) => if member_count(data) > 0 {
            Err(DeriveErrorModel::StructWithFields(d.ident))
        } else {
            let m = default_message(d.attrs, d.ident);
            Ok(
                ArtifactModel {
                    ident: d.ident,
                    generics: d.generics,
                    display: BlockModel::Direct(ExprModel::Message(m)),
                    description: BlockModel::Direct(ExprModel::Message(m)),
                    cause: BlockModel::Direct(ExprModel::NoCause),
                    conversions: seq![],
                },
            )
        },
        BodyModel::Enum(vs) => if vs.len() == 0 {
            Err(DeriveErrorModel::NoVariants(d.ident))
        } else {
            match case_buffers(vs) {
                Ok(b) => Ok(
                    ArtifactModel {
                        ident: d.ident,
                        generics: d.generics,
                        display: BlockModel::Dispatch(b.display),
                        description: BlockModel::Dispatch(b.description),
                        cause: BlockModel::Dispatch(b.cause),
                        conversions: b.conversions,
                    },
                ),
                Err(e) => Err(e),
            }
        },
    }
}

/// Once a prefix of the cases is refused, so is the whole, with the same failure.
pub proof fn lemma_case_buffers_refused_prefix(vs: Seq<VariantModel>, k: int)
    requires
        0 <= k <= vs.len(),
        case_buffers(vs.take(k)) is Err,
    ensures
        case_buffers(vs) == case_buffers(vs.take(k)),
    decreases vs.len(),
{
    if k < vs.len() {
        assert(vs.drop_last().take(k) =~= vs.take(k));
        lemma_case_buffers_refused_prefix(vs.drop_last(), k);
    } else {
        assert(vs.take(k) =~= vs);
    }
}

struct Buffers {
    display: Vec<Arm>,
    description: Vec<Arm>,
    cause: Vec<Arm>,
    from_impls: Vec<Conversion>,
}

impl View for Buffers {
    type V = BuffersModel;

    closed spec fn view(&self) -> BuffersModel {
        BuffersModel {
            display: self.display@.map_values(|a: Arm| a@),
            description: self.description@.map_values(|a: Arm| a@),
            cause: self.cause@.map_values(|a: Arm| a@),
            conversions: self.from_impls@.map_values(|c: Conversion| c@),
        }
    }
}

/// How a case's step left the buffers: extended by what it contributes, or unchanged
/// with its failure.
pub open spec fn step_done(
    before: BuffersModel,
    after: BuffersModel,
    outcome: Result<CaseArms, DeriveErrorModel>,
    r: Result<(), DeriveError>,
) -> bool {
    match outcome {
        Ok(c) => r is Ok && after == add_case(before, c),
        Err(e) => match r {
            Ok(_) => false,
            Err(x) => x@ == e && after == before,
        },
    }
}

impl Buffers {
    fn push_case(&mut self, display: Arm, description: Arm, cause: Arm, conversion: Option<Conversion>)
        ensures
            final(self)@ == add_case(
                old(self)@,
                CaseArms {
                    display: display@,
                    description: description@,
                    cause: cause@,
                    conversion: match conversion {
                        Some(c) => Some(c@),
                        None => None,
                    },
                },
            ),
    {
        let ghost before = self@;
        self.display.push(display);
        self.description.push(description);
        self.cause.push(cause);
        match conversion {
            Some(c) => {
                self.from_impls.push(c);
                assert(self@.conversions =~= before.conversions.push(c@));
            },
            None => {},
        }
        assert(self@.display =~= before.display.push(display@));
        assert(self@.description =~= before.description.push(description@));
        assert(self@.cause =~= before.cause.push(cause@));
    }

    /// Branches of a case without members.
    fn unit_variant(&mut self, var: &Variant, msg: &String) -> (r: Result<(), DeriveError>)
        requires
            var@.data is Unit,
            msg@ == default_message(var@.attrs, var@.ident),
        ensures
            step_done(old(self)@, final(self)@, variant_outcome(var@), r),
    {
        let info = match var.info() {
            Ok(info) => info,
            Err(e) => return Err(e),
        };
        let msg = match info.msg {
            Some(m) => m,
            None => msg.clone(),
        };
        self.push_case(
            Arm { case_ident: var.ident.clone(), pattern: Pattern::Unit, expr: Expr::Message(msg.clone()) },
            Arm { case_ident: var.ident.clone(), pattern: Pattern::Unit, expr: Expr::Message(msg) },
            Arm { case_ident: var.ident.clone(), pattern: Pattern::Unit, expr: Expr::NoCause },
            None,
        );
        Ok(())
    }

    /// Branches of a case with one member, matched by `pattern`.
    fn member_variant(&mut self, var: &Variant, msg: String, info: VariantInfo, pattern: Pattern, ty: &String)
        ensures
            final(self)@ == add_case(
                old(self)@,
                member_arms(var@.ident, pattern@, ty@, info@, match info@.msg {
                    Some(m) => m,
                    None => msg@,
                }),
            ),
    {
        let msg = match info.msg {
            Some(m) => m,
            None => msg,
        };
        let display = if info.msg_embedded {
            Expr::MemberText
        } else {
            Expr::Message(msg.clone())
        };
        let description = if info.msg_embedded {
            Expr::MemberText
        } else if info.std_error {
            Expr::MemberDescription
        } else {
            Expr::Message(msg)
        };
        let cause = if info.std_error {
            Expr::MemberCause
        } else {
            Expr::NoCause
        };
        let conversion = if info.from {
            Some(Conversion { case_ident: var.ident.clone(), pattern: pattern.clone_pattern(), source_ty: ty.clone() })
        } else {
            None
        };
        self.push_case(
            Arm { case_ident: var.ident.clone(), pattern: pattern.clone_pattern(), expr: display },
            Arm { case_ident: var.ident.clone(), pattern: pattern.clone_pattern(), expr: description },
            Arm { case_ident: var.ident.clone(), pattern, expr: cause },
            conversion,
        );
    }

    /// Branches of a case with positional members: exactly one is accepted.
    fn tuple_variant(&mut self, var: &Variant, msg: &String, fields: &Vec<String>) -> (r: Result<(), DeriveError>)
        requires
            var.data == VariantData::Tuple(*fields),
            msg@ == default_message(var@.attrs, var@.ident),
        ensures
            step_done(old(self)@, final(self)@, variant_outcome(var@), r),
    {
        if fields.len() == 0 {
            return Err(DeriveError::EmptyTupleCase(var.ident.clone()));
        }
        if fields.len() > 1 {
            return Err(DeriveError::TooManyMembers(var.ident.clone()));
        }
        let info = match var.info() {
            Ok(info) => info,
            Err(e) => return Err(e),
        };
        self.member_variant(var, msg.clone(), info, Pattern::Tuple, &fields[0]);
        Ok(())
    }

    /// Branches of a case with named members: exactly one is accepted.
    fn struct_field(&mut self, var: &Variant, msg: &String, fields: &Vec<NamedField>) -> (r: Result<(), DeriveError>)
        requires
            var.data == VariantData::Struct(*fields),
            msg@ == default_message(var@.attrs, var@.ident),
        ensures
            step_done(old(self)@, final(self)@, variant_outcome(var@), r),
    {
        if fields.len() == 0 {
            return Err(DeriveError::EmptyStructCase(var.ident.clone()));
        }
        if fields.len() > 1 {
            return Err(DeriveError::TooManyMembers(var.ident.clone()));
        }
        let info = match var.info() {
            Ok(info) => info,
            Err(e) => return Err(e),
        };
        let field = &fields[0];
        self.member_variant(var, msg.clone(), info, Pattern::Struct(field.ident.clone()), &field.ty);
        Ok(())
    }
}

/// A generator for one type: its description and the buffers being filled.
pub struct Error {
    ast: TypeDescription,
    buffers: Buffers,
}

impl Error {
    /// The description this generator works on.
    pub closed spec fn input(&self) -> TypeDescriptionModel {
        self.ast@
    }

    /// Nothing has been generated yet.
    pub closed spec fn fresh(&self) -> bool {
        self.buffers@ == empty_buffers()
    }

    /// Creates a generator for a type description.
    pub fn new(ast: TypeDescription) -> (r: Error)
        ensures
            r.input() == ast@,
            r.fresh(),
    {
        let r = Error {
            ast,
            buffers: Buffers {
                display: Vec::new(),
                description: Vec::new(),
                cause: Vec::new(),
                from_impls: Vec::new(),
            },
        };
        assert(r.buffers@.display =~= Seq::<ArmModel>::empty());
        assert(r.buffers@.description =~= Seq::<ArmModel>::empty());
        assert(r.buffers@.cause =~= Seq::<ArmModel>::empty());
        assert(r.buffers@.conversions =~= Seq::<ConversionModel>::empty());
        r
    }

    /// Generates the display, description and cause bodies and the conversions.
    pub fn derive(self) -> (r: Result<Artifact, DeriveError>)
        requires
            self.fresh(),
        ensures
            view_result(r) == derive_spec(self.input()),
    {
        let ghost d = self.input();
        let Error { ast, buffers } = self;
        let TypeDescription { ident, attrs, generics, body } = ast;
        match body {
            Body::Struct(data) => {
                let members = match &data {
                    VariantData::Unit => 0,
                    VariantData::Tuple(tys) => tys.len(),
                    VariantData::Struct(fs) => fs.len(),
                };
                if members > 0 {
                    return Err(DeriveError::StructWithFields(ident));
                }
                let msg = match title(&attrs) {
                    Some(t) => t,
                    None => label_str(ident.as_str()),
                };
                let art = Artifact {
                    ident,
                    generics,
                    display: Block::Direct(Expr::Message(msg.clone())),
                    description: Block::Direct(Expr::Message(msg)),
                    cause: Block::Direct(Expr::NoCause),
                    conversions: Vec::new(),
                };
                assert(art@.conversions =~= Seq::<ConversionModel>::empty());
                Ok(art)
            },
            Body::Enum(variants) => {
                if variants.len() == 0 {
                    return Err(DeriveError::NoVariants(ident));
                }
                let ghost vs = variants@.map_values(|v: Variant| v@);
                let mut out = buffers;
                let n = variants.len();
                let mut i: usize = 0;
                assert(vs.take(0) =~= Seq::<VariantModel>::empty());
                while i < n
                    invariant
                        n == variants@.len(),
                        n > 0,
                        vs == variants@.map_values(|v: Variant| v@),
                        d == self.input(),
                        d.body == BodyModel::Enum(vs),
                        d.ident == ident@,
                        d.generics == generics@,
                        i <= n,
                        case_buffers(vs.take(i as int)) == Ok::<BuffersModel, DeriveErrorModel>(out@),
                    decreases n - i,
                {
                    let var = &variants[i];
                    assert(vs.take(i + 1).drop_last() =~= vs.take(i as int));
                    assert(vs[i as int] == var@);
                    let msg = match title(&var.attrs) {
                        Some(t) => t,
                        None => label_str(var.ident.as_str()),
                    };
                    let step = match &var.data {
                        VariantData::Unit => out.unit_variant(var, &msg),
                        VariantData::Tuple(fields) => out.tuple_variant(var, &msg, fields),
                        VariantData::Struct(fields) => out.struct_field(var, &msg, fields),
                    };
                    match step {
                        Ok(()) => {},
                        Err(e) => {
                            proof {
                                assert(vs.take(i + 1).last() == var@);
                                lemma_case_buffers_refused_prefix(vs, i + 1);
                            }
                            return Err(e);
                        },
                    }
                    i = i + 1;
                }
                assert(vs.take(n as int) =~= vs);
                let art = Artifact {
                    ident,
                    generics,
                    display: Block::Dispatch(out.display),
                    description: Block::Dispatch(out.description),
                    cause: Block::Dispatch(out.cause),
                    conversions: out.from_impls,
                };
                Ok(art)
            },
        }
    }
}

} // verus!
