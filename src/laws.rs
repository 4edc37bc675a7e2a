//! Properties of generation over all inputs.
use crate::annotation::{apply_attributes, default_info, variant_config, InfoModel};
use crate::artifact::{
    ArmModel, ArtifactModel, BlockModel, ConversionModel, DeriveErrorModel, ExprModel, PatternModel,
};
use crate::generate::{
    add_case, case_buffers, derive_spec, lemma_case_buffers_refused_prefix, member_count, variant_outcome,
    BuffersModel, CaseArms,
};
use crate::input::{AttributeModel, BodyModel, TypeDescriptionModel, VariantDataModel, VariantModel};
use crate::message::{doc_lines, doc_title, paragraph};
use crate::text::{label, strip_doc_marker, trim_ws};
use vstd::prelude::*;

verus! {

/// A case without members, or with exactly one.
pub open spec fn shape_ok(v: VariantModel) -> bool {
    v.data is Unit || member_count(v.data) == 1
}

/// A case that generation accepts: a valid shape and a valid configuration.
pub open spec fn case_ok(v: VariantModel) -> bool {
    shape_ok(v) && variant_config(v) is Ok
}

/// How the branches of a case match it.
pub open spec fn pattern_of(data: VariantDataModel) -> PatternModel {
    match data {
        VariantDataModel::Unit => PatternModel::Unit,
        VariantDataModel::Tuple(_) => PatternModel::Tuple,
        VariantDataModel::Struct(fs) => PatternModel::Struct(fs[0].ident),
    }
}

/// One branch per case, in declaration order, each matching its case.
pub open spec fn arms_cover(arms: Seq<ArmModel>, vs: Seq<VariantModel>) -> bool {
    &&& arms.len() == vs.len()
    &&& forall|i: int|
        0 <= i < vs.len() ==> #[trigger] arms[i].case_ident == vs[i].ident && arms[i].pattern
            == pattern_of(vs[i].data)
}

/// A dispatch over all the cases.
pub open spec fn exhaustive(b: BlockModel, vs: Seq<VariantModel>) -> bool {
    b matches BlockModel::Dispatch(arms) && arms_cover(arms, vs)
}

proof fn lemma_outcome_of_valid_case(v: VariantModel)
    requires
        case_ok(v),
    ensures
        variant_outcome(v) matches Ok(c) && c.display.case_ident == v.ident && c.display.pattern
            == pattern_of(v.data) && c.description.case_ident == v.ident
            && c.description.pattern == pattern_of(v.data) && c.cause.case_ident == v.ident
            && c.cause.pattern == pattern_of(v.data),
{
}

proof fn lemma_buffers_of_valid_cases(vs: Seq<VariantModel>)
    requires
        forall|i: int| 0 <= i < vs.len() ==> case_ok(#[trigger] vs[i]),
    ensures
        case_buffers(vs) matches Ok(b) && arms_cover(b.display, vs) && arms_cover(
            b.description,
            vs,
        ) && arms_cover(b.cause, vs),
    decreases vs.len(),
{
    if vs.len() > 0 {
        let prefix = vs.drop_last();
        assert forall|i: int| 0 <= i < prefix.len() implies case_ok(#[trigger] prefix[i]) by {
            assert(prefix[i] == vs[i]);
        }
        lemma_buffers_of_valid_cases(prefix);
        assert(case_ok(vs[vs.len() - 1]));
        lemma_outcome_of_valid_case(vs.last());
        let b = case_buffers(prefix)->Ok_0;
        let c = variant_outcome(vs.last())->Ok_0;
        assert(case_buffers(vs) == Ok::<BuffersModel, DeriveErrorModel>(add_case(b, c)));
        let nb = add_case(b, c);
        assert forall|i: int| 0 <= i < vs.len() implies #[trigger] nb.display[i].case_ident
            == vs[i].ident && nb.display[i].pattern == pattern_of(vs[i].data) by {
            if i < prefix.len() {
                assert(prefix[i] == vs[i]);
                assert(nb.display[i] == b.display[i]);
            }
        }
        assert forall|i: int| 0 <= i < vs.len() implies #[trigger] nb.description[i].case_ident
            == vs[i].ident && nb.description[i].pattern == pattern_of(vs[i].data) by {
            if i < prefix.len() {
                assert(prefix[i] == vs[i]);
                assert(nb.description[i] == b.description[i]);
            }
        }
        assert forall|i: int| 0 <= i < vs.len() implies #[trigger] nb.cause[i].case_ident
            == vs[i].ident && nb.cause[i].pattern == pattern_of(vs[i].data) by {
            if i < prefix.len() {
                assert(prefix[i] == vs[i]);
                assert(nb.cause[i] == b.cause[i]);
            }
        }
    }
}

/// Every tagged union with at least one case, whose cases all have no member or
/// exactly one and a valid configuration, is generated; its display, description
/// and cause bodies each dispatch over all its cases, one branch per case in
/// declaration order.
pub proof fn lemma_union_generates(d: TypeDescriptionModel)
    requires
        d.body matches BodyModel::Enum(vs) && vs.len() >= 1 && forall|i: int|
            0 <= i < vs.len() ==> case_ok(#[trigger] vs[i]),
    ensures
        derive_spec(d) matches Ok(a) && exhaustive(a.display, d.body->Enum_0) && exhaustive(
            a.description,
            d.body->Enum_0,
        ) && exhaustive(a.cause, d.body->Enum_0),
{
    lemma_buffers_of_valid_cases(d.body->Enum_0);
}

/// A tagged union without cases is refused, naming the type.
pub proof fn lemma_empty_union_refused(d: TypeDescriptionModel)
    requires
        d.body matches BodyModel::Enum(vs) && vs.len() == 0,
    ensures
        derive_spec(d) == Err::<ArtifactModel, DeriveErrorModel>(
            DeriveErrorModel::NoVariants(d.ident),
        ),
{
}

/// The failure of a union whose case `k` is refused by `variant_outcome`: generation
/// fails, and with that case's failure when every case before it is accepted.
proof fn lemma_refused_case(vs: Seq<VariantModel>, k: int)
    requires
        0 <= k < vs.len(),
        variant_outcome(vs[k]) is Err,
    ensures
        case_buffers(vs) is Err,
        (forall|i: int| 0 <= i < k ==> case_ok(#[trigger] vs[i])) ==> case_buffers(vs)
            == Err::<BuffersModel, DeriveErrorModel>(variant_outcome(vs[k])->Err_0),
{
    assert(vs.take(k + 1).drop_last() =~= vs.take(k));
    assert(vs.take(k + 1).last() == vs[k]);
    lemma_case_buffers_refused_prefix(vs, k + 1);
    if forall|i: int| 0 <= i < k ==> case_ok(#[trigger] vs[i]) {
        let prefix = vs.take(k);
        assert forall|i: int| 0 <= i < prefix.len() implies case_ok(#[trigger] prefix[i]) by {
            assert(prefix[i] == vs[i]);
        }
        lemma_buffers_of_valid_cases(prefix);
    }
}

/// A union with a case of more than one member is refused; the failure names that
/// case when every case before it is accepted.
pub proof fn lemma_many_members_refused(d: TypeDescriptionModel, k: int)
    requires
        d.body matches BodyModel::Enum(vs) && 0 <= k < vs.len() && member_count(vs[k].data) > 1,
    ensures
        derive_spec(d) is Err,
        (forall|i: int| 0 <= i < k ==> case_ok(#[trigger] d.body->Enum_0[i])) ==> derive_spec(d)
            == Err::<ArtifactModel, DeriveErrorModel>(
            DeriveErrorModel::TooManyMembers(d.body->Enum_0[k].ident),
        ),
{
    lemma_refused_case(d.body->Enum_0, k);
}

/// A union with a case that sets both `msg_embedded` and `msg` is refused; the failure
/// names that case when the case's shape is valid and every case before it is
/// accepted.
pub proof fn lemma_msg_conflict_refused(d: TypeDescriptionModel, k: int)
    requires
        d.body matches BodyModel::Enum(vs) && 0 <= k < vs.len() && (apply_attributes(
            default_info(),
            vs[k].attrs,
        ) matches Some(info) && info.msg_embedded && info.msg is Some),
    ensures
        derive_spec(d) is Err,
        shape_ok(d.body->Enum_0[k]) && (forall|i: int|
            0 <= i < k ==> case_ok(#[trigger] d.body->Enum_0[i])) ==> derive_spec(d) == Err::<
            ArtifactModel,
            DeriveErrorModel,
        >(DeriveErrorModel::MsgConflict(d.body->Enum_0[k].ident)),
{
    lemma_refused_case(d.body->Enum_0, k);
}

/// The message of an accepted case, where it is not the member's own text: the
/// explicit `msg` if there is one, else the trimmed first paragraph of its
/// documentation if it has one, else the label made from its identifier.
pub proof fn lemma_message_priority(v: VariantModel)
    requires
        case_ok(v),
        !variant_config(v)->Ok_0.msg_embedded || v.data is Unit,
    ensures
        variant_outcome(v) matches Ok(c) && c.display.expr == ExprModel::Message(
            match variant_config(v)->Ok_0.msg {
                Some(m) => m,
                None => match doc_title(v.attrs) {
                    Some(t) => t,
                    None => label(v.ident),
                },
            },
        ),
{
}

/// The type of a case's single member.
pub open spec fn member_type(data: VariantDataModel) -> Seq<char> {
    match data {
        VariantDataModel::Unit => seq![],
        VariantDataModel::Tuple(tys) => tys[0],
        VariantDataModel::Struct(fs) => fs[0].ty,
    }
}

/// A case with one member and no options delegates its description to the member,
/// gives the member as its cause, and gets one conversion from the member's type to
/// the union, building that case.
pub proof fn lemma_std_member_delegates(v: VariantModel)
    requires
        member_count(v.data) == 1,
        variant_config(v) == Ok::<InfoModel, DeriveErrorModel>(default_info()),
    ensures
        variant_outcome(v) matches Ok(c) && c.description.expr == ExprModel::MemberDescription
            && c.cause.expr == ExprModel::MemberCause && c.conversion == Some(
            ConversionModel {
                case_ident: v.ident,
                pattern: pattern_of(v.data),
                source_ty: member_type(v.data),
            },
        ),
{
}

/// A case with one member, `non_std` and an explicit `msg`: display and description
/// both give that message, and there is no cause, whatever the member.
pub proof fn lemma_non_std_fixed_message(v: VariantModel, m: Seq<char>)
    requires
        member_count(v.data) == 1,
        variant_config(v) matches Ok(i) && !i.std_error && i.msg == Some(m),
    ensures
        variant_outcome(v) matches Ok(c) && c.display.expr == ExprModel::Message(m)
            && c.description.expr == ExprModel::Message(m) && c.cause.expr == ExprModel::NoCause,
{
}

proof fn lemma_blank_lines_no_paragraph(lines: Seq<Seq<char>>)
    requires
        forall|i: int|
            0 <= i < lines.len() ==> trim_ws(strip_doc_marker(#[trigger] lines[i])).len() == 0,
    ensures
        paragraph(lines, None) is None,
    decreases lines.len(),
{
    if lines.len() > 0 {
        let rest = lines.drop_first();
        assert forall|i: int| 0 <= i < rest.len() implies trim_ws(
            strip_doc_marker(#[trigger] rest[i]),
        ).len() == 0 by {
            assert(rest[i] == lines[i + 1]);
        }
        assert(trim_ws(strip_doc_marker(lines[0])).len() == 0);
        lemma_blank_lines_no_paragraph(rest);
    }
}

/// Documentation whose lines are all blank (white space after the marker, or
/// nothing) has no title, so the message falls back to the label.
pub proof fn lemma_blank_docs_have_no_title(attrs: Seq<AttributeModel>)
    requires
        forall|i: int|
            0 <= i < doc_lines(attrs).len() ==> trim_ws(
                strip_doc_marker(#[trigger] doc_lines(attrs)[i]),
            ).len() == 0,
    ensures
        doc_title(attrs) is None,
{
    lemma_blank_lines_no_paragraph(doc_lines(attrs));
}

/// Generation depends on the description alone: equal descriptions give equal
/// artifacts, or equal failures.
pub proof fn lemma_derive_deterministic(a: TypeDescriptionModel, b: TypeDescriptionModel)
    requires
        a == b,
    ensures
        derive_spec(a) == derive_spec(b),
{
}

} // verus!
