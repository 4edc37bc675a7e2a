//! The human-readable message of a case or type: an explicit `msg`, else the first
//! paragraph of its documentation, else a label made from its identifier.
use crate::annotation::InfoModel;
use crate::input::{Attribute, AttributeModel};
use crate::text::{label, lines_of, split_lines, strip_doc_marker, strip_marker, trim, trim_ws};
use vstd::prelude::*;

verus! {

/// The lines of one attribute's documentation.
pub open spec fn attribute_lines(a: AttributeModel) -> Seq<Seq<char>> {
    match a {
        AttributeModel::Doc(t) => lines_of(t),
        _ => seq![],
    }
}

/// All documentation lines of a list of attributes, in order.
pub open spec fn doc_lines(attrs: Seq<AttributeModel>) -> Seq<Seq<char>>
    decreases attrs.len(),
{
    if attrs.len() == 0 {
        seq![]
    } else {
        doc_lines(attrs.drop_last()) + attribute_lines(attrs.last())
    }
}

/// The first paragraph of `lines` with what `acc` has gathered before them: the
/// non-blank lines (doc marker removed) are joined until a blank line follows them.
/// A line is blank when nothing but white space follows its marker.
pub open spec fn paragraph(lines: Seq<Seq<char>>, acc: Option<Seq<char>>) -> Option<Seq<char>>
    decreases lines.len(),
{
    if lines.len() == 0 {
        acc
    } else {
        let d = strip_doc_marker(lines[0]);
        if trim_ws(d).len() > 0 {
            paragraph(
                lines.drop_first(),
                Some(
                    match acc {
                        Some(a) => a + d,
                        None => d,
                    },
                ),
            )
        } else if acc is Some {
            acc
        } else {
            paragraph(lines.drop_first(), acc)
        }
    }
}

/// The trimmed first paragraph of the documentation, if it has one.
pub open spec fn doc_title(attrs: Seq<AttributeModel>) -> Option<Seq<char>> {
    match paragraph(doc_lines(attrs), None) {
        Some(t) => Some(trim_ws(t)),
        None => None,
    }
}

/// The message of a case or type without an explicit one.
pub open spec fn default_message(attrs: Seq<AttributeModel>, ident: Seq<char>) -> Seq<char> {
    match doc_title(attrs) {
        Some(t) => t,
        None => label(ident),
    }
}

/// The message of a case: explicit `msg`, else documentation, else label.
pub open spec fn resolved_message(
    info: InfoModel,
    attrs: Seq<AttributeModel>,
    ident: Seq<char>,
) -> Seq<char> {
    match info.msg {
        Some(m) => m,
        None => default_message(attrs, ident),
    }
}

pub open spec fn opt_text(o: Option<String>) -> Option<Seq<char>> {
    match o {
        Some(s) => Some(s@),
        None => None,
    }
}

/// Trims the text of a title, if there is one.
pub fn trimmed(title: Option<String>) -> (r: Option<String>)
    ensures
        opt_text(r) == match opt_text(title) {
            Some(t) => Some(trim_ws(t)),
            None => None,
        },
{
    match title {
        Some(doc) => Some(trim(doc.as_str()).to_owned()),
        None => None,
    }
}

/// Collects the documentation lines of the attributes.
fn collect_doc_lines(attrs: &Vec<Attribute>) -> (r: Vec<String>)
    ensures
        r@.map_values(|l: String| l@) == doc_lines(attrs@.map_values(|a: Attribute| a@)),
{
    let ghost model = attrs@.map_values(|a: Attribute| a@);
    let mut out: Vec<String> = Vec::new();
    let n = attrs.len();
    let mut i: usize = 0;
    while i < n
        invariant
            n == attrs@.len(),
            model == attrs@.map_values(|a: Attribute| a@),
            i <= n,
            out@.map_values(|l: String| l@) == doc_lines(model.take(i as int)),
        decreases n - i,
    {
        assert(model.take(i + 1).drop_last() =~= model.take(i as int));
        match &attrs[i] {
            Attribute::Doc(text) => {
                let mut lines = split_lines(text.as_str());
                let ghost before = out@;
                let ghost added = lines@;
                out.append(&mut lines);
                assert(out@.map_values(|l: String| l@) =~= before.map_values(|l: String| l@)
                    + added.map_values(|l: String| l@));
            },
            _ => {
                assert(doc_lines(model.take(i + 1)) =~= doc_lines(model.take(i as int)));
            },
        }
        i = i + 1;
    }
    assert(model.take(n as int) =~= model);
    out
}

/// The trimmed first paragraph of the documentation among the attributes.
pub fn title(attributes: &Vec<Attribute>) -> (r: Option<String>)
    ensures
        opt_text(r) == doc_title(attributes@.map_values(|a: Attribute| a@)),
{
    let lines = collect_doc_lines(attributes);
    let ghost all = lines@.map_values(|l: String| l@);
    let mut title: Option<String> = None;
    let n = lines.len();
    let mut i: usize = 0;
    assert(all.skip(0) =~= all);
    while i < n
        invariant
            n == lines@.len(),
            all == lines@.map_values(|l: String| l@),
            all == doc_lines(attributes@.map_values(|a: Attribute| a@)),
            i <= n,
            paragraph(all, None) == paragraph(all.skip(i as int), opt_text(title)),
        decreases n - i,
    {
        let doc = strip_marker(lines[i].as_str());
        assert(all.skip(i as int)[0] == all[i as int]);
        assert(all.skip(i as int).drop_first() =~= all.skip(i + 1));
        if !trim(doc).is_empty() {
            title = match title {
                None => Some(doc.to_owned()),
                Some(t) => {
                    let mut t = t;
                    t.append(doc);
                    Some(t)
                },
            };
        } else if title.is_some() {
            assert(doc@ == strip_doc_marker(all.skip(i as int)[0]));
            assert(paragraph(all.skip(i as int), opt_text(title)) == opt_text(title));
            return trimmed(title);
        }
        i = i + 1;
    }
    assert(all.skip(n as int) =~= Seq::<Seq<char>>::empty());
    trimmed(title)
}

} // verus!
