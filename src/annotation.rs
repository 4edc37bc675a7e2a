//! The options of a case's `error` attribute.
use crate::artifact::{DeriveError, DeriveErrorModel};
use crate::input::{Attribute, AttributeModel, Literal, NestedItem, NestedItemModel, Variant, VariantModel};
use crate::text::text_is;
use vstd::prelude::*;

verus! {

/// The configuration of one case.
#[derive(Clone, Debug, PartialEq, Eq)]
pub struct VariantInfo {
    /// A conversion from the member's type is generated.
    pub from: bool,
    /// The member implements the standard error interface: description and cause
    /// are taken from it.
    pub std_error: bool,
    /// The message is the member's own rendered text.
    pub msg_embedded: bool,
    /// An explicit message.
    pub msg: Option<String>,
}

pub struct InfoModel {
    pub from: bool,
    pub std_error: bool,
    pub msg_embedded: bool,
    pub msg: Option<Seq<char>>,
}

impl View for VariantInfo {
    type V = InfoModel;

    open spec fn view(&self) -> InfoModel {
        InfoModel {
            from: self.from,
            std_error: self.std_error,
            msg_embedded: self.msg_embedded,
            msg: match self.msg {
                Some(m) => Some(m@),
                None => None,
            },
        }
    }
}

/// The configuration of a case without options.
pub open spec fn default_info() -> InfoModel {
    InfoModel { from: true, std_error: true, msg_embedded: false, msg: None }
}

/// One option applied to a configuration; `None` for a `msg` that is not a string.
/// Unknown options change nothing.
pub open spec fn apply_option(info: InfoModel, item: NestedItemModel) -> Option<InfoModel> {
    match item {
        NestedItemModel::Word(k) => Some(
            if k == "no_from"@ {
                InfoModel { from: false, ..info }
            } else if k == "non_std"@ {
                InfoModel { std_error: false, ..info }
            } else if k == "msg_embedded"@ {
                InfoModel { msg_embedded: true, ..info }
            } else {
                info
            },
        ),
        NestedItemModel::NameValue(k, v) => if k == "msg"@ {
            match v {
                Some(m) => Some(InfoModel { msg: Some(m), ..info }),
                None => None,
            }
        } else {
            Some(info)
        },
        NestedItemModel::Other => Some(info),
    }
}

/// The options applied in order; the first failure stays.
pub open spec fn apply_options(info: InfoModel, items: Seq<NestedItemModel>) -> Option<InfoModel>
    decreases items.len(),
{
    if items.len() == 0 {
        Some(info)
    } else {
        match apply_options(info, items.drop_last()) {
            Some(i) => apply_option(i, items.last()),
            None => None,
        }
    }
}

/// An attribute applied to a configuration: only the `error` list counts.
pub open spec fn apply_attribute(info: InfoModel, a: AttributeModel) -> Option<InfoModel> {
    match a {
        AttributeModel::List(k, items) => if k == "error"@ {
            apply_options(info, items)
        } else {
            Some(info)
        },
        _ => Some(info),
    }
}

pub open spec fn apply_attributes(info: InfoModel, attrs: Seq<AttributeModel>) -> Option<
    InfoModel,
>
    decreases attrs.len(),
{
    if attrs.len() == 0 {
        Some(info)
    } else {
        match apply_attributes(info, attrs.drop_last()) {
            Some(i) => apply_attribute(i, attrs.last()),
            None => None,
        }
    }
}

/// The configuration of a case, or why it has none.
pub open spec fn variant_config(v: VariantModel) -> Result<InfoModel, DeriveErrorModel> {
    match apply_attributes(default_info(), v.attrs) {
        None => Err(DeriveErrorModel::MsgNotString(v.ident)),
        Some(i) => if i.msg_embedded && i.msg is Some {
            Err(DeriveErrorModel::MsgConflict(v.ident))
        } else {
            Ok(i)
        },
    }
}

impl VariantInfo {
    /// Applies one option; false where a `msg` has a value that is not a string.
    fn apply(&mut self, item: &NestedItem) -> (ok: bool)
        ensures
            apply_option(old(self)@, item@) == (if ok {
                Some(final(self)@)
            } else {
                None
            }),
    {
        proof {
            reveal_strlit("no_from");
            reveal_strlit("non_std");
            reveal_strlit("msg_embedded");
            reveal_strlit("msg");
        }
        match item {
            NestedItem::Word(key) => {
                if text_is(key.as_str(), "no_from") {
                    self.from = false;
                } else if text_is(key.as_str(), "non_std") {
                    self.std_error = false;
                } else if text_is(key.as_str(), "msg_embedded") {
                    self.msg_embedded = true;
                }
                true
            },
            NestedItem::NameValue(key, val) => {
                if text_is(key.as_str(), "msg") {
                    match val {
                        Literal::Str(m) => {
                            self.msg = Some(m.clone());
                            true
                        },
                        Literal::Other => false,
                    }
                } else {
                    true
                }
            },
            NestedItem::Other => true,
        }
    }
}

impl Variant {
    /// Reads the case's configuration from its `error` attributes.
    pub fn info(&self) -> (r: Result<VariantInfo, DeriveError>)
        ensures
            crate::artifact::view_result(r) == variant_config(self@),
    {
        let mut info = VariantInfo { from: true, std_error: true, msg_embedded: false, msg: None };
        let mut ok = true;
        let n = self.attrs.len();
        let mut i: usize = 0;
        let ghost attrs = self@.attrs;
        while i < n
            invariant
                n == self.attrs@.len(),
                attrs == self@.attrs,
                i <= n,
                apply_attributes(default_info(), attrs.take(i as int)) == (if ok {
                    Some(info@)
                } else {
                    None
                }),
            decreases n - i,
        {
            assert(attrs.take(i + 1).drop_last() =~= attrs.take(i as int));
            let attr = &self.attrs[i];
            if ok {
                match attr {
                    Attribute::List(key, items) => {
                        if text_is(key.as_str(), "error") {
                            proof {
                                reveal_strlit("error");
                            }
                            let ghost start = info@;
                            let ghost opts = items@.map_values(|it: NestedItem| it@);
                            let m = items.len();
                            let mut j: usize = 0;
                            while j < m
                                invariant
                                    m == items@.len(),
                                    opts == items@.map_values(|it: NestedItem| it@),
                                    j <= m,
                                    apply_options(start, opts.take(j as int)) == (if ok {
                                        Some(info@)
                                    } else {
                                        None
                                    }),
                                decreases m - j,
                            {
                                assert(opts.take(j + 1).drop_last() =~= opts.take(j as int));
                                if ok {
                                    ok = info.apply(&items[j]);
                                }
                                j = j + 1;
                            }
                            assert(opts.take(m as int) =~= opts);
                        } else {
                            proof {
                                reveal_strlit("error");
                            }
                        }
                    },
                    _ => {},
                }
            }
            i = i + 1;
        }
        assert(attrs.take(n as int) =~= attrs);
        if !ok {
            return Err(DeriveError::MsgNotString(self.ident.clone()));
        }
        if info.msg_embedded && info.msg.is_some() {
            return Err(DeriveError::MsgConflict(self.ident.clone()));
        }
        Ok(info)
    }
}

} // verus!
