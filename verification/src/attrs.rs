//! Folding a field's attribute list into the switches that drive getter
//! generation, and the choice of the accessor shape those switches imply.

use vstd::prelude::*;
use crate::model::{AttrMeta, AttrValue};
use crate::model::attrs_supported;
use crate::syntax::parses_as_type;
use crate::text::str_eq;

verus! {

/// The switches collected from one field's attributes.
pub struct FieldAttributes {
    /// Emit a getter that dereferences the field.
    pub use_deref: bool,
    /// Emit a getter that converts the field with `AsRef`.
    pub use_as_ref: bool,
    /// Also emit a mutable getter.
    pub generate_mut: bool,
    /// Emit no getter for this field.
    pub skip_getter: bool,
    /// Custom body logic: a function path applied to the field.
    pub custom_logic: Option<String>,
    /// An overriding return type, kept only when the type parser accepted
    /// its text.
    pub custom_return_type: Option<String>,
    /// Emit a getter that returns the field by value.
    pub copy: bool,
}

/// The switches at the specification level, with strings as their views.
pub struct FieldAttributesView {
    pub use_deref: bool,
    pub use_as_ref: bool,
    pub generate_mut: bool,
    pub skip_getter: bool,
    pub custom_logic: Option<Seq<char>>,
    pub custom_return_type: Option<Seq<char>>,
    pub copy: bool,
}

impl View for FieldAttributes {
    type V = FieldAttributesView;

    open spec fn view(&self) -> FieldAttributesView {
        FieldAttributesView {
            use_deref: self.use_deref,
            use_as_ref: self.use_as_ref,
            generate_mut: self.generate_mut,
            skip_getter: self.skip_getter,
            custom_logic: match self.custom_logic {
                Option::Some(s) => Option::Some(s@),
                Option::None => Option::None,
            },
            custom_return_type: match self.custom_return_type {
                Option::Some(s) => Option::Some(s@),
                Option::None => Option::None,
            },
            copy: self.copy,
        }
    }
}

/// The switches before any attribute has been read.
pub open spec fn empty_field_attrs() -> FieldAttributesView {
    FieldAttributesView {
        use_deref: false,
        use_as_ref: false,
        generate_mut: false,
        skip_getter: false,
        custom_logic: Option::None,
        custom_return_type: Option::None,
        copy: false,
    }
}

/// How one attribute changes the switches. A `return_type` value becomes
/// the return-type candidate and overwrites any earlier one; a
/// `getter_logic` value always overwrites; the five bare switches are set
/// and never cleared; everything else is ignored. Whether the candidate is
/// kept is decided outside this fold, by the type parser.
pub open spec fn apply_attr(acc: FieldAttributesView, a: AttrMeta) -> FieldAttributesView {
    match a {
        AttrMeta::Path { name } => {
            if name@ == "use_deref"@ {
                FieldAttributesView { use_deref: true, ..acc }
            } else if name@ == "copy"@ {
                FieldAttributesView { copy: true, ..acc }
            } else if name@ == "use_as_ref"@ {
                FieldAttributesView { use_as_ref: true, ..acc }
            } else if name@ == "get_mut"@ {
                FieldAttributesView { generate_mut: true, ..acc }
            } else if name@ == "skip_getter"@ {
                FieldAttributesView { skip_getter: true, ..acc }
            } else {
                acc
            }
        },
        AttrMeta::NameValue { name, value } => {
            if name@ == "return_type"@ {
                match value {
                    AttrValue::Str(v) => FieldAttributesView {
                        custom_return_type: Option::Some(v@),
                        ..acc
                    },
                    _ => acc,
                }
            } else if name@ == "getter_logic"@ {
                match value {
                    AttrValue::Str(v) => FieldAttributesView {
                        custom_logic: Option::Some(v@),
                        ..acc
                    },
                    _ => acc,
                }
            } else {
                acc
            }
        },
        AttrMeta::List { .. } => acc,
    }
}

/// The switches that a whole attribute list yields, first to last.
pub open spec fn parse_attrs(attrs: Seq<AttrMeta>) -> FieldAttributesView
    decreases attrs.len(),
{
    if attrs.len() == 0 {
        empty_field_attrs()
    } else {
        apply_attr(parse_attrs(attrs.drop_last()), attrs.last())
    }
}

/// What a field-attribute read may return: every switch and the custom
/// logic equal the fold's result exactly; the return type is either the
/// fold's candidate — the value of the last `return_type` attribute — or
/// `None`, according to whether the type parser accepted the candidate.
pub open spec fn parse_outcome_ok(attrs: Seq<AttrMeta>, a: FieldAttributesView) -> bool {
    let p = parse_attrs(attrs);
    &&& a.use_deref == p.use_deref
    &&& a.use_as_ref == p.use_as_ref
    &&& a.generate_mut == p.generate_mut
    &&& a.skip_getter == p.skip_getter
    &&& a.copy == p.copy
    &&& a.custom_logic == p.custom_logic
    &&& (a.custom_return_type == p.custom_return_type || a.custom_return_type is None)
}

/// Reads a field's attributes into the switches that drive generation.
pub fn parse_field_attributes(attrs: &Vec<AttrMeta>) -> (r: FieldAttributes)
    requires
        attrs_supported(attrs@),
    ensures
        parse_outcome_ok(attrs@, r@),
{
    let mut acc = FieldAttributes {
        use_deref: false,
        use_as_ref: false,
        generate_mut: false,
        skip_getter: false,
        custom_logic: Option::None,
        custom_return_type: Option::None,
        copy: false,
    };
    let n: usize = attrs.len();
    let mut i: usize = 0;
    while i < n
        invariant
            n == attrs@.len(),
            i <= n,
            attrs_supported(attrs@),
            parse_outcome_ok(attrs@.take(i as int), acc@),
        decreases n - i,
    {
        match &attrs[i] {
            AttrMeta::Path { name } => {
                if str_eq(name.as_str(), "use_deref") {
                    acc.use_deref = true;
                } else if str_eq(name.as_str(), "copy") {
                    acc.copy = true;
                } else if str_eq(name.as_str(), "use_as_ref") {
                    acc.use_as_ref = true;
                } else if str_eq(name.as_str(), "get_mut") {
                    acc.generate_mut = true;
                } else if str_eq(name.as_str(), "skip_getter") {
                    acc.skip_getter = true;
                }
            },
            AttrMeta::NameValue { name, value } => {
                if str_eq(name.as_str(), "return_type") {
                    match value {
                        AttrValue::Str(v) => {
                            if parses_as_type(v.as_str()) {
                                acc.custom_return_type = Option::Some(v.clone());
                            } else {
                                acc.custom_return_type = Option::None;
                            }
                        },
                        AttrValue::NonStrLit => {
                            proof {
                                assert(false);
                            }
                        },
                        AttrValue::OtherExpr => {},
                    }
                } else if str_eq(name.as_str(), "getter_logic") {
                    match value {
                        AttrValue::Str(v) => {
                            acc.custom_logic = Option::Some(v.clone());
                        },
                        AttrValue::NonStrLit => {
                            proof {
                                assert(false);
                            }
                        },
                        AttrValue::OtherExpr => {},
                    }
                }
            },
            AttrMeta::List { .. } => {},
        }
        proof {
            assert(attrs@.take(i + 1).drop_last() =~= attrs@.take(i as int));
            assert(attrs@.take(i + 1).last() == attrs@[i as int]);
            assert(parse_attrs(attrs@.take(i + 1)) == apply_attr(
                parse_attrs(attrs@.take(i as int)),
                attrs@[i as int],
            ));
            assert(parse_outcome_ok(attrs@.take(i + 1), acc@));
        }
        i = i + 1;
    }
    proof {
        assert(attrs@.take(n as int) =~= attrs@);
    }
    acc
}

/// The shape of the getter a field receives.
#[derive(Debug, PartialEq, Eq)]
pub enum GetterKind {
    /// Apply custom logic to the field.
    CustomLogic,
    /// Return the field by value.
    Copied,
    /// Borrow the dereferenced field.
    Deref,
    /// Convert the field with `AsRef`.
    AsRef,
    /// Borrow the field.
    Borrow,
}

/// The precedence among the shape switches: custom logic wins over `copy`,
/// which wins over `use_deref`, which wins over `use_as_ref`; a plain
/// borrow is the default.
pub open spec fn getter_kind(a: FieldAttributesView) -> GetterKind {
    if a.custom_logic is Some {
        GetterKind::CustomLogic
    } else if a.copy {
        GetterKind::Copied
    } else if a.use_deref {
        GetterKind::Deref
    } else if a.use_as_ref {
        GetterKind::AsRef
    } else {
        GetterKind::Borrow
    }
}

/// Chooses the accessor shape the switches imply.
pub fn getter_kind_of(a: &FieldAttributes) -> (k: GetterKind)
    ensures
        k == getter_kind(a@),
{
    if a.custom_logic.is_some() {
        GetterKind::CustomLogic
    } else if a.copy {
        GetterKind::Copied
    } else if a.use_deref {
        GetterKind::Deref
    } else if a.use_as_ref {
        GetterKind::AsRef
    } else {
        GetterKind::Borrow
    }
}

} // verus!
