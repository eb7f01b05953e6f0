//! The text of a single accessor: its return type, its body, and the whole
//! method, each pinned by a specification function.

use vstd::prelude::*;
use crate::attrs::{FieldAttributes, FieldAttributesView, GetterKind, getter_kind};
use crate::model::NamedField;
use crate::text::dec_rep;
use crate::text::usize_dec;
use vstd::string::StringExecFns;

verus! {

/// The token text spliced for a `getter_logic` value: the value itself when
/// the lexer accepted it, nothing otherwise.
pub open spec fn logic_text(l: Seq<char>, logic_kept: bool) -> Seq<char> {
    if logic_kept {
        l
    } else {
        Seq::empty()
    }
}

/// The return type of a field's getter. A kept `return_type` value
/// overrides; otherwise the shape decides: custom logic returns `u32`,
/// a copy returns the field's type, a dereference borrows the `Deref`
/// target, an `AsRef` conversion borrows the `AsRef` target, and the
/// default borrows the field's type.
pub open spec fn return_type_text(a: FieldAttributesView, ty: Seq<char>) -> Seq<char> {
    match a.custom_return_type {
        Option::Some(rt) => rt,
        Option::None => match getter_kind(a) {
            GetterKind::CustomLogic => "u32"@,
            GetterKind::Copied => ty,
            GetterKind::Deref => "&<"@ + ty + " as std::ops::Deref>::Target"@,
            GetterKind::AsRef => "&<"@ + ty + " as std::convert::AsRef<"@ + ty + ">>::Target"@,
            GetterKind::Borrow => "&"@ + ty,
        },
    }
}

/// The body of a field's getter, by the shape its switches imply. Whether
/// the custom logic text was accepted by the lexer arrives as data.
pub open spec fn getter_body_text(a: FieldAttributesView, name: Seq<char>, logic_kept: bool) -> Seq<
    char,
> {
    match getter_kind(a) {
        GetterKind::CustomLogic => logic_text(a.custom_logic->0, logic_kept) + "(self."@ + name
            + ")"@,
        GetterKind::Copied => "self."@ + name,
        GetterKind::Deref => "&*self."@ + name,
        GetterKind::AsRef => "self."@ + name + ".as_ref()"@,
        GetterKind::Borrow => "&self."@ + name,
    }
}

/// The whole getter for a field with the given switches, name and type.
pub open spec fn getter_text(
    a: FieldAttributesView,
    name: Seq<char>,
    ty: Seq<char>,
    logic_kept: bool,
) -> Seq<char> {
    "pub fn "@ + name + "(&self) -> "@ + return_type_text(a, ty) + " { "@ + getter_body_text(
        a,
        name,
        logic_kept,
    ) + " }\n"@
}

/// The name of a field's mutable getter: the field name with `_mut` behind
/// it.
pub open spec fn mut_getter_name(name: Seq<char>) -> Seq<char> {
    name + "_mut"@
}

/// The mutable getter for a named field.
pub open spec fn mut_getter_text(f: NamedField) -> Seq<char> {
    "pub fn "@ + mut_getter_name(f.name@) + "(&mut self) -> &mut "@ + f.ty@ + " { &mut self."@
        + f.name@ + " }\n"@
}

/// The name of the getter for the positional field at index `i`.
pub open spec fn unnamed_getter_name(i: nat) -> Seq<char> {
    "get_"@ + dec_rep(i)
}

/// The getter for the positional field at index `i`.
pub open spec fn unnamed_getter_text(ty: Seq<char>, i: nat) -> Seq<char> {
    "pub fn "@ + unnamed_getter_name(i) + "(&self) -> &"@ + ty + " { &self."@ + dec_rep(i)
        + " }\n"@
}

/// The `_mut` renaming keeps mutable getters apart: distinct field names
/// receive distinct mutable getter names.
pub proof fn lemma_mut_getter_names_distinct(a: Seq<char>, b: Seq<char>)
    requires
        a != b,
    ensures
        mut_getter_name(a) != mut_getter_name(b),
{
    reveal_strlit("_mut");
    if mut_getter_name(a) == mut_getter_name(b) {
        assert(mut_getter_name(a).len() == a.len() + 4);
        assert(mut_getter_name(b).len() == b.len() + 4);
        assert(a =~= mut_getter_name(a).take(a.len() as int));
        assert(b =~= mut_getter_name(b).take(b.len() as int));
        assert(a == b);
    }
}

/// Positional getter names never collide: distinct indexes receive
/// distinct `get_` names.
pub proof fn lemma_unnamed_getter_names_distinct(i: nat, j: nat)
    requires
        i != j,
    ensures
        unnamed_getter_name(i) != unnamed_getter_name(j),
{
    reveal_strlit("get_");
    if unnamed_getter_name(i) == unnamed_getter_name(j) {
        assert(dec_rep(i) =~= unnamed_getter_name(i).skip(4));
        assert(dec_rep(j) =~= unnamed_getter_name(j).skip(4));
        crate::text::lemma_dec_rep_injective(i, j);
    }
}

/// Renders the return type of a field's getter.
fn render_return_type(a: &FieldAttributes, ty: &str) -> (r: String)
    ensures
        r@ == return_type_text(a@, ty@),
{
    match &a.custom_return_type {
        Option::Some(rt) => rt.clone(),
        Option::None => {
            if a.custom_logic.is_some() {
                String::from_str("u32")
            } else if a.copy {
                String::from_str(ty)
            } else if a.use_deref {
                let mut s = String::from_str("&<");
                s.append(ty);
                s.append(" as std::ops::Deref>::Target");
                proof {
                    assert(s@ =~= return_type_text(a@, ty@));
                }
                s
            } else if a.use_as_ref {
                let mut s = String::from_str("&<");
                s.append(ty);
                s.append(" as std::convert::AsRef<");
                s.append(ty);
                s.append(">>::Target");
                proof {
                    assert(s@ =~= return_type_text(a@, ty@));
                }
                s
            } else {
                let mut s = String::from_str("&");
                s.append(ty);
                s
            }
        },
    }
}

/// Renders the body of a field's getter, the lexer's verdict on the custom
/// logic given as data.
fn render_getter_body(a: &FieldAttributes, name: &str, logic_kept: bool) -> (r: String)
    ensures
        r@ == getter_body_text(a@, name@, logic_kept),
{
    match &a.custom_logic {
        Option::Some(l) => {
            let mut s = if logic_kept {
                l.clone()
            } else {
                String::new()
            };
            s.append("(self.");
            s.append(name);
            s.append(")");
            proof {
                assert(s@ =~= getter_body_text(a@, name@, logic_kept));
            }
            s
        },
        Option::None => {
            if a.copy {
                let mut s = String::from_str("self.");
                s.append(name);
                s
            } else if a.use_deref {
                let mut s = String::from_str("&*self.");
                s.append(name);
                s
            } else if a.use_as_ref {
                let mut s = String::from_str("self.");
                s.append(name);
                s.append(".as_ref()");
                proof {
                    assert(s@ =~= getter_body_text(a@, name@, logic_kept));
                }
                s
            } else {
                let mut s = String::from_str("&self.");
                s.append(name);
                s
            }
        },
    }
}

/// Renders the getter for a named field from its parsed switches; the
/// lexer's verdict on the custom logic arrives as data, so the rendering
/// is exact for either verdict.
pub fn render_getter(f: &NamedField, a: &FieldAttributes, logic_kept: bool) -> (r: String)
    ensures
        r@ == getter_text(a@, f.name@, f.ty@, logic_kept),
{
    let rt = render_return_type(a, f.ty.as_str());
    let body = render_getter_body(a, f.name.as_str(), logic_kept);
    let mut s = String::from_str("pub fn ");
    s.append(f.name.as_str());
    s.append("(&self) -> ");
    s.append(rt.as_str());
    s.append(" { ");
    s.append(body.as_str());
    s.append(" }\n");
    proof {
        assert(s@ =~= getter_text(a@, f.name@, f.ty@, logic_kept));
    }
    s
}

/// Renders the mutable getter for a named field.
pub fn render_mut_getter(f: &NamedField) -> (r: String)
    ensures
        r@ == mut_getter_text(*f),
{
    let mut s = String::from_str("pub fn ");
    s.append(f.name.as_str());
    s.append("_mut");
    s.append("(&mut self) -> &mut ");
    s.append(f.ty.as_str());
    s.append(" { &mut self.");
    s.append(f.name.as_str());
    s.append(" }\n");
    proof {
        assert(s@ =~= mut_getter_text(*f));
    }
    s
}

/// Renders the getter for the positional field at index `i`.
pub fn render_unnamed_getter(ty: &str, i: usize) -> (r: String)
    ensures
        r@ == unnamed_getter_text(ty@, i as nat),
{
    let index = usize_dec(i);
    let mut s = String::from_str("pub fn ");
    s.append("get_");
    s.append(index.as_str());
    s.append("(&self) -> &");
    s.append(ty);
    s.append(" { &self.");
    s.append(index.as_str());
    s.append(" }\n");
    proof {
        assert(s@ =~= unnamed_getter_text(ty@, i as nat));
    }
    s
}

} // verus!
