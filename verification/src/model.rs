//! Plain-data model of a type declaration, reduced to what getter generation
//! reads: the type's name, its generic parameter lists and `where` clause as
//! token text, its attributes, and its fields.

use vstd::prelude::*;
use crate::text::str_eq;

verus! {

/// The value of a name-value attribute, as far as generation reads it.
pub enum AttrValue {
    /// A string literal, carried as its contents.
    Str(String),
    /// Some other literal (an integer, a character, ...).
    NonStrLit,
    /// A value that is not a literal at all.
    OtherExpr,
}

/// One attribute on the declaration or on a field, reduced to the parts the
/// generator reads: the path as token text and, for name-value forms, the
/// kind of value.
pub enum AttrMeta {
    /// A bare path attribute such as `#[use_deref]`.
    Path { name: String },
    /// A list attribute such as `#[outer(inner)]`.
    List { name: String },
    /// A name-value attribute such as `#[return_type = "String"]`.
    NameValue { name: String, value: AttrValue },
}

/// The path text of an attribute.
pub open spec fn attr_name(a: AttrMeta) -> Seq<char> {
    match a {
        AttrMeta::Path { name } => name@,
        AttrMeta::List { name } => name@,
        AttrMeta::NameValue { name, .. } => name@,
    }
}

/// Whether the generator can process the attribute: a `return_type` or
/// `getter_logic` attribute whose value is a non-string literal is refused,
/// and callers must reject it before generation.
pub open spec fn attr_supported(a: AttrMeta) -> bool {
    match a {
        AttrMeta::NameValue { name, value: AttrValue::NonStrLit } => name@ != "return_type"@
            && name@ != "getter_logic"@,
        _ => true,
    }
}

/// Whether every attribute of the sequence can be processed.
pub open spec fn attrs_supported(attrs: Seq<AttrMeta>) -> bool {
    forall|i: int| 0 <= i < attrs.len() ==> attr_supported(attrs[i])
}

/// A named struct field: its identifier, its type as token text, and its
/// attributes.
pub struct NamedField {
    pub name: String,
    pub ty: String,
    pub attrs: Vec<AttrMeta>,
}

/// A positional struct field: its type as token text. Attributes on
/// positional fields do not influence generation.
pub struct UnnamedField {
    pub ty: String,
}

/// The body of the declaration the generator runs on.
#[allow(inconsistent_fields)]
pub enum StructData {
    /// A struct with named fields.
    Named { fields: Vec<NamedField> },
    /// A tuple struct.
    Unnamed { fields: Vec<UnnamedField> },
    /// A unit struct.
    Unit,
    /// An enum or a union: no accessors and no constructor are generated.
    NotStruct,
}

/// A type declaration, reduced to what getter generation reads.
pub struct TypeDecl {
    /// The type's identifier.
    pub name: String,
    /// The `impl` generics as token text (for instance `<T: Clone>`), possibly empty.
    pub impl_generics: String,
    /// The type generics as token text (for instance `<T>`), possibly empty.
    pub ty_generics: String,
    /// The `where` clause as token text, possibly empty.
    pub where_clause: String,
    /// The attributes on the declaration itself.
    pub attrs: Vec<AttrMeta>,
    /// The declaration's body.
    pub data: StructData,
}

/// Whether a `skip_new` attribute stands among the declaration's attributes.
pub open spec fn has_skip_new(attrs: Seq<AttrMeta>) -> bool {
    exists|i: int| 0 <= i < attrs.len() && attr_name(attrs[i]) == "skip_new"@
}

/// Tests whether the generator can process the attribute.
pub fn attr_supported_check(a: &AttrMeta) -> (r: bool)
    ensures
        r == attr_supported(*a),
{
    match a {
        AttrMeta::NameValue { name, value: AttrValue::NonStrLit } => !(str_eq(
            name.as_str(),
            "return_type",
        ) || str_eq(name.as_str(), "getter_logic")),
        _ => true,
    }
}

/// Tests whether every attribute of the list can be processed.
pub fn attrs_supported_check(attrs: &Vec<AttrMeta>) -> (r: bool)
    ensures
        r == attrs_supported(attrs@),
{
    let n: usize = attrs.len();
    let mut i: usize = 0;
    while i < n
        invariant
            n == attrs@.len(),
            i <= n,
            forall|j: int| 0 <= j < i ==> attr_supported(attrs@[j]),
        decreases n - i,
    {
        if !attr_supported_check(&attrs[i]) {
            proof {
                assert(!attr_supported(attrs@[i as int]));
            }
            return false;
        }
        i = i + 1;
    }
    true
}

/// The path text of an attribute, by reference.
pub fn attr_name_ref(a: &AttrMeta) -> (r: &String)
    ensures
        r@ == attr_name(*a),
{
    match a {
        AttrMeta::Path { name } => name,
        AttrMeta::List { name } => name,
        AttrMeta::NameValue { name, .. } => name,
    }
}

/// Scans the declaration's attributes for `skip_new`.
pub fn skip_new_requested(attrs: &Vec<AttrMeta>) -> (r: bool)
    ensures
        r == has_skip_new(attrs@),
{
    let n: usize = attrs.len();
    let mut i: usize = 0;
    while i < n
        invariant
            n == attrs@.len(),
            i <= n,
            forall|j: int| 0 <= j < i ==> attr_name(attrs@[j]) != "skip_new"@,
        decreases n - i,
    {
        let name: &String = attr_name_ref(&attrs[i]);
        if str_eq(name.as_str(), "skip_new") {
            return true;
        }
        i = i + 1;
    }
    false
}

} // verus!
