//! Assembly of the generated `impl` block: the accessor lists, the `new`
//! constructor, and the block itself. The rendering is pinned to the
//! character once the per-field decisions are fixed; the two decisions the
//! syntax crates make (whether a `return_type` value parses as a type,
//! whether a `getter_logic` value lexes) are carried as data, since nothing
//! is promised of them.

use vstd::prelude::*;
use crate::attrs::{FieldAttributesView, parse_field_attributes, parse_outcome_ok};
use crate::getter::{getter_text, mut_getter_text, unnamed_getter_text};
use crate::getter::{render_getter, render_mut_getter, render_unnamed_getter};
use crate::model::{NamedField, StructData, TypeDecl, UnnamedField};
use crate::model::{attrs_supported, attrs_supported_check, has_skip_new, skip_new_requested};
use crate::syntax::lexes_as_token_stream;
use crate::text::dec_rep;
use crate::text::usize_dec;
use vstd::string::StrSliceExecFns;
use vstd::string::StringExecFns;

verus! {

/// What a named field contributes to the getter list, its parsed switches
/// and the lexer's verdict on its custom logic given as data: nothing
/// under `skip_getter`, its getter otherwise.
pub open spec fn field_getter_text(a: FieldAttributesView, f: NamedField, logic_kept: bool) -> Seq<
    char,
> {
    if a.skip_getter {
        Seq::empty()
    } else {
        getter_text(a, f.name@, f.ty@, logic_kept)
    }
}

/// What a named field contributes to the mutable-getter list: its mutable
/// getter exactly when `get_mut` stands among its switches and
/// `skip_getter` does not.
pub open spec fn field_mut_getter_text(a: FieldAttributesView, f: NamedField) -> Seq<char> {
    if !a.skip_getter && a.generate_mut {
        mut_getter_text(f)
    } else {
        Seq::empty()
    }
}

/// The getters of all named fields, in field order, under a decision
/// sequence that pairs each field with its switches and lexer verdict.
pub open spec fn getters_text(
    fields: Seq<NamedField>,
    ds: Seq<(FieldAttributesView, bool)>,
) -> Seq<char>
    decreases fields.len(),
{
    if fields.len() == 0 {
        Seq::empty()
    } else {
        getters_text(fields.drop_last(), ds.drop_last()) + field_getter_text(
            ds.last().0,
            fields.last(),
            ds.last().1,
        )
    }
}

/// The mutable getters of all named fields, in field order.
pub open spec fn mut_getters_text(
    fields: Seq<NamedField>,
    ds: Seq<(FieldAttributesView, bool)>,
) -> Seq<char>
    decreases fields.len(),
{
    if fields.len() == 0 {
        Seq::empty()
    } else {
        mut_getters_text(fields.drop_last(), ds.drop_last()) + field_mut_getter_text(
            ds.last().0,
            fields.last(),
        )
    }
}

/// The getters of all positional fields, in field order.
pub open spec fn unnamed_getters_text(fields: Seq<UnnamedField>) -> Seq<char>
    decreases fields.len(),
{
    if fields.len() == 0 {
        Seq::empty()
    } else {
        unnamed_getters_text(fields.drop_last()) + unnamed_getter_text(
            fields.last().ty@,
            (fields.len() - 1) as nat,
        )
    }
}

/// Whether a decision sequence fits the named fields: one entry per field,
/// whose switches are an admissible outcome of reading that field's
/// attributes. Of the lexer verdict nothing is required.
pub open spec fn field_decisions_ok(
    fields: Seq<NamedField>,
    ds: Seq<(FieldAttributesView, bool)>,
) -> bool {
    &&& ds.len() == fields.len()
    &&& forall|i: int| 0 <= i < ds.len() ==> parse_outcome_ok(fields[i].attrs@, ds[i].0)
}

/// Whether a decision sequence fits the declaration: one entry per named
/// field, none otherwise.
pub open spec fn decisions_ok(t: TypeDecl, ds: Seq<(FieldAttributesView, bool)>) -> bool {
    match t.data {
        StructData::Named { fields } => field_decisions_ok(fields@, ds),
        _ => ds.len() == 0,
    }
}

/// One parameter of the `new` constructor for a named field.
pub open spec fn named_arg_text(f: NamedField) -> Seq<char> {
    f.name@ + ": "@ + f.ty@
}

/// One struct-literal entry of the `new` constructor for a named field.
pub open spec fn named_init_text(f: NamedField) -> Seq<char> {
    f.name@ + ": "@ + f.name@
}

/// The parameter name for the positional field at index `i`.
pub open spec fn positional_arg_name(i: nat) -> Seq<char> {
    "field_"@ + dec_rep(i)
}

/// One parameter of the `new` constructor for a positional field.
pub open spec fn unnamed_arg_text(ty: Seq<char>, i: nat) -> Seq<char> {
    positional_arg_name(i) + ": "@ + ty
}

/// The comma-separated parameter list for named fields.
pub open spec fn named_args_text(fields: Seq<NamedField>) -> Seq<char>
    decreases fields.len(),
{
    if fields.len() == 0 {
        Seq::empty()
    } else if fields.len() == 1 {
        named_arg_text(fields[0])
    } else {
        named_args_text(fields.drop_last()) + ", "@ + named_arg_text(fields.last())
    }
}

/// The comma-separated struct-literal entries for named fields.
pub open spec fn named_inits_text(fields: Seq<NamedField>) -> Seq<char>
    decreases fields.len(),
{
    if fields.len() == 0 {
        Seq::empty()
    } else if fields.len() == 1 {
        named_init_text(fields[0])
    } else {
        named_inits_text(fields.drop_last()) + ", "@ + named_init_text(fields.last())
    }
}

/// The comma-separated parameter list for positional fields.
pub open spec fn unnamed_args_text(fields: Seq<UnnamedField>) -> Seq<char>
    decreases fields.len(),
{
    if fields.len() == 0 {
        Seq::empty()
    } else if fields.len() == 1 {
        unnamed_arg_text(fields[0].ty@, 0)
    } else {
        unnamed_args_text(fields.drop_last()) + ", "@ + unnamed_arg_text(
            fields.last().ty@,
            (fields.len() - 1) as nat,
        )
    }
}

/// The comma-separated constructor arguments for positional fields.
pub open spec fn unnamed_inits_text(fields: Seq<UnnamedField>) -> Seq<char>
    decreases fields.len(),
{
    if fields.len() == 0 {
        Seq::empty()
    } else if fields.len() == 1 {
        positional_arg_name(0)
    } else {
        unnamed_inits_text(fields.drop_last()) + ", "@ + positional_arg_name(
            (fields.len() - 1) as nat,
        )
    }
}

/// The `new` constructor a declaration body earns: a field-per-parameter
/// constructor for named and tuple structs, nothing for unit structs,
/// enums and unions.
pub open spec fn new_fn_text(d: StructData) -> Seq<char> {
    match d {
        StructData::Named { fields } => "pub fn new("@ + named_args_text(fields@)
            + ") -> Self { Self { "@ + named_inits_text(fields@) + " } }\n"@,
        StructData::Unnamed { fields } => "pub fn new("@ + unnamed_args_text(fields@)
            + ") -> Self { Self("@ + unnamed_inits_text(fields@) + ") }\n"@,
        StructData::Unit => Seq::empty(),
        StructData::NotStruct => Seq::empty(),
    }
}

/// All accessors a declaration body earns under a decision sequence: the
/// getters, then the mutable getters.
pub open spec fn accessors_text(d: StructData, ds: Seq<(FieldAttributesView, bool)>) -> Seq<char> {
    match d {
        StructData::Named { fields } => getters_text(fields@, ds) + mut_getters_text(fields@, ds),
        StructData::Unnamed { fields } => unnamed_getters_text(fields@),
        StructData::Unit => Seq::empty(),
        StructData::NotStruct => Seq::empty(),
    }
}

/// A token-text piece followed by a space when it is not empty.
pub open spec fn padded(s: Seq<char>) -> Seq<char> {
    if s.len() == 0 {
        s
    } else {
        s + " "@
    }
}

/// Whether the generator can process every field attribute of the
/// declaration.
pub open spec fn decl_supported(t: TypeDecl) -> bool {
    match t.data {
        StructData::Named { fields } => forall|i: int|
            0 <= i < fields@.len() ==> attrs_supported(fields@[i].attrs@),
        _ => true,
    }
}

/// The whole generated `impl` block under a decision sequence: header, the
/// `new` constructor unless `skip_new` stands on the declaration, the
/// getters, and the mutable getters.
pub open spec fn expand_text(t: TypeDecl, ds: Seq<(FieldAttributesView, bool)>) -> Seq<char> {
    "impl "@ + padded(t.impl_generics@) + t.name@ + t.ty_generics@ + " "@ + padded(
        t.where_clause@,
    ) + "{\n"@ + (if has_skip_new(t.attrs@) {
        Seq::<char>::empty()
    } else {
        new_fn_text(t.data)
    }) + accessors_text(t.data, ds) + "}\n"@
}

/// Tests whether every named field's attributes can be processed.
fn fields_supported_check(fields: &Vec<NamedField>) -> (r: bool)
    ensures
        r == (forall|i: int| 0 <= i < fields@.len() ==> attrs_supported(fields@[i].attrs@)),
{
    let n: usize = fields.len();
    let mut i: usize = 0;
    while i < n
        invariant
            n == fields@.len(),
            i <= n,
            forall|j: int| 0 <= j < i ==> attrs_supported(fields@[j].attrs@),
        decreases n - i,
    {
        if !attrs_supported_check(&fields[i].attrs) {
            proof {
                assert(!attrs_supported(fields@[i as int].attrs@));
            }
            return false;
        }
        i = i + 1;
    }
    true
}

/// Tests whether the generator can process every field attribute of the
/// declaration; callers check this before asking for an expansion.
pub fn decl_supported_check(input: &TypeDecl) -> (r: bool)
    ensures
        r == decl_supported(*input),
{
    match &input.data {
        StructData::Named { fields } => fields_supported_check(fields),
        _ => true,
    }
}

/// Appends a token-text piece and, when it is not empty, a trailing space.
fn append_padded(s: &mut String, piece: &str)
    ensures
        final(s)@ == old(s)@ + padded(piece@),
{
    let n: usize = piece.unicode_len();
    if n > 0 {
        s.append(piece);
        s.append(" ");
    } else {
        proof {
            assert(s@ =~= s@ + padded(piece@));
        }
    }
}

/// Renders the getters and the mutable getters of the named fields, and
/// returns the decision sequence the rendering followed.
fn render_named_accessors(fields: &Vec<NamedField>) -> (r: (
    String,
    String,
    Ghost<Seq<(FieldAttributesView, bool)>>,
))
    requires
        forall|i: int| 0 <= i < fields@.len() ==> attrs_supported(fields@[i].attrs@),
    ensures
        field_decisions_ok(fields@, r.2@),
        r.0@ == getters_text(fields@, r.2@),
        r.1@ == mut_getters_text(fields@, r.2@),
{
    let mut g = String::new();
    let mut m = String::new();
    let ghost mut ds: Seq<(FieldAttributesView, bool)> = Seq::empty();
    let n: usize = fields.len();
    let mut i: usize = 0;
    while i < n
        invariant
            n == fields@.len(),
            i <= n,
            forall|k: int| 0 <= k < fields@.len() ==> attrs_supported(fields@[k].attrs@),
            ds.len() == i,
            forall|k: int| 0 <= k < i ==> parse_outcome_ok(fields@[k].attrs@, ds[k].0),
            g@ == getters_text(fields@.take(i as int), ds),
            m@ == mut_getters_text(fields@.take(i as int), ds),
        decreases n - i,
    {
        let f = &fields[i];
        let a = parse_field_attributes(&f.attrs);
        let logic_kept: bool = match &a.custom_logic {
            Option::Some(l) => lexes_as_token_stream(l.as_str()),
            Option::None => true,
        };
        let ghost pre_ds = ds;
        proof {
            ds = ds.push((a@, logic_kept));
        }
        if !a.skip_getter {
            let t = render_getter(f, &a, logic_kept);
            g.append(t.as_str());
            if a.generate_mut {
                let t2 = render_mut_getter(f);
                m.append(t2.as_str());
            }
        }
        proof {
            assert(fields@.take(i + 1).drop_last() =~= fields@.take(i as int));
            assert(fields@.take(i + 1).last() == fields@[i as int]);
            assert(ds.drop_last() =~= pre_ds);
            assert(g@ =~= getters_text(fields@.take(i + 1), ds));
            assert(m@ =~= mut_getters_text(fields@.take(i + 1), ds));
        }
        i = i + 1;
    }
    proof {
        assert(fields@.take(n as int) =~= fields@);
    }
    (g, m, Ghost(ds))
}

/// Renders the getters of the positional fields.
fn render_unnamed_accessors(fields: &Vec<UnnamedField>) -> (r: String)
    ensures
        r@ == unnamed_getters_text(fields@),
{
    let mut g = String::new();
    let n: usize = fields.len();
    let mut i: usize = 0;
    while i < n
        invariant
            n == fields@.len(),
            i <= n,
            g@ == unnamed_getters_text(fields@.take(i as int)),
        decreases n - i,
    {
        let t = render_unnamed_getter(fields[i].ty.as_str(), i);
        g.append(t.as_str());
        proof {
            assert(fields@.take(i + 1).drop_last() =~= fields@.take(i as int));
            assert(fields@.take(i + 1).last() == fields@[i as int]);
            assert(g@ =~= unnamed_getters_text(fields@.take(i + 1)));
        }
        i = i + 1;
    }
    proof {
        assert(fields@.take(n as int) =~= fields@);
    }
    g
}

/// Renders the parameter list of `new` for named fields.
fn render_named_args(fields: &Vec<NamedField>) -> (r: String)
    ensures
        r@ == named_args_text(fields@),
{
    let mut s = String::new();
    let n: usize = fields.len();
    let mut i: usize = 0;
    while i < n
        invariant
            n == fields@.len(),
            i <= n,
            s@ == named_args_text(fields@.take(i as int)),
        decreases n - i,
    {
        if i > 0 {
            s.append(", ");
        }
        s.append(fields[i].name.as_str());
        s.append(": ");
        s.append(fields[i].ty.as_str());
        proof {
            assert(fields@.take(i + 1).drop_last() =~= fields@.take(i as int));
            assert(fields@.take(i + 1).last() == fields@[i as int]);
            assert(s@ =~= named_args_text(fields@.take(i + 1)));
        }
        i = i + 1;
    }
    proof {
        assert(fields@.take(n as int) =~= fields@);
    }
    s
}

/// Renders the struct-literal entries of `new` for named fields.
fn render_named_inits(fields: &Vec<NamedField>) -> (r: String)
    ensures
        r@ == named_inits_text(fields@),
{
    let mut s = String::new();
    let n: usize = fields.len();
    let mut i: usize = 0;
    while i < n
        invariant
            n == fields@.len(),
            i <= n,
            s@ == named_inits_text(fields@.take(i as int)),
        decreases n - i,
    {
        if i > 0 {
            s.append(", ");
        }
        s.append(fields[i].name.as_str());
        s.append(": ");
        s.append(fields[i].name.as_str());
        proof {
            assert(fields@.take(i + 1).drop_last() =~= fields@.take(i as int));
            assert(fields@.take(i + 1).last() == fields@[i as int]);
            assert(s@ =~= named_inits_text(fields@.take(i + 1)));
        }
        i = i + 1;
    }
    proof {
        assert(fields@.take(n as int) =~= fields@);
    }
    s
}

/// Renders the parameter list of `new` for positional fields.
fn render_unnamed_args(fields: &Vec<UnnamedField>) -> (r: String)
    ensures
        r@ == unnamed_args_text(fields@),
{
    let mut s = String::new();
    let n: usize = fields.len();
    let mut i: usize = 0;
    while i < n
        invariant
            n == fields@.len(),
            i <= n,
            s@ == unnamed_args_text(fields@.take(i as int)),
        decreases n - i,
    {
        if i > 0 {
            s.append(", ");
        }
        let index = usize_dec(i);
        s.append("field_");
        s.append(index.as_str());
        s.append(": ");
        s.append(fields[i].ty.as_str());
        proof {
            assert(fields@.take(i + 1).drop_last() =~= fields@.take(i as int));
            assert(fields@.take(i + 1).last() == fields@[i as int]);
            assert(s@ =~= unnamed_args_text(fields@.take(i + 1)));
        }
        i = i + 1;
    }
    proof {
        assert(fields@.take(n as int) =~= fields@);
    }
    s
}

/// Renders the constructor arguments of `new` for positional fields.
fn render_unnamed_inits(fields: &Vec<UnnamedField>) -> (r: String)
    ensures
        r@ == unnamed_inits_text(fields@),
{
    let mut s = String::new();
    let n: usize = fields.len();
    let mut i: usize = 0;
    while i < n
        invariant
            n == fields@.len(),
            i <= n,
            s@ == unnamed_inits_text(fields@.take(i as int)),
        decreases n - i,
    {
        if i > 0 {
            s.append(", ");
        }
        let index = usize_dec(i);
        s.append("field_");
        s.append(index.as_str());
        proof {
            assert(fields@.take(i + 1).drop_last() =~= fields@.take(i as int));
            assert(fields@.take(i + 1).last() == fields@[i as int]);
            assert(s@ =~= unnamed_inits_text(fields@.take(i + 1)));
        }
        i = i + 1;
    }
    proof {
        assert(fields@.take(n as int) =~= fields@);
    }
    s
}

/// Renders the `new` constructor that a declaration body earns.
pub fn generate_new_fn(data: &StructData) -> (r: String)
    ensures
        r@ == new_fn_text(*data),
{
    match data {
        StructData::Named { fields } => {
            let args = render_named_args(fields);
            let inits = render_named_inits(fields);
            let mut s = String::from_str("pub fn new(");
            s.append(args.as_str());
            s.append(") -> Self { Self { ");
            s.append(inits.as_str());
            s.append(" } }\n");
            proof {
                assert(s@ =~= new_fn_text(*data));
            }
            s
        },
        StructData::Unnamed { fields } => {
            let args = render_unnamed_args(fields);
            let inits = render_unnamed_inits(fields);
            let mut s = String::from_str("pub fn new(");
            s.append(args.as_str());
            s.append(") -> Self { Self(");
            s.append(inits.as_str());
            s.append(") }\n");
            proof {
                assert(s@ =~= new_fn_text(*data));
            }
            s
        },
        StructData::Unit => String::new(),
        StructData::NotStruct => String::new(),
    }
}

/// Expands a type declaration into its generated `impl` block. The output
/// is the expansion under some decision sequence that fits the
/// declaration: everything but the two syntax verdicts is pinned exactly.
pub fn derive_getters_fn(input: &TypeDecl) -> (r: String)
    requires
        decl_supported(*input),
    ensures
        exists|ds: Seq<(FieldAttributesView, bool)>|
            decisions_ok(*input, ds) && r@ == expand_text(*input, ds),
{
    let ghost mut ds: Seq<(FieldAttributesView, bool)> = Seq::empty();
    let mut s = String::from_str("impl ");
    append_padded(&mut s, input.impl_generics.as_str());
    s.append(input.name.as_str());
    s.append(input.ty_generics.as_str());
    s.append(" ");
    append_padded(&mut s, input.where_clause.as_str());
    s.append("{\n");
    if !skip_new_requested(&input.attrs) {
        let nf = generate_new_fn(&input.data);
        s.append(nf.as_str());
    }
    match &input.data {
        StructData::Named { fields } => {
            let (g, m, named_ds) = render_named_accessors(fields);
            s.append(g.as_str());
            s.append(m.as_str());
            proof {
                ds = named_ds@;
            }
        },
        StructData::Unnamed { fields } => {
            let g = render_unnamed_accessors(fields);
            s.append(g.as_str());
        },
        StructData::Unit => {},
        StructData::NotStruct => {},
    }
    s.append("}\n");
    proof {
        assert(decisions_ok(*input, ds));
        assert(s@ =~= expand_text(*input, ds));
    }
    s
}

} // verus!
