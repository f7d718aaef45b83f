//! The library's laws: properties of the pipeline that hold for all inputs,
//! stated over the spec-level pipeline and proved once and for all.

use vstd::prelude::*;

use crate::args::arg_types::GetArgView;
use crate::args::funky::FunkyView;
use crate::errors::ErrorKind;
use crate::field::FieldView;
use crate::generate::{spec_gen_gets, spec_gen_set, MethodBodyView, MethodView, TypeRefView};
use crate::record::{count_named, first_named, spec_process_field};
use crate::validate::{
    count_kind, has_kind, lemma_count_kind_at_least_one, lemma_count_kind_zero, spec_validate,
    ArgKind,
};
use crate::spec_process_fields;

verus! {

/// Law: a `copy` directive always generates the accessor `get_<field>`,
/// returning the field's declared type by value out of a plain-read body,
/// never a duplication.
pub proof fn lemma_copy_accessor_plain(
    args: Seq<GetArgView>,
    vis: Seq<char>,
    field: Seq<char>,
    ty: Seq<char>,
    i: int,
)
    requires
        0 <= i < args.len(),
        args[i] is ByCopy,
    ensures
        spec_gen_gets(args, vis, field, ty)[i].name == "get_"@ + field,
        spec_gen_gets(args, vis, field, ty)[i].ret == Some(TypeRefView::Named(ty)),
        spec_gen_gets(args, vis, field, ty)[i].body == MethodBodyView::ReadField(field),
        !(spec_gen_gets(args, vis, field, ty)[i].body is CloneField),
{
}

/// Law: a `clone` directive always generates the accessor `get_<field>`
/// whose body is a duplication of the field, never a bare copy.
pub proof fn lemma_clone_accessor_duplicates(
    args: Seq<GetArgView>,
    vis: Seq<char>,
    field: Seq<char>,
    ty: Seq<char>,
    i: int,
)
    requires
        0 <= i < args.len(),
        args[i] is ByClone,
    ensures
        spec_gen_gets(args, vis, field, ty)[i].name == "get_"@ + field,
        spec_gen_gets(args, vis, field, ty)[i].ret == Some(TypeRefView::Named(ty)),
        spec_gen_gets(args, vis, field, ty)[i].body == MethodBodyView::CloneField(field),
        !(spec_gen_gets(args, vis, field, ty)[i].body is ReadField),
{
}

/// Law: whenever `copy` and `clone` both occur in one directive list, in
/// any order and at any positions, validation fails with the dedicated
/// conflict error.
pub proof fn lemma_copy_clone_conflict(args: Seq<GetArgView>, i: int, j: int)
    requires
        0 <= i < args.len(),
        0 <= j < args.len(),
        args[i] is ByCopy,
        args[j] is ByClone,
    ensures
        spec_validate(args) == Some(ErrorKind::CopyCloneConflict),
{
    lemma_count_kind_at_least_one(args, ArgKind::KCopy, i);
    lemma_count_kind_at_least_one(args, ArgKind::KClone, j);
}

/// Two occurrences of a kind at distinct positions count at least twice.
proof fn lemma_count_kind_at_least_two(s: Seq<GetArgView>, k: ArgKind, i: int, j: int)
    requires
        0 <= i < j < s.len(),
        has_kind(s[i], k),
        has_kind(s[j], k),
    ensures
        count_kind(s, k) >= 2,
    decreases s.len(),
{
    if j == s.len() - 1 {
        assert(s.drop_last()[i] == s[i]);
        lemma_count_kind_at_least_one(s.drop_last(), k, i);
        assert(s.last() == s[j]);
    } else {
        assert(s.drop_last()[i] == s[i]);
        assert(s.drop_last()[j] == s[j]);
        lemma_count_kind_at_least_two(s.drop_last(), k, i, j);
    }
}

/// Law: a plain directive kind occurring twice — when `copy` and `clone`
/// are not both present, which takes precedence — is the generic
/// repetition error, whatever else the list holds.
pub proof fn lemma_plain_repetition(args: Seq<GetArgView>, k: ArgKind, i: int, j: int)
    requires
        0 <= i < j < args.len(),
        has_kind(args[i], k),
        has_kind(args[j], k),
        !(count_kind(args, ArgKind::KCopy) >= 1 && count_kind(args, ArgKind::KClone) >= 1),
    ensures
        spec_validate(args) == Some(ErrorKind::Repetition),
{
    lemma_count_kind_at_least_two(args, k, i, j);
}

/// Law: a non-empty list of `funky` directives alone always validates,
/// however many there are.
pub proof fn lemma_funky_repeats_freely(args: Seq<GetArgView>)
    requires
        args.len() > 0,
        forall|i: int| 0 <= i < args.len() ==> args[i] is Funky,
    ensures
        spec_validate(args) is None,
{
    lemma_count_kind_zero(args, ArgKind::KCopy);
    lemma_count_kind_zero(args, ArgKind::KClone);
    lemma_count_kind_zero(args, ArgKind::KImRef);
    lemma_count_kind_zero(args, ArgKind::KMutRef);
}

/// Law: a non-empty directive list in which each plain kind occurs at most
/// once, with `copy` and `clone` not both present, always validates —
/// however many `funky` entries it holds, since no count ever sees them.
pub proof fn lemma_plain_kinds_at_most_once_validates(args: Seq<GetArgView>)
    requires
        args.len() > 0,
        count_kind(args, ArgKind::KCopy) <= 1,
        count_kind(args, ArgKind::KClone) <= 1,
        count_kind(args, ArgKind::KImRef) <= 1,
        count_kind(args, ArgKind::KMutRef) <= 1,
        !(count_kind(args, ArgKind::KCopy) >= 1 && count_kind(args, ArgKind::KClone) >= 1),
    ensures
        spec_validate(args) is None,
{
}

/// Law: two `funky` directives on one field validate and yield two
/// independently named accessors, `get_<first>` and `get_<second>`.
pub proof fn lemma_two_funky_accessors(
    f1: FunkyView,
    f2: FunkyView,
    vis: Seq<char>,
    field: Seq<char>,
    ty: Seq<char>,
)
    ensures
        spec_validate(seq![GetArgView::Funky(f1), GetArgView::Funky(f2)]) is None,
        spec_gen_gets(seq![GetArgView::Funky(f1), GetArgView::Funky(f2)], vis, field, ty)[0].name
            == "get_"@ + f1.method_name,
        spec_gen_gets(seq![GetArgView::Funky(f1), GetArgView::Funky(f2)], vis, field, ty)[1].name
            == "get_"@ + f2.method_name,
{
    lemma_funky_repeats_freely(seq![GetArgView::Funky(f1), GetArgView::Funky(f2)]);
}

/// Law: an empty directive list is always rejected with the dedicated
/// empty-directive error.
pub proof fn lemma_empty_directives_rejected()
    ensures
        spec_validate(Seq::empty()) == Some(ErrorKind::EmptyDirectiveList),
{
}

/// Law: a field carrying a second `get` or a second `set` annotation fails
/// with the cardinality error, whatever the annotations hold — no
/// directive parsing takes part in the verdict.
pub proof fn lemma_cardinality_precedes_parsing(f: FieldView)
    requires
        count_named(f.attrs, "get"@) > 1 || count_named(f.attrs, "set"@) > 1,
    ensures
        spec_process_field(f) == Err::<Seq<MethodView>, ErrorKind>(ErrorKind::GetSetCardinality),
{
}

/// Law: on a field without `get` annotations, a single `set` annotation
/// carrying arguments of any shape fails with the set-argument error.
pub proof fn lemma_set_arguments_rejected(f: FieldView, si: int)
    requires
        count_named(f.attrs, "get"@) == 0,
        first_named(f.attrs, "get"@) is None,
        count_named(f.attrs, "set"@) == 1,
        first_named(f.attrs, "set"@) == Some(si),
        f.attrs[si].args is Some,
    ensures
        spec_process_field(f) == Err::<Seq<MethodView>, ErrorKind>(ErrorKind::SetArgument),
{
}

/// Law: on a field without `get` annotations, a single bare `set`
/// annotation yields exactly one method, the mutator `set_<field>`.
pub proof fn lemma_bare_set_generates_mutator(f: FieldView, si: int)
    requires
        count_named(f.attrs, "get"@) == 0,
        first_named(f.attrs, "get"@) is None,
        count_named(f.attrs, "set"@) == 1,
        first_named(f.attrs, "set"@) == Some(si),
        f.attrs[si].args is None,
    ensures
        spec_process_field(f) == Ok::<Seq<MethodView>, ErrorKind>(
            seq![spec_gen_set(f.vis, f.name, f.ty)],
        ),
{
    assert(Seq::<MethodView>::empty().push(spec_gen_set(f.vis, f.name, f.ty)) =~= seq![
        spec_gen_set(f.vis, f.name, f.ty),
    ]);
}

/// Law: the output preserves field order — the first field's methods stand
/// before everything the remaining fields generate.
pub proof fn lemma_output_preserves_field_order(
    fields: Seq<FieldView>,
    base: int,
    ms0: Seq<MethodView>,
    rest: Seq<MethodView>,
)
    requires
        fields.len() > 0,
        spec_process_field(fields[0]) == Ok::<Seq<MethodView>, ErrorKind>(ms0),
        spec_process_fields(fields.skip(1), base + 1) == Ok::<Seq<MethodView>, (ErrorKind, int)>(
            rest,
        ),
    ensures
        spec_process_fields(fields, base) == Ok::<Seq<MethodView>, (ErrorKind, int)>(ms0 + rest),
{
}

/// Law: the first failing field in declaration order decides the outcome —
/// when every field before `i` processes cleanly and field `i` fails with
/// `e`, the whole record fails with `e` at field `i`.
pub proof fn lemma_first_error_surfaces(fields: Seq<FieldView>, base: int, i: int, e: ErrorKind)
    requires
        0 <= i < fields.len(),
        forall|j: int| 0 <= j < i ==> spec_process_field(fields[j]) is Ok,
        spec_process_field(fields[i]) == Err::<Seq<MethodView>, ErrorKind>(e),
    ensures
        spec_process_fields(fields, base) == Err::<Seq<MethodView>, (ErrorKind, int)>(
            (e, base + i),
        ),
    decreases i,
{
    if i == 0 {
    } else {
        let sub = fields.skip(1);
        assert(forall|j: int| 0 <= j < sub.len() ==> sub[j] == fields[j + 1]);
        lemma_first_error_surfaces(sub, base + 1, i - 1, e);
    }
}

/// Law: a field with a second `get` or a second `set` annotation — every
/// field before it processing cleanly — fails the whole record with the
/// cardinality error at that field's index, whatever its annotations hold.
pub proof fn lemma_cardinality_error_at_field(fields: Seq<FieldView>, base: int, i: int)
    requires
        0 <= i < fields.len(),
        forall|j: int| 0 <= j < i ==> spec_process_field(fields[j]) is Ok,
        count_named(fields[i].attrs, "get"@) > 1 || count_named(fields[i].attrs, "set"@) > 1,
    ensures
        spec_process_fields(fields, base) == Err::<Seq<MethodView>, (ErrorKind, int)>(
            (ErrorKind::GetSetCardinality, base + i),
        ),
{
    lemma_cardinality_precedes_parsing(fields[i]);
    lemma_first_error_surfaces(fields, base, i, ErrorKind::GetSetCardinality);
}

/// Law: a field without `get` annotations whose single `set` annotation
/// carries arguments of any shape — every field before it processing
/// cleanly — fails the whole record with the set-argument error at that
/// field's index, and no methods are returned.
pub proof fn lemma_set_arguments_error_at_field(fields: Seq<FieldView>, base: int, i: int, si: int)
    requires
        0 <= i < fields.len(),
        forall|j: int| 0 <= j < i ==> spec_process_field(fields[j]) is Ok,
        count_named(fields[i].attrs, "get"@) == 0,
        first_named(fields[i].attrs, "get"@) is None,
        count_named(fields[i].attrs, "set"@) == 1,
        first_named(fields[i].attrs, "set"@) == Some(si),
        fields[i].attrs[si].args is Some,
    ensures
        spec_process_fields(fields, base) == Err::<Seq<MethodView>, (ErrorKind, int)>(
            (ErrorKind::SetArgument, base + i),
        ),
{
    lemma_set_arguments_rejected(fields[i], si);
    lemma_first_error_surfaces(fields, base, i, ErrorKind::SetArgument);
}

/// Law: a record of one field carrying a bare `set` annotation and no
/// `get` annotation yields exactly one method, the field's mutator.
pub proof fn lemma_bare_set_single_field_record(f: FieldView, si: int)
    requires
        count_named(f.attrs, "get"@) == 0,
        first_named(f.attrs, "get"@) is None,
        count_named(f.attrs, "set"@) == 1,
        first_named(f.attrs, "set"@) == Some(si),
        f.attrs[si].args is None,
    ensures
        spec_process_fields(seq![f], 0) == Ok::<Seq<MethodView>, (ErrorKind, int)>(
            seq![spec_gen_set(f.vis, f.name, f.ty)],
        ),
{
    lemma_bare_set_generates_mutator(f, si);
    reveal_with_fuel(spec_process_fields, 2);
    assert(seq![f][0] == f);
    assert(seq![f].skip(1) =~= Seq::<FieldView>::empty());
    assert(seq![spec_gen_set(f.vis, f.name, f.ty)] + Seq::<MethodView>::empty() =~= seq![
        spec_gen_set(f.vis, f.name, f.ty),
    ]);
}

/// Law: within one field, the `get` accessors come first, in directive
/// order, and the mutator comes last.
pub proof fn lemma_get_before_set_within_field(
    f: FieldView,
    gi: int,
    si: int,
    ts: Seq<crate::tokens::Tok>,
    ds: Seq<GetArgView>,
)
    requires
        count_named(f.attrs, "get"@) <= 1,
        count_named(f.attrs, "set"@) <= 1,
        first_named(f.attrs, "get"@) == Some(gi),
        f.attrs[gi].args == Some(ts),
        crate::args::arg_types::spec_parse_get_args(ts) == Ok::<Seq<GetArgView>, ErrorKind>(ds),
        spec_validate(ds) is None,
        first_named(f.attrs, "set"@) == Some(si),
        f.attrs[si].args is None,
    ensures
        spec_process_field(f) == Ok::<Seq<MethodView>, ErrorKind>(
            spec_gen_gets(ds, f.vis, f.name, f.ty).push(spec_gen_set(f.vis, f.name, f.ty)),
        ),
{
}

/// Law: for a field carrying a `copy` or `clone` directive and a bare
/// `set` annotation, the generated accessor reads exactly the field that
/// the generated mutator assigns — both named after the field, the field's
/// declared type serving as the accessor's return type and the mutator's
/// parameter type.  The runtime round trip itself — set a value, then get
/// it back — happens in the generated code, which the host compiles and
/// runs outside the library.
pub proof fn lemma_round_trip_field_pairing(
    f: FieldView,
    gi: int,
    si: int,
    ts: Seq<crate::tokens::Tok>,
    ds: Seq<GetArgView>,
    i: int,
)
    requires
        count_named(f.attrs, "get"@) <= 1,
        count_named(f.attrs, "set"@) <= 1,
        first_named(f.attrs, "get"@) == Some(gi),
        f.attrs[gi].args == Some(ts),
        crate::args::arg_types::spec_parse_get_args(ts) == Ok::<Seq<GetArgView>, ErrorKind>(ds),
        spec_validate(ds) is None,
        first_named(f.attrs, "set"@) == Some(si),
        f.attrs[si].args is None,
        0 <= i < ds.len(),
        ds[i] is ByCopy || ds[i] is ByClone,
    ensures
        spec_process_field(f) == Ok::<Seq<MethodView>, ErrorKind>(
            spec_gen_gets(ds, f.vis, f.name, f.ty).push(spec_gen_set(f.vis, f.name, f.ty)),
        ),
        spec_gen_gets(ds, f.vis, f.name, f.ty)[i].name == "get_"@ + f.name,
        spec_gen_gets(ds, f.vis, f.name, f.ty)[i].ret == Some(TypeRefView::Named(f.ty)),
        ds[i] is ByCopy ==> spec_gen_gets(ds, f.vis, f.name, f.ty)[i].body
            == MethodBodyView::ReadField(f.name),
        ds[i] is ByClone ==> spec_gen_gets(ds, f.vis, f.name, f.ty)[i].body
            == MethodBodyView::CloneField(f.name),
        spec_gen_set(f.vis, f.name, f.ty).name == "set_"@ + f.name,
        spec_gen_set(f.vis, f.name, f.ty).param == Some(f.ty),
        spec_gen_set(f.vis, f.name, f.ty).body == MethodBodyView::AssignField(f.name),
{
    lemma_get_before_set_within_field(f, gi, si, ts, ds);
}

} // verus!
