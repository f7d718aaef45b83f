//! Compile-time generation of getter and setter methods for record types.
//!
//! Given a structural description of a record (named, typed fields, each
//! optionally carrying a `get` annotation with a list of directives and a
//! bare `set` annotation), the library parses the directive mini-grammar,
//! validates the combination of directives on each field, and emits one
//! method definition per validated directive.  The host front-end that
//! captures the record description and splices the generated methods back
//! into the surrounding program is deliberately kept outside the library.
//!
//! Processing is all-or-nothing: fields are handled in declaration order
//! and the first error — with the index of its field — is the outcome of
//! the whole invocation.

use vstd::prelude::*;

pub mod args;
pub mod errors;
pub mod field;
pub mod generate;
pub mod laws;
pub mod record;
pub mod tokens;
pub mod validate;
pub mod views;

use crate::errors::{Error, ErrorKind};
use crate::field::{FieldDesc, FieldView, RecordDesc};
use crate::generate::{Method, MethodView};
use crate::record::{process_field, spec_process_field};
use crate::views::lemma_deep_view_concat;

verus! {

/// The outcome of processing the fields from `base` onward: all their
/// methods concatenated in field order, or the first error, paired with
/// the index of its field.
pub open spec fn spec_process_fields(fields: Seq<FieldView>, base: int) -> Result<
    Seq<MethodView>,
    (ErrorKind, int),
>
    decreases fields.len(),
{
    if fields.len() == 0 {
        Ok(Seq::empty())
    } else {
        match spec_process_field(fields[0]) {
            Err(e) => Err((e, base)),
            Ok(ms) => match spec_process_fields(fields.skip(1), base + 1) {
                Err(e) => Err(e),
                Ok(rest) => Ok(ms + rest),
            },
        }
    }
}

/// Prefixing already-generated methods onto the outcome of the remaining
/// fields.
pub open spec fn fields_cont(
    acc: Seq<MethodView>,
    rest: Result<Seq<MethodView>, (ErrorKind, int)>,
) -> Result<Seq<MethodView>, (ErrorKind, int)> {
    match rest {
        Ok(s) => Ok(acc + s),
        Err(e) => Err(e),
    }
}

proof fn lemma_fields_cont_nil(r: Result<Seq<MethodView>, (ErrorKind, int)>)
    ensures
        fields_cont(Seq::empty(), r) == r,
{
    match r {
        Ok(s) => {
            assert(Seq::<MethodView>::empty() + s =~= s);
        },
        Err(_) => {},
    }
}

proof fn lemma_fields_cont_step(
    acc: Seq<MethodView>,
    ms: Seq<MethodView>,
    rest: Result<Seq<MethodView>, (ErrorKind, int)>,
)
    ensures
        fields_cont(acc, fields_cont(ms, rest)) == fields_cont(acc + ms, rest),
{
    match rest {
        Ok(s) => {
            assert(acc + (ms + s) =~= (acc + ms) + s);
        },
        Err(_) => {},
    }
}

/// Process a record's fields in declaration order, concatenating their
/// methods, or surfacing the first error with its field index.
pub fn process_fields(fields: Vec<FieldDesc>) -> (r: Result<Vec<Method>, Error>)
    ensures
        r matches Ok(ms) ==> spec_process_fields(fields.deep_view(), 0) == Ok::<
            Seq<MethodView>,
            (ErrorKind, int),
        >(ms.deep_view()),
        r matches Err(e) ==> spec_process_fields(fields.deep_view(), 0) == Err::<
            Seq<MethodView>,
            (ErrorKind, int),
        >((e.kind, e.field as int)),
{
    let ghost fv0 = fields.deep_view();
    let mut rest = fields;
    let total: usize = rest.len();
    let mut out: Vec<Method> = Vec::new();
    let mut k: usize = 0;
    proof {
        assert(out.deep_view() =~= Seq::<MethodView>::empty());
        lemma_fields_cont_nil(spec_process_fields(fv0, 0));
    }
    while rest.len() != 0
        invariant
            fields.deep_view() == fv0,
            total == fv0.len(),
            k + rest@.len() == total,
            rest.deep_view() =~= fv0.skip(k as int),
            spec_process_fields(fv0, 0) == fields_cont(
                out.deep_view(),
                spec_process_fields(rest.deep_view(), k as int),
            ),
        decreases rest@.len(),
    {
        let ghost rv = rest.deep_view();
        let f = rest.remove(0);
        proof {
            assert(rest.deep_view() =~= rv.skip(1));
            assert(f.deep_view() == rv[0]);
        }
        match process_field(f) {
            Err(e) => {
                return Err(Error { kind: e, field: k });
            },
            Ok(ms) => {
                let ghost out_before = out;
                let ghost ms_ghost = ms;
                let mut ms = ms;
                out.append(&mut ms);
                proof {
                    assert(spec_process_fields(rv, k as int) == fields_cont(
                        ms_ghost.deep_view(),
                        spec_process_fields(rest.deep_view(), k as int + 1),
                    ));
                    lemma_deep_view_concat(out_before, ms_ghost, out);
                    lemma_fields_cont_step(
                        out_before.deep_view(),
                        ms_ghost.deep_view(),
                        spec_process_fields(rest.deep_view(), k as int + 1),
                    );
                }
            },
        }
        k = k + 1;
    }
    proof {
        assert(spec_process_fields(rest.deep_view(), k as int) == Ok::<
            Seq<MethodView>,
            (ErrorKind, int),
        >(Seq::empty()));
        assert(out.deep_view() + Seq::<MethodView>::empty() =~= out.deep_view());
    }
    Ok(out)
}

/// The emitted output: the record's name and the generated methods, to be
/// attached as an implementation block on the record.
#[derive(Debug, PartialEq, Eq)]
pub struct ImplBlock {
    /// The name of the record type the methods belong to.
    pub name: String,
    /// The generated methods, in field order; within a field, the `get`
    /// accessors in directive order, then the mutator.
    pub methods: Vec<Method>,
}

/// The mathematical value of the emitted output.
pub ghost struct ImplBlockView {
    pub name: Seq<char>,
    pub methods: Seq<MethodView>,
}

impl View for ImplBlock {
    type V = ImplBlockView;

    open spec fn view(&self) -> ImplBlockView {
        ImplBlockView { name: self.name@, methods: self.methods.deep_view() }
    }
}

/// Run the whole pipeline on one record description: the generated
/// implementation block, or the first error encountered.
pub fn get_set(record: RecordDesc) -> (r: Result<ImplBlock, Error>)
    ensures
        r matches Ok(ib) ==> ib@.name == record@.name && spec_process_fields(
            record@.fields,
            0,
        ) == Ok::<Seq<MethodView>, (ErrorKind, int)>(ib@.methods),
        r matches Err(e) ==> spec_process_fields(record@.fields, 0) == Err::<
            Seq<MethodView>,
            (ErrorKind, int),
        >((e.kind, e.field as int)),
{
    let RecordDesc { name, fields } = record;
    match process_fields(fields) {
        Err(e) => Err(e),
        Ok(methods) => Ok(ImplBlock { name, methods }),
    }
}

} // verus!
