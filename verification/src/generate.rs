//! Emission of method definitions from validated directives.
//!
//! Every directive maps to exactly one method definition; a bare `set`
//! annotation maps to one mutator.  A method definition carries the
//! visibility verbatim, the method name, the receiver's mutability, an
//! optional value parameter (the mutator's, named `value`), an optional
//! return type and the body, all as data for the host to splice in.

use vstd::prelude::*;
use vstd::string::StringExecFns;

use crate::args::arg_types::{GetArgView, GetArgs};
use crate::tokens::Tok;
use crate::views::lemma_deep_view_push;

verus! {

/// A return or parameter type of a generated method.
#[derive(Debug, PartialEq, Eq)]
pub enum TypeRef {
    /// The field's declared type, as opaque source text.
    Named(String),
    /// A type written inside an annotation, as an uninterpreted token run.
    Toks(Vec<Tok>),
}

/// The mathematical value of a type reference.
pub ghost enum TypeRefView {
    Named(Seq<char>),
    Toks(Seq<Tok>),
}

impl View for TypeRef {
    type V = TypeRefView;

    open spec fn view(&self) -> TypeRefView {
        match self {
            TypeRef::Named(s) => TypeRefView::Named(s@),
            TypeRef::Toks(t) => TypeRefView::Toks(t@),
        }
    }
}

impl DeepView for TypeRef {
    type V = TypeRefView;

    open spec fn deep_view(&self) -> TypeRefView {
        self.view()
    }
}

/// The body of a generated method, always in terms of the field it serves.
#[derive(Debug, PartialEq, Eq)]
pub enum MethodBody {
    /// `self.<field>` — the field's value, by plain copy.
    ReadField(String),
    /// `self.<field>.clone()` — a duplicate of the field's value.
    CloneField(String),
    /// `self.<field>.as_ref()` — a reference conversion of the field.
    RefField(String),
    /// `self.<field>.as_mut()` — a mutable reference conversion, through a
    /// mutable receiver.
    MutRefField(String),
    /// Bind the field under its own name (mutably if `mutable`), then
    /// evaluate the uninterpreted expression in that scope.
    FunkyEval { field: String, mutable: bool, expr: Vec<Tok> },
    /// `self.<field> = value` — assign the value parameter into the field.
    AssignField(String),
}

/// The mathematical value of a method body.
pub ghost enum MethodBodyView {
    ReadField(Seq<char>),
    CloneField(Seq<char>),
    RefField(Seq<char>),
    MutRefField(Seq<char>),
    FunkyEval { field: Seq<char>, mutable: bool, expr: Seq<Tok> },
    AssignField(Seq<char>),
}

impl View for MethodBody {
    type V = MethodBodyView;

    open spec fn view(&self) -> MethodBodyView {
        match self {
            MethodBody::ReadField(f) => MethodBodyView::ReadField(f@),
            MethodBody::CloneField(f) => MethodBodyView::CloneField(f@),
            MethodBody::RefField(f) => MethodBodyView::RefField(f@),
            MethodBody::MutRefField(f) => MethodBodyView::MutRefField(f@),
            MethodBody::FunkyEval { field, mutable, expr } => MethodBodyView::FunkyEval {
                field: field@,
                mutable: *mutable,
                expr: expr@,
            },
            MethodBody::AssignField(f) => MethodBodyView::AssignField(f@),
        }
    }
}

impl DeepView for MethodBody {
    type V = MethodBodyView;

    open spec fn deep_view(&self) -> MethodBodyView {
        self.view()
    }
}

/// One generated method definition.
#[derive(Debug, PartialEq, Eq)]
pub struct Method {
    /// The owning field's visibility, verbatim.
    pub vis: String,
    /// The method's name.
    pub name: String,
    /// Whether the receiver is `&mut self` rather than `&self`.
    pub mut_receiver: bool,
    /// The type of the single value parameter (named `value`), if any.
    pub param: Option<String>,
    /// The return type; `None` for a method returning nothing.
    pub ret: Option<TypeRef>,
    /// The method's body.
    pub body: MethodBody,
}

/// The mathematical value of a generated method.
pub ghost struct MethodView {
    pub vis: Seq<char>,
    pub name: Seq<char>,
    pub mut_receiver: bool,
    pub param: Option<Seq<char>>,
    pub ret: Option<TypeRefView>,
    pub body: MethodBodyView,
}

impl View for Method {
    type V = MethodView;

    open spec fn view(&self) -> MethodView {
        MethodView {
            vis: self.vis@,
            name: self.name@,
            mut_receiver: self.mut_receiver,
            param: match self.param {
                Option::None => None,
                Option::Some(s) => Some(s@),
            },
            ret: match self.ret {
                Option::None => None,
                Option::Some(t) => Some(t@),
            },
            body: self.body@,
        }
    }
}

impl DeepView for Method {
    type V = MethodView;

    open spec fn deep_view(&self) -> MethodView {
        self.view()
    }
}

/// The method a single validated directive generates for a field.
pub open spec fn spec_gen_get(arg: GetArgView, vis: Seq<char>, field: Seq<char>, ty: Seq<char>) -> MethodView {
    match arg {
        GetArgView::ByCopy => MethodView {
            vis,
            name: "get_"@ + field,
            mut_receiver: false,
            param: None,
            ret: Some(TypeRefView::Named(ty)),
            body: MethodBodyView::ReadField(field),
        },
        GetArgView::ByClone => MethodView {
            vis,
            name: "get_"@ + field,
            mut_receiver: false,
            param: None,
            ret: Some(TypeRefView::Named(ty)),
            body: MethodBodyView::CloneField(field),
        },
        GetArgView::ImRef(t) => MethodView {
            vis,
            name: "get_"@ + field + "_ref"@,
            mut_receiver: false,
            param: None,
            ret: Some(TypeRefView::Toks(t)),
            body: MethodBodyView::RefField(field),
        },
        GetArgView::MutRef(t) => MethodView {
            vis,
            name: "get_"@ + field + "_ref_mut"@,
            mut_receiver: true,
            param: None,
            ret: Some(TypeRefView::Toks(t)),
            body: MethodBodyView::MutRefField(field),
        },
        GetArgView::Funky(f) => MethodView {
            vis,
            name: "get_"@ + f.method_name,
            mut_receiver: f.mut_get,
            param: None,
            ret: Some(TypeRefView::Toks(f.ret_type)),
            body: MethodBodyView::FunkyEval { field, mutable: f.mut_get, expr: f.from },
        },
    }
}

/// The methods a validated directive list generates, in list order.
pub open spec fn spec_gen_gets(args: Seq<GetArgView>, vis: Seq<char>, field: Seq<char>, ty: Seq<char>) -> Seq<MethodView> {
    Seq::new(args.len(), |i: int| spec_gen_get(args[i], vis, field, ty))
}

/// The mutator a bare `set` annotation generates for a field.
pub open spec fn spec_gen_set(vis: Seq<char>, field: Seq<char>, ty: Seq<char>) -> MethodView {
    MethodView {
        vis,
        name: "set_"@ + field,
        mut_receiver: true,
        param: Some(ty),
        ret: None,
        body: MethodBodyView::AssignField(field),
    }
}

///`prefix` followed by `base`, as one string.
fn prefixed(prefix: &str, base: &String) -> (r: String)
    ensures
        r@ == prefix@ + base@,
{
    let mut s: String = prefix.to_owned();
    s.append(base.as_str());
    s
}

/// `prefix`, `base` and `suffix`, as one string.
fn prefixed_suffixed(prefix: &str, base: &String, suffix: &str) -> (r: String)
    ensures
        r@ == prefix@ + base@ + suffix@,
{
    let mut s: String = prefix.to_owned();
    s.append(base.as_str());
    s.append(suffix);
    s
}

/// Generate the accessor for one validated directive.
fn gen_get_method(arg: GetArgs, vis: &String, field_name: &String, ty: &String) -> (r: Method)
    ensures
        r.deep_view() == spec_gen_get(arg.deep_view(), vis@, field_name@, ty@),
{
    match arg {
        GetArgs::ByCopy => Method {
            vis: vis.clone(),
            name: prefixed("get_", field_name),
            mut_receiver: false,
            param: None,
            ret: Some(TypeRef::Named(ty.clone())),
            body: MethodBody::ReadField(field_name.clone()),
        },
        GetArgs::ByClone => Method {
            vis: vis.clone(),
            name: prefixed("get_", field_name),
            mut_receiver: false,
            param: None,
            ret: Some(TypeRef::Named(ty.clone())),
            body: MethodBody::CloneField(field_name.clone()),
        },
        GetArgs::ImRef(t) => Method {
            vis: vis.clone(),
            name: prefixed_suffixed("get_", field_name, "_ref"),
            mut_receiver: false,
            param: None,
            ret: Some(TypeRef::Toks(t)),
            body: MethodBody::RefField(field_name.clone()),
        },
        GetArgs::MutRef(t) => Method {
            vis: vis.clone(),
            name: prefixed_suffixed("get_", field_name, "_ref_mut"),
            mut_receiver: true,
            param: None,
            ret: Some(TypeRef::Toks(t)),
            body: MethodBody::MutRefField(field_name.clone()),
        },
        GetArgs::Funky(f) => Method {
            vis: vis.clone(),
            name: prefixed("get_", &f.method_name),
            mut_receiver: f.mut_get,
            param: None,
            ret: Some(TypeRef::Toks(f.ret_type)),
            body: MethodBody::FunkyEval {
                field: field_name.clone(),
                mutable: f.mut_get,
                expr: f.from,
            },
        },
    }
}

/// Generate the accessors of a whole validated directive list, in order.
pub fn transform_get(args: Vec<GetArgs>, vis: &String, field_name: &String, ty: &String) -> (r:
    Vec<Method>)
    ensures
        r.deep_view() == spec_gen_gets(args.deep_view(), vis@, field_name@, ty@),
{
    let ghost dv0 = args.deep_view();
    let mut args = args;
    let mut out: Vec<Method> = Vec::new();
    let ghost mut done: int = 0;
    while args.len() != 0
        invariant
            0 <= done,
            done + args@.len() == dv0.len(),
            args.deep_view() =~= dv0.skip(done),
            out.deep_view() =~= spec_gen_gets(dv0, vis@, field_name@, ty@).take(done),
            out@.len() == done,
        decreases args@.len(),
    {
        let ghost before = args.deep_view();
        let a = args.remove(0);
        proof {
            assert(args.deep_view() =~= before.skip(1));
            assert(a.deep_view() == before[0]);
            assert(before[0] == dv0[done]);
        }
        let m = gen_get_method(a, vis, field_name, ty);
        let ghost out_before = out;
        out.push(m);
        proof {
            lemma_deep_view_push(out_before, m, out);
            assert(out.deep_view() =~= spec_gen_gets(dv0, vis@, field_name@, ty@).take(done + 1));
            assert(args.deep_view() =~= dv0.skip(done + 1));
            done = done + 1;
        }
    }
    proof {
        assert(spec_gen_gets(dv0, vis@, field_name@, ty@).take(done) =~= spec_gen_gets(
            dv0,
            vis@,
            field_name@,
            ty@,
        ));
    }
    out
}

/// Generate the mutator of a bare `set` annotation.
pub fn make_set_method(vis: &String, field_name: &String, ty: &String) -> (r: Method)
    ensures
        r.deep_view() == spec_gen_set(vis@, field_name@, ty@),
{
    Method {
        vis: vis.clone(),
        name: prefixed("set_", field_name),
        mut_receiver: true,
        param: Some(ty.clone()),
        ret: None,
        body: MethodBody::AssignField(field_name.clone()),
    }
}

} // verus!
