//! Per-field orchestration: locate the `get` and `set` annotations of one
//! field, parse and validate the directives, and generate the field's
//! methods — the accessors in directive order, then the mutator.

use vstd::prelude::*;

use crate::args::arg_types::{spec_parse_get_args, GetArgs};
use crate::errors::ErrorKind;
use crate::field::{AttrView, FieldDesc, FieldView};
use crate::generate::{make_set_method, spec_gen_gets, spec_gen_set, transform_get, Method, MethodView};
use crate::tokens::word_is;
use crate::validate::{spec_validate, validate_get_args};
use crate::views::lemma_deep_view_push;

verus! {

/// How many annotations of the given name the field carries.
pub open spec fn count_named(attrs: Seq<AttrView>, name: Seq<char>) -> nat
    decreases attrs.len(),
{
    if attrs.len() == 0 {
        0
    } else {
        count_named(attrs.drop_last(), name) + if attrs.last().name == name {
            1nat
        } else {
            0nat
        }
    }
}

proof fn lemma_count_named_take_step(attrs: Seq<AttrView>, name: Seq<char>, i: int)
    requires
        0 <= i < attrs.len(),
    ensures
        count_named(attrs.take(i + 1), name) == count_named(attrs.take(i), name) + if attrs[i].name
            == name {
            1nat
        } else {
            0nat
        },
{
    assert(attrs.take(i + 1).drop_last() =~= attrs.take(i));
    assert(attrs.take(i + 1).last() == attrs[i]);
}

/// The index of the first annotation of the given name, if any.
pub open spec fn first_named(attrs: Seq<AttrView>, name: Seq<char>) -> Option<int>
    decreases attrs.len(),
{
    if attrs.len() == 0 {
        None
    } else if attrs[0].name == name {
        Some(0int)
    } else {
        match first_named(attrs.skip(1), name) {
            None => None,
            Some(i) => Some(i + 1),
        }
    }
}

proof fn lemma_first_named_at(attrs: Seq<AttrView>, name: Seq<char>, i: int)
    requires
        0 <= i < attrs.len(),
        attrs[i].name == name,
        forall|j: int| 0 <= j < i ==> attrs[j].name != name,
    ensures
        first_named(attrs, name) == Some(i),
    decreases attrs.len(),
{
    if i == 0 {
    } else {
        assert(forall|j: int| 0 <= j < attrs.len() - 1 ==> attrs.skip(1)[j] == attrs[j + 1]);
        lemma_first_named_at(attrs.skip(1), name, i - 1);
    }
}

proof fn lemma_first_named_none(attrs: Seq<AttrView>, name: Seq<char>)
    requires
        forall|j: int| 0 <= j < attrs.len() ==> attrs[j].name != name,
    ensures
        first_named(attrs, name) is None,
    decreases attrs.len(),
{
    if attrs.len() > 0 {
        assert(forall|j: int| 0 <= j < attrs.len() - 1 ==> attrs.skip(1)[j] == attrs[j + 1]);
        lemma_first_named_none(attrs.skip(1), name);
    }
}

/// The outcome of processing one field: its methods in order — the `get`
/// accessors in directive order, then the mutator — or the first error.
pub open spec fn spec_process_field(f: FieldView) -> Result<Seq<MethodView>, ErrorKind> {
    if count_named(f.attrs, "get"@) > 1 || count_named(f.attrs, "set"@) > 1 {
        Err(ErrorKind::GetSetCardinality)
    } else {
        let gets: Result<Seq<MethodView>, ErrorKind> = match first_named(f.attrs, "get"@) {
            None => Ok(Seq::empty()),
            Some(gi) => match f.attrs[gi].args {
                None => Err(ErrorKind::GetMissingArgs),
                Some(ts) => match spec_parse_get_args(ts) {
                    Err(e) => Err(e),
                    Ok(ds) => match spec_validate(ds) {
                        Some(e) => Err(e),
                        None => Ok(spec_gen_gets(ds, f.vis, f.name, f.ty)),
                    },
                },
            },
        };
        match gets {
            Err(e) => Err(e),
            Ok(ms) => match first_named(f.attrs, "set"@) {
                None => Ok(ms),
                Some(si) => if f.attrs[si].args is Some {
                    Err(ErrorKind::SetArgument)
                } else {
                    Ok(ms.push(spec_gen_set(f.vis, f.name, f.ty)))
                },
            },
        }
    }
}

/// Process one field: cardinality check, directive parsing, validation,
/// and method generation.
pub fn process_field(f: FieldDesc) -> (r: Result<Vec<Method>, ErrorKind>)
    ensures
        r matches Ok(ms) ==> spec_process_field(f@) == Ok::<Seq<MethodView>, ErrorKind>(
            ms.deep_view(),
        ),
        r matches Err(e) ==> spec_process_field(f@) == Err::<Seq<MethodView>, ErrorKind>(e),
{
    let ghost fv = f@;
    let ghost av = f.attrs.deep_view();
    let mut get_at: Option<usize> = None;
    let mut set_at: Option<usize> = None;
    let mut n_get: usize = 0;
    let mut n_set: usize = 0;
    let mut i: usize = 0;
    while i < f.attrs.len()
        invariant
            av == f.attrs.deep_view(),
            av.len() == f.attrs@.len(),
            i <= av.len(),
            n_get == count_named(av.take(i as int), "get"@),
            n_set == count_named(av.take(i as int), "set"@),
            n_get <= i && n_set <= i,
            match get_at {
                Some(g) => g < i && av[g as int].name == "get"@ && forall|j: int|
                    0 <= j < g ==> av[j].name != "get"@,
                None => forall|j: int| 0 <= j < i ==> av[j].name != "get"@,
            },
            match set_at {
                Some(s) => s < i && av[s as int].name == "set"@ && forall|j: int|
                    0 <= j < s ==> av[j].name != "set"@,
                None => forall|j: int| 0 <= j < i ==> av[j].name != "set"@,
            },
        decreases av.len() - i,
    {
        proof {
            lemma_count_named_take_step(av, "get"@, i as int);
            lemma_count_named_take_step(av, "set"@, i as int);
            assert(av[i as int] == f.attrs@[i as int].deep_view());
            reveal_strlit("get");
            reveal_strlit("set");
            assert("get"@[0] == 'g');
            assert("set"@[0] == 's');
            assert("get"@ != "set"@);
        }
        if word_is(&f.attrs[i].name, "get") {
            n_get = n_get + 1;
            if get_at.is_none() {
                get_at = Some(i);
            }
        } else if word_is(&f.attrs[i].name, "set") {
            n_set = n_set + 1;
            if set_at.is_none() {
                set_at = Some(i);
            }
        }
        i = i + 1;
    }
    proof {
        assert(av.take(av.len() as int) =~= av);
        match get_at {
            Some(g) => lemma_first_named_at(av, "get"@, g as int),
            None => lemma_first_named_none(av, "get"@),
        }
        match set_at {
            Some(s) => lemma_first_named_at(av, "set"@, s as int),
            None => lemma_first_named_none(av, "set"@),
        }
    }
    if n_get > 1 || n_set > 1 {
        return Err(ErrorKind::GetSetCardinality);
    }
    let set_has_args: bool = match set_at {
        Some(si) => match &f.attrs[si].args {
            Some(_) => true,
            None => false,
        },
        None => false,
    };
    let FieldDesc { name, ty, vis, attrs } = f;
    let mut attrs = attrs;
    let mut methods: Vec<Method> = Vec::new();
    proof {
        assert(methods.deep_view() =~= Seq::<MethodView>::empty());
    }
    match get_at {
        None => {},
        Some(gi) => {
            let a = attrs.remove(gi);
            proof {
                assert(a.deep_view() == av[gi as int]);
            }
            match a.args {
                None => {
                    return Err(ErrorKind::GetMissingArgs);
                },
                Some(ts) => {
                    match GetArgs::parse(ts) {
                        Err(e) => {
                            return Err(e);
                        },
                        Ok(args) => {
                            match validate_get_args(&args) {
                                Some(e) => {
                                    return Err(e);
                                },
                                None => {
                                    methods = transform_get(args, &vis, &name, &ty);
                                },
                            }
                        },
                    }
                },
            }
        },
    }
    if set_has_args {
        return Err(ErrorKind::SetArgument);
    }
    match set_at {
        None => {},
        Some(_) => {
            let m = make_set_method(&vis, &name, &ty);
            let ghost before = methods;
            methods.push(m);
            proof {
                lemma_deep_view_push(before, m, methods);
            }
        },
    }
    Ok(methods)
}

} // verus!
