//! Validation of a parsed directive list.
//!
//! An empty list is rejected outright.  Of the four plain directive kinds,
//! `copy` together with `clone` is a dedicated conflict; any plain kind
//! occurring more than once is the generic repetition error; `funky` may
//! repeat freely.

use vstd::prelude::*;

use crate::args::arg_types::{GetArgView, GetArgs};
use crate::errors::ErrorKind;

verus! {

/// The four directive kinds that may occur at most once per field.
pub ghost enum ArgKind {
    KCopy,
    KClone,
    KImRef,
    KMutRef,
}

/// Whether a directive is of the given plain kind.
pub open spec fn has_kind(a: GetArgView, k: ArgKind) -> bool {
    match k {
        ArgKind::KCopy => a is ByCopy,
        ArgKind::KClone => a is ByClone,
        ArgKind::KImRef => a is ImRef,
        ArgKind::KMutRef => a is MutRef,
    }
}

/// How many directives of the given plain kind the list holds.
pub open spec fn count_kind(s: Seq<GetArgView>, k: ArgKind) -> nat
    decreases s.len(),
{
    if s.len() == 0 {
        0
    } else {
        count_kind(s.drop_last(), k) + if has_kind(s.last(), k) {
            1nat
        } else {
            0nat
        }
    }
}

/// Extending a prefix by one element adjusts its count by that element.
pub proof fn lemma_count_kind_take_step(s: Seq<GetArgView>, k: ArgKind, i: int)
    requires
        0 <= i < s.len(),
    ensures
        count_kind(s.take(i + 1), k) == count_kind(s.take(i), k) + if has_kind(s[i], k) {
            1nat
        } else {
            0nat
        },
{
    assert(s.take(i + 1).drop_last() =~= s.take(i));
    assert(s.take(i + 1).last() == s[i]);
}

/// A list with an element of a kind counts that kind at least once.
pub proof fn lemma_count_kind_at_least_one(s: Seq<GetArgView>, k: ArgKind, i: int)
    requires
        0 <= i < s.len(),
        has_kind(s[i], k),
    ensures
        count_kind(s, k) >= 1,
    decreases s.len(),
{
    if i == s.len() - 1 {
        assert(s.last() == s[i]);
    } else {
        assert(s.drop_last()[i] == s[i]);
        lemma_count_kind_at_least_one(s.drop_last(), k, i);
    }
}

/// A list with no element of a kind counts that kind zero times.
pub proof fn lemma_count_kind_zero(s: Seq<GetArgView>, k: ArgKind)
    requires
        forall|i: int| 0 <= i < s.len() ==> !has_kind(s[i], k),
    ensures
        count_kind(s, k) == 0,
    decreases s.len(),
{
    if s.len() > 0 {
        assert(forall|i: int| 0 <= i < s.len() - 1 ==> s.drop_last()[i] == s[i]);
        lemma_count_kind_zero(s.drop_last(), k);
        assert(s.last() == s[s.len() - 1]);
    }
}

/// The validation verdict on a parsed directive list: `None` when the
/// combination is legal, otherwise the error to surface.
pub open spec fn spec_validate(args: Seq<GetArgView>) -> Option<ErrorKind> {
    let nc = count_kind(args, ArgKind::KCopy);
    let nl = count_kind(args, ArgKind::KClone);
    let ni = count_kind(args, ArgKind::KImRef);
    let nm = count_kind(args, ArgKind::KMutRef);
    if args.len() == 0 {
        Some(ErrorKind::EmptyDirectiveList)
    } else if nc >= 1 && nl >= 1 {
        Some(ErrorKind::CopyCloneConflict)
    } else if nc <= 1 && nl <= 1 && ni <= 1 && nm <= 1 {
        None
    } else {
        Some(ErrorKind::Repetition)
    }
}

/// Validate a parsed directive list.
pub fn validate_get_args(args: &Vec<GetArgs>) -> (r: Option<ErrorKind>)
    ensures
        r == spec_validate(args.deep_view()),
{
    let ghost dv = args.deep_view();
    if args.len() == 0 {
        return Some(ErrorKind::EmptyDirectiveList);
    }
    let mut nc: usize = 0;
    let mut nl: usize = 0;
    let mut ni: usize = 0;
    let mut nm: usize = 0;
    let mut i: usize = 0;
    while i < args.len()
        invariant
            dv == args.deep_view(),
            dv.len() == args@.len(),
            i <= args@.len(),
            nc == count_kind(dv.take(i as int), ArgKind::KCopy),
            nl == count_kind(dv.take(i as int), ArgKind::KClone),
            ni == count_kind(dv.take(i as int), ArgKind::KImRef),
            nm == count_kind(dv.take(i as int), ArgKind::KMutRef),
            nc <= i && nl <= i && ni <= i && nm <= i,
        decreases args@.len() - i,
    {
        proof {
            lemma_count_kind_take_step(dv, ArgKind::KCopy, i as int);
            lemma_count_kind_take_step(dv, ArgKind::KClone, i as int);
            lemma_count_kind_take_step(dv, ArgKind::KImRef, i as int);
            lemma_count_kind_take_step(dv, ArgKind::KMutRef, i as int);
            assert(dv[i as int] == args@[i as int].deep_view());
        }
        match &args[i] {
            GetArgs::ByCopy => {
                nc = nc + 1;
            },
            GetArgs::ByClone => {
                nl = nl + 1;
            },
            GetArgs::ImRef(_) => {
                ni = ni + 1;
            },
            GetArgs::MutRef(_) => {
                nm = nm + 1;
            },
            GetArgs::Funky(_) => {},
        }
        i = i + 1;
    }
    proof {
        assert(dv.take(dv.len() as int) =~= dv);
    }
    if nc >= 1 && nl >= 1 {
        Some(ErrorKind::CopyCloneConflict)
    } else if nc <= 1 && nl <= 1 && ni <= 1 && nm <= 1 {
        None
    } else {
        Some(ErrorKind::Repetition)
    }
}

} // verus!
