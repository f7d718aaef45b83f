//! The funky sub-grammar: `name :: ["mut"] expression "=>" type`.
//!
//! A funky directive names a custom accessor, optionally asks for a mutable
//! receiver, gives a derivation expression to evaluate with the field bound
//! as a local name, and declares the accessor's return type.  The expression
//! and the return type are opaque token runs: the expression is everything
//! up to the first `=>` at the top level of the directive's parentheses, the
//! return type everything after it.  The return type must have the shape of
//! a single type reference: a comma outside angle brackets is rejected.

use vstd::prelude::*;

use crate::errors::ErrorKind;
use crate::tokens::{comma_outside_angles, has_comma_outside_angles, Tok};

verus! {

/// A parsed funky directive.
#[derive(Debug, PartialEq, Eq)]
pub struct GetFunky {
    /// The accessor is named `get_<method_name>`.
    pub method_name: String,
    /// Whether the accessor takes the receiver, and binds the field, mutably.
    pub mut_get: bool,
    /// The derivation expression, as an uninterpreted token run.
    pub from: Vec<Tok>,
    /// The declared return type, as an uninterpreted token run.
    pub ret_type: Vec<Tok>,
}

/// The mathematical value of a parsed funky directive.
pub ghost struct FunkyView {
    pub method_name: Seq<char>,
    pub mut_get: bool,
    pub from: Seq<Tok>,
    pub ret_type: Seq<Tok>,
}

impl View for GetFunky {
    type V = FunkyView;

    open spec fn view(&self) -> FunkyView {
        FunkyView {
            method_name: self.method_name@,
            mut_get: self.mut_get,
            from: self.from@,
            ret_type: self.ret_type@,
        }
    }
}

impl DeepView for GetFunky {
    type V = FunkyView;

    open spec fn deep_view(&self) -> FunkyView {
        self.view()
    }
}

/// The index of the first `=>` token of `toks`, if any.
pub open spec fn first_arrow(toks: Seq<Tok>) -> Option<int>
    decreases toks.len(),
{
    if toks.len() == 0 {
        None
    } else if toks[0] is RArrow {
        Some(0int)
    } else {
        match first_arrow(toks.skip(1)) {
            None => None,
            Some(i) => Some(i + 1),
        }
    }
}

/// `first_arrow` finds an `=>` token and nothing earlier is one.
pub proof fn lemma_first_arrow_spec(toks: Seq<Tok>)
    ensures
        match first_arrow(toks) {
            Some(i) => 0 <= i < toks.len() && toks[i] is RArrow && (forall|j: int|
                0 <= j < i ==> !(toks[j] is RArrow)),
            None => forall|j: int| 0 <= j < toks.len() ==> !(toks[j] is RArrow),
        },
    decreases toks.len(),
{
    if toks.len() == 0 {
    } else if toks[0] is RArrow {
    } else {
        let sub = toks.skip(1);
        lemma_first_arrow_spec(sub);
        assert(forall|j: int| 0 <= j < sub.len() ==> sub[j] == toks[j + 1]);
        match first_arrow(sub) {
            None => {
                assert forall|j: int| 0 <= j < toks.len() implies !(toks[j] is RArrow) by {
                    if j >= 1 {
                        assert(toks[j] == sub[j - 1]);
                    }
                }
            },
            Some(i) => {
                assert(toks[i + 1] == sub[i]);
                assert forall|j: int| 0 <= j < i + 1 implies !(toks[j] is RArrow) by {
                    if j >= 1 {
                        assert(toks[j] == sub[j - 1]);
                    }
                }
            },
        }
    }
}

/// Conversely, an `=>` token with no earlier `=>` is the one `first_arrow`
/// finds.
pub proof fn lemma_first_arrow_at(toks: Seq<Tok>, i: int)
    requires
        0 <= i < toks.len(),
        toks[i] is RArrow,
        forall|j: int| 0 <= j < i ==> !(toks[j] is RArrow),
    ensures
        first_arrow(toks) == Some(i),
    decreases toks.len(),
{
    if i == 0 {
    } else {
        assert(forall|j: int| 0 <= j < toks.len() - 1 ==> toks.skip(1)[j] == toks[j + 1]);
        lemma_first_arrow_at(toks.skip(1), i - 1);
    }
}

/// The meaning of the funky sub-grammar on a token run: the parsed value,
/// or the first error the grammar detects.
pub open spec fn spec_parse_funky(toks: Seq<Tok>) -> Result<FunkyView, ErrorKind> {
    if !(toks.len() >= 1 && toks[0] is Word) {
        Err(ErrorKind::FunkyExpectedName)
    } else if !(toks.len() >= 2 && toks[1] is PathSep) {
        Err(ErrorKind::FunkyExpectedSeparator)
    } else {
        let rest = toks.skip(2);
        let has_mut = rest.len() >= 1 && (rest[0] matches Tok::Word(w) && w@ == "mut"@);
        let body = if has_mut {
            rest.skip(1)
        } else {
            rest
        };
        if body.len() == 0 {
            Err(ErrorKind::FunkyEmptyExpr)
        } else {
            match first_arrow(body) {
                None => Err(ErrorKind::FunkyExpectedArrow),
                Some(k) => if k == 0 {
                    Err(ErrorKind::FunkyEmptyExpr)
                } else if k == body.len() - 1 {
                    Err(ErrorKind::FunkyEmptyReturnType)
                } else if comma_outside_angles(body.skip(k + 1), 0) {
                    Err(ErrorKind::UnexpectedToken)
                } else {
                    Ok(
                        FunkyView {
                            method_name: toks[0]->Word_0@,
                            mut_get: has_mut,
                            from: body.take(k),
                            ret_type: body.skip(k + 1),
                        },
                    )
                },
            }
        }
    }
}

/// The index of the first `=>` token, executably.
fn find_arrow(toks: &Vec<Tok>) -> (r: Option<usize>)
    ensures
        match r {
            Some(k) => k < toks@.len() && first_arrow(toks@) == Some(k as int),
            None => first_arrow(toks@) is None,
        },
{
    let mut i: usize = 0;
    while i < toks.len()
        invariant
            i <= toks@.len(),
            forall|j: int| 0 <= j < i ==> !(toks@[j] is RArrow),
        decreases toks@.len() - i,
    {
        let hit = match &toks[i] {
            Tok::RArrow => true,
            _ => false,
        };
        if hit {
            proof {
                lemma_first_arrow_at(toks@, i as int);
            }
            return Some(i);
        }
        i = i + 1;
    }
    proof {
        lemma_first_arrow_spec(toks@);
    }
    None
}

impl GetFunky {
    /// Parse the content of a funky directive's parentheses.
    pub fn parse(toks: Vec<Tok>) -> (r: Result<GetFunky, ErrorKind>)
        ensures
            match r {
                Ok(f) => spec_parse_funky(toks@) == Ok::<FunkyView, ErrorKind>(f@),
                Err(e) => spec_parse_funky(toks@) == Err::<FunkyView, ErrorKind>(e),
            },
    {
        let ghost t0 = toks@;
        let mut toks = toks;
        if toks.len() == 0 {
            return Err(ErrorKind::FunkyExpectedName);
        }
        let head = toks.remove(0);
        let method_name = match head {
            Tok::Word(s) => s,
            _ => {
                return Err(ErrorKind::FunkyExpectedName);
            },
        };
        if toks.len() == 0 {
            return Err(ErrorKind::FunkyExpectedSeparator);
        }
        let sep = toks.remove(0);
        match sep {
            Tok::PathSep => {},
            _ => {
                return Err(ErrorKind::FunkyExpectedSeparator);
            },
        }
        proof {
            assert(toks@ =~= t0.skip(2));
        }
        let has_mut = toks.len() > 0 && (match &toks[0] {
            Tok::Word(w) => crate::tokens::word_is(w, "mut"),
            _ => false,
        });
        if has_mut {
            let _mut_word = toks.remove(0);
            proof {
                assert(toks@ =~= t0.skip(2).skip(1));
            }
        }
        let ghost body = toks@;
        if toks.len() == 0 {
            return Err(ErrorKind::FunkyEmptyExpr);
        }
        let arrow_at = find_arrow(&toks);
        let k = match arrow_at {
            Some(k) => k,
            None => {
                return Err(ErrorKind::FunkyExpectedArrow);
            },
        };
        if k == 0 {
            return Err(ErrorKind::FunkyEmptyExpr);
        }
        if k == toks.len() - 1 {
            return Err(ErrorKind::FunkyEmptyReturnType);
        }
        let ret_type = toks.split_off(k + 1);
        let _arrow = toks.pop();
        proof {
            assert(toks@ =~= body.take(k as int));
            assert(ret_type@ =~= body.skip(k as int + 1));
        }
        if has_comma_outside_angles(&ret_type) {
            return Err(ErrorKind::UnexpectedToken);
        }
        Ok(
            GetFunky {
                method_name,
                mut_get: has_mut,
                from: toks,
                ret_type,
            },
        )
    }
}

} // verus!
