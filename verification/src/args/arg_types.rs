//! The directive grammar: the comma-separated list inside `#[get(..)]`.
//!
//! A directive is one of `copy`, `clone`, `im_ref(type)`, `mut_ref(type)`
//! or `funky(name :: ["mut"] expression => type)`.  The list may carry a
//! trailing comma; anything left over after the last directive is an error.

use vstd::prelude::*;

use crate::args::funky::{spec_parse_funky, FunkyView, GetFunky};
use crate::errors::ErrorKind;
use crate::tokens::{comma_outside_angles, has_comma_outside_angles, word_is, Tok};
use crate::views::lemma_deep_view_push;

verus! {

/// One parsed directive of a `get` annotation.
#[derive(Debug, PartialEq, Eq)]
pub enum GetArgs {
    /// `copy`: return the field by value, as a plain copy.
    ByCopy,
    /// `clone`: return the field by value, as a duplicate.
    ByClone,
    /// `im_ref(type)`: return a reference conversion of the field.
    ImRef(Vec<Tok>),
    /// `mut_ref(type)`: return a mutable reference conversion of the field.
    MutRef(Vec<Tok>),
    /// `funky(..)`: a custom accessor.
    Funky(GetFunky),
}

/// The mathematical value of a parsed directive.
pub ghost enum GetArgView {
    ByCopy,
    ByClone,
    ImRef(Seq<Tok>),
    MutRef(Seq<Tok>),
    Funky(FunkyView),
}

impl View for GetArgs {
    type V = GetArgView;

    open spec fn view(&self) -> GetArgView {
        match self {
            GetArgs::ByCopy => GetArgView::ByCopy,
            GetArgs::ByClone => GetArgView::ByClone,
            GetArgs::ImRef(t) => GetArgView::ImRef(t@),
            GetArgs::MutRef(t) => GetArgView::MutRef(t@),
            GetArgs::Funky(f) => GetArgView::Funky(f@),
        }
    }
}

impl DeepView for GetArgs {
    type V = GetArgView;

    open spec fn deep_view(&self) -> GetArgView {
        self.view()
    }
}

/// The meaning of a single directive at the front of a token run: the
/// directive and how many tokens it spans, or the first error detected.
pub open spec fn spec_parse_directive(toks: Seq<Tok>) -> Result<(GetArgView, int), ErrorKind> {
    if toks.len() == 0 || !(toks[0] is Word) {
        Err(ErrorKind::UnknownDirective)
    } else {
        let w = toks[0]->Word_0;
        if w@ == "copy"@ {
            Ok((GetArgView::ByCopy, 1int))
        } else if w@ == "clone"@ {
            Ok((GetArgView::ByClone, 1int))
        } else if w@ == "im_ref"@ {
            if toks.len() >= 2 && toks[1] is Group {
                let g = toks[1]->Group_0@;
                if g.len() == 0 {
                    Err(ErrorKind::EmptyTypeArg)
                } else if comma_outside_angles(g, 0) {
                    Err(ErrorKind::UnexpectedToken)
                } else {
                    Ok((GetArgView::ImRef(g), 2int))
                }
            } else {
                Err(ErrorKind::MissingParenArg)
            }
        } else if w@ == "mut_ref"@ {
            if toks.len() >= 2 && toks[1] is Group {
                let g = toks[1]->Group_0@;
                if g.len() == 0 {
                    Err(ErrorKind::EmptyTypeArg)
                } else if comma_outside_angles(g, 0) {
                    Err(ErrorKind::UnexpectedToken)
                } else {
                    Ok((GetArgView::MutRef(g), 2int))
                }
            } else {
                Err(ErrorKind::MissingParenArg)
            }
        } else if w@ == "funky"@ {
            if toks.len() >= 2 && toks[1] is Group {
                match spec_parse_funky(toks[1]->Group_0@) {
                    Ok(f) => Ok((GetArgView::Funky(f), 2int)),
                    Err(e) => Err(e),
                }
            } else {
                Err(ErrorKind::MissingParenArg)
            }
        } else {
            Err(ErrorKind::UnknownDirective)
        }
    }
}

/// The meaning of the full directive list of a `get` annotation: the parsed
/// directives in order, or the first error detected.  An empty run parses
/// to an empty list; a trailing comma is permitted.
pub open spec fn spec_parse_get_args(toks: Seq<Tok>) -> Result<Seq<GetArgView>, ErrorKind>
    decreases toks.len(),
{
    if toks.len() == 0 {
        Ok(Seq::empty())
    } else {
        match spec_parse_directive(toks) {
            Err(e) => Err(e),
            Ok(dn) => {
                let rest = toks.skip(dn.1);
                if rest.len() == 0 {
                    Ok(seq![dn.0])
                } else if rest[0] is Comma {
                    match spec_parse_get_args(rest.skip(1)) {
                        Err(e) => Err(e),
                        Ok(s) => Ok(seq![dn.0] + s),
                    }
                } else {
                    Err(ErrorKind::ExpectedComma)
                }
            },
        }
    }
}

/// Prefixing already-parsed directives onto the outcome of parsing the rest
/// of the list.
pub open spec fn parse_cont(acc: Seq<GetArgView>, rest: Result<Seq<GetArgView>, ErrorKind>) -> Result<
    Seq<GetArgView>,
    ErrorKind,
> {
    match rest {
        Ok(s) => Ok(acc + s),
        Err(e) => Err(e),
    }
}

proof fn lemma_parse_cont_step(
    acc: Seq<GetArgView>,
    d: GetArgView,
    rest: Result<Seq<GetArgView>, ErrorKind>,
)
    ensures
        parse_cont(acc, parse_cont(seq![d], rest)) == parse_cont(acc.push(d), rest),
{
    match rest {
        Ok(s) => {
            assert(acc + (seq![d] + s) =~= acc.push(d) + s);
        },
        Err(_) => {},
    }
}

proof fn lemma_parse_cont_nil(r: Result<Seq<GetArgView>, ErrorKind>)
    ensures
        parse_cont(Seq::empty(), r) == r,
{
    match r {
        Ok(s) => {
            assert(Seq::<GetArgView>::empty() + s =~= s);
        },
        Err(_) => {},
    }
}

impl GetArgs {
    /// Parse the full argument list of a `get` annotation.
    pub fn parse(toks: Vec<Tok>) -> (r: Result<Vec<GetArgs>, ErrorKind>)
        ensures
            r matches Ok(v) ==> spec_parse_get_args(toks@) == Ok::<Seq<GetArgView>, ErrorKind>(
                v.deep_view(),
            ),
            r matches Err(e) ==> spec_parse_get_args(toks@) == Err::<Seq<GetArgView>, ErrorKind>(
                e,
            ),
    {
        let ghost t0 = toks@;
        let mut rest = toks;
        let mut acc: Vec<GetArgs> = Vec::new();
        proof {
            assert(acc.deep_view() =~= Seq::<GetArgView>::empty());
            lemma_parse_cont_nil(spec_parse_get_args(t0));
        }
        while rest.len() != 0
            invariant
                toks@ == t0,
                spec_parse_get_args(t0) == parse_cont(acc.deep_view(), spec_parse_get_args(rest@)),
            decreases rest@.len(),
        {
            let ghost tcur = rest@;
            let ghost acc0 = acc.deep_view();
            let head = rest.remove(0);
            let word = match head {
                Tok::Word(s) => s,
                _ => {
                    return Err(ErrorKind::UnknownDirective);
                },
            };
            let arg: GetArgs = if word_is(&word, "copy") {
                GetArgs::ByCopy
            } else if word_is(&word, "clone") {
                GetArgs::ByClone
            } else if word_is(&word, "im_ref") {
                if rest.len() == 0 {
                    return Err(ErrorKind::MissingParenArg);
                }
                let second = rest.remove(0);
                match second {
                    Tok::Group(g) => {
                        if g.len() == 0 {
                            return Err(ErrorKind::EmptyTypeArg);
                        }
                        if has_comma_outside_angles(&g) {
                            return Err(ErrorKind::UnexpectedToken);
                        }
                        GetArgs::ImRef(g)
                    },
                    _ => {
                        return Err(ErrorKind::MissingParenArg);
                    },
                }
            } else if word_is(&word, "mut_ref") {
                if rest.len() == 0 {
                    return Err(ErrorKind::MissingParenArg);
                }
                let second = rest.remove(0);
                match second {
                    Tok::Group(g) => {
                        if g.len() == 0 {
                            return Err(ErrorKind::EmptyTypeArg);
                        }
                        if has_comma_outside_angles(&g) {
                            return Err(ErrorKind::UnexpectedToken);
                        }
                        GetArgs::MutRef(g)
                    },
                    _ => {
                        return Err(ErrorKind::MissingParenArg);
                    },
                }
            } else if word_is(&word, "funky") {
                if rest.len() == 0 {
                    return Err(ErrorKind::MissingParenArg);
                }
                let second = rest.remove(0);
                match second {
                    Tok::Group(g) => {
                        match GetFunky::parse(g) {
                            Ok(f) => GetArgs::Funky(f),
                            Err(e) => {
                                return Err(e);
                            },
                        }
                    },
                    _ => {
                        return Err(ErrorKind::MissingParenArg);
                    },
                }
            } else {
                return Err(ErrorKind::UnknownDirective);
            };
            let ghost n = tcur.len() - rest@.len();
            proof {
                assert(rest@ =~= tcur.skip(n));
                assert(spec_parse_directive(tcur) == Ok::<(GetArgView, int), ErrorKind>(
                    (arg.deep_view(), n),
                ));
            }
            let ghost acc_before = acc;
            acc.push(arg);
            proof {
                lemma_deep_view_push(acc_before, arg, acc);
                assert(acc.deep_view() == acc0.push(arg.deep_view()));
            }
            if rest.len() != 0 {
                let c = rest.remove(0);
                match c {
                    Tok::Comma => {},
                    _ => {
                        return Err(ErrorKind::ExpectedComma);
                    },
                }
                proof {
                    assert(tcur.skip(n)[0] is Comma);
                    assert(rest@ =~= tcur.skip(n).skip(1));
                    assert(spec_parse_get_args(tcur) == parse_cont(
                        seq![arg.deep_view()],
                        spec_parse_get_args(rest@),
                    ));
                    lemma_parse_cont_step(acc0, arg.deep_view(), spec_parse_get_args(rest@));
                }
            } else {
                proof {
                    assert(spec_parse_get_args(tcur) == Ok::<Seq<GetArgView>, ErrorKind>(
                        seq![arg.deep_view()],
                    ));
                    assert(acc0 + seq![arg.deep_view()] =~= acc0.push(arg.deep_view()));
                    assert(acc.deep_view() + Seq::<GetArgView>::empty() =~= acc.deep_view());
                }
            }
        }
        proof {
            assert(spec_parse_get_args(rest@) == Ok::<Seq<GetArgView>, ErrorKind>(Seq::empty()));
            assert(acc.deep_view() + Seq::<GetArgView>::empty() =~= acc.deep_view());
        }
        Ok(acc)
    }
}

} // verus!
