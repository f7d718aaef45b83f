//! The token alphabet of the directive mini-grammar.
//!
//! A field annotation reaches the library as a sequence of [`Tok`] values.
//! The grammar only ever distinguishes identifier words, parenthesized
//! groups, commas, the `::` separator and the `=>` arrow; every other token
//! is carried verbatim as [`Tok::Other`] and is never inspected, so type
//! references and derivation expressions flow through the pipeline as
//! uninterpreted token runs.
//!
//! The host tokenizer is expected to hand brackets and braces (and anything
//! else the grammar has no use for) over as [`Tok::Other`] text, so a `=>`
//! nested inside such a token, or inside a parenthesized group, is invisible
//! to the grammar: the parser scans a single level at a time.

use vstd::prelude::*;

verus! {

/// One token of an annotation's argument stream.
#[derive(Debug, PartialEq, Eq)]
pub enum Tok {
    /// An identifier or keyword.
    Word(String),
    /// A parenthesized token group; the payload is the content between the
    /// parentheses.
    Group(Vec<Tok>),
    /// A `,` token.
    Comma,
    /// A `::` separator.
    PathSep,
    /// A `=>` arrow.
    RArrow,
    /// Any other token, carried as its source text and never inspected.
    Other(String),
}

/// Whether the identifier `s` is the keyword `w`.
pub fn word_is(s: &String, w: &str) -> (b: bool)
    ensures
        b == (s@ == w@),
{
    let kw: String = w.to_owned();
    *s == kw
}

/// Whether `t` opens an angle bracket.
pub open spec fn opens_angle(t: Tok) -> bool {
    t matches Tok::Other(s) && s@ == "<"@
}

/// Whether `t` closes an angle bracket.
pub open spec fn closes_angle(t: Tok) -> bool {
    t matches Tok::Other(s) && s@ == ">"@
}

/// Whether the run holds a comma outside every pair of angle brackets —
/// the token shape of more than one type reference, which a position that
/// asks for a single type reference rejects.  Commas between generic
/// arguments stand inside angle brackets and are accepted.
pub open spec fn comma_outside_angles(toks: Seq<Tok>, depth: nat) -> bool
    decreases toks.len(),
{
    if toks.len() == 0 {
        false
    } else if toks[0] is Comma && depth == 0 {
        true
    } else {
        let d: nat = if opens_angle(toks[0]) {
            depth + 1
        } else if closes_angle(toks[0]) && depth > 0 {
            (depth - 1) as nat
        } else {
            depth
        };
        comma_outside_angles(toks.skip(1), d)
    }
}

/// Scan a token run for a comma outside angle brackets.
pub fn has_comma_outside_angles(toks: &Vec<Tok>) -> (r: bool)
    ensures
        r == comma_outside_angles(toks@, 0),
{
    let mut i: usize = 0;
    let mut depth: usize = 0;
    proof {
        assert(toks@.skip(0) =~= toks@);
    }
    while i < toks.len()
        invariant
            i <= toks@.len(),
            depth <= i,
            comma_outside_angles(toks@, 0) == comma_outside_angles(
                toks@.skip(i as int),
                depth as nat,
            ),
        decreases toks@.len() - i,
    {
        let ghost scur = toks@.skip(i as int);
        proof {
            assert(scur[0] == toks@[i as int]);
            assert(scur.skip(1) =~= toks@.skip(i as int + 1));
        }
        match &toks[i] {
            Tok::Comma => {
                if depth == 0 {
                    return true;
                }
            },
            Tok::Other(s) => {
                if word_is(s, "<") {
                    depth = depth + 1;
                } else if word_is(s, ">") {
                    if depth > 0 {
                        depth = depth - 1;
                    }
                }
            },
            _ => {},
        }
        i = i + 1;
    }
    proof {
        assert(toks@.skip(i as int) =~= Seq::<Tok>::empty());
    }
    false
}

} // verus!
