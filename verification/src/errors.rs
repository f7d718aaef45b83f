//! The error taxonomy of the pipeline.
//!
//! Every failure of parsing, validation or orchestration is fatal to the
//! whole invocation; exactly one error is surfaced, carrying the index of
//! the offending field so the host can attach a source position to it.

use vstd::prelude::*;

verus! {

/// What went wrong, as a closed set of conditions.
#[derive(Debug, Clone, Copy, PartialEq, Eq, Structural)]
pub enum ErrorKind {
    /// A `get` annotation without parenthesized arguments.
    GetMissingArgs,
    /// A directive began with a token outside the fixed vocabulary.
    UnknownDirective,
    /// `im_ref`, `mut_ref` or `funky` was not followed by a parenthesized
    /// group.
    MissingParenArg,
    /// The parentheses after `im_ref` or `mut_ref` held no type.
    EmptyTypeArg,
    /// A token run that must be a single type reference held a comma
    /// outside angle brackets: leftover tokens after the type.
    UnexpectedToken,
    /// Two directives were not separated by a comma.
    ExpectedComma,
    /// A funky directive did not begin with an identifier.
    FunkyExpectedName,
    /// The funky method name was not followed by `::`.
    FunkyExpectedSeparator,
    /// The funky derivation expression was empty.
    FunkyEmptyExpr,
    /// The funky directive held no `=>` arrow.
    FunkyExpectedArrow,
    /// Nothing followed the `=>` arrow of a funky directive.
    FunkyEmptyReturnType,
    /// A `get` annotation with an empty directive list.
    EmptyDirectiveList,
    /// `copy` and `clone` both appeared on one field.
    CopyCloneConflict,
    /// A non-`funky` directive appeared more than once on one field.
    Repetition,
    /// More than one `get`, or more than one `set`, annotation on a field.
    GetSetCardinality,
    /// A `set` annotation carrying arguments.
    SetArgument,
}

/// A fatal error of one invocation: the condition and the index of the
/// field it was detected on, in declaration order.
#[derive(Debug, Clone, Copy, PartialEq, Eq, Structural)]
pub struct Error {
    pub kind: ErrorKind,
    pub field: usize,
}

/// The diagnostic text of each error condition.
pub open spec fn spec_message(kind: ErrorKind) -> Seq<char> {
    match kind {
        ErrorKind::GetMissingArgs => "expected attribute arguments in parentheses: `#[get(..)]`"@,
        ErrorKind::UnknownDirective => "expected one of: `copy`, `clone`, `im_ref`, `mut_ref`, `funky`"@,
        ErrorKind::MissingParenArg => "expected parentheses after the directive keyword"@,
        ErrorKind::EmptyTypeArg => "expected a type between the parentheses"@,
        ErrorKind::UnexpectedToken => "unexpected token"@,
        ErrorKind::ExpectedComma => "expected `,` between directives"@,
        ErrorKind::FunkyExpectedName => "expected an identifier naming the funky accessor"@,
        ErrorKind::FunkyExpectedSeparator => "expected `::` after the funky accessor name"@,
        ErrorKind::FunkyEmptyExpr => "expected an expression"@,
        ErrorKind::FunkyExpectedArrow => "expected `=>` after the expression"@,
        ErrorKind::FunkyEmptyReturnType => "expected a return type after `=>`"@,
        ErrorKind::EmptyDirectiveList => "must specify a way to get the value from this field: `#[get(copy)]`, `#[get(clone)]`, `#[get(im_ref(..))]`, `#[get(mut_ref(..))]`, `#[get(funky(..))]`"@,
        ErrorKind::CopyCloneConflict => "`copy` and `clone` can not be used simultaneously"@,
        ErrorKind::Repetition => "only `funky` can be present more than once, rest all attribute helpers can be present at most once"@,
        ErrorKind::GetSetCardinality => "`#[get]` and `#[set]` are allowed atmost once"@,
        ErrorKind::SetArgument => "only `#[set]` supported"@,
    }
}

impl Error {
    /// The human-readable diagnostic for this error.
    pub fn message(&self) -> (m: String)
        ensures
            m@ == spec_message(self.kind),
    {
        let text: &str = match self.kind {
            ErrorKind::GetMissingArgs => "expected attribute arguments in parentheses: `#[get(..)]`",
            ErrorKind::UnknownDirective => "expected one of: `copy`, `clone`, `im_ref`, `mut_ref`, `funky`",
            ErrorKind::MissingParenArg => "expected parentheses after the directive keyword",
            ErrorKind::EmptyTypeArg => "expected a type between the parentheses",
            ErrorKind::UnexpectedToken => "unexpected token",
            ErrorKind::ExpectedComma => "expected `,` between directives",
            ErrorKind::FunkyExpectedName => "expected an identifier naming the funky accessor",
            ErrorKind::FunkyExpectedSeparator => "expected `::` after the funky accessor name",
            ErrorKind::FunkyEmptyExpr => "expected an expression",
            ErrorKind::FunkyExpectedArrow => "expected `=>` after the expression",
            ErrorKind::FunkyEmptyReturnType => "expected a return type after `=>`",
            ErrorKind::EmptyDirectiveList => "must specify a way to get the value from this field: `#[get(copy)]`, `#[get(clone)]`, `#[get(im_ref(..))]`, `#[get(mut_ref(..))]`, `#[get(funky(..))]`",
            ErrorKind::CopyCloneConflict => "`copy` and `clone` can not be used simultaneously",
            ErrorKind::Repetition => "only `funky` can be present more than once, rest all attribute helpers can be present at most once",
            ErrorKind::GetSetCardinality => "`#[get]` and `#[set]` are allowed atmost once",
            ErrorKind::SetArgument => "only `#[set]` supported",
        };
        text.to_owned()
    }
}

} // verus!
