//! Errors raised while lowering a parse tree.

use vstd::prelude::*;
use crate::parse_tree::Rule;

verus! {

/// A half-open range of byte offsets into the input text.
#[derive(Clone, Copy, Debug, PartialEq, Eq, Hash, Structural)]
pub struct Span {
    pub start: usize,
    pub end: usize,
}

/// Everything that can go wrong while a parse tree is lowered.
///
/// Each value carries the span of the node at which the problem was found.
#[derive(Clone, Copy, Debug, PartialEq, Eq, Hash, Structural)]
pub enum HornedError {
    /// The tree does not have the shape that the lowering expects at this
    /// position. `positives` is the rule that was found (absent when an
    /// operand is missing or a token is malformed), `negatives` the rule that
    /// was wanted (absent when several rules would have been acceptable).
    ParseError { positives: Option<Rule>, negatives: Option<Rule>, span: Span },
    /// An abbreviated IRI uses a prefix that has no binding.
    UndefinedPrefix(Span),
    /// An abbreviated IRI uses the empty prefix and no default is set.
    MissingDefault(Span),
    /// A facet restriction names an IRI that is not a constraining facet.
    InvalidFacet(Span),
    /// The construct is recognised but deliberately not supported.
    UnsupportedConstruct(Span),
}

impl HornedError {
    /// Some node carries `found` where `wanted` was required.
    pub open spec fn mismatch(found: Rule, wanted: Rule, span: Span) -> HornedError {
        HornedError::ParseError { positives: Some(found), negatives: Some(wanted), span }
    }

    /// A choice point holds `found`, which is none of the accepted rules.
    pub open spec fn unexpected(found: Rule, span: Span) -> HornedError {
        HornedError::ParseError { positives: Some(found), negatives: None, span }
    }

    /// The node at `span` lacks an operand, or its text is malformed.
    pub open spec fn malformed(span: Span) -> HornedError {
        HornedError::ParseError { positives: None, negatives: None, span }
    }

    /// The span at which the error was found.
    pub open spec fn spec_span(self) -> Span {
        match self {
            HornedError::ParseError { span, .. } => span,
            HornedError::UndefinedPrefix(s) => s,
            HornedError::MissingDefault(s) => s,
            HornedError::InvalidFacet(s) => s,
            HornedError::UnsupportedConstruct(s) => s,
        }
    }

    /// The span at which the error was found.
    pub fn span(&self) -> (r: Span)
        ensures
            r == self.spec_span(),
    {
        match self {
            HornedError::ParseError { span, .. } => *span,
            HornedError::UndefinedPrefix(s) => *s,
            HornedError::MissingDefault(s) => *s,
            HornedError::InvalidFacet(s) => *s,
            HornedError::UnsupportedConstruct(s) => *s,
        }
    }

    /// A short description of the kind of error.
    pub fn message(&self) -> (r: &'static str)
        ensures
            r@ == (match *self {
                HornedError::ParseError { .. } => "unexpected parse tree"@,
                HornedError::UndefinedPrefix(_) => "undefined prefix"@,
                HornedError::MissingDefault(_) => "missing default prefix"@,
                HornedError::InvalidFacet(_) => "invalid facet"@,
                HornedError::UnsupportedConstruct(_) => "unsupported construct"@,
            }),
    {
        match self {
            HornedError::ParseError { .. } => "unexpected parse tree",
            HornedError::UndefinedPrefix(_) => "undefined prefix",
            HornedError::MissingDefault(_) => "missing default prefix",
            HornedError::InvalidFacet(_) => "invalid facet",
            HornedError::UnsupportedConstruct(_) => "unsupported construct",
        }
    }
}

/// The outcome of a lowering step with the value replaced by its model.
pub open spec fn outcome<T: View>(r: Result<T, HornedError>) -> Result<T::V, HornedError> {
    match r {
        Ok(v) => Ok(v@),
        Err(e) => Err(e),
    }
}

} // verus!
