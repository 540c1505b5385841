//! The context combinator: wraps a parser and labels each error it reports
//! with a static string, anchored at the position where the parser started.

use vstd::prelude::*;

use crate::error::ContextError;
use crate::parser::{Mode, PResult, Parser, StepError};

verus! {

/// Parser implementation for [context].
pub struct Context<F> {
    context: &'static str,
    parser: F,
}

impl<F> Context<F> {
    /// The label that errors receive.
    pub closed spec fn label(&self) -> &'static str {
        self.context
    }

    /// The wrapped parser.
    pub closed spec fn inner(&self) -> F {
        self.parser
    }
}

/// Creates a parser that runs `parser` and adds the static string `label`
/// to each error or failure it reports, with `add_context`. This adds user
/// friendly information to errors when backtracking through a parse tree.
pub fn context<F>(label: &'static str, parser: F) -> (r: Context<F>)
    ensures
        r.label() == label,
        r.inner() == parser,
{
    Context { context: label, parser }
}

impl<I: Copy, F: Parser<I>> Parser<I> for Context<F> where F::Error: ContextError<I> {
    type Output = F::Output;

    type Error = F::Error;

    /// An error of the inner parser stays an error, and a failure stays a
    /// failure, each labelled at the starting position; success and
    /// incompleteness pass through unchanged.
    open spec fn yields(&self, input: I, mode: Mode, r: PResult<I, F::Output, F::Error>) -> bool {
        match r {
            Err(StepError::Error(e)) => exists|e0: F::Error|
                #![trigger F::Error::spec_add_context(input, self.label(), e0)]
                self.inner().yields(
                    input,
                    mode,
                    PResult::<I, F::Output, F::Error>::Err(StepError::Error(e0)),
                ) && e == F::Error::spec_add_context(input, self.label(), e0),
            Err(StepError::Failure(e)) => exists|e0: F::Error|
                #![trigger F::Error::spec_add_context(input, self.label(), e0)]
                self.inner().yields(
                    input,
                    mode,
                    PResult::<I, F::Output, F::Error>::Err(StepError::Failure(e0)),
                ) && e == F::Error::spec_add_context(input, self.label(), e0),
            _ => self.inner().yields(input, mode, r),
        }
    }

    fn process(&self, input: I, mode: Mode) -> (r: PResult<I, F::Output, F::Error>) {
        let inner = self.parser.process(input, mode);
        match inner {
            Err(StepError::Error(e)) => {
                let labelled = F::Error::add_context(input, self.context, e);
                assert(labelled == F::Error::spec_add_context(input, self.label(), e));
                Err(StepError::Error(labelled))
            },
            Err(StepError::Failure(e)) => {
                let labelled = F::Error::add_context(input, self.context, e);
                assert(labelled == F::Error::spec_add_context(input, self.label(), e));
                Err(StepError::Failure(labelled))
            },
            x => x,
        }
    }
}

} // verus!
