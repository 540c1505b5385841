//! The boundary of the parsing engine: the four outcomes of a parsing step,
//! the parser abstraction, and two small parsers built on it, one that
//! recognizes a character and one that commits to its inner parser.

use core::marker::PhantomData;
use vstd::prelude::*;
use vstd::string::StrSliceExecFns;

use crate::error::ParseError;
use crate::kind::ErrorKind;

verus! {

/// Contains information on needed data if a parser returned `Incomplete`.
#[derive(Debug, PartialEq, Eq, Clone, Copy)]
pub enum Needed {
    /// Needs more data, but we do not know how much.
    Unknown,
    /// Contains the number of characters or bytes still needed; never zero.
    Size(usize),
}

impl Needed {
    /// Creates `Needed` instances from a size, where zero means unknown.
    pub fn new(s: usize) -> (r: Needed)
        ensures
            r == (if s == 0 { Needed::Unknown } else { Needed::Size(s) }),
    {
        if s == 0 {
            Needed::Unknown
        } else {
            Needed::Size(s)
        }
    }
}

/// The ways in which a parsing step stops without a value.
#[derive(Debug, PartialEq, Eq, Clone)]
pub enum StepError<E> {
    /// There was not enough data to decide.
    Incomplete(Needed),
    /// A recoverable error: an enclosing alternation may try another branch.
    Error(E),
    /// An unrecoverable failure: the parse is committed and must stop.
    Failure(E),
}

/// The result of a parsing step: the remaining input and the value, or the
/// reason it stopped.
pub type PResult<I, O, E> = Result<(I, O), StepError<E>>;

/// Whether more input may still come.
#[derive(Debug, PartialEq, Eq, Clone, Copy)]
pub enum Mode {
    /// The input may be partial: a parser that runs out of it reports
    /// `Incomplete`.
    Streaming,
    /// The input is all there is: running out of it is an error.
    Complete,
}

/// A parsing step: from an input position to a result.
pub trait Parser<I> {
    /// The value a successful step produces.
    type Output;

    /// The error type of the step.
    type Error;

    /// Whether the step may give `r` on `input` in `mode`. Each parser
    /// states its own: the default names no particular results.
    open spec fn yields(&self, input: I, mode: Mode, r: PResult<I, Self::Output, Self::Error>) -> bool {
        arbitrary()
    }

    /// Runs the step on `input`.
    fn process(&self, input: I, mode: Mode) -> (r: PResult<I, Self::Output, Self::Error>)
        ensures
            self.yields(input, mode, r),
    ;

    /// Runs the step on input that may be partial.
    fn parse(&self, input: I) -> (r: PResult<I, Self::Output, Self::Error>)
        ensures
            self.yields(input, Mode::Streaming, r),
    {
        self.process(input, Mode::Streaming)
    }

    /// Runs the step on input that is complete.
    fn parse_complete(&self, input: I) -> (r: PResult<I, Self::Output, Self::Error>)
        ensures
            self.yields(input, Mode::Complete, r),
    {
        self.process(input, Mode::Complete)
    }
}

/// Parser for [char].
pub struct Char<E> {
    c: char,
    error: PhantomData<E>,
}

impl<E> Char<E> {
    /// The character that the parser expects.
    pub closed spec fn expected(&self) -> char {
        self.c
    }
}

/// Recognizes one character.
pub fn char<E>(c: char) -> (r: Char<E>)
    ensures
        r.expected() == c,
{
    Char { c, error: PhantomData }
}

impl<'a, E: ParseError<&'a str>> Parser<&'a str> for Char<E> {
    type Output = char;

    type Error = E;

    /// On empty input the step is incomplete, needing one character, or an
    /// error when the input is complete. Otherwise it takes the first
    /// character if it is the expected one, and is an error if not.
    open spec fn yields(&self, input: &'a str, mode: Mode, r: PResult<&'a str, char, E>) -> bool {
        if input@.len() == 0 {
            match mode {
                Mode::Streaming => r == PResult::<&'a str, char, E>::Err(
                    StepError::Incomplete(Needed::Size(1)),
                ),
                Mode::Complete => r == PResult::<&'a str, char, E>::Err(
                    StepError::Error(E::spec_from_error_kind(input, ErrorKind::Char)),
                ),
            }
        } else if input@[0] == self.expected() {
            match r {
                Ok((rest, o)) => {
                    &&& rest@ == input@.subrange(1, input@.len() as int)
                    &&& o == self.expected()
                },
                _ => false,
            }
        } else {
            r == PResult::<&'a str, char, E>::Err(
                StepError::Error(E::spec_from_error_kind(input, ErrorKind::Char)),
            )
        }
    }

    fn process(&self, input: &'a str, mode: Mode) -> (r: PResult<&'a str, char, E>) {
        if input.is_empty() {
            match mode {
                Mode::Streaming => Err(StepError::Incomplete(Needed::new(1))),
                Mode::Complete => Err(StepError::Error(E::from_char(input, self.c))),
            }
        } else {
            let first = input.get_char(0);
            if first == self.c {
                let len = input.unicode_len();
                Ok((input.substring_char(1, len), first))
            } else {
                Err(StepError::Error(E::from_char(input, self.c)))
            }
        }
    }
}

/// Parser for [cut].
pub struct Cut<F> {
    parser: F,
}

impl<F> Cut<F> {
    /// The parser that is committed to.
    pub closed spec fn inner(&self) -> F {
        self.parser
    }
}

/// Transforms an error of the inner parser into a failure: the parse is
/// committed and no other branch is tried.
pub fn cut<F>(parser: F) -> (r: Cut<F>)
    ensures
        r.inner() == parser,
{
    Cut { parser }
}

impl<I, F: Parser<I>> Parser<I> for Cut<F> {
    type Output = F::Output;

    type Error = F::Error;

    /// A failure comes from an error or a failure of the inner parser; every
    /// other result is the inner parser's own.
    open spec fn yields(&self, input: I, mode: Mode, r: PResult<I, F::Output, F::Error>) -> bool {
        match r {
            Err(StepError::Error(_)) => false,
            Err(StepError::Failure(e)) => self.inner().yields(
                input,
                mode,
                PResult::<I, F::Output, F::Error>::Err(StepError::Error(e)),
            ) || self.inner().yields(input, mode, r),
            _ => self.inner().yields(input, mode, r),
        }
    }

    fn process(&self, input: I, mode: Mode) -> (r: PResult<I, F::Output, F::Error>) {
        match self.parser.process(input, mode) {
            Err(StepError::Error(e)) => Err(StepError::Failure(e)),
            rest => rest,
        }
    }
}

} // verus!
