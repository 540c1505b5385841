//! The capabilities that an error type offers the parsing engine, and the
//! default error type, which records a position and a kind.

use vstd::prelude::*;
use vstd::slice::slice_to_vec;
use vstd::string::StringExecFns;

use crate::kind::ErrorKind;

verus! {

/// This trait must be implemented by the error type of a parser.
///
/// It provides methods to create an error from some combinators, and to
/// combine existing errors in combinators like alternation. What each
/// construction builds is named by a spec function, so that generic code
/// can state its results exactly.
pub trait ParseError<I>: Sized {
    /// The error built by `from_error_kind`. Each error type states its
    /// own: the default names no particular error.
    open spec fn spec_from_error_kind(input: I, kind: ErrorKind) -> Self {
        arbitrary()
    }

    /// The error built by `append`. By default the innermost error wins:
    /// the new position and kind are dropped and `other` is kept.
    open spec fn spec_append(input: I, kind: ErrorKind, other: Self) -> Self {
        other
    }

    /// Creates an error from the input position and an [ErrorKind].
    fn from_error_kind(input: I, kind: ErrorKind) -> (r: Self)
        ensures
            r == Self::spec_from_error_kind(input, kind),
    ;

    /// Combines an existing error with a new one created from the input
    /// position and an [ErrorKind]. This is useful when backtracking
    /// through a parse tree, accumulating error context on the way.
    fn append(input: I, kind: ErrorKind, other: Self) -> (r: Self)
        ensures
            r == Self::spec_append(input, kind, other),
    ;

    /// Creates an error from an input position and an expected character:
    /// the error of kind [ErrorKind::Char] at that position.
    fn from_char(input: I, c: char) -> (r: Self)
        ensures
            r == Self::spec_from_error_kind(input, ErrorKind::Char),
    {
        Self::from_error_kind(input, ErrorKind::Char)
    }

    /// The error kept by `or`. By default the error of the later branch
    /// wins; a type may override it, to prefer the error that consumed the
    /// most input for instance.
    open spec fn spec_or(self, other: Self) -> Self {
        other
    }

    /// Combines two existing errors. This function is used to compare errors
    /// generated in various branches of alternation.
    fn or(self, other: Self) -> (r: Self)
        ensures
            r == self.spec_or(other),
    ;
}

/// This trait is required by the `context` combinator to add a static string
/// to an existing error.
pub trait ContextError<I>: Sized {
    /// The error built by `add_context`. By default the label is dropped
    /// and `other` is kept, so that a type opts out of context tracking.
    open spec fn spec_add_context(input: I, ctx: &'static str, other: Self) -> Self {
        other
    }

    /// Creates a new error from an input position, a static string and an
    /// existing error. This is used mainly in the `context` combinator, to
    /// add user friendly information to errors when backtracking through a
    /// parse tree. A type that does not track context hands `other` back.
    fn add_context(input: I, ctx: &'static str, other: Self) -> (r: Self)
        ensures
            r == Self::spec_add_context(input, ctx, other),
    ;
}

/// This trait is required by combinators that integrate error types from
/// external functions, like a conversion of text to a number.
pub trait FromExternalError<I, E>: Sized {
    /// The error built by `from_external_error`. Each error type states its
    /// own: the default names no particular error.
    open spec fn spec_from_external_error(input: I, kind: ErrorKind, e: E) -> Self {
        arbitrary()
    }

    /// Creates a new error from an input position, an [ErrorKind] indicating
    /// the wrapping parser, and an external error.
    fn from_external_error(input: I, kind: ErrorKind, e: E) -> (r: Self)
        ensures
            r == Self::spec_from_external_error(input, kind, e),
    ;
}

/// Default error type, only contains the error's location and code.
#[derive(Clone, Debug, Eq, PartialEq)]
pub struct Error<I> {
    /// Position of the error in the input data.
    pub input: I,
    /// Error code.
    pub code: ErrorKind,
}

impl<I> Error<I> {
    /// Creates a new basic error.
    pub fn new(input: I, code: ErrorKind) -> (r: Error<I>)
        ensures
            r.input == input,
            r.code == code,
    {
        Error { input, code }
    }
}

impl<I> ParseError<I> for Error<I> {
    open spec fn spec_from_error_kind(input: I, kind: ErrorKind) -> Self {
        Error { input, code: kind }
    }

    fn from_error_kind(input: I, kind: ErrorKind) -> (r: Self) {
        Error { input, code: kind }
    }

    fn append(_input: I, _kind: ErrorKind, other: Self) -> (r: Self) {
        other
    }

    fn or(self, other: Self) -> (r: Self) {
        other
    }
}

/// The default error type keeps no context: the label is dropped.
impl<I> ContextError<I> for Error<I> {
    fn add_context(_input: I, _ctx: &'static str, other: Self) -> (r: Self) {
        other
    }
}

impl<I, E> FromExternalError<I, E> for Error<I> {
    /// The external error is dropped: only the position and kind are kept.
    open spec fn spec_from_external_error(input: I, kind: ErrorKind, e: E) -> Self {
        Error { input, code: kind }
    }

    fn from_external_error(input: I, kind: ErrorKind, _e: E) -> (r: Self) {
        Error { input, code: kind }
    }
}

impl<'a> Error<&'a str> {
    /// Converts `Error<&str>` into `Error<String>` by cloning.
    pub fn cloned(self) -> (r: Error<String>)
        ensures
            r.input@ == self.input@,
            r.code == self.code,
    {
        Error { input: self.input.to_owned(), code: self.code }
    }
}

impl<'a> Error<&'a [u8]> {
    /// Converts `Error<&[u8]>` into `Error<Vec<u8>>` by cloning.
    pub fn cloned(self) -> (r: Error<Vec<u8>>)
        ensures
            r.input@ == self.input@,
            r.code == self.code,
    {
        Error { input: slice_to_vec(self.input), code: self.code }
    }
}

impl<'a> Error<&'a mut str> {
    /// Converts `Error<&mut str>` into `Error<String>` by cloning.
    pub fn cloned(self) -> (r: Error<String>)
        ensures
            r.input@ == old(self.input)@,
            r.code == self.code,
            final(self.input)@ == old(self.input)@,
    {
        Error { input: self.input.to_owned(), code: self.code }
    }
}

impl<'a> Error<&'a mut [u8]> {
    /// Converts `Error<&mut [u8]>` into `Error<Vec<u8>>` by cloning.
    pub fn cloned(self) -> (r: Error<Vec<u8>>)
        ensures
            r.input@ == old(self.input)@,
            r.code == self.code,
            final(self.input)@ == old(self.input)@,
    {
        Error { input: slice_to_vec(self.input), code: self.code }
    }
}

impl<'a, I: Copy> Error<&'a I> {
    /// Converts `Error<&I>` into `Error<I>` by copying.
    pub fn copied(self) -> (r: Error<I>)
        ensures
            r.input == *self.input,
            r.code == self.code,
    {
        Error { input: *self.input, code: self.code }
    }
}

impl<'a, I: Copy> Error<&'a mut I> {
    /// Converts `Error<&mut I>` into `Error<I>` by copying.
    pub fn copied(self) -> (r: Error<I>)
        ensures
            r.input == *old(self.input),
            r.code == self.code,
            *final(self.input) == *old(self.input),
    {
        Error { input: *self.input, code: self.code }
    }
}

/// The text of an error at `input` for `code`: `error <kind name> at: <input>`.
pub open spec fn spec_render(code: ErrorKind, input: Seq<char>) -> Seq<char> {
    "error "@ + code.spec_name() + " at: "@ + input
}

fn render(code: ErrorKind, input: &str) -> (r: String)
    ensures
        r@ == spec_render(code, input@),
{
    let text = String::from_str("error ");
    let text = text.concat(code.name());
    let text = text.concat(" at: ");
    text.concat(input)
}

impl<'a> Error<&'a str> {
    /// Renders the error as `error <kind name> at: <input>`.
    pub fn to_string(&self) -> (r: String)
        ensures
            r@ == spec_render(self.code, self.input@),
    {
        render(self.code, self.input)
    }
}

impl Error<String> {
    /// Renders the error as `error <kind name> at: <input>`.
    pub fn to_string(&self) -> (r: String)
        ensures
            r@ == spec_render(self.code, self.input@),
    {
        render(self.code, self.input.as_str())
    }
}

impl<'a> From<Error<&'a [u8]>> for Error<Vec<u8>> {
    /// Converts `Error<&[u8]>` into `Error<Vec<u8>>` by cloning.
    fn from(value: Error<&'a [u8]>) -> (r: Self)
        ensures
            r.input@ == value.input@,
            r.code == value.code,
    {
        Error { input: slice_to_vec(value.input), code: value.code }
    }
}

/// The owned copy is fixed by its contents only up to its view, so the
/// conversion is stated by the `ensures` of `from` rather than as a value.
impl<'a> vstd::std_specs::convert::FromSpecImpl<Error<&'a [u8]>> for Error<Vec<u8>> {
    open spec fn obeys_from_spec() -> bool {
        false
    }

    open spec fn from_spec(v: Error<&'a [u8]>) -> Self {
        Error { input: choose|b: Vec<u8>| #[trigger] b@ == v.input@, code: v.code }
    }
}

impl<'a> From<Error<&'a str>> for Error<String> {
    /// Converts `Error<&str>` into `Error<String>` by cloning.
    fn from(value: Error<&'a str>) -> (r: Self)
        ensures
            r.input@ == value.input@,
            r.code == value.code,
    {
        Error { input: value.input.to_owned(), code: value.code }
    }
}

/// As for bytes, the conversion is stated by the `ensures` of `from`.
impl<'a> vstd::std_specs::convert::FromSpecImpl<Error<&'a str>> for Error<String> {
    open spec fn obeys_from_spec() -> bool {
        false
    }

    open spec fn from_spec(v: Error<&'a str>) -> Self {
        Error { input: choose|s: String| #[trigger] s@ == v.input@, code: v.code }
    }
}

// The pair of a position and a kind is an error type too, keeping what the
// default error type keeps; so is the unit type, which keeps nothing.
impl<I> ParseError<I> for (I, ErrorKind) {
    open spec fn spec_from_error_kind(input: I, kind: ErrorKind) -> Self {
        (input, kind)
    }

    fn from_error_kind(input: I, kind: ErrorKind) -> (r: Self) {
        (input, kind)
    }

    fn append(_input: I, _kind: ErrorKind, other: Self) -> (r: Self) {
        other
    }

    fn or(self, other: Self) -> (r: Self) {
        other
    }
}

impl<I> ContextError<I> for (I, ErrorKind) {
    fn add_context(_input: I, _ctx: &'static str, other: Self) -> (r: Self) {
        other
    }
}

impl<I, E> FromExternalError<I, E> for (I, ErrorKind) {
    open spec fn spec_from_external_error(input: I, kind: ErrorKind, e: E) -> Self {
        (input, kind)
    }

    fn from_external_error(input: I, kind: ErrorKind, _e: E) -> (r: Self) {
        (input, kind)
    }
}

impl<I> ParseError<I> for () {
    open spec fn spec_from_error_kind(input: I, kind: ErrorKind) -> Self {
        ()
    }

    fn from_error_kind(_input: I, _kind: ErrorKind) -> (r: Self) {
    }

    fn append(_input: I, _kind: ErrorKind, _other: Self) -> (r: Self) {
    }

    fn or(self, other: Self) -> (r: Self) {
        other
    }
}

impl<I> ContextError<I> for () {
    fn add_context(_input: I, _ctx: &'static str, _other: Self) -> (r: Self) {
    }
}

impl<I, E> FromExternalError<I, E> for () {
    open spec fn spec_from_external_error(input: I, kind: ErrorKind, e: E) -> Self {
        ()
    }

    fn from_external_error(_input: I, _kind: ErrorKind, _e: E) -> (r: Self) {
    }
}

/// Creates an error from the input position and an [ErrorKind].
pub fn make_error<I, E: ParseError<I>>(input: I, kind: ErrorKind) -> (r: E)
    ensures
        r == E::spec_from_error_kind(input, kind),
{
    E::from_error_kind(input, kind)
}

/// Combines an existing error with a new one created from the input
/// position and an [ErrorKind]. This is useful when backtracking
/// through a parse tree, accumulating error context on the way.
pub fn append_error<I, E: ParseError<I>>(input: I, kind: ErrorKind, other: E) -> (r: E)
    ensures
        r == E::spec_append(input, kind, other),
{
    E::append(input, kind, other)
}

/// The default error type built from a position and a kind holds exactly
/// that position and that kind.
pub proof fn lemma_from_error_kind_keeps_fields<I>(input: I, kind: ErrorKind)
    ensures
        <Error<I> as ParseError<I>>::spec_from_error_kind(input, kind).input == input,
        <Error<I> as ParseError<I>>::spec_from_error_kind(input, kind).code == kind,
{
}

/// On the default error type the innermost error wins: appending a
/// position and a kind to an error gives that error back unchanged.
pub proof fn lemma_append_keeps_innermost<I>(input: I, kind: ErrorKind, other: Error<I>)
    ensures
        <Error<I> as ParseError<I>>::spec_append(input, kind, other) == other,
{
}

/// On the default error type alternation keeps the error of the later
/// branch.
pub proof fn lemma_or_prefers_later<I>(first: Error<I>, second: Error<I>)
    ensures
        first.spec_or(second) == second,
{
}

/// The default error type opts out of context: adding a label to an error
/// gives that error back unchanged.
pub proof fn lemma_add_context_is_identity<I>(input: I, ctx: &'static str, other: Error<I>)
    ensures
        <Error<I> as ContextError<I>>::spec_add_context(input, ctx, other) == other,
{
}

} // verus!
