//! Error representation for a parser-combinator engine: the causes of a
//! failure, the capabilities an error type offers the engine, a default
//! error type, and a combinator that labels errors with context.

pub mod context;
pub mod error;
pub mod kind;
pub mod parser;

pub use context::{context, Context};
pub use error::{append_error, make_error, ContextError, Error, FromExternalError, ParseError};
pub use kind::{error_to_u32, ErrorKind};
pub use parser::{char, cut, Char, Cut, Mode, Needed, PResult, Parser, StepError};
