use nom_error::{
    append_error, char, context, cut, error_to_u32, make_error, ContextError, Error, ErrorKind,
    FromExternalError, Needed, ParseError, Parser, StepError,
};

#[derive(Debug, PartialEq)]
struct CtxError<I> {
    input: I,
    ctx: Option<&'static str>,
}

impl<I> ParseError<I> for CtxError<I> {
    fn from_error_kind(input: I, _kind: ErrorKind) -> Self {
        Self { input, ctx: None }
    }

    fn append(input: I, _kind: ErrorKind, other: Self) -> Self {
        Self {
            input,
            ctx: other.ctx,
        }
    }

    fn or(self, other: Self) -> Self {
        other
    }
}

impl<I> ContextError<I> for CtxError<I> {
    fn add_context(input: I, ctx: &'static str, _other: Self) -> Self {
        Self {
            input,
            ctx: Some(ctx),
        }
    }
}

#[test]
fn context_test() {
    assert_eq!(
        context("ctx", char::<CtxError<_>>('a')).parse("abcd"),
        Ok(("bcd", 'a'))
    );
    assert_eq!(
        context("ctx", char::<CtxError<_>>('a')).parse(""),
        Err(StepError::Incomplete(Needed::new(1)))
    );
    assert_eq!(
        context("ctx", char::<CtxError<_>>('a')).parse_complete(""),
        Err(StepError::Error(CtxError {
            input: "",
            ctx: Some("ctx")
        }))
    );
    assert_eq!(
        context("ctx", cut(char::<CtxError<_>>('a'))).parse("bcd"),
        Err(StepError::Failure(CtxError {
            input: "bcd",
            ctx: Some("ctx")
        }))
    );
}

#[test]
fn clone_error() {
    let err = Error {
        code: ErrorKind::Eof,
        input: "test",
    };

    let _err: Error<String> = err.cloned();
}

#[test]
fn copy_error() {
    let err = Error {
        code: ErrorKind::Eof,
        input: &0_u8,
    };

    let _err: Error<u8> = err.copied();
}

const ALL_KINDS: [ErrorKind; 57] = [ErrorKind::Tag, ErrorKind::MapRes, ErrorKind::MapOpt, ErrorKind::Alt, ErrorKind::IsNot, ErrorKind::IsA, ErrorKind::SeparatedList, ErrorKind::SeparatedNonEmptyList, ErrorKind::Many0, ErrorKind::Many1, ErrorKind::ManyTill, ErrorKind::Count, ErrorKind::TakeUntil, ErrorKind::LengthValue, ErrorKind::TagClosure, ErrorKind::Alpha, ErrorKind::Digit, ErrorKind::HexDigit, ErrorKind::OctDigit, ErrorKind::BinDigit, ErrorKind::AlphaNumeric, ErrorKind::Space, ErrorKind::MultiSpace, ErrorKind::LengthValueFn, ErrorKind::Eof, ErrorKind::Switch, ErrorKind::TagBits, ErrorKind::OneOf, ErrorKind::NoneOf, ErrorKind::Char, ErrorKind::CrLf, ErrorKind::RegexpMatch, ErrorKind::RegexpMatches, ErrorKind::RegexpFind, ErrorKind::RegexpCapture, ErrorKind::RegexpCaptures, ErrorKind::TakeWhile1, ErrorKind::Complete, ErrorKind::Fix, ErrorKind::Escaped, ErrorKind::EscapedTransform, ErrorKind::NonEmpty, ErrorKind::ManyMN, ErrorKind::Not, ErrorKind::Permutation, ErrorKind::Verify, ErrorKind::TakeTill1, ErrorKind::TakeWhileMN, ErrorKind::TooLarge, ErrorKind::Many0Count, ErrorKind::Many1Count, ErrorKind::Float, ErrorKind::Satisfy, ErrorKind::Fail, ErrorKind::Many, ErrorKind::Fold, ErrorKind::Precedence];

#[test]
fn codes_are_distinct_and_stable() {
    for (i, a) in ALL_KINDS.iter().enumerate() {
        assert_eq!(error_to_u32(a), error_to_u32(a));
        for b in ALL_KINDS.iter().skip(i + 1) {
            assert_ne!(error_to_u32(a), error_to_u32(b), "{:?} and {:?}", a, b);
        }
    }
}

#[test]
fn codes_match_the_table() {
    assert_eq!(error_to_u32(&ErrorKind::Tag), 1);
    assert_eq!(error_to_u32(&ErrorKind::Count), 10);
    assert_eq!(error_to_u32(&ErrorKind::TakeUntil), 12);
    assert_eq!(error_to_u32(&ErrorKind::Eof), 23);
    assert_eq!(error_to_u32(&ErrorKind::Char), 40);
    assert_eq!(error_to_u32(&ErrorKind::HexDigit), 59);
    assert_eq!(error_to_u32(&ErrorKind::Many0), 62);
    assert_eq!(error_to_u32(&ErrorKind::BinDigit), 78);
    assert_eq!(error_to_u32(&ErrorKind::Precedence), 79);
}

#[test]
fn descriptions_match_the_table() {
    assert_eq!(ErrorKind::Tag.description(), "Tag");
    assert_eq!(ErrorKind::MapRes.description(), "Map on Result");
    assert_eq!(ErrorKind::Eof.description(), "End of file");
    assert_eq!(ErrorKind::ManyMN.description(), "Many(m, n)");
    assert_eq!(ErrorKind::Verify.description(), "predicate verification");
    assert_eq!(
        ErrorKind::TooLarge.description(),
        "Needed data size is too large"
    );
    assert_eq!(ErrorKind::Precedence.description(), "Precedence");
}

#[test]
fn descriptions_are_distinct() {
    for (i, a) in ALL_KINDS.iter().enumerate() {
        for b in ALL_KINDS.iter().skip(i + 1) {
            assert_ne!(a.description(), b.description());
        }
    }
}

#[test]
fn from_error_kind_keeps_position_and_kind() {
    let e: Error<&str> = make_error("xyz", ErrorKind::Digit);
    assert_eq!(e.input, "xyz");
    assert_eq!(e.code, ErrorKind::Digit);
    let d = Error::<&str>::from_error_kind("", ErrorKind::Tag);
    assert_eq!(d, Error::new("", ErrorKind::Tag));
}

#[test]
fn append_keeps_innermost_error() {
    let inner = Error::new("bcd", ErrorKind::Digit);
    let outer = append_error("abcd", ErrorKind::Many1, inner.clone());
    assert_eq!(outer, inner);
    let pair = <(&str, ErrorKind)>::append("abcd", ErrorKind::Alt, ("cd", ErrorKind::Tag));
    assert_eq!(pair, ("cd", ErrorKind::Tag));
}

#[test]
fn add_context_is_identity_on_default_error() {
    let e = Error::new("bcd", ErrorKind::Char);
    assert_eq!(Error::add_context("abcd", "label", e.clone()), e);
}

#[test]
fn from_char_uses_char_kind() {
    let e = Error::<&str>::from_char("zz", 'a');
    assert_eq!(e, Error::new("zz", ErrorKind::Char));
}

#[test]
fn or_prefers_later_branch() {
    let first = Error::new("abc", ErrorKind::Tag);
    let second = Error::new("bc", ErrorKind::Digit);
    assert_eq!(first.clone().or(second.clone()), second);
    assert_eq!(second.clone().or(first.clone()), first);
    let p = ("a", ErrorKind::Tag).or(("b", ErrorKind::Alt));
    assert_eq!(p, ("b", ErrorKind::Alt));
}

#[test]
fn from_external_error_drops_the_foreign_error() {
    let e = Error::from_external_error("12x", ErrorKind::MapRes, "12x".parse::<u32>().unwrap_err());
    assert_eq!(e, Error::new("12x", ErrorKind::MapRes));
    let p = <(&str, ErrorKind)>::from_external_error("q", ErrorKind::MapOpt, 7_i32);
    assert_eq!(p, ("q", ErrorKind::MapOpt));
}

#[test]
fn cloned_keeps_text_and_code() {
    let text = String::from("test input");
    let owned: Error<String> = {
        let err = Error::new(text.as_str(), ErrorKind::TakeUntil);
        err.cloned()
    };
    drop(text);
    assert_eq!(owned.input, "test input");
    assert_eq!(error_to_u32(&owned.code), 12);

    let bytes = vec![1_u8, 2, 3];
    let owned_bytes = Error::new(&bytes[1..], ErrorKind::IsA).cloned();
    assert_eq!(owned_bytes, Error::new(vec![2_u8, 3], ErrorKind::IsA));
}

#[test]
fn cloned_from_mutable_references() {
    let mut s = String::from("abc");
    let e = Error::new(s.as_mut_str(), ErrorKind::Alpha).cloned();
    assert_eq!(e, Error::new(String::from("abc"), ErrorKind::Alpha));
    assert_eq!(s, "abc");

    let mut b = [9_u8, 8];
    let e = Error::new(&mut b[..], ErrorKind::OneOf).cloned();
    assert_eq!(e, Error::new(vec![9_u8, 8], ErrorKind::OneOf));
}

#[test]
fn from_converts_to_owned() {
    let s: Error<String> = Error::from(Error::new("rest", ErrorKind::Eof));
    assert_eq!(s, Error::new(String::from("rest"), ErrorKind::Eof));
    let data = [4_u8, 5];
    let v: Error<Vec<u8>> = Error::new(&data[..], ErrorKind::Count).into();
    assert_eq!(v, Error::new(vec![4_u8, 5], ErrorKind::Count));
}

#[test]
fn copied_from_mutable_reference() {
    let mut x = 42_u32;
    let e = Error::new(&mut x, ErrorKind::Digit).copied();
    assert_eq!(e, Error::new(42_u32, ErrorKind::Digit));
    assert_eq!(x, 42);
    let y = 7_u8;
    assert_eq!(Error::new(&y, ErrorKind::Eof).copied(), Error::new(7_u8, ErrorKind::Eof));
}

#[test]
fn needed_zero_is_unknown() {
    assert_eq!(Needed::new(0), Needed::Unknown);
    assert_eq!(Needed::new(3), Needed::Size(3));
}

#[test]
fn char_reports_mismatch_as_error() {
    assert_eq!(
        char::<Error<&str>>('a').parse("xa"),
        Err(StepError::Error(Error::new("xa", ErrorKind::Char)))
    );
    assert_eq!(char::<Error<&str>>('é').parse("éa"), Ok(("a", 'é')));
    assert_eq!(
        char::<Error<&str>>('a').parse_complete(""),
        Err(StepError::Error(Error::new("", ErrorKind::Char)))
    );
}

#[test]
fn context_on_default_error_keeps_inner_error() {
    assert_eq!(
        context("ctx", char::<Error<&str>>('a')).parse_complete("bcd"),
        Err(StepError::Error(Error::new("bcd", ErrorKind::Char)))
    );
    assert_eq!(
        context("ctx", cut(char::<Error<&str>>('a'))).parse("bcd"),
        Err(StepError::Failure(Error::new("bcd", ErrorKind::Char)))
    );
    assert_eq!(
        context("ctx", char::<Error<&str>>('a')).parse(""),
        Err(StepError::Incomplete(Needed::Size(1)))
    );
}

#[test]
fn context_labels_at_starting_position() {
    let inner = cut(char::<CtxError<&str>>('b'));
    assert_eq!(
        context("outer", context("inner", inner)).parse("xyz"),
        Err(StepError::Failure(CtxError {
            input: "xyz",
            ctx: Some("outer")
        }))
    );
}

#[test]
fn unit_error_type() {
    let u: () = make_error("abc", ErrorKind::Tag);
    assert_eq!(u, ());
    assert_eq!(<() as ContextError<&str>>::add_context("a", "l", ()), ());
}

#[test]
fn names_match_debug_rendering() {
    for k in ALL_KINDS.iter() {
        assert_eq!(k.name(), format!("{:?}", k));
    }
}

#[test]
fn error_renders_kind_name_and_position() {
    assert_eq!(
        Error::new("abc", ErrorKind::Eof).to_string(),
        "error Eof at: abc"
    );
    assert_eq!(
        Error::new(String::from("12"), ErrorKind::ManyMN).to_string(),
        "error ManyMN at: 12"
    );
    assert_eq!(Error::new("", ErrorKind::Tag).to_string(), "error Tag at: ");
}
