//! The closed set of causes that a recognizer or combinator reports when it
//! fails, each with a stable numeric code and a text description.

use vstd::prelude::*;

verus! {

/// Indicates which parser returned an error.
#[derive(Debug, PartialEq, Eq, Hash, Clone, Copy)]
pub enum ErrorKind {
    Tag,
    MapRes,
    MapOpt,
    Alt,
    IsNot,
    IsA,
    SeparatedList,
    SeparatedNonEmptyList,
    Many0,
    Many1,
    ManyTill,
    Count,
    TakeUntil,
    LengthValue,
    TagClosure,
    Alpha,
    Digit,
    HexDigit,
    OctDigit,
    BinDigit,
    AlphaNumeric,
    Space,
    MultiSpace,
    LengthValueFn,
    Eof,
    Switch,
    TagBits,
    OneOf,
    NoneOf,
    Char,
    CrLf,
    RegexpMatch,
    RegexpMatches,
    RegexpFind,
    RegexpCapture,
    RegexpCaptures,
    TakeWhile1,
    Complete,
    Fix,
    Escaped,
    EscapedTransform,
    NonEmpty,
    ManyMN,
    Not,
    Permutation,
    Verify,
    TakeTill1,
    TakeWhileMN,
    TooLarge,
    Many0Count,
    Many1Count,
    Float,
    Satisfy,
    Fail,
    Many,
    Fold,
    Precedence,
}

impl ErrorKind {
    /// The stable numeric code of each kind. Codes are never reassigned:
    /// new kinds only take codes that no kind had before.
    pub open spec fn spec_code(self) -> u32 {
        match self {
            ErrorKind::Tag                   => 1,
            ErrorKind::MapRes                => 2,
            ErrorKind::MapOpt                => 3,
            ErrorKind::Alt                   => 4,
            ErrorKind::IsNot                 => 5,
            ErrorKind::IsA                   => 6,
            ErrorKind::SeparatedList         => 7,
            ErrorKind::SeparatedNonEmptyList => 8,
            ErrorKind::Many1                 => 9,
            ErrorKind::Count                 => 10,
            ErrorKind::TakeUntil             => 12,
            ErrorKind::LengthValue           => 15,
            ErrorKind::TagClosure            => 16,
            ErrorKind::Alpha                 => 17,
            ErrorKind::Digit                 => 18,
            ErrorKind::AlphaNumeric          => 19,
            ErrorKind::Space                 => 20,
            ErrorKind::MultiSpace            => 21,
            ErrorKind::LengthValueFn         => 22,
            ErrorKind::Eof                   => 23,
            ErrorKind::Switch                => 27,
            ErrorKind::TagBits               => 28,
            ErrorKind::OneOf                 => 29,
            ErrorKind::NoneOf                => 30,
            ErrorKind::Char                  => 40,
            ErrorKind::CrLf                  => 41,
            ErrorKind::RegexpMatch           => 42,
            ErrorKind::RegexpMatches         => 43,
            ErrorKind::RegexpFind            => 44,
            ErrorKind::RegexpCapture         => 45,
            ErrorKind::RegexpCaptures        => 46,
            ErrorKind::TakeWhile1            => 47,
            ErrorKind::Complete              => 48,
            ErrorKind::Fix                   => 49,
            ErrorKind::Escaped               => 50,
            ErrorKind::EscapedTransform      => 51,
            ErrorKind::NonEmpty              => 56,
            ErrorKind::ManyMN                => 57,
            ErrorKind::HexDigit              => 59,
            ErrorKind::OctDigit              => 61,
            ErrorKind::Many0                 => 62,
            ErrorKind::Not                   => 63,
            ErrorKind::Permutation           => 64,
            ErrorKind::ManyTill              => 65,
            ErrorKind::Verify                => 66,
            ErrorKind::TakeTill1             => 67,
            ErrorKind::TakeWhileMN           => 69,
            ErrorKind::TooLarge              => 70,
            ErrorKind::Many0Count            => 71,
            ErrorKind::Many1Count            => 72,
            ErrorKind::Float                 => 73,
            ErrorKind::Satisfy               => 74,
            ErrorKind::Fail                  => 75,
            ErrorKind::Many                  => 76,
            ErrorKind::Fold                  => 77,
            ErrorKind::BinDigit              => 78,
            ErrorKind::Precedence            => 79,
        }
    }

    /// The text description of each kind.
    pub open spec fn spec_description(self) -> Seq<char> {
        match self {
            ErrorKind::Tag                   => "Tag"@,
            ErrorKind::MapRes                => "Map on Result"@,
            ErrorKind::MapOpt                => "Map on Option"@,
            ErrorKind::Alt                   => "Alternative"@,
            ErrorKind::IsNot                 => "IsNot"@,
            ErrorKind::IsA                   => "IsA"@,
            ErrorKind::SeparatedList         => "Separated list"@,
            ErrorKind::SeparatedNonEmptyList => "Separated non empty list"@,
            ErrorKind::Many0                 => "Many0"@,
            ErrorKind::Many1                 => "Many1"@,
            ErrorKind::Count                 => "Count"@,
            ErrorKind::TakeUntil             => "Take until"@,
            ErrorKind::LengthValue           => "Length followed by value"@,
            ErrorKind::TagClosure            => "Tag closure"@,
            ErrorKind::Alpha                 => "Alphabetic"@,
            ErrorKind::Digit                 => "Digit"@,
            ErrorKind::AlphaNumeric          => "AlphaNumeric"@,
            ErrorKind::Space                 => "Space"@,
            ErrorKind::MultiSpace            => "Multiple spaces"@,
            ErrorKind::LengthValueFn         => "LengthValueFn"@,
            ErrorKind::Eof                   => "End of file"@,
            ErrorKind::Switch                => "Switch"@,
            ErrorKind::TagBits               => "Tag on bitstream"@,
            ErrorKind::OneOf                 => "OneOf"@,
            ErrorKind::NoneOf                => "NoneOf"@,
            ErrorKind::Char                  => "Char"@,
            ErrorKind::CrLf                  => "CrLf"@,
            ErrorKind::RegexpMatch           => "RegexpMatch"@,
            ErrorKind::RegexpMatches         => "RegexpMatches"@,
            ErrorKind::RegexpFind            => "RegexpFind"@,
            ErrorKind::RegexpCapture         => "RegexpCapture"@,
            ErrorKind::RegexpCaptures        => "RegexpCaptures"@,
            ErrorKind::TakeWhile1            => "TakeWhile1"@,
            ErrorKind::Complete              => "Complete"@,
            ErrorKind::Fix                   => "Fix"@,
            ErrorKind::Escaped               => "Escaped"@,
            ErrorKind::EscapedTransform      => "EscapedTransform"@,
            ErrorKind::NonEmpty              => "NonEmpty"@,
            ErrorKind::ManyMN                => "Many(m, n)"@,
            ErrorKind::HexDigit              => "Hexadecimal Digit"@,
            ErrorKind::OctDigit              => "Octal digit"@,
            ErrorKind::BinDigit              => "Binary digit"@,
            ErrorKind::Not                   => "Negation"@,
            ErrorKind::Permutation           => "Permutation"@,
            ErrorKind::ManyTill              => "ManyTill"@,
            ErrorKind::Verify                => "predicate verification"@,
            ErrorKind::TakeTill1             => "TakeTill1"@,
            ErrorKind::TakeWhileMN           => "TakeWhileMN"@,
            ErrorKind::TooLarge              => "Needed data size is too large"@,
            ErrorKind::Many0Count            => "Count occurrence of >=0 patterns"@,
            ErrorKind::Many1Count            => "Count occurrence of >=1 patterns"@,
            ErrorKind::Float                 => "Float"@,
            ErrorKind::Satisfy               => "Satisfy"@,
            ErrorKind::Fail                  => "Fail"@,
            ErrorKind::Many                  => "Many"@,
            ErrorKind::Fold                  => "Fold"@,
            ErrorKind::Precedence            => "Precedence"@,
        }
    }

    /// The symbolic name of each kind, as the variant is written.
    pub open spec fn spec_name(self) -> Seq<char> {
        match self {
            ErrorKind::Tag                   => "Tag"@,
            ErrorKind::MapRes                => "MapRes"@,
            ErrorKind::MapOpt                => "MapOpt"@,
            ErrorKind::Alt                   => "Alt"@,
            ErrorKind::IsNot                 => "IsNot"@,
            ErrorKind::IsA                   => "IsA"@,
            ErrorKind::SeparatedList         => "SeparatedList"@,
            ErrorKind::SeparatedNonEmptyList => "SeparatedNonEmptyList"@,
            ErrorKind::Many0                 => "Many0"@,
            ErrorKind::Many1                 => "Many1"@,
            ErrorKind::ManyTill              => "ManyTill"@,
            ErrorKind::Count                 => "Count"@,
            ErrorKind::TakeUntil             => "TakeUntil"@,
            ErrorKind::LengthValue           => "LengthValue"@,
            ErrorKind::TagClosure            => "TagClosure"@,
            ErrorKind::Alpha                 => "Alpha"@,
            ErrorKind::Digit                 => "Digit"@,
            ErrorKind::HexDigit              => "HexDigit"@,
            ErrorKind::OctDigit              => "OctDigit"@,
            ErrorKind::BinDigit              => "BinDigit"@,
            ErrorKind::AlphaNumeric          => "AlphaNumeric"@,
            ErrorKind::Space                 => "Space"@,
            ErrorKind::MultiSpace            => "MultiSpace"@,
            ErrorKind::LengthValueFn         => "LengthValueFn"@,
            ErrorKind::Eof                   => "Eof"@,
            ErrorKind::Switch                => "Switch"@,
            ErrorKind::TagBits               => "TagBits"@,
            ErrorKind::OneOf                 => "OneOf"@,
            ErrorKind::NoneOf                => "NoneOf"@,
            ErrorKind::Char                  => "Char"@,
            ErrorKind::CrLf                  => "CrLf"@,
            ErrorKind::RegexpMatch           => "RegexpMatch"@,
            ErrorKind::RegexpMatches         => "RegexpMatches"@,
            ErrorKind::RegexpFind            => "RegexpFind"@,
            ErrorKind::RegexpCapture         => "RegexpCapture"@,
            ErrorKind::RegexpCaptures        => "RegexpCaptures"@,
            ErrorKind::TakeWhile1            => "TakeWhile1"@,
            ErrorKind::Complete              => "Complete"@,
            ErrorKind::Fix                   => "Fix"@,
            ErrorKind::Escaped               => "Escaped"@,
            ErrorKind::EscapedTransform      => "EscapedTransform"@,
            ErrorKind::NonEmpty              => "NonEmpty"@,
            ErrorKind::ManyMN                => "ManyMN"@,
            ErrorKind::Not                   => "Not"@,
            ErrorKind::Permutation           => "Permutation"@,
            ErrorKind::Verify                => "Verify"@,
            ErrorKind::TakeTill1             => "TakeTill1"@,
            ErrorKind::TakeWhileMN           => "TakeWhileMN"@,
            ErrorKind::TooLarge              => "TooLarge"@,
            ErrorKind::Many0Count            => "Many0Count"@,
            ErrorKind::Many1Count            => "Many1Count"@,
            ErrorKind::Float                 => "Float"@,
            ErrorKind::Satisfy               => "Satisfy"@,
            ErrorKind::Fail                  => "Fail"@,
            ErrorKind::Many                  => "Many"@,
            ErrorKind::Fold                  => "Fold"@,
            ErrorKind::Precedence            => "Precedence"@,
        }
    }

    /// The symbolic name of the kind, as the variant is written.
    pub fn name(&self) -> (r: &str)
        ensures
            r@ == self.spec_name(),
    {
        match *self {
            ErrorKind::Tag                   => "Tag",
            ErrorKind::MapRes                => "MapRes",
            ErrorKind::MapOpt                => "MapOpt",
            ErrorKind::Alt                   => "Alt",
            ErrorKind::IsNot                 => "IsNot",
            ErrorKind::IsA                   => "IsA",
            ErrorKind::SeparatedList         => "SeparatedList",
            ErrorKind::SeparatedNonEmptyList => "SeparatedNonEmptyList",
            ErrorKind::Many0                 => "Many0",
            ErrorKind::Many1                 => "Many1",
            ErrorKind::ManyTill              => "ManyTill",
            ErrorKind::Count                 => "Count",
            ErrorKind::TakeUntil             => "TakeUntil",
            ErrorKind::LengthValue           => "LengthValue",
            ErrorKind::TagClosure            => "TagClosure",
            ErrorKind::Alpha                 => "Alpha",
            ErrorKind::Digit                 => "Digit",
            ErrorKind::HexDigit              => "HexDigit",
            ErrorKind::OctDigit              => "OctDigit",
            ErrorKind::BinDigit              => "BinDigit",
            ErrorKind::AlphaNumeric          => "AlphaNumeric",
            ErrorKind::Space                 => "Space",
            ErrorKind::MultiSpace            => "MultiSpace",
            ErrorKind::LengthValueFn         => "LengthValueFn",
            ErrorKind::Eof                   => "Eof",
            ErrorKind::Switch                => "Switch",
            ErrorKind::TagBits               => "TagBits",
            ErrorKind::OneOf                 => "OneOf",
            ErrorKind::NoneOf                => "NoneOf",
            ErrorKind::Char                  => "Char",
            ErrorKind::CrLf                  => "CrLf",
            ErrorKind::RegexpMatch           => "RegexpMatch",
            ErrorKind::RegexpMatches         => "RegexpMatches",
            ErrorKind::RegexpFind            => "RegexpFind",
            ErrorKind::RegexpCapture         => "RegexpCapture",
            ErrorKind::RegexpCaptures        => "RegexpCaptures",
            ErrorKind::TakeWhile1            => "TakeWhile1",
            ErrorKind::Complete              => "Complete",
            ErrorKind::Fix                   => "Fix",
            ErrorKind::Escaped               => "Escaped",
            ErrorKind::EscapedTransform      => "EscapedTransform",
            ErrorKind::NonEmpty              => "NonEmpty",
            ErrorKind::ManyMN                => "ManyMN",
            ErrorKind::Not                   => "Not",
            ErrorKind::Permutation           => "Permutation",
            ErrorKind::Verify                => "Verify",
            ErrorKind::TakeTill1             => "TakeTill1",
            ErrorKind::TakeWhileMN           => "TakeWhileMN",
            ErrorKind::TooLarge              => "TooLarge",
            ErrorKind::Many0Count            => "Many0Count",
            ErrorKind::Many1Count            => "Many1Count",
            ErrorKind::Float                 => "Float",
            ErrorKind::Satisfy               => "Satisfy",
            ErrorKind::Fail                  => "Fail",
            ErrorKind::Many                  => "Many",
            ErrorKind::Fold                  => "Fold",
            ErrorKind::Precedence            => "Precedence",
        }
    }

    /// Converts an ErrorKind to a text description.
    pub fn description(&self) -> (r: &str)
        ensures
            r@ == self.spec_description(),
    {
        match *self {
            ErrorKind::Tag                   => "Tag",
            ErrorKind::MapRes                => "Map on Result",
            ErrorKind::MapOpt                => "Map on Option",
            ErrorKind::Alt                   => "Alternative",
            ErrorKind::IsNot                 => "IsNot",
            ErrorKind::IsA                   => "IsA",
            ErrorKind::SeparatedList         => "Separated list",
            ErrorKind::SeparatedNonEmptyList => "Separated non empty list",
            ErrorKind::Many0                 => "Many0",
            ErrorKind::Many1                 => "Many1",
            ErrorKind::Count                 => "Count",
            ErrorKind::TakeUntil             => "Take until",
            ErrorKind::LengthValue           => "Length followed by value",
            ErrorKind::TagClosure            => "Tag closure",
            ErrorKind::Alpha                 => "Alphabetic",
            ErrorKind::Digit                 => "Digit",
            ErrorKind::AlphaNumeric          => "AlphaNumeric",
            ErrorKind::Space                 => "Space",
            ErrorKind::MultiSpace            => "Multiple spaces",
            ErrorKind::LengthValueFn         => "LengthValueFn",
            ErrorKind::Eof                   => "End of file",
            ErrorKind::Switch                => "Switch",
            ErrorKind::TagBits               => "Tag on bitstream",
            ErrorKind::OneOf                 => "OneOf",
            ErrorKind::NoneOf                => "NoneOf",
            ErrorKind::Char                  => "Char",
            ErrorKind::CrLf                  => "CrLf",
            ErrorKind::RegexpMatch           => "RegexpMatch",
            ErrorKind::RegexpMatches         => "RegexpMatches",
            ErrorKind::RegexpFind            => "RegexpFind",
            ErrorKind::RegexpCapture         => "RegexpCapture",
            ErrorKind::RegexpCaptures        => "RegexpCaptures",
            ErrorKind::TakeWhile1            => "TakeWhile1",
            ErrorKind::Complete              => "Complete",
            ErrorKind::Fix                   => "Fix",
            ErrorKind::Escaped               => "Escaped",
            ErrorKind::EscapedTransform      => "EscapedTransform",
            ErrorKind::NonEmpty              => "NonEmpty",
            ErrorKind::ManyMN                => "Many(m, n)",
            ErrorKind::HexDigit              => "Hexadecimal Digit",
            ErrorKind::OctDigit              => "Octal digit",
            ErrorKind::BinDigit              => "Binary digit",
            ErrorKind::Not                   => "Negation",
            ErrorKind::Permutation           => "Permutation",
            ErrorKind::ManyTill              => "ManyTill",
            ErrorKind::Verify                => "predicate verification",
            ErrorKind::TakeTill1             => "TakeTill1",
            ErrorKind::TakeWhileMN           => "TakeWhileMN",
            ErrorKind::TooLarge              => "Needed data size is too large",
            ErrorKind::Many0Count            => "Count occurrence of >=0 patterns",
            ErrorKind::Many1Count            => "Count occurrence of >=1 patterns",
            ErrorKind::Float                 => "Float",
            ErrorKind::Satisfy               => "Satisfy",
            ErrorKind::Fail                  => "Fail",
            ErrorKind::Many                  => "Many",
            ErrorKind::Fold                  => "Fold",
            ErrorKind::Precedence            => "Precedence",
        }
    }
}

/// Converts an ErrorKind to a number.
pub fn error_to_u32(e: &ErrorKind) -> (r: u32)
    ensures
        r == e.spec_code(),
{
    match *e {
        ErrorKind::Tag                   => 1,
        ErrorKind::MapRes                => 2,
        ErrorKind::MapOpt                => 3,
        ErrorKind::Alt                   => 4,
        ErrorKind::IsNot                 => 5,
        ErrorKind::IsA                   => 6,
        ErrorKind::SeparatedList         => 7,
        ErrorKind::SeparatedNonEmptyList => 8,
        ErrorKind::Many1                 => 9,
        ErrorKind::Count                 => 10,
        ErrorKind::TakeUntil             => 12,
        ErrorKind::LengthValue           => 15,
        ErrorKind::TagClosure            => 16,
        ErrorKind::Alpha                 => 17,
        ErrorKind::Digit                 => 18,
        ErrorKind::AlphaNumeric          => 19,
        ErrorKind::Space                 => 20,
        ErrorKind::MultiSpace            => 21,
        ErrorKind::LengthValueFn         => 22,
        ErrorKind::Eof                   => 23,
        ErrorKind::Switch                => 27,
        ErrorKind::TagBits               => 28,
        ErrorKind::OneOf                 => 29,
        ErrorKind::NoneOf                => 30,
        ErrorKind::Char                  => 40,
        ErrorKind::CrLf                  => 41,
        ErrorKind::RegexpMatch           => 42,
        ErrorKind::RegexpMatches         => 43,
        ErrorKind::RegexpFind            => 44,
        ErrorKind::RegexpCapture         => 45,
        ErrorKind::RegexpCaptures        => 46,
        ErrorKind::TakeWhile1            => 47,
        ErrorKind::Complete              => 48,
        ErrorKind::Fix                   => 49,
        ErrorKind::Escaped               => 50,
        ErrorKind::EscapedTransform      => 51,
        ErrorKind::NonEmpty              => 56,
        ErrorKind::ManyMN                => 57,
        ErrorKind::HexDigit              => 59,
        ErrorKind::OctDigit              => 61,
        ErrorKind::Many0                 => 62,
        ErrorKind::Not                   => 63,
        ErrorKind::Permutation           => 64,
        ErrorKind::ManyTill              => 65,
        ErrorKind::Verify                => 66,
        ErrorKind::TakeTill1             => 67,
        ErrorKind::TakeWhileMN           => 69,
        ErrorKind::TooLarge              => 70,
        ErrorKind::Many0Count            => 71,
        ErrorKind::Many1Count            => 72,
        ErrorKind::Float                 => 73,
        ErrorKind::Satisfy               => 74,
        ErrorKind::Fail                  => 75,
        ErrorKind::Many                  => 76,
        ErrorKind::Fold                  => 77,
        ErrorKind::BinDigit              => 78,
        ErrorKind::Precedence            => 79,
    }
}

/// The kind that owns a code, if any: the inverse of `spec_code`.
pub open spec fn kind_of_code(c: u32) -> Option<ErrorKind> {
    match c {
        1 => Some(ErrorKind::Tag),
        2 => Some(ErrorKind::MapRes),
        3 => Some(ErrorKind::MapOpt),
        4 => Some(ErrorKind::Alt),
        5 => Some(ErrorKind::IsNot),
        6 => Some(ErrorKind::IsA),
        7 => Some(ErrorKind::SeparatedList),
        8 => Some(ErrorKind::SeparatedNonEmptyList),
        9 => Some(ErrorKind::Many1),
        10 => Some(ErrorKind::Count),
        12 => Some(ErrorKind::TakeUntil),
        15 => Some(ErrorKind::LengthValue),
        16 => Some(ErrorKind::TagClosure),
        17 => Some(ErrorKind::Alpha),
        18 => Some(ErrorKind::Digit),
        19 => Some(ErrorKind::AlphaNumeric),
        20 => Some(ErrorKind::Space),
        21 => Some(ErrorKind::MultiSpace),
        22 => Some(ErrorKind::LengthValueFn),
        23 => Some(ErrorKind::Eof),
        27 => Some(ErrorKind::Switch),
        28 => Some(ErrorKind::TagBits),
        29 => Some(ErrorKind::OneOf),
        30 => Some(ErrorKind::NoneOf),
        40 => Some(ErrorKind::Char),
        41 => Some(ErrorKind::CrLf),
        42 => Some(ErrorKind::RegexpMatch),
        43 => Some(ErrorKind::RegexpMatches),
        44 => Some(ErrorKind::RegexpFind),
        45 => Some(ErrorKind::RegexpCapture),
        46 => Some(ErrorKind::RegexpCaptures),
        47 => Some(ErrorKind::TakeWhile1),
        48 => Some(ErrorKind::Complete),
        49 => Some(ErrorKind::Fix),
        50 => Some(ErrorKind::Escaped),
        51 => Some(ErrorKind::EscapedTransform),
        56 => Some(ErrorKind::NonEmpty),
        57 => Some(ErrorKind::ManyMN),
        59 => Some(ErrorKind::HexDigit),
        61 => Some(ErrorKind::OctDigit),
        62 => Some(ErrorKind::Many0),
        63 => Some(ErrorKind::Not),
        64 => Some(ErrorKind::Permutation),
        65 => Some(ErrorKind::ManyTill),
        66 => Some(ErrorKind::Verify),
        67 => Some(ErrorKind::TakeTill1),
        69 => Some(ErrorKind::TakeWhileMN),
        70 => Some(ErrorKind::TooLarge),
        71 => Some(ErrorKind::Many0Count),
        72 => Some(ErrorKind::Many1Count),
        73 => Some(ErrorKind::Float),
        74 => Some(ErrorKind::Satisfy),
        75 => Some(ErrorKind::Fail),
        76 => Some(ErrorKind::Many),
        77 => Some(ErrorKind::Fold),
        78 => Some(ErrorKind::BinDigit),
        79 => Some(ErrorKind::Precedence),
        _ => None,
    }
}

/// Reading a code back gives the kind that it came from.
pub proof fn lemma_kind_of_code(k: ErrorKind)
    ensures
        kind_of_code(k.spec_code()) == Some(k),
{
}

/// No two kinds share a code: the code identifies the kind.
pub proof fn lemma_code_injective(k1: ErrorKind, k2: ErrorKind)
    requires
        k1.spec_code() == k2.spec_code(),
    ensures
        k1 == k2,
{
    lemma_kind_of_code(k1);
    lemma_kind_of_code(k2);
}

} // verus!
