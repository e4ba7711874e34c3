//! Why a message cannot be parsed.

use std::str::Utf8Error;
use vstd::prelude::*;
use vstd::string::to_string_from_display_ensures;

verus! {

/// The two kinds of error, named as in `std::io::ErrorKind`.
#[derive(Debug, Clone, Copy, PartialEq, Eq, Structural)]
pub enum ErrorKind {
    /// The input holds something that the protocol does not know.
    InvalidInput,
    /// The input ends within a message.
    UnexpectedEof,
}

/// Why bytes are not a message, or not text.
#[derive(Debug, PartialEq, Eq)]
pub enum ParseError {
    /// The input ends within a message.
    UnexpectedEof,
    /// A tag that starts no known message or no known column value.
    UnknownMessageTag(u8),
    /// A tag that stands for no replica identity setting.
    UnknownReplicaIdentityTag(u8),
    /// Another tag where the tag of a new tuple is due.
    UnexpectedTupleTag(u8),
    /// A tag that starts no tuple.
    UnknownTupleTag(u8),
    /// Bytes that are not UTF-8 where text is asked for.
    InvalidUtf8(Utf8Error),
}

/// The decimal digits of a number, without leading zeros.
pub open spec fn decimal(n: nat) -> Seq<char>
    decreases n,
{
    if n < 10 {
        seq![(48 + n) as char]
    } else {
        decimal(n / 10).push((48 + n % 10) as char)
    }
}

/// A text about a tag: the words, then the tag in decimal between backticks.
pub open spec fn about_tag(words: Seq<char>, tag: u8) -> Seq<char> {
    words + seq![' ', '`'] + decimal(tag as nat) + seq!['`']
}

impl ParseError {
    /// The kind that each error has.
    pub open spec fn kind_of(self) -> ErrorKind {
        if self is UnexpectedEof {
            ErrorKind::UnexpectedEof
        } else {
            ErrorKind::InvalidInput
        }
    }

    /// The kind of this error.
    pub fn kind(&self) -> (kind: ErrorKind)
        ensures
            kind == self.kind_of(),
    {
        match self {
            ParseError::UnexpectedEof => ErrorKind::UnexpectedEof,
            _ => ErrorKind::InvalidInput,
        }
    }

    /// Whether `text` is what this error says of itself. What is said of bytes
    /// that are not UTF-8 is the text of the decoder's own error.
    pub open spec fn reads(self, text: String) -> bool {
        match self {
            ParseError::UnexpectedEof => text@ == "unexpected EOF"@,
            ParseError::UnknownMessageTag(tag) => text@ == about_tag(
                "unknown replication message tag"@,
                tag,
            ),
            ParseError::UnknownReplicaIdentityTag(tag) => text@ == about_tag(
                "unknown replica identity tag"@,
                tag,
            ),
            ParseError::UnexpectedTupleTag(tag) => text@ == about_tag("unexpected tuple tag"@, tag),
            ParseError::UnknownTupleTag(tag) => text@ == about_tag("unknown tuple tag"@, tag),
            ParseError::InvalidUtf8(error) => to_string_from_display_ensures(&error, text),
        }
    }

    /// A sentence that tells what is wrong.
    pub fn message(&self) -> (text: String)
        ensures
            self.reads(text),
    {
        match self {
            ParseError::UnexpectedEof => String::from_str("unexpected EOF"),
            ParseError::UnknownMessageTag(tag) => write_about_tag(
                "unknown replication message tag",
                *tag,
            ),
            ParseError::UnknownReplicaIdentityTag(tag) => write_about_tag(
                "unknown replica identity tag",
                *tag,
            ),
            ParseError::UnexpectedTupleTag(tag) => write_about_tag("unexpected tuple tag", *tag),
            ParseError::UnknownTupleTag(tag) => write_about_tag("unknown tuple tag", *tag),
            ParseError::InvalidUtf8(error) => error.to_string(),
        }
    }
}

/// One decimal digit as text.
fn digit(n: u8) -> (text: &'static str)
    requires
        n < 10,
    ensures
        text@ == seq![(48 + n) as char],
{
    proof {
        reveal_strlit("0");
        reveal_strlit("1");
        reveal_strlit("2");
        reveal_strlit("3");
        reveal_strlit("4");
        reveal_strlit("5");
        reveal_strlit("6");
        reveal_strlit("7");
        reveal_strlit("8");
        reveal_strlit("9");
    }
    match n {
        0 => "0",
        1 => "1",
        2 => "2",
        3 => "3",
        4 => "4",
        5 => "5",
        6 => "6",
        7 => "7",
        8 => "8",
        _ => "9",
    }
}

fn write_about_tag(words: &str, tag: u8) -> (text: String)
    ensures
        text@ == about_tag(words@, tag),
{
    proof {
        reveal_strlit(" `");
        reveal_strlit("`");
        reveal_with_fuel(decimal, 3);
    }
    let mut text: String = String::from_str(words);
    text.append(" `");
    if tag >= 100 {
        text.append(digit(tag / 100));
    }
    if tag >= 10 {
        text.append(digit(tag / 10 % 10));
    }
    text.append(digit(tag % 10));
    text.append("`");
    text
}

/// Why a parser stops.
#[derive(Debug, PartialEq, Eq)]
pub enum Failure {
    /// The input is refused with an error.
    Rejected(ParseError),
    /// A list announces a negative number of entries. No room can be set aside
    /// for such a list, and the protocol gives it no meaning.
    NegativeCount,
}

impl Failure {
    /// The error with which the input is refused.
    pub(crate) fn into_error(self) -> (error: ParseError)
        requires
            self is Rejected,
        ensures
            self == Failure::Rejected(error),
    {
        match self {
            Failure::Rejected(error) => error,
            Failure::NegativeCount => vstd::pervasive::unreached(),
        }
    }
}

} // verus!
