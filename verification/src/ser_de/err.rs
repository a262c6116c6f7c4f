//! Error type of the serialization format.

use vstd::prelude::*;

verus! {

/// Errors raised while serializing or deserializing.
#[derive(Debug, Clone)]
pub enum Error {
    /// Expected enclosing delimiters are not found.
    DelimiterNotFound(u8),
    /// Type descriptor prefix does not match expected type
    PrefixNotMatched(u8),
    /// A byte that the format does not allow at this position.
    UnexpectedData { exp: String, have: u8 },
    /// Something's wrong with the data
    MalformedData,
    /// The deserializer does not have sufficient bytes to continue the operation.
    OutOfBytes,
    /// A custom error
    Custom(String),
}

/// The binary digits of `n`, most significant first (`0` for zero).
pub open spec fn binary_digits(n: nat) -> Seq<char>
    decreases n,
{
    if n < 2 {
        seq![if n == 0 {
            '0'
        } else {
            '1'
        }]
    } else {
        binary_digits(n / 2).push(
            if n % 2 == 0 {
                '0'
            } else {
                '1'
            },
        )
    }
}

/// The message of an error.
pub open spec fn error_message(e: Error) -> Seq<char> {
    match e {
        Error::DelimiterNotFound(d) => "Expected delimiter '"@ + seq![d as char] + "' not found"@,
        Error::PrefixNotMatched(p) => "Expected prefix '"@ + seq![p as char] + "' not found"@,
        Error::UnexpectedData { exp, have } => "Unexpected data. Expected "@ + exp@ + ", have "@
            + binary_digits(have as nat),
        Error::OutOfBytes => "Out of bytes to deserialize"@,
        Error::MalformedData => "Malformed data"@,
        Error::Custom(c) => "Error: "@ + c@,
    }
}

/// Appends the binary digits of `n` to `out`.
fn push_binary(out: &mut String, n: u8)
    ensures
        final(out)@ == old(out)@ + binary_digits(n as nat),
    decreases n,
{
    if n < 2 {
        out.push(
            if n == 0 {
                '0'
            } else {
                '1'
            },
        );
    } else {
        let ghost before = out@;
        push_binary(out, n / 2);
        let c = if n % 2 == 0 {
            '0'
        } else {
            '1'
        };
        out.push(c);
        assert(out@ =~= before + binary_digits(n as nat));
    }
}

impl Error {
    /// A message that describes the error.
    pub fn message(&self) -> (res: String)
        ensures
            res@ == error_message(*self),
    {
        let mut out = String::new();
        match self {
            Error::DelimiterNotFound(d) => {
                out.push_str("Expected delimiter '");
                out.push(*d as char);
                out.push_str("' not found");
            },
            Error::PrefixNotMatched(p) => {
                out.push_str("Expected prefix '");
                out.push(*p as char);
                out.push_str("' not found");
            },
            Error::UnexpectedData { exp, have } => {
                out.push_str("Unexpected data. Expected ");
                out.push_str(exp.as_str());
                out.push_str(", have ");
                push_binary(&mut out, *have);
            },
            Error::OutOfBytes => {
                out.push_str("Out of bytes to deserialize");
            },
            Error::MalformedData => {
                out.push_str("Malformed data");
            },
            Error::Custom(c) => {
                out.push_str("Error: ");
                out.push_str(c.as_str());
            },
        }
        out
    }
}

} // verus!
