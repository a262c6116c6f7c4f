//! Command-line forms of the client and server options.

use vstd::prelude::*;

use crate::text::chars_of;

verus! {

/// Whether a character has the Unicode `Uppercase` property.
pub uninterp spec fn is_uppercase_char(c: char) -> bool;

/// Tests a character with `char::is_uppercase`, whose answer is the
/// character's Unicode `Uppercase` property, named here.
#[verifier::external_body]
fn char_is_uppercase(c: char) -> (res: bool)
    ensures
        res == is_uppercase_char(c),
{
    c.is_uppercase()
}

/// The ASCII lower-case form of a character; other characters stay.
pub open spec fn ascii_lower(c: char) -> char {
    if 'A' <= c <= 'Z' {
        ((c as u32) + 32) as char
    } else {
        c
    }
}

/// Lower-cases an ASCII upper-case letter, leaving other characters as
/// they are.
pub fn to_ascii_lower(c: char) -> (res: char)
    ensures
        res == ascii_lower(c),
{
    if 'A' <= c && c <= 'Z' {
        let v = (c as u32) + 32;
        let b = v as u8;
        assert(b as u32 == v);
        b as char
    } else {
        c
    }
}

/// What one character of a camel-case name becomes: an upper-case one is
/// lower-cased and, but for the first, preceded by `-`.
pub open spec fn snake_piece(c: char, first: bool, upper: bool) -> Seq<char> {
    if upper {
        if first {
            seq![ascii_lower(c)]
        } else {
            seq!['-', ascii_lower(c)]
        }
    } else {
        seq![c]
    }
}

/// The hyphenated lower-case form of a camel-case name.
pub open spec fn snake_case(s: Seq<char>) -> Seq<char>
    decreases s.len(),
{
    if s.len() == 0 {
        Seq::empty()
    } else {
        snake_case(s.drop_last()) + snake_piece(s.last(), s.len() == 1, is_uppercase_char(s.last()))
    }
}

/// Appends what the character `c` becomes, given whether it is the first
/// character and whether it is upper-case.
pub fn push_snake_piece(out: &mut String, c: char, first: bool, upper: bool)
    ensures
        final(out)@ == old(out)@ + snake_piece(c, first, upper),
{
    if upper {
        if !first {
            out.push('-');
        }
        out.push(to_ascii_lower(c));
    } else {
        out.push(c);
    }
    assert(out@ =~= old(out)@ + snake_piece(c, first, upper));
}

/// Converts a camel-case name into its hyphenated lower-case form
/// (`AtMostOnce` becomes `at-most-once`).
pub fn camel_to_snake_case(s: &str) -> (res: String)
    ensures
        res@ == snake_case(s@),
{
    let cs = chars_of(s);
    let mut result = String::new();
    let mut i: usize = 0;
    proof {
        assert(cs@.take(0) =~= Seq::<char>::empty());
    }
    while i < cs.len()
        invariant
            i <= cs@.len(),
            result@ == snake_case(cs@.take(i as int)),
        decreases cs@.len() - i,
    {
        let c = cs[i];
        let upper = char_is_uppercase(c);
        push_snake_piece(&mut result, c, i == 0, upper);
        proof {
            assert(cs@.take(i + 1).drop_last() =~= cs@.take(i as int));
        }
        i = i + 1;
    }
    proof {
        assert(cs@.take(i as int) =~= s@);
    }
    result
}

/// Invocation semantics (transmission protocol) to use.
#[derive(Clone, Copy, Debug, PartialEq, Eq, Structural)]
pub enum InvocationSemantics {
    /// A request is sent only once, and the receipt is not guaranteed.
    Maybe,
    /// A request is sent until a response is received.
    AtLeastOnce,
    /// Duplicate requests will be processed at most once.
    AtMostOnce,
}

impl InvocationSemantics {
    /// The command-line name of the semantics: the hyphenated lower-case
    /// form of the variant's name.
    pub fn name(&self) -> (res: String)
        ensures
            *self is Maybe ==> res@ == "maybe"@,
            *self is AtLeastOnce ==> res@ == "at-least-once"@,
            *self is AtMostOnce ==> res@ == "at-most-once"@,
    {
        match self {
            InvocationSemantics::Maybe => "maybe".to_owned(),
            InvocationSemantics::AtLeastOnce => "at-least-once".to_owned(),
            InvocationSemantics::AtMostOnce => "at-most-once".to_owned(),
        }
    }

    /// Whether duplicate requests are filtered by the server.
    pub fn filters_duplicates(&self) -> (res: bool)
        ensures
            res == (*self is AtMostOnce),
    {
        matches!(self, InvocationSemantics::AtMostOnce)
    }
}

} // verus!
