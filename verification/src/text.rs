//! Text helpers: characters of strings, building strings, and the UTF-8
//! length of text.

use vstd::prelude::*;
use vstd::string::StringSliceAdditionalSpecFns;
use vstd::utf8::{encode_scalar, encode_utf8, valid_utf8};

verus! {

/// `String::push` appends the given character to the end of the string.
pub assume_specification[ String::push ](s: &mut String, ch: char)
    ensures
        final(s)@ == old(s)@.push(ch),
;

/// `String::pop` removes the last character and returns it, or returns
/// `None` and leaves the string as it is when it is empty.
pub assume_specification[ String::pop ](s: &mut String) -> (res: Option<char>)
    ensures
        old(s)@.len() == 0 ==> res is None && final(s)@ == old(s)@,
        old(s)@.len() > 0 ==> res == Some(old(s)@.last()) && final(s)@ == old(s)@.drop_last(),
;

/// `String::push_str` appends the given string slice to the end of the string.
pub assume_specification[ String::push_str ](s: &mut String, string: &str)
    ensures
        final(s)@ == old(s)@ + string@,
;

/// Reads bytes as a string slice with `std::str::from_utf8`, which accepts
/// exactly the valid UTF-8 encodings and keeps the bytes as they are.
#[verifier::external_body]
pub(crate) fn str_from_utf8(bytes: &[u8]) -> (res: Option<&str>)
    ensures
        res is Some <==> valid_utf8(bytes@),
        res matches Some(s) ==> s.spec_bytes() == bytes@,
{
    match std::str::from_utf8(bytes) {
        Ok(s) => Some(s),
        Err(_) => None,
    }
}

/// The characters of a string slice.
pub fn chars_of(s: &str) -> (res: Vec<char>)
    ensures
        res@ == s@,
{
    let mut out: Vec<char> = Vec::new();
    for c in it: s.chars()
        invariant
            it.seq() == s@,
            out@ == s@.take(it.index() as int),
    {
        out.push(c);
        proof {
            assert(s@.take(it.index() + 1) =~= out@);
        }
    }
    assert(out@ =~= s@);
    out
}

/// A string holding the given characters.
pub fn string_from_chars(cs: &[char]) -> (res: String)
    ensures
        res@ == cs@,
{
    let mut out = String::new();
    let mut i: usize = 0;
    while i < cs.len()
        invariant
            i <= cs@.len(),
            out@ == cs@.take(i as int),
        decreases cs@.len() - i,
    {
        out.push(cs[i]);
        i = i + 1;
        proof {
            assert(out@ =~= cs@.take(i as int));
        }
    }
    proof {
        assert(cs@.take(i as int) =~= cs@);
    }
    out
}

/// Number of bytes in the UTF-8 encoding of `c`.
pub open spec fn utf8_width(c: char) -> nat {
    let v = c as u32;
    if v <= 0x7f {
        1
    } else if v <= 0x7ff {
        2
    } else if v <= 0xffff {
        3
    } else {
        4
    }
}

/// Number of bytes in the UTF-8 encoding of `s`.
pub open spec fn utf8_len(s: Seq<char>) -> nat
    decreases s.len(),
{
    if s.len() == 0 {
        0
    } else {
        utf8_len(s.drop_last()) + utf8_width(s.last())
    }
}

/// The UTF-8 width of one character.
pub fn char_width(c: char) -> (res: usize)
    ensures
        res == utf8_width(c),
{
    let v = c as u32;
    if v <= 0x7f {
        1
    } else if v <= 0x7ff {
        2
    } else if v <= 0xffff {
        3
    } else {
        4
    }
}

/// The UTF-8 length grows with the text.
pub proof fn lemma_utf8_len_bounds(s: Seq<char>)
    ensures
        s.len() <= utf8_len(s) <= 4 * s.len(),
    decreases s.len(),
{
    if s.len() > 0 {
        lemma_utf8_len_bounds(s.drop_last());
    }
}

/// The UTF-8 length of a prefix, one character longer.
pub proof fn lemma_utf8_len_take(s: Seq<char>, i: int)
    requires
        0 <= i < s.len(),
    ensures
        utf8_len(s.take(i + 1)) == utf8_len(s.take(i)) + utf8_width(s[i]),
{
    assert(s.take(i + 1).drop_last() =~= s.take(i));
}

/// The UTF-8 length of the characters of `cs`, which must fit in `usize`.
pub fn utf8_len_of(cs: &[char]) -> (res: usize)
    requires
        utf8_len(cs@) <= usize::MAX,
    ensures
        res == utf8_len(cs@),
{
    let mut total: usize = 0;
    let mut i: usize = 0;
    proof {
        assert(cs@.take(0) =~= Seq::<char>::empty());
    }
    while i < cs.len()
        invariant
            i <= cs@.len(),
            total == utf8_len(cs@.take(i as int)),
            utf8_len(cs@) <= usize::MAX,
        decreases cs@.len() - i,
    {
        proof {
            lemma_utf8_len_take(cs@, i as int);
            lemma_utf8_len_prefix_le(cs@, i + 1);
        }
        total = total + char_width(cs[i]);
        i = i + 1;
    }
    proof {
        assert(cs@.take(i as int) =~= cs@);
    }
    total
}

/// The UTF-8 length, counted from the front.
pub proof fn lemma_utf8_len_front(s: Seq<char>)
    requires
        s.len() > 0,
    ensures
        utf8_len(s) == utf8_width(s[0]) + utf8_len(s.drop_first()),
    decreases s.len(),
{
    if s.len() > 1 {
        lemma_utf8_len_front(s.drop_last());
        assert(s.drop_last().drop_first() =~= s.drop_first().drop_last());
    } else {
        assert(s.drop_first() =~= Seq::<char>::empty());
        assert(s.drop_last() =~= Seq::<char>::empty());
    }
}

/// `utf8_len` is the length of the UTF-8 encoding.
pub proof fn lemma_utf8_len_encode(s: Seq<char>)
    ensures
        utf8_len(s) == encode_utf8(s).len(),
    decreases s.len(),
{
    if s.len() > 0 {
        lemma_utf8_len_front(s);
        lemma_utf8_len_encode(s.drop_first());
        vstd::utf8::char_is_scalar(s[0]);
        assert(encode_scalar(s[0] as u32).len() == utf8_width(s[0]));
    }
}

/// The UTF-8 length of a string slice fits in a `usize`.
pub fn str_utf8_len(s: &str) -> (res: usize)
    ensures
        res == utf8_len(s@),
{
    let b = s.as_bytes();
    proof {
        lemma_utf8_len_encode(s@);
    }
    b.len()
}

/// A prefix is no longer in UTF-8 than the whole text.
pub proof fn lemma_utf8_len_prefix_le(s: Seq<char>, i: int)
    requires
        0 <= i <= s.len(),
    ensures
        utf8_len(s.take(i)) <= utf8_len(s),
    decreases s.len() - i,
{
    if i < s.len() {
        lemma_utf8_len_take(s, i);
        lemma_utf8_len_prefix_le(s, i + 1);
    } else {
        assert(s.take(i) =~= s);
    }
}

/// The pieces of `s` between occurrences of `sep`, as `str::split` gives
/// them: there is always at least one piece, and a separator at either end
/// gives an empty piece there.
pub open spec fn split_on(s: Seq<char>, sep: char) -> Seq<Seq<char>>
    decreases s.len(),
{
    if s.len() == 0 {
        seq![Seq::<char>::empty()]
    } else {
        let init = split_on(s.drop_last(), sep);
        if s.last() == sep {
            init.push(Seq::<char>::empty())
        } else {
            init.update(init.len() - 1, init.last().push(s.last()))
        }
    }
}

/// Splitting always gives at least one piece.
pub proof fn lemma_split_on_nonempty(s: Seq<char>, sep: char)
    ensures
        split_on(s, sep).len() >= 1,
    decreases s.len(),
{
    if s.len() > 0 {
        lemma_split_on_nonempty(s.drop_last(), sep);
    }
}

/// Splitting one character further.
pub proof fn lemma_split_on_step(s: Seq<char>, i: int, sep: char)
    requires
        0 <= i < s.len(),
    ensures
        split_on(s.take(i + 1), sep) == ({
            let init = split_on(s.take(i), sep);
            if s[i] == sep {
                init.push(Seq::<char>::empty())
            } else {
                init.update(init.len() - 1, init.last().push(s[i]))
            }
        }),
{
    assert(s.take(i + 1).drop_last() =~= s.take(i));
}

/// The contents of each piece.
pub open spec fn char_views(v: Seq<Vec<char>>) -> Seq<Seq<char>> {
    v.map_values(|p: Vec<char>| p@)
}

/// Splits the characters of `s` on `sep`, as `str::split` does.
pub fn split_chars(s: &str, sep: char) -> (res: Vec<Vec<char>>)
    ensures
        char_views(res@) == split_on(s@, sep),
        res@.len() >= 1,
{
    let cs = chars_of(s);
    let mut done: Vec<Vec<char>> = Vec::new();
    let mut cur: Vec<char> = Vec::new();
    let mut i: usize = 0;
    proof {
        assert(cs@.take(0) =~= Seq::<char>::empty());
        assert(char_views(done@).push(cur@) =~= split_on(cs@.take(0), sep));
    }
    while i < cs.len()
        invariant
            i <= cs@.len(),
            char_views(done@).push(cur@) == split_on(cs@.take(i as int), sep),
        decreases cs@.len() - i,
    {
        proof {
            lemma_split_on_step(cs@, i as int, sep);
        }
        let ghost prev_done = char_views(done@);
        if cs[i] == sep {
            let piece = cur;
            cur = Vec::new();
            done.push(piece);
            proof {
                assert(char_views(done@) =~= prev_done.push(piece@));
                assert(char_views(done@).push(cur@) =~= prev_done.push(piece@).push(
                    Seq::<char>::empty(),
                ));
            }
        } else {
            let ghost before = cur@;
            cur.push(cs[i]);
            proof {
                assert(char_views(done@).push(cur@) =~= prev_done.push(before).update(
                    prev_done.len() as int,
                    before.push(cs@[i as int]),
                ));
            }
        }
        i = i + 1;
    }
    proof {
        assert(cs@.take(i as int) =~= s@);
    }
    let ghost prev_done = char_views(done@);
    done.push(cur);
    proof {
        assert(char_views(done@) =~= prev_done.push(cur@));
    }
    done
}

/// Lexicographic order of character sequences, characters compared by
/// scalar value (as `str` orders them); a proper prefix comes first.
pub open spec fn chars_lt(a: Seq<char>, b: Seq<char>) -> bool
    decreases a.len(),
{
    if a.len() == 0 {
        b.len() > 0
    } else if b.len() == 0 {
        false
    } else if a[0] != b[0] {
        a[0] < b[0]
    } else {
        chars_lt(a.drop_first(), b.drop_first())
    }
}

/// The order is transitive.
pub proof fn lemma_chars_lt_transitive(a: Seq<char>, b: Seq<char>, c: Seq<char>)
    requires
        chars_lt(a, b),
        chars_lt(b, c),
    ensures
        chars_lt(a, c),
    decreases a.len(),
{
    if a.len() > 0 && b.len() > 0 && c.len() > 0 && a[0] == b[0] && b[0] == c[0] {
        lemma_chars_lt_transitive(a.drop_first(), b.drop_first(), c.drop_first());
    }
}

/// Of two different sequences, one comes first.
pub proof fn lemma_chars_lt_total(a: Seq<char>, b: Seq<char>)
    requires
        a != b,
    ensures
        chars_lt(a, b) || chars_lt(b, a),
    decreases a.len(),
{
    if a.len() == 0 && b.len() == 0 {
        assert(a =~= b);
    } else if a.len() > 0 && b.len() > 0 && a[0] == b[0] {
        if a.drop_first() == b.drop_first() {
            assert(a =~= seq![a[0]] + a.drop_first());
            assert(b =~= seq![b[0]] + b.drop_first());
        }
        lemma_chars_lt_total(a.drop_first(), b.drop_first());
    }
}

/// Compares two strings in the lexicographic order of their characters.
pub fn str_lt(a: &str, b: &str) -> (res: bool)
    ensures
        res == chars_lt(a@, b@),
{
    let x = chars_of(a);
    let y = chars_of(b);
    let mut i: usize = 0;
    assert(a@.skip(0) =~= a@);
    assert(b@.skip(0) =~= b@);
    while i < x.len() && i < y.len()
        invariant
            i <= x@.len(),
            i <= y@.len(),
            x@ == a@,
            y@ == b@,
            chars_lt(a@, b@) == chars_lt(a@.skip(i as int), b@.skip(i as int)),
        decreases x@.len() - i,
    {
        if x[i] != y[i] {
            return x[i] < y[i];
        }
        proof {
            assert(a@.skip(i as int).drop_first() =~= a@.skip(i + 1));
            assert(b@.skip(i as int).drop_first() =~= b@.skip(i + 1));
        }
        i = i + 1;
    }
    i < y.len()
}

/// The two characters `..`.
pub open spec fn dot_dot() -> Seq<char> {
    seq!['.', '.']
}

/// Whether the characters of `cs` are exactly `..`.
pub fn is_dot_dot(cs: &Vec<char>) -> (res: bool)
    ensures
        res == (cs@ == dot_dot()),
{
    let r = cs.len() == 2 && cs[0] == '.' && cs[1] == '.';
    proof {
        if r {
            assert(cs@ =~= dot_dot());
        }
    }
    r
}

} // verus!
