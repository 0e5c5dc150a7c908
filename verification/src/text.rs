//! Small string operations the generator is built from.

use vstd::prelude::*;

verus! {

/// Whether two strings hold the same characters.
pub fn str_eq(a: &str, b: &str) -> (r: bool)
    ensures
        r == (a@ == b@),
{
    let x = a.to_owned();
    let y = b.to_owned();
    x == y
}

/// Append `s` to `out`.
pub fn push(out: &mut String, s: &str)
    ensures
        final(out)@ == old(out)@ + s@,
{
    out.append(s);
}

/// A character as it is written inside a string literal: `"` and `\` are
/// escaped with a backslash, every other character stands for itself.
pub open spec fn escape_char(c: char) -> Seq<char> {
    if c == '"' {
        seq!['\\', '"']
    } else if c == '\\' {
        seq!['\\', '\\']
    } else {
        seq![c]
    }
}

/// The characters of `s` as written inside a string literal.
pub open spec fn escaped(s: Seq<char>) -> Seq<char>
    decreases s.len(),
{
    if s.len() == 0 {
        Seq::empty()
    } else {
        escaped(s.drop_last()) + escape_char(s.last())
    }
}

/// The string literal that denotes `s`.
pub open spec fn str_literal(s: Seq<char>) -> Seq<char> {
    seq!['"'] + escaped(s) + seq!['"']
}

/// The characters a string literal's body denotes: a backslash stands for
/// the character after it.
pub open spec fn unescaped(s: Seq<char>) -> Seq<char>
    decreases s.len(),
{
    if s.len() == 0 {
        Seq::empty()
    } else if s[0] == '\\' && s.len() >= 2 {
        seq![s[1]] + unescaped(s.subrange(2, s.len() as int))
    } else {
        seq![s[0]] + unescaped(s.subrange(1, s.len() as int))
    }
}

/// Escaping the characters one at a time from the front.
proof fn lemma_escaped_front(c: char, t: Seq<char>)
    ensures
        escaped(seq![c] + t) == escape_char(c) + escaped(t),
    decreases t.len(),
{
    if t.len() == 0 {
        let one = seq![c] + t;
        assert(one =~= seq![c]);
        assert(one.drop_last() =~= Seq::<char>::empty());
        assert(one.last() == c);
        assert(escaped(one.drop_last()) == Seq::<char>::empty());
        assert(escaped(t) == Seq::<char>::empty());
        assert(escaped(one) =~= escape_char(c) + escaped(t));
    } else {
        lemma_escaped_front(c, t.drop_last());
        assert((seq![c] + t).drop_last() =~= seq![c] + t.drop_last());
        assert(escaped(seq![c] + t) =~= escape_char(c) + escaped(t));
    }
}

/// Reading back an escaped string gives the string: the literal written for
/// a doc line or a panic message denotes exactly that text.
pub proof fn lemma_escape_roundtrip(s: Seq<char>)
    ensures
        unescaped(escaped(s)) == s,
    decreases s.len(),
{
    if s.len() > 0 {
        let c = s[0];
        let t = s.subrange(1, s.len() as int);
        assert(s =~= seq![c] + t);
        lemma_escaped_front(c, t);
        lemma_escape_roundtrip(t);
        let e = escape_char(c) + escaped(t);
        if c == '"' || c == '\\' {
            assert(e.subrange(2, e.len() as int) =~= escaped(t));
        } else {
            assert(e.subrange(1, e.len() as int) =~= escaped(t));
        }
    }
}

/// Write `s` as a string literal.
pub fn literal(s: &str) -> (r: String)
    ensures
        r@ == str_literal(s@),
{
    proof {
        reveal_strlit("\"");
        reveal_strlit("\\\"");
        reveal_strlit("\\\\");
    }
    let mut out = "\"".to_owned();
    let n = s.unicode_len();
    let mut i: usize = 0;
    while i < n
        invariant
            i <= n,
            n == s@.len(),
            out@ == seq!['"'] + escaped(s@.subrange(0, i as int)),
        decreases n - i,
    {
        let c = s.get_char(i);
        assert(s@.subrange(0, i + 1).drop_last() =~= s@.subrange(0, i as int));
        if c == '"' {
            push(&mut out, "\\\"");
        } else if c == '\\' {
            push(&mut out, "\\\\");
        } else {
            let one = s.substring_char(i, i + 1);
            assert(one@ =~= seq![c]);
            push(&mut out, one);
        }
        assert(out@ =~= seq!['"'] + escaped(s@.subrange(0, i + 1)));
        i += 1;
    }
    assert(s@.subrange(0, n as int) =~= s@);
    push(&mut out, "\"");
    out
}

} // verus!
