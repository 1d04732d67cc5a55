//! Texts that are compared with `like` or `ilike`.
//!
//! In a pattern `%` and `_` stand for other characters, and a backslash takes
//! that meaning away from the character after it. A text that is to be found
//! as it is written has each of the three written after a backslash.

use vstd::prelude::*;

verus! {

/// Whether `c` means something else than itself in a pattern.
pub open spec fn is_pattern_char(c: char) -> bool {
    c == '\\' || c == '%' || c == '_'
}

/// One character as a pattern that stands for that character alone.
pub open spec fn escaped_char(c: char) -> Seq<char> {
    if is_pattern_char(c) {
        seq!['\\', c]
    } else {
        seq![c]
    }
}

/// `s` as a pattern that stands for `s` alone: every backslash, `%` and `_`
/// after a backslash, every other character as it is.
pub open spec fn like_escaped(s: Seq<char>) -> Seq<char>
    decreases s.len(),
{
    if s.len() == 0 {
        Seq::empty()
    } else {
        escaped_char(s[0]) + like_escaped(s.drop_first())
    }
}

/// The one text that the pattern `p` stands for, where it stands for one
/// only: none where a `%` or `_` is left with its meaning, or where a
/// backslash ends the pattern.
pub open spec fn literal_of(p: Seq<char>) -> Option<Seq<char>>
    decreases p.len(),
{
    if p.len() == 0 {
        Some(Seq::empty())
    } else if p[0] == '\\' {
        if p.len() >= 2 {
            match literal_of(p.skip(2)) {
                Some(rest) => Some(seq![p[1]] + rest),
                None => None,
            }
        } else {
            None
        }
    } else if p[0] == '%' || p[0] == '_' {
        None
    } else {
        match literal_of(p.drop_first()) {
            Some(rest) => Some(seq![p[0]] + rest),
            None => None,
        }
    }
}

/// An escaped text is found as it is written: as a pattern it stands for that
/// text and no other, whatever characters the text holds.
pub proof fn lemma_escaped_is_literal(s: Seq<char>)
    ensures
        literal_of(like_escaped(s)) == Some(s),
    decreases s.len(),
{
    if s.len() == 0 {
    } else {
        let rest = s.drop_first();
        lemma_escaped_is_literal(rest);
        let p = like_escaped(s);
        if is_pattern_char(s[0]) {
            assert(p.skip(2) =~= like_escaped(rest));
        } else {
            assert(p.drop_first() =~= like_escaped(rest));
        }
        assert(seq![s[0]] + rest =~= s);
    }
}

/// The empty text stays empty, so that a filter that is not given holds for
/// every text.
pub proof fn lemma_escaped_empty()
    ensures
        like_escaped(Seq::empty()) == Seq::<char>::empty(),
{
}

proof fn lemma_escaped_push(s: Seq<char>, c: char)
    ensures
        like_escaped(s.push(c)) == like_escaped(s) + escaped_char(c),
    decreases s.len(),
{
    if s.len() == 0 {
        let one = s.push(c);
        assert(one[0] == c);
        assert(one.drop_first().len() == 0);
        assert(like_escaped(one.drop_first()) =~= Seq::<char>::empty());
        assert(like_escaped(s) =~= Seq::<char>::empty());
        assert(like_escaped(one) =~= escaped_char(c) + like_escaped(one.drop_first()));
        assert(like_escaped(one) =~= like_escaped(s) + escaped_char(c));
    } else {
        lemma_escaped_push(s.drop_first(), c);
        assert(s.push(c).drop_first() =~= s.drop_first().push(c));
        assert(like_escaped(s.push(c)) =~= like_escaped(s) + escaped_char(c));
    }
}

/// Writes `text` as the pattern that stands for `text` alone.
pub fn like_escape(text: &str) -> (escaped: String)
    ensures
        escaped@ == like_escaped(text@),
{
    let length: usize = text.unicode_len();
    let mut escaped = String::new();
    let mut index: usize = 0;
    while index < length
        invariant
            index <= length,
            length == text@.len(),
            escaped@ == like_escaped(text@.take(index as int)),
        decreases length - index,
    {
        let c = text.get_char(index);
        proof {
            lemma_escaped_push(text@.take(index as int), c);
            assert(text@.take(index as int).push(c) =~= text@.take(index + 1));
            assert(text@.subrange(index as int, index + 1) =~= seq![c]);
            reveal_strlit("\\");
        }
        if c == '\\' || c == '%' || c == '_' {
            escaped.append("\\");
        }
        escaped.append(text.substring_char(index, index + 1));
        assert(escaped@ =~= like_escaped(text@.take(index as int)) + escaped_char(c));
        index = index + 1;
    }
    assert(text@.take(length as int) =~= text@);
    escaped
}

} // verus!
