//! Removing spaces from text, without a copy where there is none to remove.

use vstd::prelude::*;
use crate::cow::CowValue;

verus! {

/// `String::push` of the standard library: the string afterwards is the
/// string before with `ch` added at its end. Not proved here.
pub assume_specification[ String::push ](text: &mut String, ch: char)
    ensures
        final(text)@ == old(text)@.push(ch),
;

/// The characters of `text` that are not a space, in their order.
pub open spec fn without_spaces(text: Seq<char>) -> Seq<char> {
    text.filter(|c: char| c != ' ')
}

/// Removing spaces goes character by character: a space at the end is
/// dropped, any other character stays at the end.
pub proof fn lemma_without_spaces_push(text: Seq<char>, c: char)
    ensures
        without_spaces(text.push(c)) == if c == ' ' {
            without_spaces(text)
        } else {
            without_spaces(text).push(c)
        },
{
    reveal(Seq::filter);
    assert(text.push(c).drop_last() =~= text);
}

/// Text without a space is left as it is.
pub proof fn lemma_without_spaces_unchanged(text: Seq<char>)
    requires
        !text.contains(' '),
    ensures
        without_spaces(text) == text,
    decreases text.len(),
{
    if text.len() == 0 {
        reveal(Seq::filter);
    } else {
        let front = text.drop_last();
        assert(!front.contains(' ')) by {
            if front.contains(' ') {
                let i = choose|i: int| 0 <= i < front.len() && front[i] == ' ';
                assert(text[i] == ' ');
            }
        }
        lemma_without_spaces_unchanged(front);
        assert(text.last() != ' ') by {
            assert(text[text.len() - 1] == text.last());
        }
        assert(front.push(text.last()) =~= text);
        lemma_without_spaces_push(front, text.last());
    }
}

/// No space is left once the spaces have been removed.
pub proof fn lemma_without_spaces_has_none(text: Seq<char>)
    ensures
        !without_spaces(text).contains(' '),
{
    let kept = |c: char| c != ' ';
    if without_spaces(text).contains(' ') {
        let i = choose|i: int| 0 <= i < without_spaces(text).len() && without_spaces(text)[i] == ' ';
        text.lemma_filter_pred(kept, i);
    }
}

/// Whether `s` holds a space.
fn has_space(s: &str) -> (found: bool)
    ensures
        found == s@.contains(' '),
{
    for c in it: s.chars()
        invariant
            it.seq() == s@,
            forall|i: int| 0 <= i < it.index() ==> s@[i] != ' ',
    {
        if c == ' ' {
            return true;
        }
    }
    false
}

/// A new string with the characters of `s` that are not a space.
fn strip_spaces(s: &str) -> (stripped: String)
    ensures
        stripped@ == without_spaces(s@),
{
    let mut stripped = String::new();
    proof {
        reveal(Seq::filter);
        assert(s@.take(0) =~= Seq::<char>::empty());
    }
    for c in it: s.chars()
        invariant
            it.seq() == s@,
            stripped@ == without_spaces(s@.take(it.index())),
    {
        proof {
            let seen = s@.take(it.index());
            assert(s@.take(it.index() + 1) =~= seen.push(c));
            lemma_without_spaces_push(seen, c);
        }
        if c != ' ' {
            stripped.push(c);
        }
    }
    assert(s@.take(s@.len() as int) =~= s@);
    stripped
}

/// The text of `s` with every space removed.
///
/// Where `s` holds no space the result borrows `s` itself and nothing is
/// copied; where it holds one, the result owns a newly built string.
pub fn remove_whitespaces<'a>(s: &'a str) -> (text: CowValue<'a, str>)
    ensures
        text@ == without_spaces(s@),
        s@.contains(' ') ==> text is Owned,
        !s@.contains(' ') ==> text == CowValue::<'a, str>::Borrowed(s),
{
    if has_space(s) {
        CowValue::Owned(strip_spaces(s))
    } else {
        proof {
            lemma_without_spaces_unchanged(s@);
        }
        CowValue::Borrowed(s)
    }
}

} // verus!
