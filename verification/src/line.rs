//! An input line as the shell reads it: words with blanks between them.

use vstd::prelude::*;
use vstd::string::*;

verus! {

/// The characters that part the words of a line: the space, the tab, the
/// line feed, the form feed and the carriage return.
pub open spec fn is_blank(c: char) -> bool {
    c == ' ' || c == '\t' || c == '\n' || c == '\x0C' || c == '\r'
}

/// How many characters stand at the front of `s` before its first blank.
pub open spec fn word_len(s: Seq<char>) -> nat
    decreases s.len(),
{
    if s.len() == 0 || is_blank(s[0]) {
        0
    } else {
        1 + word_len(s.drop_first())
    }
}

/// The words of a line, in their order: the longest runs of characters
/// that hold no blank.
pub open spec fn words(s: Seq<char>) -> Seq<Seq<char>>
    decreases s.len(),
{
    if s.len() == 0 {
        Seq::empty()
    } else if is_blank(s[0]) {
        words(s.drop_first())
    } else {
        proof {
            lemma_word_len_bounds(s);
        }
        seq![s.take(word_len(s) as int)] + words(s.skip(word_len(s) as int))
    }
}

/// The word at the front of `s` is no longer than `s`, and it is not empty
/// where `s` starts with something else than a blank.
pub proof fn lemma_word_len_bounds(s: Seq<char>)
    ensures
        word_len(s) <= s.len(),
        s.len() > 0 && !is_blank(s[0]) ==> word_len(s) >= 1,
    decreases s.len(),
{
    if s.len() > 0 && !is_blank(s[0]) {
        lemma_word_len_bounds(s.drop_first());
    }
}

/// The word at the front of `s` ends at `end` where no blank stands before
/// `end` and `end` is the place of a blank or the end of `s`.
pub proof fn lemma_word_len_is(s: Seq<char>, end: int)
    requires
        0 <= end <= s.len(),
        forall|k: int| 0 <= k < end ==> !is_blank(#[trigger] s[k]),
        end == s.len() || is_blank(s[end]),
    ensures
        word_len(s) == end,
    decreases s.len(),
{
    if end > 0 {
        let rest = s.drop_first();
        assert forall|k: int| 0 <= k < end - 1 implies !is_blank(#[trigger] rest[k]) by {
            assert(rest[k] == s[k + 1]);
        }
        if end < s.len() {
            assert(rest[end - 1] == s[end]);
        }
        lemma_word_len_is(rest, end - 1);
    }
}

/// Whether `c` parts words.
pub fn blank(c: char) -> (r: bool)
    ensures
        r == is_blank(c),
{
    c == ' ' || c == '\t' || c == '\n' || c == '\x0C' || c == '\r'
}

/// The words of `line`.
pub fn split_line(line: &str) -> (found: Vec<String>)
    ensures
        found.deep_view() == words(line@),
{
    let n: usize = line.unicode_len();
    let mut found: Vec<String> = Vec::new();
    let mut i: usize = 0;
    assert(line@.skip(0) =~= line@);
    assert(found.deep_view() + words(line@.skip(0)) =~= words(line@));
    while i < n
        invariant
            i <= n,
            n == line@.len(),
            found.deep_view() + words(line@.skip(i as int)) == words(line@),
        decreases n - i,
    {
        let ghost tail = line@.skip(i as int);
        assert(tail[0] == line@[i as int]);
        if blank(line.get_char(i)) {
            assert(tail.drop_first() =~= line@.skip(i + 1));
            i += 1;
        } else {
            let start: usize = i;
            let mut end: usize = i + 1;
            while end < n && !blank(line.get_char(end))
                invariant
                    start < end <= n,
                    n == line@.len(),
                    forall|k: int| start <= k < end ==> !is_blank(#[trigger] line@[k]),
                decreases n - end,
            {
                end += 1;
            }
            let word = line.substring_char(start, end);
            proof {
                assert forall|k: int| 0 <= k < end - start implies !is_blank(
                    #[trigger] tail[k],
                ) by {
                    assert(tail[k] == line@[start + k]);
                }
                if end < n {
                    assert(tail[end - start] == line@[end as int]);
                }
                lemma_word_len_is(tail, end - start);
                assert(tail.take(end - start) =~= word@);
                assert(tail.skip(end - start) =~= line@.skip(end as int));
            }
            let ghost before = found.deep_view();
            found.push(String::from_str(word));
            assert(found.deep_view() =~= before.push(word@));
            assert(found.deep_view() + words(line@.skip(end as int)) =~= before + words(tail));
            i = end;
        }
    }
    assert(line@.skip(n as int) =~= Seq::<char>::empty());
    assert(found.deep_view() + words(line@.skip(n as int)) =~= found.deep_view());
    found
}

} // verus!
