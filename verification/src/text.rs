//! Text helpers: case-insensitive comparison of names and fixed-width columns.

use vstd::prelude::*;
use vstd::string::*;

verus! {

/// The lower-case form of an ASCII capital letter; any other character is itself.
pub open spec fn fold_char(c: char) -> char {
    if 'A' <= c && c <= 'Z' {
        ((c as u32) + 32) as char
    } else {
        c
    }
}

/// A name with every ASCII capital letter replaced by its lower-case form.
pub open spec fn normalized(s: Seq<char>) -> Seq<char> {
    Seq::new(s.len(), |i: int| fold_char(s[i]))
}

/// Two names are the same when their normalized forms are equal.
pub open spec fn same_name(a: Seq<char>, b: Seq<char>) -> bool {
    normalized(a) == normalized(b)
}

/// Some entry of `names` is the same name as `name`.
pub open spec fn has_name(names: Seq<Seq<char>>, name: Seq<char>) -> bool {
    exists|i: int| 0 <= i < names.len() && same_name(#[trigger] names[i], name)
}

/// `i` is the place of the first entry of `names` that is the same name as
/// `name`.
pub open spec fn first_match(names: Seq<Seq<char>>, name: Seq<char>, i: int) -> bool {
    &&& 0 <= i < names.len()
    &&& same_name(names[i], name)
    &&& forall|j: int| 0 <= j < i ==> !same_name(#[trigger] names[j], name)
}

/// The place of the first entry of `names` that is the same name as `name`;
/// it has a meaning only where `has_name` holds.
pub open spec fn first_index(names: Seq<Seq<char>>, name: Seq<char>) -> int {
    choose|i: int| first_match(names, name, i)
}

/// No two entries of `names` are the same name.
pub open spec fn all_distinct(names: Seq<Seq<char>>) -> bool {
    forall|i: int, j: int|
        0 <= i < j < names.len() ==> !same_name(#[trigger] names[i], #[trigger] names[j])
}

/// `n` blanks.
pub open spec fn spaces(n: nat) -> Seq<char> {
    Seq::new(n, |i: int| ' ')
}

/// `s` followed by as many blanks as it takes to reach `width` characters;
/// a longer `s` is left as it is.
pub open spec fn padded_right(s: Seq<char>, width: nat) -> Seq<char> {
    if s.len() < width {
        s + spaces((width - s.len()) as nat)
    } else {
        s
    }
}

/// `s` in the middle of a column of `width` characters. When the blanks
/// cannot be split evenly the extra one goes to the right; a longer `s` is
/// left as it is.
pub open spec fn centered(s: Seq<char>, width: nat) -> Seq<char> {
    if s.len() < width {
        let room = (width - s.len()) as nat;
        spaces(room / 2) + s + spaces((room - room / 2) as nat)
    } else {
        s
    }
}

/// The word that stands for a truth value in a table.
pub open spec fn bool_text(b: bool) -> Seq<char> {
    if b {
        "true"@
    } else {
        "false"@
    }
}

/// Normalizes one character.
pub fn fold(c: char) -> (r: char)
    ensures
        r == fold_char(c),
{
    if 'A' <= c && c <= 'Z' {
        ((c as u8) + 32u8) as char
    } else {
        c
    }
}

/// Whether two names are the same up to the case of ASCII letters.
pub fn eq_ignore_case(a: &str, b: &str) -> (r: bool)
    ensures
        r == same_name(a@, b@),
{
    let n: usize = a.unicode_len();
    if n != b.unicode_len() {
        assert(normalized(a@).len() != normalized(b@).len());
        return false;
    }
    let mut i: usize = 0;
    while i < n
        invariant
            i <= n,
            n == a@.len(),
            n == b@.len(),
            forall|j: int| 0 <= j < i ==> fold_char(a@[j]) == fold_char(b@[j]),
        decreases n - i,
    {
        if fold(a.get_char(i)) != fold(b.get_char(i)) {
            assert(normalized(a@)[i as int] != normalized(b@)[i as int]);
            return false;
        }
        i += 1;
    }
    assert(normalized(a@) =~= normalized(b@));
    true
}

/// Whether two texts are equal, character for character.
pub fn text_eq(a: &str, b: &str) -> (r: bool)
    ensures
        r == (a@ == b@),
{
    let n: usize = a.unicode_len();
    if n != b.unicode_len() {
        return false;
    }
    let mut i: usize = 0;
    while i < n
        invariant
            i <= n,
            n == a@.len(),
            n == b@.len(),
            forall|j: int| 0 <= j < i ==> a@[j] == b@[j],
        decreases n - i,
    {
        if a.get_char(i) != b.get_char(i) {
            return false;
        }
        i += 1;
    }
    assert(a@ =~= b@);
    true
}

/// Whether some entry of `names` is the same name as `name`.
pub fn contains_name(names: &Vec<String>, name: &str) -> (r: bool)
    ensures
        r == has_name(names.deep_view(), name@),
{
    let mut i: usize = 0;
    while i < names.len()
        invariant
            i <= names.len(),
            forall|j: int| 0 <= j < i ==> !same_name(#[trigger] names.deep_view()[j], name@),
        decreases names.len() - i,
    {
        if eq_ignore_case(names[i].as_str(), name) {
            assert(same_name(names.deep_view()[i as int], name@));
            return true;
        }
        i += 1;
    }
    false
}

/// Appends `count` blanks to `out`.
fn push_spaces(out: &mut String, count: usize)
    ensures
        final(out)@ == old(out)@ + spaces(count as nat),
{
    let mut i: usize = 0;
    while i < count
        invariant
            i <= count,
            out@ == old(out)@ + spaces(i as nat),
        decreases count - i,
    {
        proof {
            reveal_strlit(" ");
        }
        out.append(" ");
        i += 1;
        assert(out@ =~= old(out)@ + spaces(i as nat));
    }
    assert(spaces(0) =~= Seq::<char>::empty());
}

/// `s` as the left-aligned content of a column `width` characters wide.
pub fn pad_right(s: &str, width: usize) -> (r: String)
    ensures
        r@ == padded_right(s@, width as nat),
{
    let n: usize = s.unicode_len();
    let mut out = String::from_str(s);
    if n < width {
        push_spaces(&mut out, width - n);
    }
    out
}

/// `s` as the centred content of a column `width` characters wide.
pub fn pad_center(s: &str, width: usize) -> (r: String)
    ensures
        r@ == centered(s@, width as nat),
{
    let n: usize = s.unicode_len();
    if n < width {
        let room: usize = width - n;
        let left: usize = room / 2;
        let mut out = String::new();
        push_spaces(&mut out, left);
        out.append(s);
        push_spaces(&mut out, room - left);
        assert(out@ =~= centered(s@, width as nat));
        out
    } else {
        String::from_str(s)
    }
}

/// The word that stands for a truth value in a table.
pub fn bool_word(b: bool) -> (r: &'static str)
    ensures
        r@ == bool_text(b),
{
    if b {
        "true"
    } else {
        "false"
    }
}

/// There is at most one first match, so `first_index` is the place that a
/// search from the front arrives at.
pub proof fn lemma_first_index(names: Seq<Seq<char>>, name: Seq<char>, i: int)
    requires
        first_match(names, name, i),
    ensures
        has_name(names, name),
        first_index(names, name) == i,
{
    let k = first_index(names, name);
    assert(first_match(names, name, k));
    if k < i {
        assert(!same_name(names[k], name));
    }
    if i < k {
        assert(!same_name(names[i], name));
    }
}

/// Where some entry matches, a first one does.
pub proof fn lemma_has_first(names: Seq<Seq<char>>, name: Seq<char>)
    requires
        has_name(names, name),
    ensures
        first_match(names, name, first_index(names, name)),
{
    let w = choose|i: int| 0 <= i < names.len() && same_name(#[trigger] names[i], name);
    lemma_first_below(names, name, w);
}

/// A match at `w` puts a first match at or before `w`.
proof fn lemma_first_below(names: Seq<Seq<char>>, name: Seq<char>, w: int)
    requires
        0 <= w < names.len(),
        same_name(names[w], name),
    ensures
        exists|i: int| first_match(names, name, i),
    decreases w,
{
    if forall|j: int| 0 <= j < w ==> !same_name(#[trigger] names[j], name) {
        assert(first_match(names, name, w));
    } else {
        let j = choose|j: int| 0 <= j < w && same_name(#[trigger] names[j], name);
        lemma_first_below(names, name, j);
    }
}

} // verus!
