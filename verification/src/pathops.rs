//! Path strings and the few operations the orchestrator needs on them.
//!
//! Paths are held as plain `String`s with `/` as the separator. The
//! operations mirror the usual filesystem-path conventions on ordinary
//! inputs: the file name is what follows the last separator, the stem is
//! the name up to its last dot (a name whose only dot leads it, like a
//! hidden file's, is all stem), and the parent is what precedes the last
//! separator.
use vstd::prelude::*;

verus! {

/// Index of the last occurrence of `c` in `s`, or `-1` if `c` does not occur.
pub open spec fn last_index_of(s: Seq<char>, c: char) -> int
    decreases s.len(),
{
    if s.len() == 0 {
        -1
    } else if s.last() == c {
        s.len() - 1
    } else {
        last_index_of(s.drop_last(), c)
    }
}

/// Index of the first occurrence of `c` in `s`, or `-1` if `c` does not occur.
pub open spec fn first_index_of(s: Seq<char>, c: char) -> int
    decreases s.len(),
{
    if s.len() == 0 {
        -1
    } else if s.first() == c {
        0
    } else if first_index_of(s.drop_first(), c) == -1 {
        -1
    } else {
        1 + first_index_of(s.drop_first(), c)
    }
}

pub proof fn lemma_last_index_of_bounds(s: Seq<char>, c: char)
    ensures
        -1 <= last_index_of(s, c) < s.len(),
        last_index_of(s, c) >= 0 ==> s[last_index_of(s, c)] == c,
    decreases s.len(),
{
    if s.len() > 0 && s.last() != c {
        lemma_last_index_of_bounds(s.drop_last(), c);
    }
}

pub proof fn lemma_first_index_of_bounds(s: Seq<char>, c: char)
    ensures
        -1 <= first_index_of(s, c) < s.len(),
        first_index_of(s, c) >= 0 ==> s[first_index_of(s, c)] == c,
    decreases s.len(),
{
    if s.len() > 0 && s.first() != c {
        lemma_first_index_of_bounds(s.drop_first(), c);
    }
}

/// `base`, a separator, then `comp`.
pub open spec fn spec_join(base: Seq<char>, comp: Seq<char>) -> Seq<char> {
    base.push('/') + comp
}

/// The portion after the last separator, or `None` when that portion is empty.
pub open spec fn spec_file_name(p: Seq<char>) -> Option<Seq<char>> {
    let name = p.subrange(last_index_of(p, '/') + 1, p.len() as int);
    if name.len() == 0 {
        None
    } else {
        Some(name)
    }
}

/// Splits a file name at its last dot into stem and extension. A name
/// without a dot, or whose only dot is its first character, is all stem.
pub open spec fn spec_split_name(name: Seq<char>) -> (Seq<char>, Option<Seq<char>>) {
    let i = last_index_of(name, '.');
    if i <= 0 {
        (name, None)
    } else {
        (name.subrange(0, i), Some(name.subrange(i + 1, name.len() as int)))
    }
}

/// The stem of the file name of `p`.
pub open spec fn spec_file_stem(p: Seq<char>) -> Option<Seq<char>> {
    match spec_file_name(p) {
        None => None,
        Some(name) => Some(spec_split_name(name).0),
    }
}

/// The extension of the file name of `p`.
pub open spec fn spec_extension(p: Seq<char>) -> Option<Seq<char>> {
    match spec_file_name(p) {
        None => None,
        Some(name) => spec_split_name(name).1,
    }
}

/// The portion before the last separator, or `None` when `p` holds none.
pub open spec fn spec_parent(p: Seq<char>) -> Option<Seq<char>> {
    let i = last_index_of(p, '/');
    if i < 0 {
        None
    } else {
        Some(p.subrange(0, i))
    }
}

/// The portion before the first occurrence of `c`, or all of `s` when `c`
/// does not occur.
pub open spec fn spec_prefix_before(s: Seq<char>, c: char) -> Seq<char> {
    let i = first_index_of(s, c);
    if i < 0 {
        s
    } else {
        s.subrange(0, i)
    }
}

/// Index one past the last occurrence of `c` in `s`, or `0` if `c` does
/// not occur.
fn find_last(s: &str, c: char) -> (r: usize)
    ensures
        r == last_index_of(s@, c) + 1,
{
    let len = s.unicode_len();
    proof {
        assert(s@.subrange(0, len as int) =~= s@);
    }
    let mut i = len;
    while i > 0
        invariant
            i <= len,
            len == s@.len(),
            last_index_of(s@, c) == last_index_of(s@.subrange(0, i as int), c),
        decreases i,
    {
        proof {
            assert(s@.subrange(0, i as int).drop_last() =~= s@.subrange(0, i - 1));
            assert(s@.subrange(0, i as int).last() == s@[i - 1]);
        }
        if s.get_char(i - 1) == c {
            return i;
        }
        i = i - 1;
    }
    proof {
        assert(s@.subrange(0, 0) =~= Seq::<char>::empty());
    }
    0
}

/// Index of the first occurrence of `c` in `s`, or the length of `s` if `c`
/// does not occur.
fn find_first(s: &str, c: char) -> (r: usize)
    ensures
        first_index_of(s@, c) >= 0 ==> r == first_index_of(s@, c),
        first_index_of(s@, c) < 0 ==> r == s@.len(),
{
    let len = s.unicode_len();
    let mut i: usize = 0;
    while i < len
        invariant
            i <= len,
            len == s@.len(),
            forall|j: int| 0 <= j < i ==> s@[j] != c,
        decreases len - i,
    {
        if s.get_char(i) == c {
            proof {
                lemma_first_index_char_at(s@, c, i as int);
            }
            return i;
        }
        i = i + 1;
    }
    proof {
        lemma_first_index_of_bounds(s@, c);
        lemma_first_index_prefix(s@, c, len as int);
    }
    len
}

/// If no character before `i` is `c`, the first occurrence is not before `i`.
proof fn lemma_first_index_prefix(s: Seq<char>, c: char, i: int)
    requires
        0 <= i <= s.len(),
        forall|j: int| 0 <= j < i ==> s[j] != c,
    ensures
        first_index_of(s, c) >= 0 ==> first_index_of(s, c) >= i,
    decreases i,
{
    if i > 0 && s.len() > 0 {
        assert(s.first() != c);
        lemma_first_index_prefix(s.drop_first(), c, i - 1);
    }
}

/// If `s[i]` is `c` and no character before `i` is, the first occurrence is `i`.
proof fn lemma_first_index_char_at(s: Seq<char>, c: char, i: int)
    requires
        0 <= i < s.len(),
        s[i] == c,
        forall|j: int| 0 <= j < i ==> s[j] != c,
    ensures
        first_index_of(s, c) == i,
    decreases i,
{
    if i == 0 {
    } else {
        assert(s.first() != c);
        assert(s.drop_first()[i - 1] == c);
        assert(forall|j: int| 0 <= j < i - 1 ==> s.drop_first()[j] != c);
        lemma_first_index_char_at(s.drop_first(), c, i - 1);
    }
}

/// Joins `base` and `comp` with a separator between them.
pub fn join(base: &str, comp: &str) -> (r: String)
    ensures
        r@ == spec_join(base@, comp@),
{
    let mut s = String::from_str(base);
    s.append("/");
    s.append(comp);
    proof {
        reveal_strlit("/");
        assert(s@ =~= spec_join(base@, comp@));
    }
    s
}

/// The file name of `p`: what follows the last separator, if nonempty.
pub fn file_name(p: &str) -> (r: Option<String>)
    ensures
        r is Some <==> spec_file_name(p@) is Some,
        r is Some ==> (r->0)@ == spec_file_name(p@)->0,
{
    let len = p.unicode_len();
    let start = find_last(p, '/');
    proof {
        lemma_last_index_of_bounds(p@, '/');
    }
    if start == len {
        None
    } else {
        Some(String::from_str(p.substring_char(start, len)))
    }
}

/// The stem of the file name of `p`: the name up to its last dot, where a
/// dot leading the name does not count.
pub fn file_stem(p: &str) -> (r: Option<String>)
    ensures
        r is Some <==> spec_file_stem(p@) is Some,
        r is Some ==> (r->0)@ == spec_file_stem(p@)->0,
{
    let len = p.unicode_len();
    let start = find_last(p, '/');
    proof {
        lemma_last_index_of_bounds(p@, '/');
    }
    if start == len {
        return None;
    }
    let name = p.substring_char(start, len);
    let dot = find_last(name, '.');
    proof {
        lemma_last_index_of_bounds(name@, '.');
    }
    if dot <= 1 {
        Some(String::from_str(name))
    } else {
        Some(String::from_str(name.substring_char(0, dot - 1)))
    }
}

/// Whether the file name of `p` has an extension: a dot after its first
/// character.
pub fn has_extension(p: &str) -> (r: bool)
    ensures
        r == (spec_extension(p@) is Some),
{
    let len = p.unicode_len();
    let start = find_last(p, '/');
    proof {
        lemma_last_index_of_bounds(p@, '/');
    }
    if start == len {
        return false;
    }
    let name = p.substring_char(start, len);
    let dot = find_last(name, '.');
    proof {
        lemma_last_index_of_bounds(name@, '.');
    }
    dot > 1
}

/// The parent of `p`: what precedes the last separator.
pub fn parent(p: &str) -> (r: Option<String>)
    ensures
        r is Some <==> spec_parent(p@) is Some,
        r is Some ==> (r->0)@ == spec_parent(p@)->0,
{
    let end = find_last(p, '/');
    proof {
        lemma_last_index_of_bounds(p@, '/');
    }
    if end == 0 {
        None
    } else {
        Some(String::from_str(p.substring_char(0, end - 1)))
    }
}

/// The portion of `s` before the first occurrence of `c`, or all of `s`.
pub fn prefix_before(s: &str, c: char) -> (r: String)
    ensures
        r@ == spec_prefix_before(s@, c),
{
    let i = find_first(s, c);
    proof {
        lemma_first_index_of_bounds(s@, c);
        if first_index_of(s@, c) < 0 {
            assert(s@.subrange(0, s@.len() as int) =~= s@);
        }
    }
    String::from_str(s.substring_char(0, i))
}

} // verus!
