//! Small verified helpers on strings and paths.

use vstd::prelude::*;
use vstd::string::StringExecFns;

verus! {

/// `base` followed by the relative path `name`, with exactly one `/`
/// between them: an empty base gives `name` alone, and a base that already
/// ends in `/` gets no second one.
pub open spec fn join_path(base: Seq<char>, name: Seq<char>) -> Seq<char> {
    if base.len() == 0 {
        name
    } else if base.last() == '/' {
        base + name
    } else {
        base + seq!['/'] + name
    }
}

/// The first `n` characters of `s`, or all of `s` where it is shorter.
pub open spec fn prefix(s: Seq<char>, n: nat) -> Seq<char> {
    if s.len() <= n {
        s
    } else {
        s.take(n as int)
    }
}

/// Whether `s` holds a NUL character, which no C string can carry.
pub open spec fn has_nul(s: Seq<char>) -> bool {
    s.contains('\0')
}

/// Whether any string of `v` holds a NUL character.
pub open spec fn any_has_nul(v: Seq<Seq<char>>) -> bool {
    exists|i: int| 0 <= i < v.len() && has_nul(#[trigger] v[i])
}

/// The strings of `parts`, each followed by `sep` but the last.
pub open spec fn join_with(parts: Seq<Seq<char>>, sep: Seq<char>) -> Seq<char>
    decreases parts.len(),
{
    if parts.len() == 0 {
        Seq::empty()
    } else if parts.len() == 1 {
        parts[0]
    } else {
        join_with(parts.drop_last(), sep) + sep + parts.last()
    }
}

/// Joins `base` and `name` as [`join_path`] says.
pub fn join(base: &str, name: &str) -> (path: String)
    ensures
        path@ == join_path(base@, name@),
{
    let n = base.unicode_len();
    if n == 0 {
        String::from_str(name)
    } else {
        let mut path = String::from_str(base);
        if base.get_char(n - 1) != '/' {
            proof {
                reveal_strlit("/");
            }
            path.append("/");
            assert(path@ == base@ + seq!['/']);
        }
        path.append(name);
        path
    }
}

/// Copies the first `n` characters of `s`.
pub fn take_prefix(s: &str, n: usize) -> (head: String)
    ensures
        head@ == prefix(s@, n as nat),
{
    let len = s.unicode_len();
    if len <= n {
        String::from_str(s)
    } else {
        let head = String::from_str(s.substring_char(0, n));
        assert(s@.subrange(0, n as int) == s@.take(n as int));
        head
    }
}

/// Tests whether `s` holds a NUL character.
pub fn contains_nul(s: &str) -> (found: bool)
    ensures
        found == has_nul(s@),
{
    let n = s.unicode_len();
    let mut i: usize = 0;
    while i < n
        invariant
            n == s@.len(),
            i <= n,
            forall|j: int| 0 <= j < i ==> s@[j] != '\0',
        decreases n - i,
    {
        if s.get_char(i) == '\0' {
            return true;
        }
        i += 1;
    }
    false
}

/// Tests whether any string of `v` holds a NUL character.
pub fn any_contains_nul(v: &Vec<String>) -> (found: bool)
    ensures
        found == any_has_nul(v.deep_view()),
{
    let mut i: usize = 0;
    while i < v.len()
        invariant
            i <= v.len(),
            forall|j: int| 0 <= j < i ==> !has_nul(#[trigger] v.deep_view()[j]),
        decreases v.len() - i,
    {
        if contains_nul(v[i].as_str()) {
            assert(has_nul(v.deep_view()[i as int]));
            return true;
        }
        i += 1;
    }
    false
}

/// Joins the strings of `parts` with `sep` between them.
pub fn join_all(parts: &Vec<String>, sep: &str) -> (joined: String)
    ensures
        joined@ == join_with(parts.deep_view(), sep@),
{
    let mut joined = String::new();
    let mut i: usize = 0;
    while i < parts.len()
        invariant
            i <= parts.len(),
            joined@ == join_with(parts.deep_view().take(i as int), sep@),
        decreases parts.len() - i,
    {
        let ghost before = parts.deep_view().take(i as int);
        let ghost after = parts.deep_view().take(i + 1);
        assert(after.drop_last() =~= before);
        assert(after.last() == parts[i as int]@);
        if i > 0 {
            joined.append(sep);
        }
        joined.append(parts[i].as_str());
        assert(joined@ =~= join_with(after, sep@));
        i += 1;
    }
    assert(parts.deep_view().take(parts.len() as int) =~= parts.deep_view());
    joined
}

} // verus!
