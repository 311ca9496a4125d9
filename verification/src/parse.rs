//! Parsing of the request's path-and-query into `/<key>/<rest>`: `<key>` is
//! the first non-empty path segment, delimited by a slash on both sides, and
//! `<rest>` is everything after the slash that follows it (possibly empty,
//! possibly holding more slashes and a query string).

use vstd::prelude::*;

verus! {

/// The index of the first `'/'` in `s` at or after `from`, or `s.len()` when
/// there is none.
pub open spec fn find_slash(s: Seq<char>, from: int) -> int
    decreases s.len() - from,
{
    if from < 0 || from >= s.len() {
        s.len() as int
    } else if s[from] == '/' {
        from
    } else {
        find_slash(s, from + 1)
    }
}

/// The delimiters of the route, searched for from `from`: the least pair
/// `(i, j)` of slash positions at or after `from` that enclose a non-empty
/// segment, or `None` when no such pair exists.
pub open spec fn route_split_from(s: Seq<char>, from: int) -> Option<(int, int)>
    decreases s.len() - from,
        via route_split_from_decreases
{
    let i = find_slash(s, from);
    if i >= s.len() {
        None
    } else {
        let j = find_slash(s, i + 1);
        if j >= s.len() {
            None
        } else if j == i + 1 {
            route_split_from(s, i + 1)
        } else {
            Some((i, j))
        }
    }
}

/// The delimiters of the route in the whole string.
pub open spec fn route_split(s: Seq<char>) -> Option<(int, int)> {
    route_split_from(s, 0)
}

#[via_fn]
proof fn route_split_from_decreases(s: Seq<char>, from: int) {
    if 0 <= from && from <= s.len() {
        lemma_find_slash_bounds(s, from);
    }
}

/// Whether the path has the `/<key>/<rest>` shape at all.
pub open spec fn parses(s: Seq<char>) -> bool {
    route_split(s) is Some
}

/// The tenant key of a path that parses: the segment between the delimiters.
pub open spec fn route_key(s: Seq<char>) -> Seq<char>
    recommends
        parses(s),
{
    let (i, j) = route_split(s)->Some_0;
    s.subrange(i + 1, j)
}

/// The remainder of a path that parses: everything after the second delimiter.
pub open spec fn route_rest(s: Seq<char>) -> Seq<char>
    recommends
        parses(s),
{
    let (i, j) = route_split(s)->Some_0;
    s.subrange(j + 1, s.len() as int)
}

/// A slash pair enclosing a non-empty slash-free segment: the shape the route
/// delimiters must have.
pub open spec fn delimiters_at(s: Seq<char>, i: int, j: int) -> bool {
    &&& 0 <= i
    &&& i + 1 < j < s.len()
    &&& s[i] == '/'
    &&& s[j] == '/'
    &&& forall|k: int| i < k < j ==> s[k] != '/'
}

proof fn lemma_find_slash_bounds(s: Seq<char>, from: int)
    requires
        0 <= from <= s.len(),
    ensures
        from <= find_slash(s, from) <= s.len(),
        find_slash(s, from) < s.len() ==> s[find_slash(s, from)] == '/',
        forall|k: int| from <= k < find_slash(s, from) ==> s[k] != '/',
    decreases s.len() - from,
{
    if from < s.len() && s[from] != '/' {
        lemma_find_slash_bounds(s, from + 1);
    }
}

/// Soundness of the search: the delimiters it returns have the route shape,
/// and no route starts earlier.
proof fn lemma_route_split_sound(s: Seq<char>, from: int)
    requires
        0 <= from <= s.len(),
        route_split_from(s, from) is Some,
    ensures
        delimiters_at(s, route_split_from(s, from)->Some_0.0, route_split_from(s, from)->Some_0.1),
        from <= route_split_from(s, from)->Some_0.0,
    decreases s.len() - from,
{
    let i = find_slash(s, from);
    lemma_find_slash_bounds(s, from);
    if i < s.len() {
        let j = find_slash(s, i + 1);
        lemma_find_slash_bounds(s, i + 1);
        if j < s.len() && j == i + 1 {
            lemma_route_split_sound(s, i + 1);
        }
    }
}

/// Completeness of the search: a slash pair of the route shape at or after
/// `from` guarantees that the search from `from` succeeds.
proof fn lemma_route_split_complete(s: Seq<char>, from: int, i2: int, j2: int)
    requires
        0 <= from <= s.len(),
        from <= i2,
        delimiters_at(s, i2, j2),
    ensures
        route_split_from(s, from) is Some,
    decreases s.len() - from,
{
    let i = find_slash(s, from);
    lemma_find_slash_bounds(s, from);
    assert(i <= i2);
    let j = find_slash(s, i + 1);
    lemma_find_slash_bounds(s, i + 1);
    if i == i2 {
        // the first slash after i2 is j2, which closes a non-empty segment
        assert(j <= j2);
        assert(j != i + 1);
    } else {
        // i < i2, so a slash exists at i2 >= i + 1
        assert(j <= i2);
        if j == i + 1 {
            lemma_route_split_complete(s, i + 1, i2, j2);
        }
    }
}

/// No delimiters at all means the path does not parse; this is the exact
/// meaning of [`parses`].
pub proof fn lemma_parses_iff_delimiters(s: Seq<char>)
    ensures
        parses(s) <==> exists|i: int, j: int| delimiters_at(s, i, j),
{
    if parses(s) {
        lemma_route_split_sound(s, 0);
        let (i, j) = route_split(s)->Some_0;
        assert(delimiters_at(s, i, j));
    }
    if exists|i: int, j: int| delimiters_at(s, i, j) {
        let (i, j) = choose|i: int, j: int| delimiters_at(s, i, j);
        lemma_route_split_complete(s, 0, i, j);
    }
}

/// Find the first slash at or after `from` in executable code.
fn find_slash_exec(s: &str, from: usize) -> (r: usize)
    requires
        from <= s@.len(),
    ensures
        r == find_slash(s@, from as int),
        from <= r <= s@.len(),
    {
    let n = s.unicode_len();
    let mut i: usize = from;
    while i < n
        invariant
            from <= i <= n,
            n == s@.len(),
            find_slash(s@, from as int) == find_slash(s@, i as int),
        decreases n - i,
    {
        if s.get_char(i) == '/' {
            return i;
        }
        i = i + 1;
    }
    i
}

/// Splits the path into its tenant key and remainder, or reports that it has
/// no `/<key>/<rest>` shape.
pub fn parse_route(path: &str) -> (r: Option<(String, String)>)
    ensures
        match r {
            Some(kr) => parses(path@) && kr.0@ == route_key(path@) && kr.1@ == route_rest(path@),
            None => !parses(path@),
        },
{
    let n = path.unicode_len();
    let mut from: usize = 0;
    loop
        invariant
            0 <= from <= n,
            n == path@.len(),
            route_split(path@) == route_split_from(path@, from as int),
        decreases n - from,
    {
        let i = find_slash_exec(path, from);
        if i >= n {
            return None;
        }
        let j = find_slash_exec(path, i + 1);
        if j >= n {
            return None;
        }
        if j == i + 1 {
            from = i + 1;
        } else {
            let key = path.substring_char(i + 1, j).to_owned();
            let rest = path.substring_char(j + 1, n).to_owned();
            return Some((key, rest));
        }
    }
}

} // verus!
