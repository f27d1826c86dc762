//! Scoping rules to directories of the source tree.
use vstd::prelude::*;

use crate::syntax::Span;
use crate::text::chars_of;

verus! {

/// The files of one analysis: `files[i]` is the path of the file whose
/// spans have `file == i`, or `None` where it could not be resolved.
pub struct SourceMap {
    pub files: Vec<Option<String>>,
}

/// The path of the file that `span` lies in, where it resolves.
pub open spec fn path_of(map: SourceMap, span: Span) -> Option<Seq<char>> {
    if span.file < map.files@.len() {
        match map.files@[span.file as int] {
            Some(p) => Some(p@),
            None => None,
        }
    } else {
        None
    }
}

/// `sub` stands in `path` at `i` as whole components: it is bounded on
/// each side by `/` or by an end of the path.
pub open spec fn components_at(path: Seq<char>, sub: Seq<char>, i: int) -> bool {
    &&& 0 <= i
    &&& i + sub.len() <= path.len()
    &&& path.subrange(i, i + sub.len()) == sub
    &&& (i == 0 || path[i - 1] == '/')
    &&& (i + sub.len() == path.len() || path[i + sub.len()] == '/')
}

/// `path` holds the components of `sub` (e.g. `api/rest`), adjacent and in
/// order: `x/api/rest/y.rs` does, `x/apiary/rest.rs` does not.
pub open spec fn path_within(path: Seq<char>, sub: Seq<char>) -> bool {
    exists|i: int| components_at(path, sub, i)
}

/// The file of `span` resolves, and its path lies within `sub`.
pub open spec fn span_within(map: SourceMap, span: Span, sub: Seq<char>) -> bool {
    match path_of(map, span) {
        Some(p) => path_within(p, sub),
        None => false,
    }
}

fn matches_at(p: &Vec<char>, s: &Vec<char>, i: usize) -> (r: bool)
    requires
        i + s@.len() <= p@.len(),
    ensures
        r == (p@.subrange(i as int, i + s@.len()) == s@),
{
    let pl = p.len();
    let mut k: usize = 0;
    while k < s.len()
        invariant
            pl == p@.len(),
            i + s@.len() <= p@.len(),
            0 <= k <= s@.len(),
            forall|j: int| 0 <= j < k ==> p@[i + j] == s@[j],
        decreases s@.len() - k,
    {
        if p[i + k] != s[k] {
            assert(p@.subrange(i as int, i + s@.len())[k as int] != s@[k as int]);
            return false;
        }
        k = k + 1;
    }
    assert(p@.subrange(i as int, i + s@.len()) =~= s@);
    true
}

/// Whether `path` holds the components of `sub`, adjacent and in order.
pub fn path_contains_components(path: &str, sub: &str) -> (r: bool)
    ensures
        r == path_within(path@, sub@),
{
    let p = chars_of(path);
    let s = chars_of(sub);
    let n = p.len();
    let m = s.len();
    if m > n {
        assert forall|i: int| !components_at(path@, sub@, i) by {}
        return false;
    }
    let mut i: usize = 0;
    loop
        invariant
            p@ == path@,
            s@ == sub@,
            n == p@.len(),
            m == s@.len(),
            m <= n,
            0 <= i <= n - m,
            forall|k: int| 0 <= k < i ==> !components_at(path@, sub@, k),
        ensures
            forall|k: int| 0 <= k <= n - m ==> !components_at(path@, sub@, k),
        decreases n - m - i,
    {
        let before = i == 0 || p[i - 1] == '/';
        let after = i + m == n || p[i + m] == '/';
        if before && after && matches_at(&p, &s, i) {
            assert(components_at(path@, sub@, i as int));
            return true;
        }
        if i == n - m {
            break;
        }
        i = i + 1;
    }
    assert forall|k: int| !components_at(path@, sub@, k) by {
        if 0 <= k && k + m <= n {
            assert(k <= n - m);
        }
    }
    false
}

/// The path scope gate: whether the file that `span` lies in resolves to a
/// path within `subtree`. An unresolved file is out of scope.
pub fn is_within(map: &SourceMap, span: Span, subtree: &str) -> (r: bool)
    ensures
        r == span_within(*map, span, subtree@),
{
    if span.file >= map.files.len() {
        return false;
    }
    match &map.files[span.file] {
        Some(p) => path_contains_components(p.as_str(), subtree),
        None => false,
    }
}

/// The layer that the DTO naming rule is scoped to.
pub open spec fn api_rest_dir() -> Seq<char> {
    "api/rest"@
}

/// Whether `span` lies in a file under an `api/rest` directory.
pub fn is_in_api_rest_folder(map: &SourceMap, span: Span) -> (r: bool)
    ensures
        r == span_within(*map, span, api_rest_dir()),
{
    is_within(map, span, "api/rest")
}

/// Whether a span is in scope is a function of its path: two spans whose files
/// resolve to the same path are in scope alike, whichever file table they
/// come from and whatever was asked before.
pub proof fn lemma_scope_depends_on_path(
    m1: SourceMap,
    s1: Span,
    m2: SourceMap,
    s2: Span,
    sub: Seq<char>,
)
    requires
        path_of(m1, s1) == path_of(m2, s2),
    ensures
        span_within(m1, s1, sub) == span_within(m2, s2, sub),
{
}

} // verus!
