//! Fixture checking: a fixture's marker comments say where a rule must
//! report and what its message begins with.
use vstd::prelude::*;

use crate::text::{chars_of, str_eq};

verus! {

pub open spec fn is_blank(c: char) -> bool {
    c == ' ' || c == '\t'
}

/// `k` is the number of blanks that `l` begins with.
pub open spec fn is_indent(l: Seq<char>, k: int) -> bool {
    &&& 0 <= k <= l.len()
    &&& forall|i: int| 0 <= i < k ==> is_blank(#[trigger] l[i])
    &&& (k == l.len() || !is_blank(l[k]))
}

pub open spec fn starts_with(s: Seq<char>, p: Seq<char>) -> bool {
    p.len() <= s.len() && s.subrange(0, p.len() as int) == p
}

/// The head of a marker line for the rule `code`.
pub open spec fn marker_head(code: Seq<char>) -> Seq<char> {
    "// Should trigger "@ + code + " - "@
}

/// A line indented by `k` is a marker for `code`, with message text `t`.
pub open spec fn marks_at(l: Seq<char>, code: Seq<char>, k: int, t: Seq<char>) -> bool {
    &&& is_indent(l, k)
    &&& starts_with(l.skip(k), marker_head(code))
    &&& t == l.skip(k).skip(marker_head(code).len() as int)
}

/// The marker text of `l` for `code`: `l`, past its indentation, reads
/// `// Should trigger <code> - <text>`.
pub open spec fn marker_of(l: Seq<char>, code: Seq<char>) -> Option<Seq<char>> {
    if exists|k: int, t: Seq<char>| marks_at(l, code, k, t) {
        let (k, t) = choose|k: int, t: Seq<char>| marks_at(l, code, k, t);
        Some(t)
    } else {
        None
    }
}

proof fn lemma_indent_unique(l: Seq<char>, a: int, b: int)
    requires
        is_indent(l, a),
        is_indent(l, b),
    ensures
        a == b,
{
    if a < b {
        assert(is_blank(l[a]));
    } else if b < a {
        assert(is_blank(l[b]));
    }
}

/// The text of the marker for `code` on `line`, if it is one.
pub fn marker_in(line: &str, code: &str) -> (r: Option<Vec<char>>)
    ensures
        match r {
            Some(t) => marker_of(line@, code@) == Some(t@),
            None => marker_of(line@, code@) is None,
        },
{
    let l = chars_of(line);
    let c = chars_of(code);
    let n = l.len();
    let mut k: usize = 0;
    while k < n && (l[k] == ' ' || l[k] == '\t')
        invariant
            l@ == line@,
            n == l@.len(),
            0 <= k <= n,
            forall|i: int| 0 <= i < k ==> is_blank(#[trigger] l@[i]),
        decreases n - k,
    {
        k = k + 1;
    }
    assert(is_indent(line@, k as int));
    let ghost head = marker_head(code@);
    let mut h: Vec<char> = chars_of("// Should trigger ");
    let mut j: usize = 0;
    while j < c.len()
        invariant
            c@ == code@,
            0 <= j <= c@.len(),
            h@ == "// Should trigger "@ + c@.subrange(0, j as int),
        decreases c@.len() - j,
    {
        h.push(c[j]);
        assert(h@ =~= "// Should trigger "@ + c@.subrange(0, j + 1));
        j = j + 1;
    }
    let tail = chars_of(" - ");
    let mut j: usize = 0;
    let ghost base = h@;
    while j < tail.len()
        invariant
            0 <= j <= tail@.len(),
            tail@ == " - "@,
            h@ == base + tail@.subrange(0, j as int),
        decreases tail@.len() - j,
    {
        h.push(tail[j]);
        assert(h@ =~= base + tail@.subrange(0, j + 1));
        j = j + 1;
    }
    assert(c@.subrange(0, c@.len() as int) =~= c@);
    assert(tail@.subrange(0, tail@.len() as int) =~= tail@);
    assert(h@ =~= head);
    let rest = n - k;
    if h.len() > rest {
        proof {
            assert forall|kk: int, t: Seq<char>| !marks_at(line@, code@, kk, t) by {
                if is_indent(line@, kk) {
                    lemma_indent_unique(line@, kk, k as int);
                }
            }
        }
        return None;
    }
    let mut i: usize = 0;
    while i < h.len()
        invariant
            l@ == line@,
            n == l@.len(),
            k + h@.len() <= n,
            is_indent(line@, k as int),
            h@ == head,
            head == marker_head(code@),
            0 <= i <= h@.len(),
            forall|x: int| 0 <= x < i ==> l@[k + x] == h@[x],
        decreases h@.len() - i,
    {
        if l[k + i] != h[i] {
            proof {
                assert(line@.skip(k as int).subrange(0, h@.len() as int)[i as int] != h@[i as int]);
                assert forall|kk: int, t: Seq<char>| !marks_at(line@, code@, kk, t) by {
                    if is_indent(line@, kk) {
                        lemma_indent_unique(line@, kk, k as int);
                    }
                }
            }
            return None;
        }
        i = i + 1;
    }
    assert(line@.skip(k as int).subrange(0, h@.len() as int) =~= h@);
    let mut t: Vec<char> = Vec::new();
    let mut p: usize = k + h.len();
    while p < n
        invariant
            l@ == line@,
            n == l@.len(),
            k + h@.len() <= p <= n,
            t@ == line@.subrange(k + h@.len(), p as int),
        decreases n - p,
    {
        t.push(l[p]);
        assert(t@ =~= line@.subrange(k + h@.len(), p + 1));
        p = p + 1;
    }
    proof {
        assert(t@ =~= line@.skip(k as int).skip(h@.len() as int));
        assert(marks_at(line@, code@, k as int, t@));
        let (kk, tt) = choose|kk: int, tt: Seq<char>| marks_at(line@, code@, kk, tt);
        lemma_indent_unique(line@, kk, k as int);
    }
    Some(t)
}

/// A diagnostic that a fixture expects: on line `line` (counted from 1),
/// with a message that begins with `text`.
pub struct Expectation {
    pub line: usize,
    pub text: Vec<char>,
}

/// A diagnostic as the host rendered it for a fixture.
pub struct Emitted {
    pub line: usize,
    pub code: String,
    pub message: String,
}

pub open spec fn expectation_view(e: Expectation) -> (int, Seq<char>) {
    (e.line as int, e.text@)
}

/// The expectations of a fixture for `code`: a marker on line `n` expects
/// its diagnostic on line `n + 1`, the line it stands above.
pub open spec fn expectations(lines: Seq<String>, code: Seq<char>) -> Seq<(int, Seq<char>)>
    decreases lines.len(),
{
    if lines.len() == 0 {
        Seq::empty()
    } else {
        let rest = expectations(lines.drop_last(), code);
        match marker_of(lines.last()@, code) {
            Some(t) => rest.push((lines.len() + 1int, t)),
            None => rest,
        }
    }
}

/// How many diagnostics of `code` were emitted on `line`.
pub open spec fn count_at(em: Seq<Emitted>, code: Seq<char>, line: int) -> nat
    decreases em.len(),
{
    if em.len() == 0 {
        0
    } else {
        count_at(em.drop_last(), code, line) + if em.last().code@ == code && em.last().line
            == line {
            1nat
        } else {
            0nat
        }
    }
}

/// Exactly one diagnostic of `code` stands on the expected line, and its
/// message begins with the expected text.
pub open spec fn met(em: Seq<Emitted>, code: Seq<char>, e: (int, Seq<char>)) -> bool {
    &&& count_at(em, code, e.0) == 1
    &&& exists|j: int|
        0 <= j < em.len() && (#[trigger] em[j]).code@ == code && em[j].line == e.0
            && starts_with(em[j].message@, e.1)
}

/// The fixture contract: each expectation is met, and no diagnostic of
/// `code` stands on a line that no marker points at.
pub open spec fn fixture_ok(exps: Seq<(int, Seq<char>)>, em: Seq<Emitted>, code: Seq<char>) -> bool {
    &&& forall|i: int| 0 <= i < exps.len() ==> met(em, code, #[trigger] exps[i])
    &&& forall|j: int|
        0 <= j < em.len() && (#[trigger] em[j]).code@ == code ==> exists|i: int|
            0 <= i < exps.len() && (#[trigger] exps[i]).0 == em[j].line
}

/// The expectations that the marker comments of `lines` set for `code`.
pub fn fixture_expectations(lines: &Vec<String>, code: &str) -> (r: Vec<Expectation>)
    requires
        lines@.len() + 1 <= usize::MAX,
    ensures
        r@.map_values(|e: Expectation| expectation_view(e)) == expectations(lines@, code@),
{
    let mut out: Vec<Expectation> = Vec::new();
    let mut i: usize = 0;
    while i < lines.len()
        invariant
            lines@.len() + 1 <= usize::MAX,
            0 <= i <= lines@.len(),
            out@.map_values(|e: Expectation| expectation_view(e)) == expectations(
                lines@.subrange(0, i as int),
                code@,
            ),
        decreases lines@.len() - i,
    {
        assert(lines@.subrange(0, i + 1).drop_last() =~= lines@.subrange(0, i as int));
        let ghost before = out@;
        match marker_in(lines[i].as_str(), code) {
            Some(t) => {
                let ghost text = t@;
                out.push(Expectation { line: i + 2, text: t });
                assert(out@.map_values(|e: Expectation| expectation_view(e)) =~= before.map_values(
                    |e: Expectation| expectation_view(e),
                ).push(((i + 2) as int, text)));
            },
            None => {},
        }
        i = i + 1;
    }
    assert(lines@.subrange(0, lines@.len() as int) =~= lines@);
    out
}

fn begins_with(m: &str, t: &Vec<char>) -> (r: bool)
    ensures
        r == starts_with(m@, t@),
{
    let cs = chars_of(m);
    if t.len() > cs.len() {
        return false;
    }
    let mut i: usize = 0;
    while i < t.len()
        invariant
            cs@ == m@,
            t@.len() <= cs@.len(),
            0 <= i <= t@.len(),
            forall|x: int| 0 <= x < i ==> cs@[x] == t@[x],
        decreases t@.len() - i,
    {
        if cs[i] != t[i] {
            assert(m@.subrange(0, t@.len() as int)[i as int] != t@[i as int]);
            return false;
        }
        i = i + 1;
    }
    assert(m@.subrange(0, t@.len() as int) =~= t@);
    true
}

fn expectation_met(em: &Vec<Emitted>, code: &str, e: &Expectation) -> (r: bool)
    ensures
        r == met(em@, code@, expectation_view(*e)),
{
    let mut count: usize = 0;
    let mut found = false;
    let mut j: usize = 0;
    while j < em.len()
        invariant
            0 <= j <= em@.len(),
            count <= j,
            count == count_at(em@.subrange(0, j as int), code@, e.line as int),
            found == exists|x: int|
                0 <= x < j && (#[trigger] em@[x]).code@ == code@ && em@[x].line == e.line
                    && starts_with(em@[x].message@, e.text@),
        decreases em@.len() - j,
    {
        assert(em@.subrange(0, j + 1).drop_last() =~= em@.subrange(0, j as int));
        let x = &em[j];
        if x.line == e.line && str_eq(x.code.as_str(), code) {
            count = count + 1;
            if begins_with(x.message.as_str(), &e.text) {
                found = true;
            }
        }
        j = j + 1;
    }
    assert(em@.subrange(0, em@.len() as int) =~= em@);
    count == 1 && found
}

fn line_expected(expected: &Vec<Expectation>, line: usize) -> (r: bool)
    ensures
        r == exists|i: int| 0 <= i < expected@.len() && (#[trigger] expected@[i]).line == line,
{
    let mut i: usize = 0;
    while i < expected.len()
        invariant
            0 <= i <= expected@.len(),
            forall|x: int| 0 <= x < i ==> (#[trigger] expected@[x]).line != line,
        decreases expected@.len() - i,
    {
        if expected[i].line == line {
            return true;
        }
        i = i + 1;
    }
    false
}

/// Whether the emitted diagnostics meet the expectations for `code`:
/// exactly one diagnostic of `code` on each expected line, its message
/// beginning with the expected text, and none of `code` elsewhere.
pub fn fixture_matches(expected: &Vec<Expectation>, emitted: &Vec<Emitted>, code: &str) -> (r:
    bool)
    ensures
        r == fixture_ok(
            expected@.map_values(|e: Expectation| expectation_view(e)),
            emitted@,
            code@,
        ),
{
    let ghost exps = expected@.map_values(|e: Expectation| expectation_view(e));
    let mut i: usize = 0;
    while i < expected.len()
        invariant
            0 <= i <= expected@.len(),
            exps == expected@.map_values(|e: Expectation| expectation_view(e)),
            forall|x: int| 0 <= x < i ==> met(emitted@, code@, #[trigger] exps[x]),
        decreases expected@.len() - i,
    {
        if !expectation_met(emitted, code, &expected[i]) {
            assert(!met(emitted@, code@, exps[i as int]));
            return false;
        }
        i = i + 1;
    }
    let mut j: usize = 0;
    while j < emitted.len()
        invariant
            0 <= j <= emitted@.len(),
            exps == expected@.map_values(|e: Expectation| expectation_view(e)),
            forall|x: int| 0 <= x < exps.len() ==> met(emitted@, code@, #[trigger] exps[x]),
            forall|y: int|
                0 <= y < j && (#[trigger] emitted@[y]).code@ == code@ ==> exists|x: int|
                    0 <= x < exps.len() && (#[trigger] exps[x]).0 == emitted@[y].line,
        decreases emitted@.len() - j,
    {
        if str_eq(emitted[j].code.as_str(), code) && !line_expected(expected, emitted[j].line) {
            proof {
                assert forall|x: int| 0 <= x < exps.len() implies (#[trigger] exps[x]).0
                    != emitted@[j as int].line by {
                    assert(exps[x].0 == expected@[x].line);
                }
            }
            return false;
        }
        proof {
            if emitted@[j as int].code@ == code@ {
                let x = choose|x: int|
                    0 <= x < expected@.len() && (#[trigger] expected@[x]).line
                        == emitted@[j as int].line;
                assert(exps[x].0 == emitted@[j as int].line);
            }
        }
        j = j + 1;
    }
    true
}

/// Checks a fixture: reads the markers for `code` from its lines and
/// holds the emitted diagnostics to them.
pub fn check_fixture(lines: &Vec<String>, emitted: &Vec<Emitted>, code: &str) -> (r: bool)
    requires
        lines@.len() + 1 <= usize::MAX,
    ensures
        r == fixture_ok(expectations(lines@, code@), emitted@, code@),
{
    let expected = fixture_expectations(lines, code);
    fixture_matches(&expected, emitted, code)
}

} // verus!
