//! Token casing styles.
use vstd::prelude::*;

use crate::text::chars_of;

verus! {

/// The casing convention that a token follows.
#[derive(Clone, Copy, Debug, PartialEq, Eq, Structural)]
pub enum NamingStyle {
    SnakeCase,
    ScreamingSnakeCase,
    CamelCase,
    PascalCase,
    KebabCase,
    ScreamingKebabCase,
    /// Lowercase words run together. Such a token is also a one-word
    /// snake_case token, and `classify` reports it as `SnakeCase`; the style
    /// is named so that callers can speak of serde's `lowercase` convention.
    Lowercase,
    Unrecognized,
}

pub open spec fn is_lower(c: char) -> bool {
    'a' <= c && c <= 'z'
}

pub open spec fn is_upper(c: char) -> bool {
    'A' <= c && c <= 'Z'
}

pub open spec fn is_digit(c: char) -> bool {
    '0' <= c && c <= '9'
}

/// A character that may occur in a token of some recognized style.
pub open spec fn is_token_char(c: char) -> bool {
    is_lower(c) || is_upper(c) || is_digit(c) || c == '_' || c == '-'
}

pub open spec fn has_upper(t: Seq<char>) -> bool {
    exists|i: int| 0 <= i < t.len() && is_upper(#[trigger] t[i])
}

pub open spec fn has_lower(t: Seq<char>) -> bool {
    exists|i: int| 0 <= i < t.len() && is_lower(#[trigger] t[i])
}

pub open spec fn has_char(t: Seq<char>, c: char) -> bool {
    exists|i: int| 0 <= i < t.len() && #[trigger] t[i] == c
}

pub open spec fn all_token_chars(t: Seq<char>) -> bool {
    forall|i: int| 0 <= i < t.len() ==> is_token_char(#[trigger] t[i])
}

/// The style of a token: a pure function of its characters. Only ASCII
/// letters, digits, `_` and `-` occur in a recognized token.
pub open spec fn style_of(t: Seq<char>) -> NamingStyle {
    let up = has_upper(t);
    let low = has_lower(t);
    let under = has_char(t, '_');
    let dash = has_char(t, '-');
    if t.len() == 0 || !all_token_chars(t) {
        NamingStyle::Unrecognized
    } else if up && !under && !dash {
        if is_lower(t[0]) {
            NamingStyle::CamelCase
        } else if is_upper(t[0]) {
            NamingStyle::PascalCase
        } else {
            NamingStyle::Unrecognized
        }
    } else if up && !low && under && !dash {
        NamingStyle::ScreamingSnakeCase
    } else if up && !low && dash && !under {
        NamingStyle::ScreamingKebabCase
    } else if !up && dash && !under {
        NamingStyle::KebabCase
    } else if !up && !dash {
        NamingStyle::SnakeCase
    } else {
        NamingStyle::Unrecognized
    }
}

/// A non-empty token of lowercase ASCII letters, digits and underscores.
pub open spec fn snake_case_token(t: Seq<char>) -> bool {
    t.len() > 0 && forall|i: int|
        0 <= i < t.len() ==> (is_lower(#[trigger] t[i]) || is_digit(t[i]) || t[i] == '_')
}

/// Classifies the casing style of `token`.
pub fn classify(token: &str) -> (r: NamingStyle)
    ensures
        r == style_of(token@),
{
    let cs = chars_of(token);
    let n = cs.len();
    if n == 0 {
        return NamingStyle::Unrecognized;
    }
    let mut up = false;
    let mut low = false;
    let mut under = false;
    let mut dash = false;
    let mut valid = true;
    let mut i: usize = 0;
    while i < n
        invariant
            n == cs@.len(),
            cs@ == token@,
            0 <= i <= n,
            up == has_upper(cs@.subrange(0, i as int)),
            low == has_lower(cs@.subrange(0, i as int)),
            under == has_char(cs@.subrange(0, i as int), '_'),
            dash == has_char(cs@.subrange(0, i as int), '-'),
            valid == all_token_chars(cs@.subrange(0, i as int)),
        decreases n - i,
    {
        let c = cs[i];
        let ghost pre = cs@.subrange(0, i as int);
        let ghost next = cs@.subrange(0, i + 1);
        assert(next == pre.push(c));
        assert(next[i as int] == c);
        assert forall|j: int| 0 <= j < i implies next[j] == pre[j] by {}
        if 'A' <= c && c <= 'Z' {
            up = true;
        }
        if 'a' <= c && c <= 'z' {
            low = true;
        }
        if c == '_' {
            under = true;
        }
        if c == '-' {
            dash = true;
        }
        if !(('a' <= c && c <= 'z') || ('A' <= c && c <= 'Z') || ('0' <= c && c <= '9') || c
            == '_' || c == '-') {
            valid = false;
        }
        i = i + 1;
    }
    assert(cs@.subrange(0, n as int) == cs@);
    if !valid {
        NamingStyle::Unrecognized
    } else if up && !under && !dash {
        let first = cs[0];
        if 'a' <= first && first <= 'z' {
            NamingStyle::CamelCase
        } else if 'A' <= first && first <= 'Z' {
            NamingStyle::PascalCase
        } else {
            NamingStyle::Unrecognized
        }
    } else if up && !low && under && !dash {
        NamingStyle::ScreamingSnakeCase
    } else if up && !low && dash && !under {
        NamingStyle::ScreamingKebabCase
    } else if !up && dash && !under {
        NamingStyle::KebabCase
    } else if !up && !dash {
        NamingStyle::SnakeCase
    } else {
        NamingStyle::Unrecognized
    }
}

/// Whether `token` is snake_case: non-empty, and made of lowercase ASCII
/// letters, digits and underscores only (so no uppercase, no `-`, no space).
pub fn is_snake_case(token: &str) -> (r: bool)
    ensures
        r == snake_case_token(token@),
{
    let cs = chars_of(token);
    let n = cs.len();
    if n == 0 {
        return false;
    }
    let mut i: usize = 0;
    while i < n
        invariant
            n == cs@.len(),
            cs@ == token@,
            0 <= i <= n,
            forall|j: int|
                0 <= j < i ==> (is_lower(#[trigger] cs@[j]) || is_digit(cs@[j]) || cs@[j] == '_'),
        decreases n - i,
    {
        let c = cs[i];
        if !(('a' <= c && c <= 'z') || ('0' <= c && c <= '9') || c == '_') {
            return false;
        }
        i = i + 1;
    }
    true
}

/// The classifier and the snake_case predicate never disagree: a token is
/// classified as snake_case exactly when the predicate accepts it.
pub proof fn lemma_snake_case_agrees(t: Seq<char>)
    ensures
        (style_of(t) == NamingStyle::SnakeCase) == snake_case_token(t),
{
    if snake_case_token(t) {
        assert(all_token_chars(t));
        assert(!has_upper(t)) by {
            if has_upper(t) {
                let i = choose|i: int| 0 <= i < t.len() && is_upper(#[trigger] t[i]);
                assert(is_lower(t[i]) || is_digit(t[i]) || t[i] == '_');
            }
        }
        assert(!has_char(t, '-')) by {
            if has_char(t, '-') {
                let i = choose|i: int| 0 <= i < t.len() && #[trigger] t[i] == '-';
                assert(is_lower(t[i]) || is_digit(t[i]) || t[i] == '_');
            }
        }
    }
    if style_of(t) == NamingStyle::SnakeCase {
        assert forall|i: int| 0 <= i < t.len() implies (is_lower(#[trigger] t[i]) || is_digit(t[i])
            || t[i] == '_') by {
            assert(is_token_char(t[i]));
            if is_upper(t[i]) {
                assert(has_upper(t));
            }
            if t[i] == '-' {
                assert(has_char(t, '-'));
            }
        }
    }
}

} // verus!
