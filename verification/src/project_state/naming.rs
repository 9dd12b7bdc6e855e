//! Folder names for projects.

use vstd::prelude::*;
use crate::text::{is_whitespace, push_char, spec_is_whitespace};

verus! {

/// Whether `char::is_alphanumeric` holds of `c`.
pub uninterp spec fn spec_is_alphanumeric(c: char) -> bool;

/// `char::is_alphanumeric`: the character is alphabetic or numeric by the
/// Unicode tables; those tables are not written out here.
#[verifier::external_body]
fn is_alphanumeric(c: char) -> (r: bool)
    ensures
        r == spec_is_alphanumeric(c),
{
    c.is_alphanumeric()
}

/// Letters, digits, `-`, `_` and spaces stay; anything else becomes `_`.
pub open spec fn spec_safe_char(c: char) -> char {
    if spec_is_alphanumeric(c) || c == '-' || c == '_' || c == ' ' {
        c
    } else {
        '_'
    }
}

/// `s` without its leading white space.
pub open spec fn spec_trim_start(s: Seq<char>) -> Seq<char>
    decreases s.len(),
{
    if s.len() > 0 && spec_is_whitespace(s[0]) {
        spec_trim_start(s.drop_first())
    } else {
        s
    }
}

/// `s` without its trailing white space.
pub open spec fn spec_trim_end(s: Seq<char>) -> Seq<char>
    decreases s.len(),
{
    if s.len() > 0 && spec_is_whitespace(s.last()) {
        spec_trim_end(s.drop_last())
    } else {
        s
    }
}

/// The folder name of a project: unsafe characters replaced by `_`, white
/// space trimmed from both ends, then spaces replaced by `_`.
pub open spec fn spec_sanitize(name: Seq<char>) -> Seq<char> {
    spec_trim_end(spec_trim_start(name.map_values(|c: char| spec_safe_char(c)))).map_values(
        |c: char| if c == ' ' { '_' } else { c },
    )
}

proof fn lemma_trim_start(s: Seq<char>, a: int)
    requires
        0 <= a <= s.len(),
        forall|i: int| 0 <= i < a ==> spec_is_whitespace(#[trigger] s[i]),
        a == s.len() || !spec_is_whitespace(s[a]),
    ensures
        spec_trim_start(s) == s.subrange(a, s.len() as int),
    decreases a,
{
    if a == 0 {
        assert(s.subrange(0, s.len() as int) =~= s);
    } else {
        assert(spec_is_whitespace(s[0]));
        let t = s.drop_first();
        assert forall|i: int| 0 <= i < a - 1 implies spec_is_whitespace(#[trigger] t[i]) by {
            assert(t[i] == s[i + 1]);
        }
        if a < s.len() {
            assert(t[a - 1] == s[a]);
        }
        lemma_trim_start(t, a - 1);
        assert(t.subrange(a - 1, t.len() as int) =~= s.subrange(a, s.len() as int));
    }
}

proof fn lemma_trim_end(s: Seq<char>, b: int)
    requires
        0 <= b <= s.len(),
        forall|i: int| b <= i < s.len() ==> spec_is_whitespace(#[trigger] s[i]),
        b == 0 || !spec_is_whitespace(s[b - 1]),
    ensures
        spec_trim_end(s) == s.subrange(0, b),
    decreases s.len() - b,
{
    if b == s.len() {
        assert(s.subrange(0, b) =~= s);
    } else {
        assert(spec_is_whitespace(s.last()));
        let t = s.drop_last();
        assert forall|i: int| b <= i < t.len() implies spec_is_whitespace(#[trigger] t[i]) by {
            assert(t[i] == s[i]);
        }
        if b > 0 {
            assert(t[b - 1] == s[b - 1]);
        }
        lemma_trim_end(t, b);
        assert(t.subrange(0, b) =~= s.subrange(0, b));
    }
}

/// A file-system-safe folder name for a project.
pub fn sanitize_project_name(name: &str) -> (r: String)
    ensures
        r@ == spec_sanitize(name@),
{
    let n = name.unicode_len();
    let mut mapped: Vec<char> = Vec::new();
    let mut i: usize = 0;
    while i < n
        invariant
            n == name@.len(),
            i <= n,
            mapped@ == name@.take(i as int).map_values(|c: char| spec_safe_char(c)),
        decreases n - i,
    {
        let c = name.get_char(i);
        let keep = is_alphanumeric(c) || c == '-' || c == '_' || c == ' ';
        mapped.push(if keep { c } else { '_' });
        assert(name@.take(i + 1).map_values(|c: char| spec_safe_char(c)) =~= name@.take(i as int).map_values(
            |c: char| spec_safe_char(c),
        ).push(spec_safe_char(c)));
        i = i + 1;
    }
    assert(name@.take(n as int) =~= name@);
    let ghost m = mapped@;
    let len = mapped.len();
    let mut a: usize = 0;
    while a < len && is_whitespace(mapped[a])
        invariant
            len == m.len(),
            mapped@ == m,
            a <= len,
            forall|k: int| 0 <= k < a ==> spec_is_whitespace(#[trigger] m[k]),
        decreases len - a,
    {
        a = a + 1;
    }
    proof { lemma_trim_start(m, a as int); }
    let ghost t = m.subrange(a as int, len as int);
    let mut b: usize = len;
    while b > a && is_whitespace(mapped[b - 1])
        invariant
            len == m.len(),
            mapped@ == m,
            a <= b <= len,
            t == m.subrange(a as int, len as int),
            forall|k: int| b <= k < len ==> spec_is_whitespace(#[trigger] m[k]),
        decreases b,
    {
        b = b - 1;
    }
    proof {
        assert forall|k: int| b - a <= k < t.len() implies spec_is_whitespace(#[trigger] t[k]) by {
            assert(t[k] == m[k + a]);
        }
        if b > a {
            assert(t[b - a - 1] == m[b - 1]);
        }
        lemma_trim_end(t, b - a);
    }
    let ghost trimmed = m.subrange(a as int, b as int);
    assert(t.subrange(0, b - a) =~= trimmed);
    let mut out = String::new();
    let mut j: usize = a;
    while j < b
        invariant
            mapped@ == m,
            a <= j <= b <= len,
            len == m.len(),
            trimmed == m.subrange(a as int, b as int),
            out@ == trimmed.take(j - a).map_values(|c: char| if c == ' ' { '_' } else { c }),
        decreases b - j,
    {
        let c = mapped[j];
        push_char(&mut out, if c == ' ' { '_' } else { c });
        assert(trimmed.take(j + 1 - a) =~= trimmed.take(j - a).push(c));
        assert(trimmed.take(j + 1 - a).map_values(|c: char| if c == ' ' { '_' } else { c }) =~= trimmed.take(
            j - a,
        ).map_values(|c: char| if c == ' ' { '_' } else { c }).push(if c == ' ' { '_' } else { c }));
        j = j + 1;
    }
    assert(trimmed.take(b - a) =~= trimmed);
    out
}

} // verus!
