use vstd::prelude::*;

use crate::text::{chars_of, is_whitespace_char, is_ws, string_from_chars, trim, trim_chars_by};

verus! {

/// What `str::to_lowercase` returns (full Unicode lower case).
pub uninterp spec fn lower_of(s: Seq<char>) -> Seq<char>;

/// Relies on `str::to_lowercase`: the result depends on the characters alone.
#[verifier::external_body]
fn to_lowercase(s: &str) -> (r: String)
    ensures
        r@ == lower_of(s@),
{
    s.to_lowercase()
}

pub open spec fn is_ascii_alnum(c: char) -> bool {
    ('a' <= c && c <= 'z') || ('A' <= c && c <= 'Z') || ('0' <= c && c <= '9')
}

pub open spec fn is_separator(c: char) -> bool {
    c == '-' || c == '_' || is_ws(c)
}

/// The kept characters of `s` from `i` on: ASCII letters, digits and '/'
/// stay, each run of separators ('-', '_', whitespace) becomes one '-', and
/// everything else is dropped.
pub open spec fn cleaned_from(s: Seq<char>, i: int, last_dash: bool) -> Seq<char>
    decreases s.len() - i,
{
    if i >= s.len() {
        seq![]
    } else if is_ascii_alnum(s[i]) || s[i] == '/' {
        seq![s[i]] + cleaned_from(s, i + 1, false)
    } else if is_separator(s[i]) {
        if last_dash {
            cleaned_from(s, i + 1, true)
        } else {
            seq!['-'] + cleaned_from(s, i + 1, true)
        }
    } else {
        cleaned_from(s, i + 1, last_dash)
    }
}

/// Drops trailing '-' and '/'.
pub open spec fn trim_tail(s: Seq<char>) -> Seq<char>
    decreases s.len(),
{
    if s.len() > 0 && (s.last() == '-' || s.last() == '/') {
        trim_tail(s.drop_last())
    } else {
        s
    }
}

pub open spec fn trim_leading_slashes(s: Seq<char>) -> Seq<char>
    decreases s.len(),
{
    if s.len() > 0 && s[0] == '/' {
        trim_leading_slashes(s.drop_first())
    } else {
        s
    }
}

pub open spec fn starts_with(s: Seq<char>, p: Seq<char>) -> bool {
    p.len() <= s.len() && s.subrange(0, p.len() as int) == p
}

/// The branch kinds a worktree name may start with.
pub open spec fn kinds() -> Seq<Seq<char>> {
    seq![
        "feat"@,
        "fix"@,
        "chore"@,
        "test"@,
        "docs"@,
        "refactor"@,
        "perf"@,
        "build"@,
        "ci"@,
        "style"@,
    ]
}

/// The first kind `k` from index `i` on for which `s` starts with `k` + `sep`.
pub open spec fn kind_prefix_from(s: Seq<char>, sep: char, i: int) -> Option<Seq<char>>
    decreases kinds().len() - i,
{
    if i >= kinds().len() {
        None
    } else if starts_with(s, kinds()[i].push(sep)) {
        Some(kinds()[i])
    } else {
        kind_prefix_from(s, sep, i + 1)
    }
}

/// A worktree name from an already lower-cased request: cleaned, without
/// trailing '-' or '/', and under a known kind ("feat/" unless it names one,
/// "kind-" becoming "kind/").
pub open spec fn worktree_name(lowered: Seq<char>) -> Seq<char> {
    let c = trim_tail(cleaned_from(trim(lowered), 0, false));
    if kind_prefix_from(c, '/', 0) is Some {
        c
    } else {
        match kind_prefix_from(c, '-', 0) {
            Some(k) => k.push('/') + c.subrange((k.len() + 1) as int, c.len() as int),
            None => "feat/"@ + trim_leading_slashes(c),
        }
    }
}

proof fn lemma_kind_prefix_starts(s: Seq<char>, sep: char, i: int)
    ensures
        kind_prefix_from(s, sep, i) matches Some(k) ==> starts_with(s, k.push(sep)),
    decreases kinds().len() - i,
{
    if i < kinds().len() && !starts_with(s, kinds()[i].push(sep)) {
        lemma_kind_prefix_starts(s, sep, i + 1);
    }
}

fn is_ascii_alnum_exec(c: char) -> (r: bool)
    ensures
        r == is_ascii_alnum(c),
{
    ('a' <= c && c <= 'z') || ('A' <= c && c <= 'Z') || ('0' <= c && c <= '9')
}

/// Whether `s` starts with `p`.
pub fn starts_with_exec(s: &Vec<char>, p: &Vec<char>) -> (r: bool)
    ensures
        r == starts_with(s@, p@),
{
    if p.len() > s.len() {
        return false;
    }
    let mut k: usize = 0;
    while k < p.len()
        invariant
            p.len() <= s.len(),
            k <= p.len(),
            forall|m: int| 0 <= m < k ==> s@[m] == p@[m],
        decreases p.len() - k,
    {
        if s[k] != p[k] {
            assert(s@.subrange(0, p.len() as int)[k as int] != p@[k as int]);
            return false;
        }
        k = k + 1;
    }
    assert(s@.subrange(0, p.len() as int) =~= p@);
    true
}

fn kind_literal(i: usize) -> (r: &'static str)
    requires
        i < 10,
    ensures
        r@ == kinds()[i as int],
{
    if i == 0 {
        "feat"
    } else if i == 1 {
        "fix"
    } else if i == 2 {
        "chore"
    } else if i == 3 {
        "test"
    } else if i == 4 {
        "docs"
    } else if i == 5 {
        "refactor"
    } else if i == 6 {
        "perf"
    } else if i == 7 {
        "build"
    } else if i == 8 {
        "ci"
    } else {
        "style"
    }
}

fn kind_prefix(s: &Vec<char>, sep: char) -> (r: Option<Vec<char>>)
    ensures
        match r {
            Some(k) => kind_prefix_from(s@, sep, 0) == Some(k@),
            None => kind_prefix_from(s@, sep, 0) is None,
        },
{
    let mut i: usize = 0;
    while i < 10
        invariant
            i <= 10,
            kinds().len() == 10,
            kind_prefix_from(s@, sep, 0) == kind_prefix_from(s@, sep, i as int),
        decreases 10 - i,
    {
        let k = chars_of(kind_literal(i));
        let mut p = k.clone();
        p.push(sep);
        assert(p@ == kinds()[i as int].push(sep));
        if starts_with_exec(s, &p) {
            return Some(k);
        }
        i = i + 1;
    }
    None
}

/// The worktree name for a request that is already lower case.
pub fn sanitize_lowered_worktree_name(lowered: &str) -> (r: String)
    ensures
        r@ == worktree_name(lowered@),
{
    let t = trim_chars_by(&chars_of(lowered), None);
    let n = t.len();
    let mut cleaned: Vec<char> = Vec::new();
    let mut last_dash = false;
    let mut i: usize = 0;
    assert(cleaned@ + cleaned_from(t@, 0, false) =~= cleaned_from(t@, 0, false));
    while i < n
        invariant
            n == t.len(),
            i <= n,
            cleaned@ + cleaned_from(t@, i as int, last_dash) == cleaned_from(t@, 0, false),
        decreases n - i,
    {
        let ch = t[i];
        let ghost prev = cleaned@;
        let ghost ld = last_dash;
        if is_ascii_alnum_exec(ch) || ch == '/' {
            last_dash = false;
            cleaned.push(ch);
            assert(cleaned@ + cleaned_from(t@, i + 1, false) =~= prev + cleaned_from(t@, i as int, ld));
        } else if ch == '-' || is_whitespace_char(ch) || ch == '_' {
            if !last_dash {
                last_dash = true;
                cleaned.push('-');
                assert(cleaned@ + cleaned_from(t@, i + 1, true) =~= prev + cleaned_from(t@, i as int, ld));
            }
        }
        i = i + 1;
    }
    assert(cleaned@ =~= cleaned@ + cleaned_from(t@, n as int, last_dash));
    let ghost full = cleaned@;
    while cleaned.len() > 0 && (cleaned[cleaned.len() - 1] == '-' || cleaned[cleaned.len() - 1] == '/')
        invariant
            trim_tail(cleaned@) == trim_tail(full),
        decreases cleaned.len(),
    {
        let ghost before = cleaned@;
        cleaned.pop();
        assert(cleaned@ =~= before.drop_last());
    }
    let c = cleaned;
    if kind_prefix(&c, '/').is_some() {
        return string_from_chars(c.as_slice());
    }
    match kind_prefix(&c, '-') {
        Some(k) => {
            proof {
                lemma_kind_prefix_starts(c@, '-', 0);
            }
            let mut out = k.clone();
            out.push('/');
            let mut j: usize = k.len() + 1;
            while j < c.len()
                invariant
                    k.len() + 1 <= j <= c.len(),
                    out@ =~= k@.push('/') + c@.subrange(k.len() + 1, j as int),
                decreases c.len() - j,
            {
                out.push(c[j]);
                j = j + 1;
            }
            string_from_chars(out.as_slice())
        },
        None => {
            let mut s: usize = 0;
            assert(c@.subrange(0, c.len() as int) =~= c@);
            while s < c.len() && c[s] == '/'
                invariant
                    s <= c.len(),
                    trim_leading_slashes(c@) == trim_leading_slashes(c@.subrange(s as int, c.len() as int)),
                decreases c.len() - s,
            {
                assert(c@.subrange(s as int, c.len() as int).drop_first() =~= c@.subrange(s + 1, c.len() as int));
                s = s + 1;
            }
            let mut out = chars_of("feat/");
            let mut j: usize = s;
            while j < c.len()
                invariant
                    s <= j <= c.len(),
                    out@ =~= "feat/"@ + c@.subrange(s as int, j as int),
                decreases c.len() - j,
            {
                out.push(c[j]);
                j = j + 1;
            }
            string_from_chars(out.as_slice())
        },
    }
}

/// A worktree branch name for a request: lower-cased, then shaped as
/// `sanitize_lowered_worktree_name` does.
pub fn sanitize_run_worktree_name(value: &str) -> (r: String)
    ensures
        r@ == worktree_name(lower_of(trim(value@))),
{
    let t = trim_chars_by(&chars_of(value), None);
    let ts = string_from_chars(t.as_slice());
    let lowered = to_lowercase(ts.as_str());
    sanitize_lowered_worktree_name(lowered.as_str())
}

} // verus!
