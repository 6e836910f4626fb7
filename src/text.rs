use vstd::prelude::*;

verus! {

/// Unicode `White_Space` characters, the set that `char::is_whitespace` tests.
pub open spec fn is_ws(c: char) -> bool {
    let u = c as u32;
    (9 <= u && u <= 13) || u == 32 || u == 0x85 || u == 0xA0 || u == 0x1680 || (0x2000 <= u
        && u <= 0x200A) || u == 0x2028 || u == 0x2029 || u == 0x202F || u == 0x205F || u == 0x3000
}

/// Whether `c` is Unicode whitespace, as `char::is_whitespace` tells.
pub fn is_whitespace_char(c: char) -> (r: bool)
    ensures
        r == is_ws(c),
{
    let u = c as u32;
    (9 <= u && u <= 13) || u == 32 || u == 0x85 || u == 0xA0 || u == 0x1680 || (0x2000 <= u
        && u <= 0x200A) || u == 0x2028 || u == 0x2029 || u == 0x202F || u == 0x205F || u == 0x3000
}

/// ASCII lower case of one character; other characters are kept.
pub open spec fn lower_char(c: char) -> char {
    if 'A' <= c && c <= 'Z' {
        ((c as u8 + 32) as u8) as char
    } else {
        c
    }
}

pub open spec fn lower_ascii(s: Seq<char>) -> Seq<char> {
    s.map_values(|c: char| lower_char(c))
}

/// Drops leading characters while `is_ws`, or while equal to `strip` when it is given.
pub open spec fn strips(c: char, strip: Option<char>) -> bool {
    match strip {
        Some(x) => c == x,
        None => is_ws(c),
    }
}

pub open spec fn trim_start_by(s: Seq<char>, strip: Option<char>) -> Seq<char>
    decreases s.len(),
{
    if s.len() > 0 && strips(s[0], strip) {
        trim_start_by(s.drop_first(), strip)
    } else {
        s
    }
}

pub open spec fn trim_end_by(s: Seq<char>, strip: Option<char>) -> Seq<char>
    decreases s.len(),
{
    if s.len() > 0 && strips(s.last(), strip) {
        trim_end_by(s.drop_last(), strip)
    } else {
        s
    }
}

pub open spec fn trim_by(s: Seq<char>, strip: Option<char>) -> Seq<char> {
    trim_end_by(trim_start_by(s, strip), strip)
}

/// What `str::trim` leaves.
pub open spec fn trim(s: Seq<char>) -> Seq<char> {
    trim_by(s, None)
}

pub open spec fn occurs_at(s: Seq<char>, pat: Seq<char>, i: int) -> bool {
    0 <= i && i + pat.len() <= s.len() && s.subrange(i, i + pat.len()) == pat
}

pub open spec fn contains(s: Seq<char>, pat: Seq<char>) -> bool {
    exists|i: int| occurs_at(s, pat, i)
}

pub open spec fn ends_with(s: Seq<char>, pat: Seq<char>) -> bool {
    pat.len() <= s.len() && s.subrange(s.len() - pat.len(), s.len() as int) == pat
}

/// The characters of a string.
pub fn chars_of(s: &str) -> (r: Vec<char>)
    ensures
        r@ == s@,
{
    let n = s.unicode_len();
    let mut out: Vec<char> = Vec::new();
    let mut i: usize = 0;
    while i < n
        invariant
            n == s@.len(),
            i <= n,
            out@ == s@.subrange(0, i as int),
        decreases n - i,
    {
        out.push(s.get_char(i));
        i = i + 1;
    }
    assert(out@ =~= s@);
    out
}

/// Relies on `String: FromIterator<&char>`: the string holds the characters in order.
#[verifier::external_body]
pub fn string_from_chars(v: &[char]) -> (r: String)
    ensures
        r@ == v@,
{
    v.iter().collect()
}

/// ASCII lower case of every character.
pub fn lower_chars(v: &Vec<char>) -> (r: Vec<char>)
    ensures
        r@ == lower_ascii(v@),
{
    let mut out: Vec<char> = Vec::new();
    let mut i: usize = 0;
    while i < v.len()
        invariant
            i <= v.len(),
            out@ =~= lower_ascii(v@.subrange(0, i as int)),
        decreases v.len() - i,
    {
        let c = v[i];
        let l = if 'A' <= c && c <= 'Z' {
            (c as u8 + 32) as char
        } else {
            c
        };
        out.push(l);
        i = i + 1;
        assert(v@.subrange(0, i as int) =~= v@.subrange(0, i - 1).push(c));
    }
    assert(v@.subrange(0, v.len() as int) =~= v@);
    out
}

fn strips_exec(c: char, strip: Option<char>) -> (r: bool)
    ensures
        r == strips(c, strip),
{
    match strip {
        Some(x) => c == x,
        None => is_whitespace_char(c),
    }
}

proof fn lemma_trim_start_step(s: Seq<char>, i: int, strip: Option<char>)
    requires
        0 <= i < s.len(),
        strips(s[i], strip),
    ensures
        trim_start_by(s.subrange(i, s.len() as int), strip) == trim_start_by(
            s.subrange(i + 1, s.len() as int),
            strip,
        ),
{
    assert(s.subrange(i, s.len() as int).drop_first() =~= s.subrange(i + 1, s.len() as int));
}

proof fn lemma_trim_end_step(s: Seq<char>, j: int, strip: Option<char>)
    requires
        0 < j <= s.len(),
        strips(s[j - 1], strip),
    ensures
        trim_end_by(s.subrange(0, j), strip) == trim_end_by(s.subrange(0, j - 1), strip),
{
    assert(s.subrange(0, j).drop_last() =~= s.subrange(0, j - 1));
}

/// Strips whitespace, or one given character, from both ends.
pub fn trim_chars_by(v: &Vec<char>, strip: Option<char>) -> (r: Vec<char>)
    ensures
        r@ == trim_by(v@, strip),
{
    let n = v.len();
    let mut i: usize = 0;
    assert(v@.subrange(0, n as int) =~= v@);
    while i < n && strips_exec(v[i], strip)
        invariant
            n == v.len(),
            i <= n,
            trim_start_by(v@, strip) == trim_start_by(v@.subrange(i as int, n as int), strip),
        decreases n - i,
    {
        proof {
            lemma_trim_start_step(v@, i as int, strip);
        }
        i = i + 1;
    }
    let ghost mid = v@.subrange(i as int, n as int);
    assert(v@ =~= v@.subrange(0, n as int));
    assert(trim_start_by(v@, strip) == mid) by {
        if i < n {
            assert(mid[0] == v@[i as int]);
        }
    }
    let mut j: usize = n;
    assert(mid.subrange(0, j - i) =~= mid);
    while j > i && strips_exec(v[j - 1], strip)
        invariant
            n == v.len(),
            i <= j <= n,
            mid == v@.subrange(i as int, n as int),
            trim_end_by(mid, strip) == trim_end_by(mid.subrange(0, j - i), strip),
        decreases j,
    {
        proof {
            assert(mid[j - i - 1] == v@[j - 1]);
            lemma_trim_end_step(mid, j - i, strip);
        }
        j = j - 1;
    }
    let mut out: Vec<char> = Vec::new();
    let mut k: usize = i;
    while k < j
        invariant
            n == v.len(),
            i <= k <= j <= n,
            out@ =~= v@.subrange(i as int, k as int),
        decreases j - k,
    {
        out.push(v[k]);
        k = k + 1;
    }
    proof {
        let m = mid.subrange(0, j - i);
        assert(m =~= v@.subrange(i as int, j as int));
        if j > i {
            assert(m.last() == v@[j - 1]);
        }
        assert(trim_end_by(m, strip) == m);
    }
    out
}

/// Strips whitespace, or one given character, from the end.
pub fn trim_end_chars_by(v: &Vec<char>, strip: Option<char>) -> (r: Vec<char>)
    ensures
        r@ == trim_end_by(v@, strip),
{
    let mut out = v.clone();
    assert(out@ == v@);
    while out.len() > 0 && strips_exec(out[out.len() - 1], strip)
        invariant
            trim_end_by(out@, strip) == trim_end_by(v@, strip),
        decreases out.len(),
    {
        let ghost before = out@;
        out.pop();
        assert(out@ =~= before.drop_last());
    }
    out
}

/// Whether `pat` occurs in `s` at index `i`.
pub fn occurs_at_exec(s: &Vec<char>, pat: &Vec<char>, i: usize) -> (r: bool)
    ensures
        r == occurs_at(s@, pat@, i as int),
{
    if i > s.len() || pat.len() > s.len() - i {
        return false;
    }
    let mut k: usize = 0;
    while k < pat.len()
        invariant
            i + pat.len() <= s.len(),
            k <= pat.len(),
            forall|m: int| 0 <= m < k ==> s@[i + m] == pat@[m],
        decreases pat.len() - k,
    {
        if s[i + k] != pat[k] {
            assert(s@.subrange(i as int, i + pat.len())[k as int] != pat@[k as int]);
            return false;
        }
        k = k + 1;
    }
    assert(s@.subrange(i as int, i + pat.len()) =~= pat@);
    true
}

/// Whether `pat` occurs anywhere in `s`.
pub fn contains_chars(s: &Vec<char>, pat: &Vec<char>) -> (r: bool)
    ensures
        r == contains(s@, pat@),
{
    if pat.len() > s.len() {
        return false;
    }
    let last = s.len() - pat.len();
    let mut i: usize = 0;
    while i <= last
        invariant
            last + pat.len() == s.len(),
            i <= last,
            forall|m: int| 0 <= m < i ==> !occurs_at(s@, pat@, m),
        decreases last + 1 - i,
    {
        if occurs_at_exec(s, pat, i) {
            return true;
        }
        if i == last {
            return false;
        }
        i = i + 1;
    }
    false
}

/// Whether `s` ends with `pat`.
pub fn ends_with_chars(s: &Vec<char>, pat: &Vec<char>) -> (r: bool)
    ensures
        r == ends_with(s@, pat@),
{
    if pat.len() > s.len() {
        return false;
    }
    occurs_at_exec(s, pat, s.len() - pat.len())
}

/// Whether two character sequences are equal.
pub fn chars_eq(a: &Vec<char>, b: &Vec<char>) -> (r: bool)
    ensures
        r == (a@ == b@),
{
    if a.len() != b.len() {
        return false;
    }
    let r = occurs_at_exec(a, b, 0);
    assert(a@.subrange(0, a.len() as int) =~= a@);
    r
}

/// Whether two strings hold the same characters.
pub fn str_eq(a: &str, b: &str) -> (r: bool)
    ensures
        r == (a@ == b@),
{
    chars_eq(&chars_of(a), &chars_of(b))
}

/// Whether `s`, folded to ASCII lower case, holds `pat`.
pub fn lower_contains(s: &str, pat: &str) -> (r: bool)
    ensures
        r == contains(lower_ascii(s@), pat@),
{
    let l = lower_chars(&chars_of(s));
    contains_chars(&l, &chars_of(pat))
}

} // verus!
