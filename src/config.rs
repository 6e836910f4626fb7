use vstd::prelude::*;
use vstd::string::*;

use crate::text::{
    chars_eq, chars_of, string_from_chars, trim, trim_chars_by, trim_end_by, trim_end_chars_by,
};
use crate::worktree::{starts_with, starts_with_exec};

verus! {

/// `rel` appended to the path `base` with one separator, as joining a
/// relative path does.
pub open spec fn path_join(base: Seq<char>, rel: Seq<char>) -> Seq<char> {
    if base.len() == 0 || base.last() == '/' {
        base + rel
    } else {
        base + "/"@ + rel
    }
}

/// Appends a relative path to a directory path.
pub fn join_path(base: &str, rel: &str) -> (r: String)
    ensures
        r@ == path_join(base@, rel@),
{
    let b = chars_of(base);
    let mut out = String::from_str(base);
    if b.len() > 0 && b[b.len() - 1] != '/' {
        out.append("/");
    }
    out.append(rel);
    out
}

/// The agent's home directory: `MICODE_HOME` when it is set to something
/// non-blank (trimmed), else `.micode` under `HOME`.
pub open spec fn micode_home(micode_home_var: Option<Seq<char>>, home_var: Option<Seq<char>>) -> Option<Seq<char>> {
    if micode_home_var matches Some(m) && trim(m).len() > 0 {
        Some(trim(micode_home_var->0))
    } else {
        match home_var {
            Some(h) => Some(path_join(h, ".micode"@)),
            None => None,
        }
    }
}

pub open spec fn opt_str(o: Option<&str>) -> Option<Seq<char>> {
    match o {
        Some(s) => Some(s@),
        None => None,
    }
}

/// Resolves the agent's home from the values of `MICODE_HOME` and `HOME`.
pub fn resolve_micode_home_path(micode_home_var: Option<&str>, home_var: Option<&str>) -> (r: Option<String>)
    ensures
        match r {
            Some(p) => micode_home(opt_str(micode_home_var), opt_str(home_var)) == Some(p@),
            None => micode_home(opt_str(micode_home_var), opt_str(home_var)) is None,
        },
{
    if let Some(m) = micode_home_var {
        let t = trim_chars_by(&chars_of(m), None);
        if t.len() > 0 {
            return Some(string_from_chars(t.as_slice()));
        }
    }
    match home_var {
        Some(h) => Some(join_path(h, ".micode")),
        None => None,
    }
}

/// The agent's settings file, from the values of `MICODE_HOME` and `HOME`.
pub fn micode_settings_path(micode_home_var: Option<&str>, home_var: Option<&str>) -> (r: Option<String>)
    ensures
        match r {
            Some(p) => micode_home(opt_str(micode_home_var), opt_str(home_var)) matches Some(h)
                && p@ == path_join(h, "settings.json"@),
            None => micode_home(opt_str(micode_home_var), opt_str(home_var)) is None,
        },
{
    match resolve_micode_home_path(micode_home_var, home_var) {
        Some(h) => Some(join_path(h.as_str(), "settings.json")),
        None => None,
    }
}

/// The value of a `field: true` / `field: false` line of a script bundle
/// (surrounding whitespace and trailing commas ignored).
pub open spec fn js_bool_field(line: Seq<char>, field: Seq<char>) -> Option<bool> {
    let t = trim(line);
    let p = field.push(':');
    if !starts_with(t, p) {
        None
    } else {
        let rest = trim_end_by(trim(t.subrange(p.len() as int, t.len() as int)), Some(','));
        if rest == "true"@ {
            Some(true)
        } else if rest == "false"@ {
            Some(false)
        } else {
            None
        }
    }
}

/// Reads a `field: true` / `field: false` line.
pub fn parse_js_bool_field(line: &str, field: &str) -> (r: Option<bool>)
    ensures
        r == js_bool_field(line@, field@),
{
    let t = trim_chars_by(&chars_of(line), None);
    let mut p = chars_of(field);
    p.push(':');
    if !starts_with_exec(&t, &p) {
        return None;
    }
    let mut after: Vec<char> = Vec::new();
    let mut i: usize = p.len();
    while i < t.len()
        invariant
            p.len() <= i <= t.len(),
            after@ =~= t@.subrange(p.len() as int, i as int),
        decreases t.len() - i,
    {
        after.push(t[i]);
        i = i + 1;
    }
    let rest = trim_end_chars_by(&trim_chars_by(&after, None), Some(','));
    if chars_eq(&rest, &chars_of("true")) {
        Some(true)
    } else if chars_eq(&rest, &chars_of("false")) {
        Some(false)
    } else {
        None
    }
}

/// The instructions that ask the agent for a commit message.
pub open spec fn commit_prompt_intro() -> Seq<char> {
    "Generate a concise git commit message for the following changes. Follow conventional commit format (e.g., feat:, fix:, refactor:, docs:, etc.). Keep the summary line under 72 characters. Only output the commit message, nothing else.\n\nChanges:\n"@
}

/// A prompt asking for a commit message for `diff`.
pub fn build_commit_message_prompt(diff: &str) -> (r: String)
    ensures
        r@ == commit_prompt_intro() + diff@,
{
    let mut out = String::from_str(
        "Generate a concise git commit message for the following changes. Follow conventional commit format (e.g., feat:, fix:, refactor:, docs:, etc.). Keep the summary line under 72 characters. Only output the commit message, nothing else.\n\nChanges:\n",
    );
    out.append(diff);
    out
}

/// The model to record as preferred when `requested` is asked for and
/// `current` is recorded: the trimmed request, unless it is blank or already
/// the (trimmed) current one.
pub open spec fn model_change(requested: Seq<char>, current: Option<Seq<char>>) -> Option<Seq<char>> {
    let t = trim(requested);
    let c = match current {
        Some(c) => trim(c),
        None => seq![],
    };
    if t.len() == 0 || c == t {
        None
    } else {
        Some(t)
    }
}

/// Decides whether a requested model changes the preference (which then
/// forces a fresh session).
pub fn preferred_model_change(requested: &str, current: Option<&str>) -> (r: Option<String>)
    ensures
        match r {
            Some(m) => model_change(requested@, opt_str(current)) == Some(m@),
            None => model_change(requested@, opt_str(current)) is None,
        },
{
    let t = trim_chars_by(&chars_of(requested), None);
    if t.len() == 0 {
        return None;
    }
    let c = match current {
        Some(c) => trim_chars_by(&chars_of(c), None),
        None => Vec::new(),
    };
    if chars_eq(&c, &t) {
        None
    } else {
        Some(string_from_chars(t.as_slice()))
    }
}

} // verus!
