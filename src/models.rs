use vstd::prelude::*;

use crate::config::{js_bool_field, parse_js_bool_field};
use crate::tool::string_views;
use crate::usage::clamp64;
use crate::text::{chars_of, str_eq, string_from_chars, trim, trim_chars_by};
use crate::worktree::{starts_with, starts_with_exec};

verus! {

/// What `serde_json::from_str::<String>` makes of a text: the string a JSON
/// string literal denotes, or nothing when the text is not one.
pub uninterp spec fn json_string_value(s: Seq<char>) -> Option<Seq<char>>;

/// Relies on `serde_json::from_str::<String>`: decodes one JSON string literal.
#[verifier::external_body]
fn decode_json_string(literal: &str) -> (r: Option<String>)
    ensures
        match r {
            Some(v) => json_string_value(literal@) == Some(v@),
            None => json_string_value(literal@) is None,
        },
{
    serde_json::from_str::<String>(literal).ok()
}

pub open spec fn first_quote_from(s: Seq<char>, i: int) -> Option<int>
    decreases s.len() - i,
{
    if i >= s.len() {
        None
    } else if s[i] == '"' {
        Some(i)
    } else {
        first_quote_from(s, i + 1)
    }
}

pub open spec fn last_quote_before(s: Seq<char>, j: int) -> Option<int>
    decreases j,
{
    if j <= 0 {
        None
    } else if s[j - 1] == '"' {
        Some(j - 1)
    } else {
        last_quote_before(s, j - 1)
    }
}

/// The string value of a `field: "..."` line of a script bundle: the JSON
/// literal from the first to the last double quote after the field name.
pub open spec fn js_string_field(line: Seq<char>, field: Seq<char>) -> Option<Seq<char>> {
    let t = trim(line);
    let p = field.push(':');
    if !starts_with(t, p) {
        None
    } else {
        let rest = trim(t.subrange(p.len() as int, t.len() as int));
        match first_quote_from(rest, 0) {
            None => None,
            Some(start) => {
                let quoted = rest.subrange(start, rest.len() as int);
                match last_quote_before(quoted, quoted.len() as int) {
                    None => None,
                    Some(end) => if end == 0 {
                        None
                    } else {
                        json_string_value(quoted.subrange(0, end + 1))
                    },
                }
            },
        }
    }
}

fn tail_from(v: &Vec<char>, from: usize) -> (r: Vec<char>)
    requires
        from <= v.len(),
    ensures
        r@ == v@.subrange(from as int, v@.len() as int),
{
    let mut out: Vec<char> = Vec::new();
    let mut i: usize = from;
    while i < v.len()
        invariant
            from <= i <= v.len(),
            out@ =~= v@.subrange(from as int, i as int),
        decreases v.len() - i,
    {
        out.push(v[i]);
        i = i + 1;
    }
    out
}

/// Reads a `field: "..."` line.
pub fn parse_js_string_field(line: &str, field: &str) -> (r: Option<String>)
    ensures
        match r {
            Some(v) => js_string_field(line@, field@) == Some(v@),
            None => js_string_field(line@, field@) is None,
        },
{
    let t = trim_chars_by(&chars_of(line), None);
    let mut p = chars_of(field);
    p.push(':');
    if !starts_with_exec(&t, &p) {
        return None;
    }
    let rest = trim_chars_by(&tail_from(&t, p.len()), None);
    let mut start: usize = 0;
    while start < rest.len() && rest[start] != '"'
        invariant
            start <= rest.len(),
            first_quote_from(rest@, 0) == first_quote_from(rest@, start as int),
        decreases rest.len() - start,
    {
        start = start + 1;
    }
    if start == rest.len() {
        return None;
    }
    let quoted = tail_from(&rest, start);
    let mut end: usize = quoted.len();
    while end > 0 && quoted[end - 1] != '"'
        invariant
            end <= quoted.len(),
            last_quote_before(quoted@, quoted@.len() as int) == last_quote_before(quoted@, end as int),
        decreases end,
    {
        end = end - 1;
    }
    if end <= 1 {
        return None;
    }
    let mut literal: Vec<char> = Vec::new();
    let mut k: usize = 0;
    while k < end
        invariant
            end <= quoted.len(),
            k <= end,
            literal@ =~= quoted@.subrange(0, k as int),
        decreases end - k,
    {
        literal.push(quoted[k]);
        k = k + 1;
    }
    let lit = string_from_chars(literal.as_slice());
    decode_json_string(lit.as_str())
}

/// The lines of a text, as `str::lines` gives them: split at '\n', one
/// trailing '\r' dropped from each, and no empty line after a final '\n'.
pub open spec fn lines_from(s: Seq<char>, i: int, start: int) -> Seq<Seq<char>>
    decreases s.len() - i,
{
    if i >= s.len() {
        if start < s.len() {
            seq![without_cr(s.subrange(start, s.len() as int))]
        } else {
            seq![]
        }
    } else if s[i] == '\n' {
        seq![without_cr(s.subrange(start, i))] + lines_from(s, i + 1, i + 1)
    } else {
        lines_from(s, i + 1, start)
    }
}

pub open spec fn without_cr(l: Seq<char>) -> Seq<char> {
    if l.len() > 0 && l.last() == '\r' {
        l.drop_last()
    } else {
        l
    }
}

pub open spec fn lines_of(s: Seq<char>) -> Seq<Seq<char>> {
    lines_from(s, 0, 0)
}

fn line_string(v: &Vec<char>, from: usize, to: usize) -> (r: String)
    requires
        from <= to <= v.len(),
    ensures
        r@ == without_cr(v@.subrange(from as int, to as int)),
{
    let mut end = to;
    if end > from && v[end - 1] == '\r' {
        end = end - 1;
    }
    let mut out: Vec<char> = Vec::new();
    let mut k: usize = from;
    while k < end
        invariant
            from <= k <= end <= to <= v.len(),
            out@ =~= v@.subrange(from as int, k as int),
        decreases end - k,
    {
        out.push(v[k]);
        k = k + 1;
    }
    proof {
        let l = v@.subrange(from as int, to as int);
        if end < to {
            assert(l.drop_last() =~= v@.subrange(from as int, end as int));
        } else {
            assert(l =~= v@.subrange(from as int, end as int));
        }
    }
    string_from_chars(out.as_slice())
}

/// Splits a text into lines as `str::lines` does.
pub fn split_lines(raw: &str) -> (r: Vec<String>)
    ensures
        crate::tool::string_views(r@) == lines_of(raw@),
{
    let v = chars_of(raw);
    let n = v.len();
    let mut out: Vec<String> = Vec::new();
    let mut start: usize = 0;
    let mut i: usize = 0;
    while i < n
        invariant
            n == v.len(),
            v@ == raw@,
            start <= i <= n,
            crate::tool::string_views(out@) + lines_from(v@, i as int, start as int) == lines_of(v@),
        decreases n - i,
    {
        if v[i] == '\n' {
            let ghost prev = out@;
            let l = line_string(&v, start, i);
            out.push(l);
            assert(crate::tool::string_views(out@) =~= crate::tool::string_views(prev).push(l@));
            assert(crate::tool::string_views(out@) + lines_from(v@, i + 1, i + 1) =~= crate::tool::string_views(prev)
                + lines_from(v@, i as int, start as int));
            start = i + 1;
        }
        i = i + 1;
    }
    if start < n {
        let ghost prev = out@;
        let l = line_string(&v, start, n);
        out.push(l);
        assert(crate::tool::string_views(out@) =~= crate::tool::string_views(prev) + lines_from(v@, n as int, start as int));
    } else {
        assert(crate::tool::string_views(out@) =~= crate::tool::string_views(out@) + lines_from(v@, n as int, start as int));
    }
    out
}

pub open spec fn count_char(s: Seq<char>, c: char) -> nat
    decreases s.len(),
{
    if s.len() == 0 {
        0
    } else {
        count_char(s.drop_last(), c) + if s.last() == c {
            1nat
        } else {
            0nat
        }
    }
}

fn count_char_exec(v: &Vec<char>, c: char) -> (r: usize)
    ensures
        r as nat == count_char(v@, c),
{
    let mut n: usize = 0;
    let mut i: usize = 0;
    while i < v.len()
        invariant
            i <= v.len(),
            n <= i,
            n as nat == count_char(v@.subrange(0, i as int), c),
        decreases v.len() - i,
    {
        assert(v@.subrange(0, i + 1).drop_last() =~= v@.subrange(0, i as int));
        if v[i] == c {
            n = n + 1;
        }
        i = i + 1;
    }
    assert(v@.subrange(0, v.len() as int) =~= v@);
    n
}

/// The first value a line of `obj` gives for `field`, by `parse`.
pub open spec fn first_string_field(obj: Seq<Seq<char>>, field: Seq<char>) -> Option<Seq<char>>
    decreases obj.len(),
{
    if obj.len() == 0 {
        None
    } else {
        let f = first_string_field(obj.drop_last(), field);
        if f is Some {
            f
        } else {
            js_string_field(obj.last(), field)
        }
    }
}

pub open spec fn first_bool_field(obj: Seq<Seq<char>>, field: Seq<char>) -> Option<bool>
    decreases obj.len(),
{
    if obj.len() == 0 {
        None
    } else {
        let f = first_bool_field(obj.drop_last(), field);
        if f is Some {
            f
        } else {
            js_bool_field(obj.last(), field)
        }
    }
}

/// The model an object literal describes: it needs an id and a label, is
/// left out when marked invisible, and describes itself by its label when it
/// has no description.
pub open spec fn model_of(obj: Seq<Seq<char>>) -> Seq<(Seq<char>, Seq<char>, Seq<char>)> {
    let id = first_string_field(obj, "id"@);
    let label = first_string_field(obj, "label"@);
    let description = first_string_field(obj, "description"@);
    let visible = first_bool_field(obj, "isVisible"@);
    if visible != Some(false) && id is Some && label is Some {
        seq![
            (
                id->0,
                label->0,
                match description {
                    Some(d) => d,
                    None => label->0,
                },
            ),
        ]
    } else {
        seq![]
    }
}

/// Where a scan of a CLI bundle stands.
pub struct ScanState {
    pub in_models: bool,
    pub in_object: bool,
    pub done: bool,
    pub depth: i64,
    pub object: Seq<Seq<char>>,
    pub models: Seq<(Seq<char>, Seq<char>, Seq<char>)>,
}

pub open spec fn scan_start() -> ScanState {
    ScanState {
        in_models: false,
        in_object: false,
        done: false,
        depth: 0,
        object: seq![],
        models: seq![],
    }
}

/// One line of the bundle: the model list starts at its `var` line and ends
/// at the custom-models function; inside it, comment lines are skipped and
/// each object literal (tracked by brace depth, saturating) gives a model.
pub open spec fn scan_line(st: ScanState, line: Seq<char>) -> ScanState {
    let t = trim(line);
    if st.done {
        st
    } else if !st.in_models {
        if starts_with(t, "var AVAILABLE_MODELS = ["@) {
            ScanState { in_models: true, ..st }
        } else {
            st
        }
    } else if starts_with(t, "function loadCustomMifyModels"@) {
        ScanState { done: true, ..st }
    } else if starts_with(t, "//"@) {
        st
    } else if !st.in_object && !starts_with(t, "{"@) {
        st
    } else {
        let obj = (if st.in_object {
            st.object
        } else {
            seq![]
        }).push(line);
        let base = if st.in_object {
            st.depth
        } else {
            0
        };
        let depth = clamp64(
            clamp64(base + clamp64(count_char(t, '{') as int)) - clamp64(count_char(t, '}') as int),
        );
        if depth <= 0 {
            ScanState {
                in_object: false,
                depth,
                object: seq![],
                models: st.models + model_of(obj),
                ..st
            }
        } else {
            ScanState { in_object: true, depth, object: obj, ..st }
        }
    }
}

pub open spec fn scan(lines: Seq<Seq<char>>) -> ScanState
    decreases lines.len(),
{
    if lines.len() == 0 {
        scan_start()
    } else {
        scan_line(scan(lines.drop_last()), lines.last())
    }
}

pub open spec fn has_model_id(ms: Seq<(Seq<char>, Seq<char>, Seq<char>)>, id: Seq<char>) -> bool {
    exists|i: int| 0 <= i < ms.len() && ms[i].0 == id
}

/// The models with the first of each id kept.
pub open spec fn first_per_id(ms: Seq<(Seq<char>, Seq<char>, Seq<char>)>) -> Seq<(Seq<char>, Seq<char>, Seq<char>)>
    decreases ms.len(),
{
    if ms.len() == 0 {
        seq![]
    } else {
        let d = first_per_id(ms.drop_last());
        if has_model_id(d, ms.last().0) {
            d
        } else {
            d.push(ms.last())
        }
    }
}

pub open spec fn triple_views(v: Seq<(String, String, String)>) -> Seq<(Seq<char>, Seq<char>, Seq<char>)> {
    v.map_values(|t: (String, String, String)| (t.0@, t.1@, t.2@))
}

fn copy_triple(t: &(String, String, String)) -> (r: (String, String, String))
    ensures
        r.0@ == t.0@ && r.1@ == t.1@ && r.2@ == t.2@,
{
    (t.0.clone(), t.1.clone(), t.2.clone())
}

fn to_i64(n: usize) -> (r: i64)
    ensures
        r == clamp64(n as int),
{
    let m = n as u64;
    if m > 9223372036854775807 {
        i64::MAX
    } else {
        m as i64
    }
}

fn sat_sub(a: i64, b: i64) -> (r: i64)
    requires
        b >= 0,
    ensures
        r == clamp64(a - b),
{
    if a < i64::MIN + b {
        i64::MIN
    } else {
        a - b
    }
}

fn model_from_object(obj: &Vec<String>) -> (r: Vec<(String, String, String)>)
    ensures
        triple_views(r@) == model_of(string_views(obj@)),
{
    let mut id: Option<String> = None;
    let mut label: Option<String> = None;
    let mut description: Option<String> = None;
    let mut visible: Option<bool> = None;
    let mut k: usize = 0;
    while k < obj.len()
        invariant
            k <= obj.len(),
            crate::tool::opt_view(id) == first_string_field(string_views(obj@.subrange(0, k as int)), "id"@),
            crate::tool::opt_view(label) == first_string_field(string_views(obj@.subrange(0, k as int)), "label"@),
            crate::tool::opt_view(description) == first_string_field(
                string_views(obj@.subrange(0, k as int)),
                "description"@,
            ),
            visible == first_bool_field(string_views(obj@.subrange(0, k as int)), "isVisible"@),
        decreases obj.len() - k,
    {
        proof {
            assert(string_views(obj@.subrange(0, k + 1)).drop_last() =~= string_views(obj@.subrange(0, k as int)));
        }
        let line = obj[k].as_str();
        if id.is_none() {
            id = parse_js_string_field(line, "id");
        }
        if label.is_none() {
            label = parse_js_string_field(line, "label");
        }
        if description.is_none() {
            description = parse_js_string_field(line, "description");
        }
        if visible.is_none() {
            visible = parse_js_bool_field(line, "isVisible");
        }
        k = k + 1;
    }
    assert(obj@.subrange(0, obj.len() as int) =~= obj@);
    let mut out: Vec<(String, String, String)> = Vec::new();
    let hidden = match visible {
        Some(v) => !v,
        None => false,
    };
    if !hidden {
        if let (Some(i), Some(l)) = (id, label) {
            let d = match description {
                Some(d) => d,
                None => l.clone(),
            };
            out.push((i, l, d));
        }
    }
    assert(triple_views(out@) =~= model_of(string_views(obj@)));
    out
}

/// The models a CLI bundle lists: (id, label, description), the first of
/// each id kept.
pub fn parse_models_from_cli_bundle(raw: &str) -> (r: Vec<(String, String, String)>)
    ensures
        triple_views(r@) == first_per_id(scan(lines_of(raw@)).models),
{
    let lines = split_lines(raw);
    let ghost ls = string_views(lines@);
    let mut in_models = false;
    let mut in_object = false;
    let mut done = false;
    let mut depth: i64 = 0;
    let mut object: Vec<String> = Vec::new();
    let mut models: Vec<(String, String, String)> = Vec::new();
    let mut i: usize = 0;
    while i < lines.len()
        invariant
            i <= lines.len(),
            ls == string_views(lines@),
            ({
                let st = scan(ls.subrange(0, i as int));
                st.in_models == in_models && st.in_object == in_object && st.done == done
                    && st.depth == depth && st.object == string_views(object@) && st.models
                    == triple_views(models@)
            }),
        decreases lines.len() - i,
    {
        proof {
            assert(ls.subrange(0, i + 1).drop_last() =~= ls.subrange(0, i as int));
            assert(ls.subrange(0, i + 1).last() == lines@[i as int]@);
        }
        let line = &lines[i];
        let t = trim_chars_by(&chars_of(line.as_str()), None);
        if done {
        } else if !in_models {
            if starts_with_exec(&t, &chars_of("var AVAILABLE_MODELS = [")) {
                in_models = true;
            }
        } else if starts_with_exec(&t, &chars_of("function loadCustomMifyModels")) {
            done = true;
        } else if starts_with_exec(&t, &chars_of("//")) {
        } else if !in_object && !starts_with_exec(&t, &chars_of("{")) {
        } else {
            let ghost prev_object = string_views(object@);
            if !in_object {
                object = Vec::new();
                depth = 0;
            }
            let ghost base_object = string_views(object@);
            object.push(line.clone());
            assert(string_views(object@) =~= base_object.push(line@));
            let opens = to_i64(count_char_exec(&t, '{'));
            let closes = to_i64(count_char_exec(&t, '}'));
            depth = sat_sub(crate::usage::sat_add(depth, opens), closes);
            if depth <= 0 {
                let ghost prev_models = triple_views(models@);
                let found = model_from_object(&object);
                let mut k: usize = 0;
                while k < found.len()
                    invariant
                        k <= found.len(),
                        triple_views(models@) =~= prev_models + triple_views(found@.subrange(0, k as int)),
                    decreases found.len() - k,
                {
                    let ghost before_push = triple_views(models@);
                    let c = copy_triple(&found[k]);
                    models.push(c);
                    assert(triple_views(models@) =~= before_push.push((c.0@, c.1@, c.2@)));
                    assert(triple_views(found@.subrange(0, k + 1)) =~= triple_views(found@.subrange(0, k as int)).push((found@[k as int].0@, found@[k as int].1@, found@[k as int].2@)));
                    k = k + 1;
                }
                assert(found@.subrange(0, found.len() as int) =~= found@);
                in_object = false;
                object = Vec::new();
                assert(string_views(object@) =~= seq![]);
            } else {
                in_object = true;
            }
        }
        i = i + 1;
    }
    assert(ls.subrange(0, lines.len() as int) =~= ls);
    let ghost all = triple_views(models@);
    let mut deduped: Vec<(String, String, String)> = Vec::new();
    let mut j: usize = 0;
    while j < models.len()
        invariant
            j <= models.len(),
            all == triple_views(models@),
            triple_views(deduped@) == first_per_id(all.subrange(0, j as int)),
        decreases models.len() - j,
    {
        proof {
            assert(all.subrange(0, j + 1).drop_last() =~= all.subrange(0, j as int));
        }
        let mut seen = false;
        let mut k: usize = 0;
        while k < deduped.len()
            invariant
                k <= deduped.len(),
                j < models.len(),
                seen == exists|m: int| 0 <= m < k && deduped@[m].0@ == models@[j as int].0@,
            decreases deduped.len() - k,
        {
            if str_eq(deduped[k].0.as_str(), models[j].0.as_str()) {
                seen = true;
            }
            k = k + 1;
        }
        let ghost d = triple_views(deduped@);
        proof {
            assert(has_model_id(d, all[j as int].0) == seen) by {
                if seen {
                    let m = choose|m: int| 0 <= m < k && deduped@[m].0@ == models@[j as int].0@;
                    assert(d[m].0 == all[j as int].0);
                }
                if has_model_id(d, all[j as int].0) {
                    let m = choose|m: int| 0 <= m < d.len() && d[m].0 == all[j as int].0;
                    assert(deduped@[m].0@ == models@[j as int].0@);
                }
            }
        }
        if !seen {
            deduped.push(copy_triple(&models[j]));
            assert(triple_views(deduped@) =~= d.push(all[j as int]));
        }
        j = j + 1;
    }
    assert(all.subrange(0, models.len() as int) =~= all);
    deduped
}

/// The models of the agent's CLI bundle, given its text; none without one.
pub fn discover_micode_models(bundle: Option<&str>) -> (r: Vec<(String, String, String)>)
    ensures
        triple_views(r@) == match bundle {
            Some(raw) => first_per_id(scan(lines_of(raw@)).models),
            None => seq![],
        },
{
    match bundle {
        Some(raw) => parse_models_from_cli_bundle(raw),
        None => {
            let r: Vec<(String, String, String)> = Vec::new();
            assert(triple_views(r@) =~= seq![]);
            r
        },
    }
}

} // verus!
