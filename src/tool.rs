use vstd::prelude::*;
use vstd::string::*;

use crate::text::{
    str_eq, chars_eq, chars_of, contains, contains_chars, ends_with, ends_with_chars, lower_ascii,
    lower_chars, string_from_chars, trim, trim_by, trim_chars_by,
};

verus! {

pub open spec fn opt_view(o: Option<String>) -> Option<Seq<char>> {
    match o {
        Some(s) => Some(s@),
        None => None,
    }
}

pub open spec fn opt_or(a: Option<Seq<char>>, b: Option<Seq<char>>) -> Option<Seq<char>> {
    if a is Some {
        a
    } else {
        b
    }
}

pub fn copy_opt(o: &Option<String>) -> (r: Option<String>)
    ensures
        opt_view(r) == opt_view(*o),
{
    match o {
        Some(s) => Some(s.clone()),
        None => None,
    }
}

/// A tool call's arguments: JSON text from the agent, or the words of the
/// command a permission request showed (sent on as `{"command": [...]}`).
#[derive(Clone, Debug)]
pub enum ToolArguments {
    Json(String),
    Command(Vec<String>),
}

pub open spec fn string_views(v: Seq<String>) -> Seq<Seq<char>> {
    v.map_values(|x: String| x@)
}

/// Tool arguments as the contracts see them.
pub enum ArgumentsView {
    Json(Seq<char>),
    Command(Seq<Seq<char>>),
}

pub open spec fn args_view(a: Option<ToolArguments>) -> Option<ArgumentsView> {
    match a {
        Some(ToolArguments::Json(s)) => Some(ArgumentsView::Json(s@)),
        Some(ToolArguments::Command(w)) => Some(
            ArgumentsView::Command(string_views(w@)),
        ),
        None => None,
    }
}

pub fn copy_words(w: &Vec<String>) -> (r: Vec<String>)
    ensures
        string_views(r@) == string_views(w@),
{
    let mut out: Vec<String> = Vec::new();
    let mut i: usize = 0;
    while i < w.len()
        invariant
            i <= w.len(),
            string_views(out@) =~= string_views(w@.subrange(0, i as int)),
        decreases w.len() - i,
    {
        let ghost prev = out@;
        out.push(w[i].clone());
        assert(string_views(out@) =~= string_views(prev).push(w@[i as int]@));
        assert(w@.subrange(0, i + 1) =~= w@.subrange(0, i as int).push(w@[i as int]));
        i = i + 1;
    }
    assert(w@.subrange(0, w.len() as int) =~= w@);
    out
}

pub fn copy_args(a: &Option<ToolArguments>) -> (r: Option<ToolArguments>)
    ensures
        args_view(r) == args_view(*a),
{
    match a {
        Some(ToolArguments::Json(s)) => Some(ToolArguments::Json(s.clone())),
        Some(ToolArguments::Command(w)) => Some(ToolArguments::Command(copy_words(w))),
        None => None,
    }
}

pub open spec fn args_or(a: Option<ArgumentsView>, b: Option<ArgumentsView>) -> Option<ArgumentsView> {
    if a is Some {
        a
    } else {
        b
    }
}

fn take_args_or(a: Option<ToolArguments>, b: Option<ToolArguments>) -> (r: Option<ToolArguments>)
    ensures
        args_view(r) == args_or(args_view(a), args_view(b)),
{
    if a.is_some() {
        a
    } else {
        b
    }
}

/// Best-known facts about one tool call, gathered from every message that
/// names its call id.
#[derive(Clone, Debug, Default)]
pub struct ToolCallPresentation {
    pub server: Option<String>,
    pub tool: Option<String>,
    pub title: Option<String>,
    pub arguments: Option<ToolArguments>,
    pub result: Option<String>,
    pub error: Option<String>,
}

/// A presentation as the contracts see it.
pub struct PresentationView {
    pub server: Option<Seq<char>>,
    pub tool: Option<Seq<char>>,
    pub title: Option<Seq<char>>,
    pub arguments: Option<ArgumentsView>,
    pub result: Option<Seq<char>>,
    pub error: Option<Seq<char>>,
}

impl View for ToolCallPresentation {
    type V = PresentationView;

    open spec fn view(&self) -> PresentationView {
        PresentationView {
            server: opt_view(self.server),
            tool: opt_view(self.tool),
            title: opt_view(self.title),
            arguments: args_view(self.arguments),
            result: opt_view(self.result),
            error: opt_view(self.error),
        }
    }
}

impl ToolCallPresentation {
    pub fn empty() -> (r: ToolCallPresentation)
        ensures
            r@ == empty_presentation(),
    {
        ToolCallPresentation {
            server: None,
            tool: None,
            title: None,
            arguments: None,
            result: None,
            error: None,
        }
    }

    pub fn copy_presentation(&self) -> (r: ToolCallPresentation)
        ensures
            r@ == self@,
    {
        ToolCallPresentation {
            server: copy_opt(&self.server),
            tool: copy_opt(&self.tool),
            title: copy_opt(&self.title),
            arguments: copy_args(&self.arguments),
            result: copy_opt(&self.result),
            error: copy_opt(&self.error),
        }
    }
}

pub open spec fn empty_presentation() -> PresentationView {
    PresentationView {
        server: None,
        tool: None,
        title: None,
        arguments: None,
        result: None,
        error: None,
    }
}

/// The server named when a tool is known but no server is.
pub open spec fn default_server() -> Seq<char> {
    "micode"@
}

/// Field-by-field merge: a field already known is kept, a missing one is
/// taken from `inc`; a known tool without a server gets the default server.
pub open spec fn merged(cur: Option<PresentationView>, inc: PresentationView) -> PresentationView {
    let c = match cur {
        Some(c) => c,
        None => empty_presentation(),
    };
    let tool = opt_or(c.tool, inc.tool);
    let server = opt_or(c.server, inc.server);
    PresentationView {
        server: if server is None && tool is Some {
            Some(default_server())
        } else {
            server
        },
        tool,
        title: opt_or(c.title, inc.title),
        arguments: args_or(c.arguments, inc.arguments),
        result: opt_or(c.result, inc.result),
        error: opt_or(c.error, inc.error),
    }
}

fn take_or(a: Option<String>, b: Option<String>) -> (r: Option<String>)
    ensures
        opt_view(r) == opt_or(opt_view(a), opt_view(b)),
{
    if a.is_some() {
        a
    } else {
        b
    }
}

/// Merges what a message says of a tool call into what was known of it.
pub fn merge_tool_presentation(
    current: Option<ToolCallPresentation>,
    incoming: ToolCallPresentation,
) -> (r: ToolCallPresentation)
    ensures
        r@ == merged(
            match current {
                Some(c) => Some(c@),
                None => None,
            },
            incoming@,
        ),
{
    let cur = match current {
        Some(c) => c,
        None => ToolCallPresentation::empty(),
    };
    let tool = take_or(cur.tool, incoming.tool);
    let mut server = take_or(cur.server, incoming.server);
    if server.is_none() && tool.is_some() {
        server = Some(String::from_str("micode"));
    }
    ToolCallPresentation {
        server,
        tool,
        title: take_or(cur.title, incoming.title),
        arguments: take_args_or(cur.arguments, incoming.arguments),
        result: take_or(cur.result, incoming.result),
        error: take_or(cur.error, incoming.error),
    }
}

/// The title shown for a tool call: "server / tool", else the tool, else the
/// free-text title, else a generic label.
pub open spec fn display_title(p: PresentationView) -> Seq<char> {
    match (p.server, p.tool) {
        (Some(s), Some(t)) => "Tool: "@ + s + " / "@ + t,
        (_, Some(t)) => "Tool: "@ + t,
        _ => match p.title {
            Some(ti) => "Tool: "@ + ti,
            None => "Tool Call"@,
        },
    }
}

/// The title shown for a tool call.
pub fn tool_call_display_title(presentation: &ToolCallPresentation) -> (r: String)
    ensures
        r@ == display_title(presentation@),
{
    match (&presentation.server, &presentation.tool) {
        (Some(s), Some(t)) => {
            let mut out = String::from_str("Tool: ");
            out.append(s.as_str());
            out.append(" / ");
            out.append(t.as_str());
            out
        },
        (_, Some(t)) => {
            let mut out = String::from_str("Tool: ");
            out.append(t.as_str());
            out
        },
        _ => match &presentation.title {
            Some(ti) => {
                let mut out = String::from_str("Tool: ");
                out.append(ti.as_str());
                out
            },
            None => String::from_str("Tool Call"),
        },
    }
}

/// Titles that stand for no title at all.
pub open spec fn is_placeholder_title(t: Seq<char>) -> bool {
    t.len() == 0 || t == "{}"@ || t == "[]"@ || lower_ascii(t) == "null"@ || lower_ascii(t)
        == "undefined"@
}

pub open spec fn approval_title(raw: Seq<char>) -> Option<Seq<char>> {
    if is_placeholder_title(trim(raw)) {
        None
    } else {
        Some(trim(raw))
    }
}

pub open spec fn approval_title_of(raw: Option<&str>) -> Option<Seq<char>> {
    match raw {
        Some(s) => approval_title(s@),
        None => None,
    }
}

/// The trimmed title, unless it is empty or a placeholder ("{}", "[]", "null",
/// "undefined", the last two in any ASCII case).
pub fn sanitize_approval_title(raw: Option<&str>) -> (r: Option<String>)
    ensures
        opt_view(r) == approval_title_of(raw),
{
    let s = match raw {
        Some(s) => s,
        None => return None,
    };
    let t = trim_chars_by(&chars_of(s), None);
    let lower = lower_chars(&t);
    if t.len() == 0 || chars_eq(&t, &chars_of("{}")) || chars_eq(&t, &chars_of("[]")) || chars_eq(
        &lower,
        &chars_of("null"),
    ) || chars_eq(&lower, &chars_of("undefined")) {
        None
    } else {
        Some(string_from_chars(t.as_slice()))
    }
}

/// A title as a tool title: sanitized as an approval title, and not a bare
/// path such as ".", ".." or "/".
pub open spec fn tool_title_text(raw: Seq<char>) -> Option<Seq<char>> {
    match approval_title(raw) {
        Some(t) => if trim(t) == "."@ || trim(t) == ".."@ || trim(t) == "/"@ {
            None
        } else {
            Some(trim(t))
        },
        None => None,
    }
}

pub open spec fn tool_title(raw: Option<&str>) -> Option<Seq<char>> {
    match raw {
        Some(s) => tool_title_text(s@),
        None => None,
    }
}

/// A sanitized approval title that is also not a bare path such as ".", ".." or "/".
pub fn sanitize_tool_title(raw: Option<&str>) -> (r: Option<String>)
    ensures
        opt_view(r) == tool_title(raw),
{
    let title = match sanitize_approval_title(raw) {
        Some(t) => t,
        None => return None,
    };
    let t = trim_chars_by(&chars_of(title.as_str()), None);
    if chars_eq(&t, &chars_of(".")) || chars_eq(&t, &chars_of("..")) || chars_eq(
        &t,
        &chars_of("/"),
    ) {
        None
    } else {
        Some(string_from_chars(t.as_slice()))
    }
}

pub open spec fn normalized_name(raw: Seq<char>) -> Seq<char> {
    trim_by(trim_by(trim(raw), Some('"')), Some('\''))
}

pub open spec fn tool_name(raw: Seq<char>) -> Option<Seq<char>> {
    if normalized_name(raw).len() == 0 {
        None
    } else {
        Some(normalized_name(raw))
    }
}

/// The name with surrounding whitespace, then double quotes, then single
/// quotes removed; `None` when nothing is left.
pub fn normalize_tool_name(raw: &str) -> (r: Option<String>)
    ensures
        opt_view(r) == tool_name(raw@),
{
    let a = trim_chars_by(&chars_of(raw), None);
    let b = trim_chars_by(&a, Some('"'));
    let c = trim_chars_by(&b, Some('\''));
    if c.len() == 0 {
        None
    } else {
        Some(string_from_chars(c.as_slice()))
    }
}

pub open spec fn inferred_tool(title: Seq<char>) -> Option<Seq<char>> {
    let l = lower_ascii(title);
    if contains(l, "=>"@) {
        Some("edit"@)
    } else if contains(l, "**/"@) || contains(l, "*."@) {
        Some("glob"@)
    } else if ends_with(l, ".md"@) || ends_with(l, ".txt"@) || ends_with(l, ".json"@) || contains(
        l,
        ".md:"@,
    ) || contains(l, ".txt:"@) || contains(l, ".json:"@) {
        Some("edit"@)
    } else {
        None
    }
}

/// Guesses a tool from a title, by ASCII-case-insensitive patterns: an arrow
/// means an edit, a wildcard a file search, a text-file name an edit. A
/// heuristic, not an authority.
pub fn infer_tool_name_from_title(title: &str) -> (r: Option<String>)
    ensures
        opt_view(r) == inferred_tool(title@),
{
    let l = lower_chars(&chars_of(title));
    if contains_chars(&l, &chars_of("=>")) {
        return Some(String::from_str("edit"));
    }
    if contains_chars(&l, &chars_of("**/")) || contains_chars(&l, &chars_of("*.")) {
        return Some(String::from_str("glob"));
    }
    if ends_with_chars(&l, &chars_of(".md")) || ends_with_chars(&l, &chars_of(".txt"))
        || ends_with_chars(&l, &chars_of(".json")) || contains_chars(&l, &chars_of(".md:"))
        || contains_chars(&l, &chars_of(".txt:")) || contains_chars(&l, &chars_of(".json:")) {
        return Some(String::from_str("edit"));
    }
    None
}

/// A string-valued field of a protocol message.
#[derive(Clone, Debug)]
pub struct StringField {
    pub key: String,
    pub value: String,
}

/// The value of the first field with this key.
pub open spec fn field_value(fields: Seq<StringField>, key: Seq<char>) -> Option<Seq<char>>
    decreases fields.len(),
{
    if fields.len() == 0 {
        None
    } else if fields[0].key@ == key {
        Some(fields[0].value@)
    } else {
        field_value(fields.drop_first(), key)
    }
}

/// The value of the first field with this key.
pub fn string_field(fields: &Vec<StringField>, key: &str) -> (r: Option<String>)
    ensures
        opt_view(r) == field_value(fields@, key@),
{
    let mut i: usize = 0;
    assert(fields@.subrange(0, fields@.len() as int) =~= fields@);
    while i < fields.len()
        invariant
            i <= fields.len(),
            field_value(fields@, key@) == field_value(fields@.subrange(i as int, fields@.len() as int), key@),
        decreases fields.len() - i,
    {
        proof {
            assert(fields@.subrange(i as int, fields@.len() as int).drop_first() =~= fields@.subrange(
                i + 1,
                fields@.len() as int,
            ));
        }
        if str_eq(fields[i].key.as_str(), key) {
            return Some(fields[i].value.clone());
        }
        i = i + 1;
    }
    None
}

pub open spec fn and_then_name(o: Option<Seq<char>>) -> Option<Seq<char>> {
    match o {
        Some(v) => tool_name(v),
        None => None,
    }
}

/// A field's value as a tool or server name.
pub fn name_of(o: Option<String>) -> (r: Option<String>)
    ensures
        opt_view(r) == and_then_name(opt_view(o)),
{
    match o {
        Some(v) => normalize_tool_name(v.as_str()),
        None => None,
    }
}

/// The first of the tool-name keys that holds a string, where `with_action`
/// adds "action" after the others.
pub open spec fn tool_key_field(fields: Seq<StringField>, with_action: bool) -> Option<Seq<char>> {
    opt_or(
        field_value(fields, "tool"@),
        opt_or(
            field_value(fields, "toolName"@),
            opt_or(
                field_value(fields, "name"@),
                opt_or(
                    field_value(fields, "kind"@),
                    opt_or(
                        field_value(fields, "method"@),
                        if with_action {
                            field_value(fields, "action"@)
                        } else {
                            None
                        },
                    ),
                ),
            ),
        ),
    )
}

/// The first string among the tool-name keys.
pub fn tool_key_field_exec(fields: &Vec<StringField>, with_action: bool) -> (r: Option<String>)
    ensures
        opt_view(r) == tool_key_field(fields@, with_action),
{
    let a = string_field(fields, "tool");
    if a.is_some() {
        return a;
    }
    let b = string_field(fields, "toolName");
    if b.is_some() {
        return b;
    }
    let c = string_field(fields, "name");
    if c.is_some() {
        return c;
    }
    let d = string_field(fields, "kind");
    if d.is_some() {
        return d;
    }
    let e = string_field(fields, "method");
    if e.is_some() || !with_action {
        return e;
    }
    string_field(fields, "action")
}

pub open spec fn server_key_field(fields: Seq<StringField>) -> Option<Seq<char>> {
    opt_or(
        field_value(fields, "server"@),
        opt_or(
            field_value(fields, "serverName"@),
            opt_or(
                field_value(fields, "mcpServer"@),
                opt_or(field_value(fields, "provider"@), field_value(fields, "namespace"@)),
            ),
        ),
    )
}

fn server_key_field_exec(fields: &Vec<StringField>) -> (r: Option<String>)
    ensures
        opt_view(r) == server_key_field(fields@),
{
    let a = string_field(fields, "server");
    if a.is_some() {
        return a;
    }
    let b = string_field(fields, "serverName");
    if b.is_some() {
        return b;
    }
    let c = string_field(fields, "mcpServer");
    if c.is_some() {
        return c;
    }
    let d = string_field(fields, "provider");
    if d.is_some() {
        return d;
    }
    string_field(fields, "namespace")
}

/// A tool-call notification, as far as the presentation reads it: its
/// string-valued fields, those of its `content` object, and the `arguments`
/// and `content` values as JSON text.
#[derive(Clone, Debug)]
pub struct ToolUpdate {
    pub tool_call_id: Option<String>,
    pub fields: Vec<StringField>,
    pub content_fields: Vec<StringField>,
    pub arguments: Option<String>,
    pub content_object: Option<String>,
}

pub open spec fn title_field(fields: Seq<StringField>) -> Option<Seq<char>> {
    match field_value(fields, "title"@) {
        Some(t) => tool_title_text(t),
        None => None,
    }
}

/// The `title` field as a tool title.
pub fn title_of_fields(fields: &Vec<StringField>) -> (r: Option<String>)
    ensures
        opt_view(r) == title_field(fields@),
{
    match string_field(fields, "title") {
        Some(t) => sanitize_tool_title(Some(t.as_str())),
        None => None,
    }
}

pub open spec fn inferred_from(title: Option<Seq<char>>) -> Option<Seq<char>> {
    match title {
        Some(t) => inferred_tool(t),
        None => None,
    }
}

/// What an update says of its tool call.
pub open spec fn update_presentation(u: ToolUpdate) -> PresentationView {
    let title = title_field(u.fields@);
    let direct = and_then_name(tool_key_field(u.fields@, true));
    let tool = if direct is Some {
        direct
    } else {
        opt_or(inferred_from(title), and_then_name(tool_key_field(u.content_fields@, true)))
    };
    let server = and_then_name(server_key_field(u.fields@));
    PresentationView {
        server: if server is None && tool is Some {
            Some(default_server())
        } else {
            server
        },
        tool,
        title,
        arguments: match opt_or(opt_view(u.arguments), opt_view(u.content_object)) {
            Some(j) => Some(ArgumentsView::Json(j)),
            None => None,
        },
        result: field_value(u.fields@, "result"@),
        error: field_value(u.fields@, "error"@),
    }
}

/// What a tool-call notification says of its call.
pub fn extract_tool_presentation_from_update(update: &ToolUpdate) -> (r: ToolCallPresentation)
    ensures
        r@ == update_presentation(*update),
{
    let title = title_of_fields(&update.fields);
    let mut tool = name_of(tool_key_field_exec(&update.fields, true));
    if tool.is_none() {
        tool = match &title {
            Some(t) => infer_tool_name_from_title(t.as_str()),
            None => None,
        };
        if tool.is_none() {
            tool = name_of(tool_key_field_exec(&update.content_fields, true));
        }
    }
    let mut server = name_of(server_key_field_exec(&update.fields));
    if server.is_none() && tool.is_some() {
        server = Some(String::from_str("micode"));
    }
    let json = if update.arguments.is_some() {
        copy_opt(&update.arguments)
    } else {
        copy_opt(&update.content_object)
    };
    let arguments = match json {
        Some(j) => Some(ToolArguments::Json(j)),
        None => None,
    };
    ToolCallPresentation {
        server,
        tool,
        title,
        arguments,
        result: string_field(&update.fields, "result"),
        error: string_field(&update.fields, "error"),
    }
}

} // verus!
