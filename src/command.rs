use vstd::prelude::*;
use vstd::string::*;

use crate::approval::ApprovalOption;
use crate::text::{chars_of, is_whitespace_char, is_ws, string_from_chars, trim, trim_chars_by};
use crate::tool::{
    and_then_name, approval_title, copy_words, default_server, field_value,
    infer_tool_name_from_title, inferred_from, name_of, opt_or, sanitize_approval_title,
    string_field, string_views, title_field, title_of_fields, tool_key_field,
    tool_key_field_exec, ArgumentsView, PresentationView, StringField, ToolArguments,
    ToolCallPresentation,
};

verus! {

/// The whitespace-separated words of `s` from index `i` on, where `start` is
/// where the word being read began.
pub open spec fn words_from(s: Seq<char>, i: int, start: Option<int>) -> Seq<Seq<char>>
    decreases s.len() - i,
{
    if i >= s.len() {
        match start {
            Some(b) => seq![s.subrange(b, s.len() as int)],
            None => seq![],
        }
    } else if is_ws(s[i]) {
        match start {
            Some(b) => seq![s.subrange(b, i)] + words_from(s, i + 1, None),
            None => words_from(s, i + 1, None),
        }
    } else {
        words_from(
            s,
            i + 1,
            if start is Some {
                start
            } else {
                Some(i)
            },
        )
    }
}

/// The whitespace-separated words of `s`, as `str::split_whitespace` gives them.
pub open spec fn words(s: Seq<char>) -> Seq<Seq<char>> {
    words_from(s, 0, None)
}

fn slice_string(v: &Vec<char>, from: usize, to: usize) -> (r: String)
    requires
        from <= to <= v.len(),
    ensures
        r@ == v@.subrange(from as int, to as int),
{
    let mut out: Vec<char> = Vec::new();
    let mut k: usize = from;
    while k < to
        invariant
            from <= k <= to <= v.len(),
            out@ =~= v@.subrange(from as int, k as int),
        decreases to - k,
    {
        out.push(v[k]);
        k = k + 1;
    }
    string_from_chars(out.as_slice())
}

/// Splits a command line into its whitespace-separated words.
pub fn split_shell_like_tokens(value: &str) -> (r: Vec<String>)
    ensures
        string_views(r@) == words(value@),
{
    let s = chars_of(value);
    let n = s.len();
    let mut out: Vec<String> = Vec::new();
    let mut start: Option<usize> = None;
    let mut i: usize = 0;
    while i < n
        invariant
            n == s.len(),
            s@ == value@,
            i <= n,
            match start {
                Some(b) => b < i,
                None => true,
            },
            string_views(out@) + words_from(
                s@,
                i as int,
                match start {
                    Some(b) => Some(b as int),
                    None => None,
                },
            ) == words(s@),
        decreases n - i,
    {
        let ghost st = match start {
            Some(b) => Some(b as int),
            None => None,
        };
        let ghost prev = out@;
        if is_whitespace_char(s[i]) {
            if let Some(b) = start {
                let w = slice_string(&s, b, i);
                out.push(w);
                assert(string_views(out@) =~= string_views(prev).push(w@));
                assert(string_views(out@) + words_from(s@, i + 1, None) =~= string_views(prev)
                    + words_from(s@, i as int, st));
            }
            start = None;
        } else {
            if start.is_none() {
                start = Some(i);
            }
        }
        i = i + 1;
    }
    if let Some(b) = start {
        let ghost prev = out@;
        let w = slice_string(&s, b, n);
        out.push(w);
        assert(string_views(out@) =~= string_views(prev) + words_from(s@, n as int, Some(b as int)));
    } else {
        assert(string_views(out@) =~= string_views(out@) + words_from(s@, n as int, None));
    }
    out
}

/// A command as a permission request may give it.
#[derive(Clone, Debug)]
pub enum CommandValue {
    Absent,
    /// A command line.
    Text(String),
    /// An argument list (its string elements).
    List(Vec<String>),
}

pub open spec fn nonblank(x: Seq<char>) -> bool {
    x.len() > 0
}

pub open spec fn trimmed_nonblank(items: Seq<Seq<char>>) -> Seq<Seq<char>> {
    items.map_values(|x: Seq<char>| trim(x)).filter(|x: Seq<char>| nonblank(x))
}

pub open spec fn command_words(v: CommandValue) -> Seq<Seq<char>> {
    match v {
        CommandValue::Absent => seq![],
        CommandValue::Text(s) => words(s@),
        CommandValue::List(items) => trimmed_nonblank(string_views(items@)),
    }
}

/// The words of a command: a command line split at whitespace, or the
/// trimmed, non-empty elements of a list.
pub fn extract_command_tokens(value: &CommandValue) -> (r: Vec<String>)
    ensures
        string_views(r@) == command_words(*value),
{
    match value {
        CommandValue::Absent => {
            let r: Vec<String> = Vec::new();
            assert(string_views(r@) =~= seq![]);
            r
        },
        CommandValue::Text(s) => split_shell_like_tokens(s.as_str()),
        CommandValue::List(items) => {
            let ghost src = string_views(items@).map_values(|x: Seq<char>| trim(x));
            let mut out: Vec<String> = Vec::new();
            let mut i: usize = 0;
            while i < items.len()
                invariant
                    i <= items.len(),
                    src == string_views(items@).map_values(|x: Seq<char>| trim(x)),
                    string_views(out@) == src.subrange(0, i as int).filter(|x: Seq<char>| nonblank(x)),
                decreases items.len() - i,
            {
                let ghost prev = out@;
                let t = trim_chars_by(&chars_of(items[i].as_str()), None);
                assert(t@ == src[i as int]);
                if t.len() > 0 {
                    out.push(string_from_chars(t.as_slice()));
                    assert(string_views(out@) =~= string_views(prev).push(src[i as int]));
                }
                proof {
                    let s = src.subrange(0, i + 1);
                    assert(s.drop_last() =~= src.subrange(0, i as int));
                    reveal(Seq::filter);
                }
                i = i + 1;
            }
            assert(src.subrange(0, items.len() as int) =~= src);
            out
        },
    }
}

/// The `toolCall` member of a permission request.
#[derive(Clone, Debug)]
pub struct PermissionToolCall {
    pub tool_call_id: Option<String>,
    /// Its string-valued fields.
    pub fields: Vec<StringField>,
    pub command: CommandValue,
    pub argv: CommandValue,
    pub args: CommandValue,
    /// Its `arguments` value as JSON text.
    pub arguments: Option<String>,
}

/// A permission request from the agent: which tool call it gates, what it
/// would run, and the options it offers.
#[derive(Clone, Debug)]
pub struct PermissionRequest {
    pub session_id: Option<String>,
    pub tool_call: Option<PermissionToolCall>,
    pub command: CommandValue,
    pub argv: CommandValue,
    pub args: CommandValue,
    pub options: Vec<ApprovalOption>,
}

pub open spec fn first_words(a: Seq<Seq<char>>, b: Seq<Seq<char>>) -> Seq<Seq<char>> {
    if a.len() > 0 {
        a
    } else {
        b
    }
}

/// What a permission request would run, probed in order: the tool call's
/// command, argv and args, the same at the top level, the tool call's title,
/// and a fixed fallback.
pub open spec fn approval_command(p: PermissionRequest) -> Seq<Seq<char>> {
    let tc = match p.tool_call {
        Some(tc) => first_words(
            command_words(tc.command),
            first_words(command_words(tc.argv), command_words(tc.args)),
        ),
        None => seq![],
    };
    let top = first_words(
        command_words(p.command),
        first_words(command_words(p.argv), command_words(p.args)),
    );
    let title = match p.tool_call {
        Some(tc) => match field_value(tc.fields@, "title"@) {
            Some(t) => match approval_title(t) {
                Some(x) => seq![x],
                None => seq![],
            },
            None => seq![],
        },
        None => seq![],
    };
    first_words(tc, first_words(top, first_words(title, seq!["Approve action"@])))
}

/// The command a permission request shows for approval.
pub fn extract_approval_command(params: &PermissionRequest) -> (r: Vec<String>)
    ensures
        string_views(r@) == approval_command(*params),
        r@.len() > 0,
{
    let mut command: Vec<String> = Vec::new();
    if let Some(tc) = &params.tool_call {
        command = extract_command_tokens(&tc.command);
        if command.len() == 0 {
            command = extract_command_tokens(&tc.argv);
        }
        if command.len() == 0 {
            command = extract_command_tokens(&tc.args);
        }
    }
    if command.len() == 0 {
        command = extract_command_tokens(&params.command);
    }
    if command.len() == 0 {
        command = extract_command_tokens(&params.argv);
    }
    if command.len() == 0 {
        command = extract_command_tokens(&params.args);
    }
    if command.len() == 0 {
        if let Some(tc) = &params.tool_call {
            if let Some(t) = string_field(&tc.fields, "title") {
                if let Some(x) = sanitize_approval_title(Some(t.as_str())) {
                    command.push(x);
                }
            }
        }
    }
    if command.len() == 0 {
        command.push(String::from_str("Approve action"));
    }
    proof {
        assert(string_views(command@) =~= approval_command(*params));
    }
    command
}

/// What a permission request says of its tool call, with the call id.
pub open spec fn permission_presentation(p: PermissionRequest) -> Option<(Seq<char>, PresentationView)> {
    match p.tool_call {
        None => None,
        Some(tc) => match tc.tool_call_id {
            None => None,
            Some(id) => {
                let title = title_field(tc.fields@);
                let direct = and_then_name(tool_key_field(tc.fields@, false));
                let cmd = approval_command(p);
                let tool = if direct is Some {
                    direct
                } else {
                    opt_or(inferred_from(title), Some(cmd[0]))
                };
                Some(
                    (
                        id@,
                        PresentationView {
                            server: Some(default_server()),
                            tool,
                            title,
                            arguments: match tc.arguments {
                                Some(a) => Some(ArgumentsView::Json(a@)),
                                None => Some(ArgumentsView::Command(cmd)),
                            },
                            result: field_value(tc.fields@, "result"@),
                            error: field_value(tc.fields@, "error"@),
                        },
                    ),
                )
            },
        },
    }
}

/// The call id a permission request gates and what it says of that call.
pub fn extract_tool_presentation_from_permission(params: &PermissionRequest) -> (r: Option<
    (String, ToolCallPresentation),
>)
    ensures
        match r {
            Some((id, p)) => permission_presentation(*params) == Some((id@, p@)),
            None => permission_presentation(*params) is None,
        },
{
    let tc = match &params.tool_call {
        Some(tc) => tc,
        None => return None,
    };
    let id = match &tc.tool_call_id {
        Some(id) => id.clone(),
        None => return None,
    };
    let command = extract_approval_command(params);
    let mut tool = name_of(tool_key_field_exec(&tc.fields, false));
    let title = title_of_fields(&tc.fields);
    if tool.is_none() {
        tool = match &title {
            Some(t) => infer_tool_name_from_title(t.as_str()),
            None => None,
        };
        if tool.is_none() {
            tool = Some(command[0].clone());
        }
    }
    let arguments = match &tc.arguments {
        Some(a) => Some(ToolArguments::Json(a.clone())),
        None => Some(ToolArguments::Command(copy_words(&command))),
    };
    let p = ToolCallPresentation {
        server: Some(String::from_str("micode")),
        tool,
        title,
        arguments,
        result: string_field(&tc.fields, "result"),
        error: string_field(&tc.fields, "error"),
    };
    Some((id, p))
}

} // verus!
