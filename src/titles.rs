use vstd::prelude::*;
use vstd::string::*;

use crate::command::{split_shell_like_tokens, words};
use crate::text::{chars_of, str_eq, string_from_chars, trim, trim_chars_by};
use crate::tool::string_views;

verus! {

/// The pieces joined with `sep` between them.
pub open spec fn joined(ws: Seq<Seq<char>>, sep: Seq<char>) -> Seq<char>
    decreases ws.len(),
{
    if ws.len() == 0 {
        seq![]
    } else if ws.len() == 1 {
        ws[0]
    } else {
        joined(ws.drop_last(), sep) + sep + ws.last()
    }
}

/// The strings joined with `sep` between them.
pub fn join_strings(ws: &Vec<String>, sep: &str) -> (r: String)
    ensures
        r@ == joined(string_views(ws@), sep@),
{
    let mut out = String::new();
    let mut i: usize = 0;
    while i < ws.len()
        invariant
            i <= ws.len(),
            out@ == joined(string_views(ws@.subrange(0, i as int)), sep@),
        decreases ws.len() - i,
    {
        proof {
            let pre = string_views(ws@.subrange(0, i + 1));
            assert(pre.drop_last() =~= string_views(ws@.subrange(0, i as int)));
        }
        if i > 0 {
            out.append(sep);
        }
        out.append(ws[i].as_str());
        i = i + 1;
    }
    assert(ws@.subrange(0, ws.len() as int) =~= ws@);
    out
}

/// The text before the first line break.
pub open spec fn first_line(s: Seq<char>) -> Seq<char>
    decreases s.len(),
{
    if s.len() == 0 || s[0] == '\n' {
        seq![]
    } else {
        seq![s[0]] + first_line(s.drop_first())
    }
}

pub open spec fn take(s: Seq<char>, n: nat) -> Seq<char> {
    if s.len() <= n {
        s
    } else {
        s.subrange(0, n as int)
    }
}

/// A thread title from a prompt: the first line's words, single-spaced, at
/// most 38 characters; none for a blank first line.
pub open spec fn thread_title(prompt: Seq<char>) -> Option<Seq<char>> {
    let line = trim(first_line(prompt));
    let compact = joined(words(line), " "@);
    if line.len() == 0 || compact.len() == 0 {
        None
    } else {
        Some(take(compact, 38))
    }
}

/// The title a thread takes from a prompt, if the prompt's first line has words.
pub fn derive_thread_title(prompt: &str) -> (r: Option<String>)
    ensures
        match r {
            Some(t) => thread_title(prompt@) == Some(t@),
            None => thread_title(prompt@) is None,
        },
{
    let p = chars_of(prompt);
    let mut line: Vec<char> = Vec::new();
    let mut i: usize = 0;
    assert(p@.subrange(0, p@.len() as int) =~= p@);
    while i < p.len() && p[i] != '\n'
        invariant
            i <= p.len(),
            line@ + first_line(p@.subrange(i as int, p@.len() as int)) == first_line(p@),
        decreases p.len() - i,
    {
        let ghost prev = line@;
        proof {
            assert(p@.subrange(i as int, p@.len() as int).drop_first() =~= p@.subrange(i + 1, p@.len() as int));
        }
        line.push(p[i]);
        assert(line@ + first_line(p@.subrange(i + 1, p@.len() as int)) =~= prev + first_line(
            p@.subrange(i as int, p@.len() as int),
        ));
        i = i + 1;
    }
    assert(line@ =~= line@ + first_line(p@.subrange(i as int, p@.len() as int)));
    let t = trim_chars_by(&line, None);
    if t.len() == 0 {
        return None;
    }
    let ts = string_from_chars(t.as_slice());
    let compact = join_strings(&split_shell_like_tokens(ts.as_str()), " ");
    let c = chars_of(compact.as_str());
    if c.len() == 0 {
        return None;
    }
    let n: usize = if c.len() <= 38 {
        c.len()
    } else {
        38
    };
    let mut out: Vec<char> = Vec::new();
    let mut j: usize = 0;
    while j < n
        invariant
            n <= c.len(),
            j <= n,
            out@ =~= c@.subrange(0, j as int),
        decreases n - j,
    {
        out.push(c[j]);
        j = j + 1;
    }
    assert(c@.subrange(0, c.len() as int) =~= c@);
    Some(string_from_chars(out.as_slice()))
}

/// One element of a turn's input list.
#[derive(Clone, Debug)]
pub struct InputItem {
    pub kind: Option<String>,
    pub text: Option<String>,
}

/// The texts of the input elements of kind "text".
pub open spec fn input_texts(items: Seq<InputItem>) -> Seq<Seq<char>>
    decreases items.len(),
{
    if items.len() == 0 {
        seq![]
    } else {
        let rest = input_texts(items.drop_last());
        let it = items.last();
        if it.kind matches Some(k) && k@ == "text"@ && it.text is Some {
            rest.push(it.text->0@)
        } else {
            rest
        }
    }
}

/// A turn's prompt: the text elements of its input joined by line breaks and
/// trimmed, else its trimmed `text` field, else empty.
pub open spec fn turn_prompt(items: Seq<InputItem>, text: Option<Seq<char>>) -> Seq<char> {
    let from_input = trim(joined(input_texts(items), "\n"@));
    if from_input.len() > 0 {
        from_input
    } else {
        match text {
            Some(t) => trim(t),
            None => seq![],
        }
    }
}

/// The prompt text of a turn request, from its input list or its `text` field.
pub fn parse_prompt_from_turn_start(input: &Vec<InputItem>, text: Option<&str>) -> (r: String)
    ensures
        r@ == turn_prompt(
            input@,
            match text {
                Some(t) => Some(t@),
                None => None,
            },
        ),
{
    let mut texts: Vec<String> = Vec::new();
    let mut i: usize = 0;
    while i < input.len()
        invariant
            i <= input.len(),
            string_views(texts@) == input_texts(input@.subrange(0, i as int)),
        decreases input.len() - i,
    {
        let ghost prev = texts@;
        proof {
            assert(input@.subrange(0, i + 1).drop_last() =~= input@.subrange(0, i as int));
        }
        if let (Some(k), Some(t)) = (&input[i].kind, &input[i].text) {
            if str_eq(k.as_str(), "text") {
                texts.push(t.clone());
                assert(string_views(texts@) =~= string_views(prev).push(t@));
            }
        }
        i = i + 1;
    }
    assert(input@.subrange(0, input.len() as int) =~= input@);
    let joined_text = join_strings(&texts, "\n");
    let from_input = trim_chars_by(&chars_of(joined_text.as_str()), None);
    if from_input.len() > 0 {
        return string_from_chars(from_input.as_slice());
    }
    match text {
        Some(t) => {
            let tt = trim_chars_by(&chars_of(t), None);
            string_from_chars(tt.as_slice())
        },
        None => String::new(),
    }
}

} // verus!
