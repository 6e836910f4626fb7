use vstd::prelude::*;

use crate::text::chars_of;

verus! {

/// `x` clamped to the range of `i64`.
pub open spec fn clamp64(x: int) -> i64 {
    if x > i64::MAX {
        i64::MAX
    } else if x < i64::MIN {
        i64::MIN
    } else {
        x as i64
    }
}

/// Saturating addition of two `i64`.
pub fn sat_add(a: i64, b: i64) -> (r: i64)
    ensures
        r == clamp64(a + b),
{
    if a > 0 && b > i64::MAX - a {
        i64::MAX
    } else if a < 0 && b < i64::MIN - a {
        i64::MIN
    } else {
        a + b
    }
}

pub open spec fn digit_value(c: char) -> int {
    (c as u32) as int - 48
}

pub open spec fn is_digit(c: char) -> bool {
    '0' <= c && c <= '9'
}

/// The value of a run of decimal digits.
pub open spec fn digits_value(s: Seq<char>) -> int
    decreases s.len(),
{
    if s.len() == 0 {
        0
    } else {
        digits_value(s.drop_last()) * 10 + digit_value(s.last())
    }
}

pub open spec fn all_digits(s: Seq<char>) -> bool {
    forall|i: int| 0 <= i < s.len() ==> is_digit(s[i])
}

/// What `str::parse::<i64>` accepts: an optional sign, then one or more
/// ASCII digits, with a value in range.
pub open spec fn negative(s: Seq<char>) -> bool {
    s.len() > 0 && s[0] == '-'
}

/// The digits after an optional sign.
pub open spec fn unsigned_part(s: Seq<char>) -> Seq<char> {
    if s.len() > 0 && (s[0] == '-' || s[0] == '+') {
        s.drop_first()
    } else {
        s
    }
}

pub open spec fn parsed_i64(s: Seq<char>) -> Option<i64> {
    let neg = negative(s);
    let body = unsigned_part(s);
    let v = if neg {
        -digits_value(body)
    } else {
        digits_value(body)
    };
    if body.len() == 0 || !all_digits(body) || v > i64::MAX || v < i64::MIN {
        None
    } else {
        Some(v as i64)
    }
}

proof fn lemma_digits_nonneg(s: Seq<char>)
    requires
        all_digits(s),
    ensures
        digits_value(s) >= 0,
    decreases s.len(),
{
    if s.len() > 0 {
        lemma_digits_nonneg(s.drop_last());
    }
}

proof fn lemma_digits_monotone(s: Seq<char>, i: int)
    requires
        all_digits(s),
        0 <= i <= s.len(),
    ensures
        digits_value(s.subrange(0, i)) <= digits_value(s),
    decreases s.len() - i,
{
    if i < s.len() {
        let t = s.subrange(0, i + 1);
        assert(t.drop_last() =~= s.subrange(0, i));
        lemma_digits_nonneg(s.subrange(0, i));
        lemma_digits_monotone(s, i + 1);
    } else {
        assert(s.subrange(0, i) =~= s);
    }
}

/// Parses a decimal integer as `str::parse::<i64>` does.
pub fn parse_i64(s: &str) -> (r: Option<i64>)
    ensures
        r == parsed_i64(s@),
{
    let v = chars_of(s);
    let n = v.len();
    let mut start: usize = 0;
    let mut neg = false;
    if n > 0 && v[0] == '-' {
        neg = true;
        start = 1;
    } else if n > 0 && v[0] == '+' {
        start = 1;
    }
    let ghost body = v@.subrange(start as int, n as int);
    proof {
        if start == 1 {
            assert(body =~= v@.drop_first());
        } else {
            assert(body =~= v@);
        }
        assert(body == unsigned_part(s@));
        assert(neg == negative(s@));
    }
    if start == n {
        return None;
    }
    // The magnitude, kept within what the sign allows.
    let limit: u64 = if neg {
        9223372036854775808
    } else {
        9223372036854775807
    };
    let mut acc: u64 = 0;
    let mut i: usize = start;
    while i < n
        invariant
            start <= i <= n,
            n == v.len(),
            body == v@.subrange(start as int, n as int),
            body == unsigned_part(s@),
            neg == negative(s@),
            limit == (if neg { 9223372036854775808u64 } else { 9223372036854775807u64 }),
            all_digits(v@.subrange(start as int, i as int)),
            acc as int == digits_value(v@.subrange(start as int, i as int)),
            acc <= limit,
        decreases n - i,
    {
        let c = v[i];
        let ghost pre = v@.subrange(start as int, i as int);
        let ghost post = v@.subrange(start as int, i + 1);
        assert(post.drop_last() =~= pre);
        if !('0' <= c && c <= '9') {
            proof {
                assert(body[i - start] == c);
                assert(!is_digit(body[i - start]));
                assert(!all_digits(body));
            }
            return None;
        }
        let d = (c as u32 - 48) as u64;
        if acc > (limit - d) / 10 {
            proof {
                assert(all_digits(post));
                assert(digits_value(post) == acc * 10 + d);
                assert(acc * 10 + d > limit) by (nonlinear_arith)
                    requires
                        acc > (limit - d) / 10,
                        d <= 9,
                        limit >= 9,
                ;
                let m = i + 1 - start;
                assert(body.subrange(0, m) =~= post);
                if all_digits(body) {
                    lemma_digits_monotone(body, m);
                    assert(digits_value(body) > limit);
                    if neg {
                        assert(-digits_value(body) < i64::MIN);
                    } else {
                        assert(digits_value(body) > i64::MAX);
                    }
                }
            }
            return None;
        }
        proof {
            assert(acc * 10 + d <= limit) by (nonlinear_arith)
                requires
                    acc <= (limit - d) / 10,
                    d <= 9,
                    limit >= 9,
            ;
        }
        acc = acc * 10 + d;
        i = i + 1;
    }
    assert(v@.subrange(start as int, n as int) == body);
    if neg {
        if acc == 9223372036854775808 {
            Some(i64::MIN)
        } else {
            Some(-(acc as i64))
        }
    } else {
        Some(acc as i64)
    }
}

/// A token count as a message may give it.
#[derive(Clone, Debug)]
pub enum UsageValue {
    Missing,
    Signed(i64),
    Unsigned(u64),
    Text(String),
    Other,
}

pub open spec fn usage_number(v: UsageValue) -> i64 {
    match v {
        UsageValue::Signed(i) => i,
        UsageValue::Unsigned(u) => if u > i64::MAX as u64 {
            i64::MAX
        } else {
            u as i64
        },
        UsageValue::Text(s) => match parsed_i64(s@) {
            Some(x) => x,
            None => 0,
        },
        _ => 0,
    }
}

/// A count as a number: integers as they are (unsigned ones capped), text
/// parsed as a decimal, anything else zero.
pub fn read_usage_number(value: &UsageValue) -> (r: i64)
    ensures
        r == usage_number(*value),
{
    match value {
        UsageValue::Signed(i) => *i,
        UsageValue::Unsigned(u) => if *u > 9223372036854775807 {
            i64::MAX
        } else {
            *u as i64
        },
        UsageValue::Text(s) => match parse_i64(s.as_str()) {
            Some(x) => x,
            None => 0,
        },
        _ => 0,
    }
}

/// The `tokens` object of one message of a session file.
#[derive(Clone, Debug)]
pub struct MessageTokens {
    pub input: UsageValue,
    pub cached: UsageValue,
    pub output: UsageValue,
    pub thoughts: UsageValue,
    pub tool: UsageValue,
    pub total: UsageValue,
}

/// Token usage of one message, or summed over a thread.
#[derive(Clone, Copy, Debug, PartialEq, Eq, Structural)]
pub struct TokenUsage {
    pub input: i64,
    pub cached_input: i64,
    pub output: i64,
    pub reasoning_output: i64,
    pub total: i64,
}

pub open spec fn nonneg(x: i64) -> i64 {
    if x < 0 {
        0
    } else {
        x
    }
}

/// A message's usage: tool tokens count as output, the total is the given
/// one when positive and otherwise the (saturating) sum, and negative counts
/// read as zero.
pub open spec fn message_usage(t: MessageTokens) -> TokenUsage {
    let input = usage_number(t.input);
    let output = usage_number(t.output);
    let reasoning = usage_number(t.thoughts);
    let tool = usage_number(t.tool);
    let explicit = usage_number(t.total);
    let total = if explicit > 0 {
        explicit
    } else {
        clamp64(clamp64(clamp64(input + output) + reasoning) + tool)
    };
    TokenUsage {
        input: nonneg(input),
        cached_input: nonneg(usage_number(t.cached)),
        output: nonneg(clamp64(output + tool)),
        reasoning_output: nonneg(reasoning),
        total: nonneg(total),
    }
}

fn max0(x: i64) -> (r: i64)
    ensures
        r == nonneg(x),
{
    if x < 0 {
        0
    } else {
        x
    }
}

/// The usage of one message.
pub fn normalize_message_token_usage(tokens: &MessageTokens) -> (r: TokenUsage)
    ensures
        r == message_usage(*tokens),
{
    let input = read_usage_number(&tokens.input);
    let cached = read_usage_number(&tokens.cached);
    let output = read_usage_number(&tokens.output);
    let reasoning = read_usage_number(&tokens.thoughts);
    let tool = read_usage_number(&tokens.tool);
    let explicit = read_usage_number(&tokens.total);
    let total = if explicit > 0 {
        explicit
    } else {
        sat_add(sat_add(sat_add(input, output), reasoning), tool)
    };
    TokenUsage {
        input: max0(input),
        cached_input: max0(cached),
        output: max0(sat_add(output, tool)),
        reasoning_output: max0(reasoning),
        total: max0(total),
    }
}

pub open spec fn usage_sum(a: TokenUsage, b: TokenUsage) -> TokenUsage {
    TokenUsage {
        input: clamp64(a.input + b.input),
        cached_input: clamp64(a.cached_input + b.cached_input),
        output: clamp64(a.output + b.output),
        reasoning_output: clamp64(a.reasoning_output + b.reasoning_output),
        total: clamp64(a.total + b.total),
    }
}

/// The usages of the messages that carry a `tokens` object, in order.
pub open spec fn message_usages(ms: Seq<Option<MessageTokens>>) -> Seq<TokenUsage>
    decreases ms.len(),
{
    if ms.len() == 0 {
        seq![]
    } else {
        let rest = message_usages(ms.drop_last());
        match ms.last() {
            Some(t) => rest.push(message_usage(t)),
            None => rest,
        }
    }
}

/// The saturating running sum of usages.
pub open spec fn summed(us: Seq<TokenUsage>) -> TokenUsage
    decreases us.len(),
{
    if us.len() == 0 {
        TokenUsage { input: 0, cached_input: 0, output: 0, reasoning_output: 0, total: 0 }
    } else {
        usage_sum(summed(us.drop_last()), us.last())
    }
}

/// The last message's usage and the thread's running total.
#[derive(Clone, Copy, Debug)]
pub struct ThreadTokenUsage {
    pub last: TokenUsage,
    pub total: TokenUsage,
}

/// A thread's usage from the messages of its session file (`None` for a
/// message without a `tokens` object); none when no message has one.
pub fn parse_thread_token_usage_from_session(messages: &Vec<Option<MessageTokens>>) -> (r: Option<
    ThreadTokenUsage,
>)
    ensures
        match r {
            None => message_usages(messages@).len() == 0,
            Some(u) => message_usages(messages@).len() > 0 && u.last == message_usages(
                messages@,
            ).last() && u.total == summed(message_usages(messages@)),
        },
{
    let mut total = TokenUsage { input: 0, cached_input: 0, output: 0, reasoning_output: 0, total: 0 };
    let mut last: Option<TokenUsage> = None;
    let mut i: usize = 0;
    while i < messages.len()
        invariant
            i <= messages.len(),
            total == summed(message_usages(messages@.subrange(0, i as int))),
            match last {
                None => message_usages(messages@.subrange(0, i as int)).len() == 0,
                Some(l) => message_usages(messages@.subrange(0, i as int)).len() > 0 && l
                    == message_usages(messages@.subrange(0, i as int)).last(),
            },
        decreases messages.len() - i,
    {
        proof {
            assert(messages@.subrange(0, i + 1).drop_last() =~= messages@.subrange(0, i as int));
        }
        if let Some(t) = &messages[i] {
            let u = normalize_message_token_usage(t);
            let ghost us = message_usages(messages@.subrange(0, i + 1));
            assert(us.drop_last() =~= message_usages(messages@.subrange(0, i as int)));
            total = TokenUsage {
                input: sat_add(total.input, u.input),
                cached_input: sat_add(total.cached_input, u.cached_input),
                output: sat_add(total.output, u.output),
                reasoning_output: sat_add(total.reasoning_output, u.reasoning_output),
                total: sat_add(total.total, u.total),
            };
            last = Some(u);
        }
        i = i + 1;
    }
    assert(messages@.subrange(0, messages.len() as int) =~= messages@);
    match last {
        Some(l) => Some(ThreadTokenUsage { last: l, total }),
        None => None,
    }
}

} // verus!
