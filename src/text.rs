use vstd::prelude::*;
use vstd::string::StringExecFns;

use crate::request::{ContentPart, MessageContent, MessageRole};

verus! {

/// `parts` with `sep` between neighbours.
pub open spec fn join(parts: Seq<Seq<char>>, sep: Seq<char>) -> Seq<char>
    decreases parts.len(),
{
    if parts.len() == 0 {
        Seq::empty()
    } else if parts.len() == 1 {
        parts[0]
    } else {
        join(parts.drop_last(), sep) + sep + parts.last()
    }
}

/// Texts of the text parts, in order; images are left out.
pub open spec fn part_texts(ps: Seq<ContentPart>) -> Seq<Seq<char>>
    decreases ps.len(),
{
    if ps.len() == 0 {
        Seq::empty()
    } else {
        let rest = part_texts(ps.drop_last());
        match ps.last() {
            ContentPart::Text { text } => rest.push(text@),
            ContentPart::Image { .. } => rest,
        }
    }
}

/// Content flattened to text: plain text as it is, parts as their texts
/// joined by single spaces.
pub open spec fn flat_text(c: MessageContent) -> Seq<char> {
    match c {
        MessageContent::Text(t) => t@,
        MessageContent::MultiPart(ps) => join(part_texts(ps@), " "@),
    }
}

/// Wire name of a role; a function message travels as a user turn.
pub open spec fn role_name(r: MessageRole) -> Seq<char> {
    match r {
        MessageRole::System => "system"@,
        MessageRole::User => "user"@,
        MessageRole::Assistant => "assistant"@,
        MessageRole::Function => "user"@,
    }
}

/// Role named by wire text; an unknown name is read as the assistant's.
pub open spec fn role_of_name(s: Seq<char>) -> MessageRole {
    if s == "user"@ {
        MessageRole::User
    } else if s == "system"@ {
        MessageRole::System
    } else {
        MessageRole::Assistant
    }
}

/// Text of a decimal digit.
pub open spec fn digit_text(d: nat) -> Seq<char> {
    if d == 0 { "0"@ } else if d == 1 { "1"@ } else if d == 2 { "2"@ } else if d == 3 { "3"@ } else if d == 4 {
        "4"@
    } else if d == 5 { "5"@ } else if d == 6 { "6"@ } else if d == 7 { "7"@ } else if d == 8 { "8"@ } else { "9"@ }
}

/// Decimal text of `n`, without leading zeros.
pub open spec fn decimal(n: nat) -> Seq<char>
    decreases n,
{
    if n < 10 {
        digit_text(n)
    } else {
        decimal(n / 10) + digit_text(n % 10)
    }
}

fn digit(d: u32) -> (r: &'static str)
    requires
        d < 10,
    ensures
        r@ == digit_text(d as nat),
{
    match d {
        0 => "0",
        1 => "1",
        2 => "2",
        3 => "3",
        4 => "4",
        5 => "5",
        6 => "6",
        7 => "7",
        8 => "8",
        _ => "9",
    }
}

/// Decimal text of `n`.
pub fn decimal_text(n: u32) -> (r: String)
    ensures
        r@ == decimal(n as nat),
    decreases n,
{
    if n < 10 {
        String::from_str(digit(n))
    } else {
        let mut r = decimal_text(n / 10);
        r.append(digit(n % 10));
        r
    }
}

/// Whether `a` holds exactly the characters of `b`.
pub fn text_eq(a: &str, b: &str) -> (r: bool)
    ensures
        r == (a@ == b@),
{
    String::from_str(a) == String::from_str(b)
}

/// Appends `part` to `acc`, which joins `count` texts so far, keeping it the
/// join of all of them by `sep`.
pub fn push_joined(acc: &mut String, count: usize, part: &str, sep: &str)
    ensures
        count == 0 ==> final(acc)@ == old(acc)@ + part@,
        count > 0 ==> final(acc)@ == old(acc)@ + sep@ + part@,
{
    if count > 0 {
        acc.append(sep);
    }
    acc.append(part);
}

/// Texts of the text parts joined by `sep`.
pub fn join_part_texts(parts: &Vec<ContentPart>, sep: &str) -> (r: String)
    ensures
        r@ == join(part_texts(parts@), sep@),
{
    let mut r = String::new();
    let mut count: usize = 0;
    let mut i: usize = 0;
    while i < parts.len()
        invariant
            i <= parts@.len(),
            count == part_texts(parts@.subrange(0, i as int)).len(),
            count <= i,
            r@ == join(part_texts(parts@.subrange(0, i as int)), sep@),
        decreases parts@.len() - i,
    {
        proof {
            assert(parts@.subrange(0, i + 1).drop_last() == parts@.subrange(0, i as int));
        }
        match &parts[i] {
            ContentPart::Text { text } => {
                let ghost before = part_texts(parts@.subrange(0, i as int));
                push_joined(&mut r, count, text.as_str(), sep);
                proof {
                    let after = before.push(text@);
                    assert(after.drop_last() == before);
                    if count == 0 {
                        assert(before.len() == 0);
                        assert(r@ == after[0]);
                    }
                }
                count = count + 1;
            },
            ContentPart::Image { .. } => {},
        }
        i = i + 1;
    }
    proof {
        assert(parts@.subrange(0, parts@.len() as int) == parts@);
    }
    r
}

/// Content flattened to text.
pub fn flatten_content(c: &MessageContent) -> (r: String)
    ensures
        r@ == flat_text(*c),
{
    match c {
        MessageContent::Text(t) => t.clone(),
        MessageContent::MultiPart(parts) => join_part_texts(parts, " "),
    }
}

/// Wire name of a role.
pub fn role_to_name(role: MessageRole) -> (r: String)
    ensures
        r@ == role_name(role),
{
    match role {
        MessageRole::System => String::from_str("system"),
        MessageRole::User => String::from_str("user"),
        MessageRole::Assistant => String::from_str("assistant"),
        MessageRole::Function => String::from_str("user"),
    }
}

/// Role named by wire text.
pub fn role_from_name(name: &str) -> (r: MessageRole)
    ensures
        r == role_of_name(name@),
{
    if text_eq(name, "user") {
        MessageRole::User
    } else if text_eq(name, "system") {
        MessageRole::System
    } else {
        MessageRole::Assistant
    }
}

/// A copy of a list of strings.
pub fn copy_strings(v: &Vec<String>) -> (r: Vec<String>)
    ensures
        r@ == v@,
{
    let mut r: Vec<String> = Vec::new();
    let mut i: usize = 0;
    while i < v.len()
        invariant
            i <= v@.len(),
            r@ == v@.subrange(0, i as int),
        decreases v@.len() - i,
    {
        r.push(v[i].clone());
        i = i + 1;
    }
    proof {
        assert(v@.subrange(0, v@.len() as int) == v@);
    }
    r
}

/// A copy of an optional list of strings.
pub fn copy_opt_strings(v: &Option<Vec<String>>) -> (r: Option<Vec<String>>)
    ensures
        match (r, *v) {
            (Some(a), Some(b)) => a@ == b@,
            (None, None) => true,
            _ => false,
        },
{
    match v {
        Some(s) => Some(copy_strings(s)),
        None => None,
    }
}

} // verus!
