//! The command parser: recognises `/<name>` and `/<name> <arguments>` at the
//! start of a message text.

use vstd::prelude::*;
use vstd::string::{StrSliceExecFns, StringExecFns};
use crate::text::{lower, to_lower};

verus! {

/// A slash-command taken from a message text.
#[derive(Debug, PartialEq, Eq)]
pub struct ParsedCommand {
    /// The command name, in lower case and never empty.
    pub name: String,
    /// What followed the first space after the name; empty when nothing did.
    pub arguments: String,
}

/// The mathematical content of a [`ParsedCommand`].
pub struct CommandView {
    pub name: Seq<char>,
    pub arguments: Seq<char>,
}

impl View for ParsedCommand {
    type V = CommandView;

    open spec fn view(&self) -> CommandView {
        CommandView { name: self.name@, arguments: self.arguments@ }
    }
}

/// Whether `c` may appear in a command name: an ASCII letter or an underscore.
pub open spec fn is_name_char(c: char) -> bool {
    ('a' <= c && c <= 'z') || ('A' <= c && c <= 'Z') || c == '_'
}

/// Whether `s` is made of name characters only.
pub open spec fn is_name(s: Seq<char>) -> bool {
    forall|i: int| 0 <= i < s.len() ==> is_name_char(#[trigger] s[i])
}

/// `s` with every ASCII upper-case letter folded to lower case.
pub open spec fn lowered(s: Seq<char>) -> Seq<char> {
    Seq::new(s.len(), |i: int| lower(s[i]))
}

/// The first position at or after `from` where `s` holds no name character,
/// or the length of `s` when there is none.
pub open spec fn name_end(s: Seq<char>, from: int) -> int
    decreases s.len() - from,
{
    if 0 <= from < s.len() && is_name_char(s[from]) {
        name_end(s, from + 1)
    } else {
        from
    }
}

/// What the parser makes of a text. A command is recognised when the text
/// starts with `/`, at least one name character follows, and the name is
/// followed either by the end of the text or by a space; the arguments are
/// everything after that space, whatever it holds.
pub open spec fn parsed(s: Seq<char>) -> Option<CommandView> {
    if s.len() == 0 || s[0] != '/' {
        None
    } else {
        let end: int = name_end(s, 1);
        if end == 1 {
            None
        } else if end == s.len() {
            Some(CommandView { name: lowered(s.subrange(1, end)), arguments: Seq::empty() })
        } else if s[end] == ' ' {
            Some(
                CommandView {
                    name: lowered(s.subrange(1, end)),
                    arguments: s.subrange(end + 1, s.len() as int),
                },
            )
        } else {
            None
        }
    }
}

/// The view of an optional command.
pub open spec fn command_view(c: Option<ParsedCommand>) -> Option<CommandView> {
    match c {
        Some(c) => Some(c@),
        None => None,
    }
}

fn name_char(c: char) -> (r: bool)
    ensures
        r == is_name_char(c),
{
    ('a' <= c && c <= 'z') || ('A' <= c && c <= 'Z') || c == '_'
}

/// Extracts the slash-command from a message text, if it holds one.
pub fn parse(text: &str) -> (r: Option<ParsedCommand>)
    ensures
        command_view(r) == parsed(text@),
{
    let n: usize = text.unicode_len();
    if n == 0 {
        return None;
    }
    if text.get_char(0) != '/' {
        return None;
    }
    let mut name = String::new();
    let mut i: usize = 1;
    while i < n
        invariant_except_break
            name_end(text@, i as int) == name_end(text@, 1),
        invariant
            1 <= i <= n,
            n == text@.len(),
            name@ == lowered(text@.subrange(1, i as int)),
        ensures
            i as int == name_end(text@, 1),
        decreases n - i,
    {
        let c = text.get_char(i);
        if !name_char(c) {
            break;
        }
        name.push(to_lower(c));
        i = i + 1;
        assert(name@ =~= lowered(text@.subrange(1, i as int)));
    }
    if i == 1 {
        None
    } else if i == n {
        Some(ParsedCommand { name, arguments: String::new() })
    } else if text.get_char(i) == ' ' {
        let rest = text.substring_char(i + 1, n);
        Some(ParsedCommand { name, arguments: String::from_str(rest) })
    } else {
        None
    }
}

/// Within a run of name characters that ends at `end`, `name_end` finds `end`.
proof fn lemma_name_end(s: Seq<char>, from: int, end: int)
    requires
        0 <= from <= end <= s.len(),
        forall|j: int| from <= j < end ==> is_name_char(#[trigger] s[j]),
        end == s.len() || !is_name_char(s[end]),
    ensures
        name_end(s, from) == end,
    decreases end - from,
{
    if from < end {
        lemma_name_end(s, from + 1, end);
    }
}

/// `name_end` stays within the text and stops only where the name stops.
proof fn lemma_name_end_bounds(s: Seq<char>, from: int)
    requires
        0 <= from <= s.len(),
    ensures
        from <= name_end(s, from) <= s.len(),
        forall|j: int| from <= j < name_end(s, from) ==> is_name_char(#[trigger] s[j]),
        name_end(s, from) == s.len() || !is_name_char(s[name_end(s, from)]),
    decreases s.len() - from,
{
    if from < s.len() && is_name_char(s[from]) {
        lemma_name_end_bounds(s, from + 1);
    }
}

/// A text that does not start with `/` holds no command.
pub proof fn law_no_slash_no_command(s: Seq<char>)
    requires
        s.len() == 0 || s[0] != '/',
    ensures
        parsed(s) is None,
{
}

/// A slash followed by a name and nothing else is that command, with the
/// name in lower case and no arguments.
pub proof fn law_bare_command(name: Seq<char>)
    requires
        name.len() > 0,
        is_name(name),
    ensures
        parsed(seq!['/'] + name) == Some(
            CommandView { name: lowered(name), arguments: Seq::empty() },
        ),
{
    let s = seq!['/'] + name;
    assert forall|j: int| 1 <= j < s.len() implies is_name_char(#[trigger] s[j]) by {
        assert(s[j] == name[j - 1]);
    }
    lemma_name_end(s, 1, s.len() as int);
    assert(s.subrange(1, s.len() as int) =~= name);
}

/// A slash, a name, a space and any text at all is that command, and its
/// arguments are the text after the space, character for character.
pub proof fn law_command_with_arguments(name: Seq<char>, rest: Seq<char>)
    requires
        name.len() > 0,
        is_name(name),
    ensures
        parsed(seq!['/'] + name + seq![' '] + rest) == Some(
            CommandView { name: lowered(name), arguments: rest },
        ),
{
    let s = seq!['/'] + name + seq![' '] + rest;
    let end: int = 1 + name.len() as int;
    assert forall|j: int| 1 <= j < end implies is_name_char(#[trigger] s[j]) by {
        assert(s[j] == name[j - 1]);
    }
    assert(s[end] == ' ');
    lemma_name_end(s, 1, end);
    assert(s.subrange(1, end) =~= name);
    assert(s.subrange(end + 1, s.len() as int) =~= rest);
}

/// Letter case in the name does not matter: two texts whose names differ
/// only in case, and which continue alike, parse to the same command.
pub proof fn law_name_case_insensitive(first: Seq<char>, second: Seq<char>, tail: Seq<char>)
    requires
        is_name(first),
        lowered(first) == lowered(second),
    ensures
        parsed(seq!['/'] + first + tail) == parsed(seq!['/'] + second + tail),
{
    let a = seq!['/'] + first + tail;
    let b = seq!['/'] + second + tail;
    let k: int = first.len() as int;
    assert(lowered(first).len() == first.len());
    assert(lowered(second).len() == second.len());
    assert forall|j: int| 0 <= j < k implies lower(#[trigger] first[j]) == lower(second[j]) by {
        assert(lowered(first)[j] == lower(first[j]));
        assert(lowered(second)[j] == lower(second[j]));
    }
    assert forall|j: int| 1 <= j < 1 + k implies is_name_char(#[trigger] a[j]) && is_name_char(
        b[j],
    ) by {
        assert(a[j] == first[j - 1]);
        assert(b[j] == second[j - 1]);
        assert(lower(first[j - 1]) == lower(second[j - 1]));
    }
    lemma_name_end_bounds(a, 1);
    lemma_name_end_bounds(b, 1);
    let end: int = name_end(a, 1);
    if end < 1 + k {
        assert(is_name_char(a[end]));
    }
    assert forall|j: int| 1 + k <= j < a.len() implies a[j] == b[j] by {
        assert(a[j] == tail[j - 1 - k]);
        assert(b[j] == tail[j - 1 - k]);
    }
    assert forall|j: int| 1 <= j < end implies is_name_char(#[trigger] b[j]) by {
        if j >= 1 + k {
            assert(is_name_char(a[j]));
        }
    }
    lemma_name_end(b, 1, end);
    assert(lowered(a.subrange(1, end)) =~= lowered(b.subrange(1, end))) by {
        assert forall|j: int| 0 <= j < end - 1 implies lower(a.subrange(1, end)[j]) == lower(
            b.subrange(1, end)[j],
        ) by {
            if j < k {
                assert(a[j + 1] == first[j]);
                assert(b[j + 1] == second[j]);
            }
        }
    }
    if end < a.len() {
        assert(a.subrange(end + 1, a.len() as int) =~= b.subrange(end + 1, b.len() as int));
    }
}

/// Nothing else is a command: a text that holds one is a slash and a name,
/// either alone or followed by a space and the arguments.
pub proof fn law_command_shape(s: Seq<char>)
    ensures
        parsed(s) matches Some(c) ==> exists|name: Seq<char>|
            {
                &&& #[trigger] is_name(name)
                &&& name.len() > 0
                &&& c.name == lowered(name)
                &&& {
                    ||| (s == seq!['/'] + name && c.arguments == Seq::<char>::empty())
                    ||| s == seq!['/'] + name + seq![' '] + c.arguments
                }
            },
{
    if s.len() > 0 && s[0] == '/' {
        lemma_name_end_bounds(s, 1);
        let end: int = name_end(s, 1);
        let name = s.subrange(1, end);
        if parsed(s) is Some {
            assert(is_name(name));
            if end == s.len() {
                assert(s =~= seq!['/'] + name);
            } else {
                assert(s =~= seq!['/'] + name + seq![' '] + s.subrange(end + 1, s.len() as int));
            }
        }
    }
}

/// A recognised command comes from a text that starts with `/`, and its name
/// is never empty and holds only lower-case letters and underscores.
pub proof fn law_recognised_name(s: Seq<char>)
    ensures
        parsed(s) matches Some(c) ==> {
            &&& s.len() > 0
            &&& s[0] == '/'
            &&& c.name.len() > 0
            &&& is_name(c.name)
            &&& lowered(c.name) == c.name
        },
{
    if s.len() > 0 && s[0] == '/' {
        lemma_name_end_bounds(s, 1);
        let end: int = name_end(s, 1);
        let name = lowered(s.subrange(1, end));
        assert forall|i: int| 0 <= i < name.len() implies is_name_char(#[trigger] name[i]) by {
            assert(is_name_char(s[i + 1]));
        }
        assert(lowered(name) =~= name);
    }
}

} // verus!
