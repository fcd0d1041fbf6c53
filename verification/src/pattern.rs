//! Search patterns: the escaped text of a path, followed by the wildcards
//! that reach below it.
//!
//! Only the wildcards written here are live. Whatever a path or a name
//! holds is escaped first, so that a folder named `[java]` is looked for
//! under that very name.

use vstd::prelude::*;
use vstd::string::StringExecFns;

verus! {

/// Whether `c` has a meaning of its own in a pattern.
pub open spec fn is_metacharacter(c: char) -> bool {
    c == '?' || c == '*' || c == '[' || c == ']'
}

/// What stands for `c` in an escaped text: a metacharacter in brackets,
/// any other character as it is.
pub open spec fn escaped_char(c: char) -> Seq<char> {
    if is_metacharacter(c) {
        seq!['[', c, ']']
    } else {
        seq![c]
    }
}

/// `text` with each of its metacharacters closed in brackets.
pub open spec fn escaped(text: Seq<char>) -> Seq<char>
    decreases text.len(),
{
    if text.len() == 0 {
        Seq::empty()
    } else {
        escaped_char(text[0]) + escaped(text.drop_first())
    }
}

/// Whether `pattern` holds no live metacharacter: each one stands between
/// a `[` and a `]` of its own.
pub open spec fn is_literal(pattern: Seq<char>) -> bool
    decreases pattern.len(),
{
    if pattern.len() == 0 {
        true
    } else if pattern[0] == '[' {
        pattern.len() >= 3 && is_metacharacter(pattern[1]) && pattern[2] == ']' && is_literal(
            pattern.skip(3),
        )
    } else {
        !is_metacharacter(pattern[0]) && is_literal(pattern.drop_first())
    }
}

/// The text that a literal pattern spells: its characters, each bracketed
/// one without its brackets.
pub open spec fn spelled(pattern: Seq<char>) -> Seq<char>
    decreases pattern.len(),
{
    if pattern.len() == 0 {
        Seq::empty()
    } else if pattern[0] == '[' && pattern.len() >= 3 {
        seq![pattern[1]] + spelled(pattern.skip(3))
    } else {
        seq![pattern[0]] + spelled(pattern.drop_first())
    }
}

/// Escaping leaves no metacharacter live, whatever the text holds, and
/// loses nothing: the escaped text spells the text it was made of, so two
/// texts are never escaped alike.
pub proof fn lemma_escaped_is_literal(text: Seq<char>)
    ensures
        is_literal(escaped(text)),
        spelled(escaped(text)) == text,
    decreases text.len(),
{
    if text.len() > 0 {
        let rest = text.drop_first();
        let pattern = escaped(text);
        lemma_escaped_is_literal(rest);
        if is_metacharacter(text[0]) {
            assert(pattern.skip(3) =~= escaped(rest));
        } else {
            assert(pattern.drop_first() =~= escaped(rest));
        }
    }
}

/// The pattern for an entry called `name` at any depth below `base`.
pub open spec fn named_below(base: Seq<char>, name: Seq<char>) -> Seq<char> {
    escaped(base) + seq!['/', '*', '*', '/'] + escaped(name)
}

/// The pattern for a folder called `name` at any depth below `base`.
pub open spec fn folder_below(base: Seq<char>, name: Seq<char>) -> Seq<char> {
    named_below(base, name) + seq!['/']
}

/// The pattern for every folder at any depth below `base`.
pub open spec fn folders_below(base: Seq<char>) -> Seq<char> {
    escaped(base) + seq!['/', '*', '*', '/', '*', '/']
}

/// Whether `pattern` is one of the three patterns above, for some base
/// and some name.
pub open spec fn is_search_pattern(pattern: Seq<char>) -> bool {
    ||| exists|base: Seq<char>, name: Seq<char>| pattern == #[trigger] named_below(base, name)
    ||| exists|base: Seq<char>, name: Seq<char>| pattern == #[trigger] folder_below(base, name)
    ||| exists|base: Seq<char>| pattern == #[trigger] folders_below(base)
}

/// Calls `glob::Pattern::escape`, which puts each of `?`, `*`, `[` and `]`
/// between a `[` and a `]` and copies every other character.
#[verifier::external_body]
pub(crate) fn escape(text: &str) -> (pattern: String)
    ensures
        pattern@ == escaped(text@),
{
    glob::Pattern::escape(text)
}

/// Writes the pattern for an entry called `name` at any depth below `base`.
pub fn name_pattern(base: &str, name: &str) -> (pattern: String)
    ensures
        pattern@ == named_below(base@, name@),
        is_search_pattern(pattern@),
{
    proof {
        reveal_strlit("/**/");
    }
    let mut pattern = escape(base);
    pattern.append("/**/");
    let tail = escape(name);
    pattern.append(tail.as_str());
    assert(pattern@ =~= named_below(base@, name@));
    pattern
}

/// Writes the pattern for a folder called `name` at any depth below `base`.
pub fn folder_pattern(base: &str, name: &str) -> (pattern: String)
    ensures
        pattern@ == folder_below(base@, name@),
        is_search_pattern(pattern@),
{
    proof {
        reveal_strlit("/");
    }
    let mut pattern = name_pattern(base, name);
    pattern.append("/");
    assert(pattern@ =~= folder_below(base@, name@));
    pattern
}

/// Writes the pattern for every folder at any depth below `base`.
pub fn folders_pattern(base: &str) -> (pattern: String)
    ensures
        pattern@ == folders_below(base@),
        is_search_pattern(pattern@),
{
    proof {
        reveal_strlit("/**/*/");
    }
    let mut pattern = escape(base);
    pattern.append("/**/*/");
    assert(pattern@ =~= folders_below(base@));
    pattern
}

} // verus!
