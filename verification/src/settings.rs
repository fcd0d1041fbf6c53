//! Reading the `java.home` setting out of what the `java` launcher prints
//! when it is asked for its property settings.
//!
//! The launcher prints one setting to a line, as `name = value`. The home
//! directory is the value on the first line that mentions `java.home`: what
//! follows the first `=` of that line, without the white space around it.

use vstd::prelude::*;
use crate::text::chars_of;

verus! {

/// The name of the setting that holds the home directory.
pub open spec fn key() -> Seq<char> {
    "java.home"@
}

/// Whether `c` is white space, as Unicode's `White_Space` property has it.
pub open spec fn is_white_space(c: char) -> bool {
    let n = c as u32;
    (0x09 <= n <= 0x0D) || n == 0x20 || n == 0x85 || n == 0xA0 || n == 0x1680 || (0x2000 <= n
        <= 0x200A) || n == 0x2028 || n == 0x2029 || n == 0x202F || n == 0x205F || n == 0x3000
}

/// The number of items at the front of `s` before the first `stop`; the
/// length of `s` where it holds no `stop`.
pub open spec fn run_before(s: Seq<char>, stop: char) -> nat
    decreases s.len(),
{
    if s.len() == 0 || s[0] == stop {
        0
    } else {
        1 + run_before(s.drop_first(), stop)
    }
}

/// `s` without the white space at its front.
pub open spec fn trim_start(s: Seq<char>) -> Seq<char>
    decreases s.len(),
{
    if s.len() > 0 && is_white_space(s[0]) {
        trim_start(s.drop_first())
    } else {
        s
    }
}

/// `s` without the white space at its end.
pub open spec fn trim_end(s: Seq<char>) -> Seq<char>
    decreases s.len(),
{
    if s.len() > 0 && is_white_space(s.last()) {
        trim_end(s.drop_last())
    } else {
        s
    }
}

/// `s` without the white space around it.
pub open spec fn trim(s: Seq<char>) -> Seq<char> {
    trim_end(trim_start(s))
}

/// Whether `needle` stands in `s` at index `i`.
pub open spec fn occurs_at(s: Seq<char>, needle: Seq<char>, i: int) -> bool {
    0 <= i && i + needle.len() <= s.len() && s.subrange(i, i + needle.len()) == needle
}

/// Whether `needle` stands somewhere in `s`.
pub open spec fn mentions(s: Seq<char>, needle: Seq<char>) -> bool {
    exists|i: int| occurs_at(s, needle, i)
}

/// The first line of `text` that mentions the key. Lines end at line feeds.
pub open spec fn property_line(text: Seq<char>) -> Option<Seq<char>>
    decreases text.len(),
{
    let n = run_before(text, '\n');
    if text.len() == 0 {
        None
    } else if mentions(text.take(n as int), key()) {
        Some(text.take(n as int))
    } else if n < text.len() {
        property_line(text.skip(n + 1 as int))
    } else {
        None
    }
}

/// The value that `line` gives its setting: what follows the first `=`,
/// trimmed. A carriage return that ended the line goes with the white space.
pub open spec fn setting_value(line: Seq<char>) -> Option<Seq<char>> {
    let k = run_before(line, '=');
    if k < line.len() {
        Some(trim(line.skip(k + 1 as int)))
    } else {
        None
    }
}

/// The home directory that the launcher reported: the value on the first
/// line that mentions the key, looked for on standard output first and on
/// standard error after it. That line decides alone: where it holds no `=`,
/// nothing was reported.
pub open spec fn java_home_value(stdout: Seq<char>, stderr: Seq<char>) -> Option<Seq<char>> {
    match property_line(stdout) {
        Some(line) => setting_value(line),
        None => match property_line(stderr) {
            Some(line) => setting_value(line),
            None => None,
        },
    }
}

/// The run that `run_before` measures is free of `stop`, and ends at one
/// or at the end of `s`.
pub proof fn lemma_run_before_ends(s: Seq<char>, stop: char)
    ensures
        run_before(s, stop) <= s.len(),
        forall|j: int| 0 <= j < run_before(s, stop) ==> s[j] != stop,
        run_before(s, stop) < s.len() ==> s[run_before(s, stop) as int] == stop,
    decreases s.len(),
{
    if s.len() > 0 && s[0] != stop {
        let rest = s.drop_first();
        lemma_run_before_ends(rest, stop);
        assert forall|j: int| 0 <= j < run_before(s, stop) implies s[j] != stop by {
            if j > 0 {
                assert(s[j] == rest[j - 1]);
            }
        }
    }
}

/// `run_before` is the one index that ends a run free of `stop`.
pub proof fn lemma_run_before(s: Seq<char>, stop: char, n: int)
    requires
        0 <= n <= s.len(),
        forall|j: int| 0 <= j < n ==> s[j] != stop,
        n == s.len() || s[n] == stop,
    ensures
        run_before(s, stop) == n,
    decreases s.len(),
{
    if n > 0 {
        lemma_run_before(s.drop_first(), stop, n - 1);
    }
}

/// What stands in a part of `s` stands in `s`.
pub proof fn lemma_occurs_in_part(s: Seq<char>, from: int, to: int, needle: Seq<char>, i: int)
    requires
        0 <= from <= to <= s.len(),
        occurs_at(s.subrange(from, to), needle, i),
    ensures
        occurs_at(s, needle, from + i),
{
    assert(s.subrange(from + i, from + i + needle.len()) =~= s.subrange(from, to).subrange(
        i,
        i + needle.len(),
    ));
}

/// A line is found exactly where the text mentions the key, and the line
/// found mentions it: output without `java.home` reports no home
/// directory.
pub proof fn lemma_property_line_found(text: Seq<char>)
    ensures
        property_line(text) is Some <==> mentions(text, key()),
        property_line(text) matches Some(line) ==> mentions(line, key()),
    decreases text.len(),
{
    reveal_strlit("java.home");
    let n = run_before(text, '\n') as int;
    lemma_run_before_ends(text, '\n');
    if text.len() == 0 {
        assert forall|i: int| !occurs_at(text, key(), i) by {}
    } else if mentions(text.take(n), key()) {
        let i = choose|i: int| occurs_at(text.take(n), key(), i);
        lemma_occurs_in_part(text, 0, n, key(), i);
    } else if n < text.len() {
        let rest = text.skip(n + 1);
        lemma_property_line_found(rest);
        if mentions(rest, key()) {
            let i = choose|i: int| occurs_at(rest, key(), i);
            lemma_occurs_in_part(text, n + 1, text.len() as int, key(), i);
        }
        if mentions(text, key()) {
            let i = choose|i: int| occurs_at(text, key(), i);
            let found = text.subrange(i, i + key().len());
            if i + key().len() <= n {
                assert(text.take(n).subrange(i, i + key().len()) =~= found);
                assert(occurs_at(text.take(n), key(), i));
            } else if i <= n {
                assert(found[n - i] == text[n]);
            } else {
                assert(rest.subrange(i - n - 1, i - n - 1 + key().len()) =~= found);
                assert(occurs_at(rest, key(), i - n - 1));
            }
        }
    } else {
        assert(text.take(n) =~= text);
    }
}

/// Whether `s` holds nothing but white space.
pub open spec fn is_blank(s: Seq<char>) -> bool {
    forall|i: int| 0 <= i < s.len() ==> is_white_space(#[trigger] s[i])
}

/// White space at the front of a text is trimmed away, all of it.
proof fn lemma_trim_start_blank(blank: Seq<char>, rest: Seq<char>)
    requires
        is_blank(blank),
    ensures
        trim_start(blank + rest) == trim_start(rest),
    decreases blank.len(),
{
    if blank.len() > 0 {
        assert((blank + rest).drop_first() =~= blank.drop_first() + rest);
        lemma_trim_start_blank(blank.drop_first(), rest);
    }
}

/// White space at the end of a text is trimmed away, all of it.
proof fn lemma_trim_end_blank(rest: Seq<char>, blank: Seq<char>)
    requires
        is_blank(blank),
    ensures
        trim_end(rest + blank) == trim_end(rest),
    decreases blank.len(),
{
    if blank.len() > 0 {
        assert((rest + blank).drop_last() =~= rest + blank.drop_last());
        lemma_trim_end_blank(rest, blank.drop_last());
    }
}

/// Trimming takes the white space around a text away and leaves the text:
/// `core` is what is left of `core` with white space before and after it,
/// where `core` itself neither starts nor ends with white space.
pub proof fn lemma_trim(before: Seq<char>, core: Seq<char>, after: Seq<char>)
    requires
        is_blank(before),
        is_blank(after),
        core.len() > 0 ==> !is_white_space(core[0]) && !is_white_space(core.last()),
    ensures
        trim(before + core + after) == core,
{
    assert(before + core + after =~= before + (core + after));
    lemma_trim_start_blank(before, core + after);
    if core.len() == 0 {
        lemma_trim_start_blank(after, core);
    } else {
        lemma_trim_end_blank(core, after);
    }
}

/// A line that reads `name = value` gives its setting that value: what
/// follows the first `=`, without the white space around it.
pub proof fn lemma_setting_value(
    name: Seq<char>,
    before: Seq<char>,
    value: Seq<char>,
    after: Seq<char>,
)
    requires
        !name.contains('='),
        is_blank(before),
        is_blank(after),
        value.len() > 0 ==> !is_white_space(value[0]) && !is_white_space(value.last()),
    ensures
        setting_value(name + seq!['='] + before + value + after) == Some(value),
{
    let line = name + seq!['='] + before + value + after;
    lemma_run_before(line, '=', name.len() as int);
    assert(line.skip(name.len() + 1 as int) =~= before + value + after);
    lemma_trim(before, value, after);
}

/// The line found is the first one that mentions the key: what stands
/// before it are whole lines that do not, and it ends where the text or
/// the line does.
pub proof fn lemma_property_line_first(before: Seq<char>, line: Seq<char>, after: Seq<char>)
    requires
        !mentions(before, key()),
        before.len() > 0 ==> before.last() == '\n',
        !line.contains('\n'),
        mentions(line, key()),
        after.len() > 0 ==> after[0] == '\n',
    ensures
        property_line(before + line + after) == Some(line),
    decreases before.len(),
{
    reveal_strlit("java.home");
    let text = before + line + after;
    if before.len() == 0 {
        lemma_run_before(text, '\n', line.len() as int);
        assert(text.take(line.len() as int) =~= line);
    } else {
        let n = run_before(before, '\n') as int;
        lemma_run_before_ends(before, '\n');
        lemma_run_before(text, '\n', n);
        assert(text.take(n) =~= before.subrange(0, n));
        if mentions(text.take(n), key()) {
            let i = choose|i: int| occurs_at(text.take(n), key(), i);
            lemma_occurs_in_part(before, 0, n, key(), i);
        }
        let rest = before.skip(n + 1);
        if mentions(rest, key()) {
            let i = choose|i: int| occurs_at(rest, key(), i);
            lemma_occurs_in_part(before, n + 1, before.len() as int, key(), i);
        }
        assert(text.skip(n + 1) =~= rest + line + after);
        lemma_property_line_first(rest, line, after);
    }
}

/// Whether `c` is white space.
pub fn white_space(c: char) -> (b: bool)
    ensures
        b == is_white_space(c),
{
    let n: u32 = c as u32;
    (0x09 <= n && n <= 0x0D) || n == 0x20 || n == 0x85 || n == 0xA0 || n == 0x1680 || (0x2000 <= n
        && n <= 0x200A) || n == 0x2028 || n == 0x2029 || n == 0x202F || n == 0x205F || n == 0x3000
}

/// The end of the run that starts at `from` and stops before the first
/// `stop`, or at `to`.
fn run_end(t: &Vec<char>, from: usize, to: usize, stop: char) -> (end: usize)
    requires
        from <= to <= t.len(),
    ensures
        from <= end <= to,
        end - from == run_before(t@.subrange(from as int, to as int), stop),
{
    let mut end: usize = from;
    while end < to && t[end] != stop
        invariant
            from <= end <= to <= t.len(),
            forall|j: int| from <= j < end ==> t@[j] != stop,
        decreases to - end,
    {
        end += 1;
    }
    proof {
        lemma_run_before(t@.subrange(from as int, to as int), stop, end - from);
    }
    end
}

/// Whether `needle` stands in the part of `t` from `from` to `to` at `at`.
fn occurs_here(t: &Vec<char>, from: usize, to: usize, at: usize, needle: &Vec<char>) -> (b: bool)
    requires
        from <= at <= to <= t.len(),
    ensures
        b == occurs_at(t@.subrange(from as int, to as int), needle@, at - from),
{
    if needle.len() > to - at {
        return false;
    }
    let ghost part = t@.subrange(from as int, to as int);
    let mut j: usize = 0;
    while j < needle.len()
        invariant
            from <= at <= to <= t.len(),
            at + needle.len() <= to,
            j <= needle.len(),
            part == t@.subrange(from as int, to as int),
            forall|k: int| 0 <= k < j ==> t@[at + k] == needle@[k],
        decreases needle.len() - j,
    {
        if t[at + j] != needle[j] {
            return false;
        }
        j += 1;
    }
    assert(part.subrange(at - from, at - from + needle.len()) =~= needle@);
    true
}

/// Whether the part of `t` from `from` to `to` mentions `needle`.
fn part_mentions(t: &Vec<char>, from: usize, to: usize, needle: &Vec<char>) -> (b: bool)
    requires
        from <= to <= t.len(),
    ensures
        b == mentions(t@.subrange(from as int, to as int), needle@),
{
    let ghost part = t@.subrange(from as int, to as int);
    let mut at: usize = from;
    while at < to
        invariant
            from <= at <= to <= t.len(),
            part == t@.subrange(from as int, to as int),
            forall|i: int| 0 <= i < at - from ==> !occurs_at(part, needle@, i),
        decreases to - at,
    {
        if occurs_here(t, from, to, at, needle) {
            return true;
        }
        at += 1;
    }
    occurs_here(t, from, to, to, needle)
}

/// The bounds of the first line of `t` that mentions the key.
fn find_property_line(t: &Vec<char>) -> (r: Option<(usize, usize)>)
    ensures
        match r {
            Some((from, to)) => from <= to <= t.len() && property_line(t@) == Some(
                t@.subrange(from as int, to as int),
            ),
            None => property_line(t@) is None,
        },
{
    let needle = chars_of("java.home");
    let mut from: usize = 0;
    assert(t@.skip(0) =~= t@);
    while from < t.len()
        invariant
            from <= t.len(),
            needle@ == key(),
            property_line(t@) == property_line(t@.skip(from as int)),
        decreases t.len() - from,
    {
        let to = run_end(t, from, t.len(), '\n');
        let ghost rest = t@.skip(from as int);
        assert(rest.take(to - from) =~= t@.subrange(from as int, to as int));
        if part_mentions(t, from, to, &needle) {
            return Some((from, to));
        }
        if to == t.len() {
            return None;
        }
        assert(rest.skip(to - from + 1) =~= t@.skip(to + 1));
        from = to + 1;
    }
    None
}

/// The bounds of the part of `t` from `from` to `to`, trimmed.
fn trim_bounds(t: &Vec<char>, from: usize, to: usize) -> (r: (usize, usize))
    requires
        from <= to <= t.len(),
    ensures
        from <= r.0 <= r.1 <= to,
        t@.subrange(r.0 as int, r.1 as int) == trim(t@.subrange(from as int, to as int)),
{
    let mut a: usize = from;
    while a < to && white_space(t[a])
        invariant
            from <= a <= to <= t.len(),
            trim_start(t@.subrange(from as int, to as int)) == trim_start(
                t@.subrange(a as int, to as int),
            ),
        decreases to - a,
    {
        assert(t@.subrange(a as int, to as int).drop_first() =~= t@.subrange(a + 1, to as int));
        a += 1;
    }
    let mut b: usize = to;
    while a < b && white_space(t[b - 1])
        invariant
            a <= b <= to <= t.len(),
            trim_end(t@.subrange(a as int, to as int)) == trim_end(t@.subrange(a as int, b as int)),
        decreases b - a,
    {
        assert(t@.subrange(a as int, b as int).drop_last() =~= t@.subrange(a as int, b - 1));
        b -= 1;
    }
    (a, b)
}

/// The bounds of the value that the line of `t` from `from` to `to` gives
/// its setting.
fn value_bounds(t: &Vec<char>, from: usize, to: usize) -> (r: Option<(usize, usize)>)
    requires
        from <= to <= t.len(),
    ensures
        match r {
            Some((a, b)) => from <= a <= b <= to && setting_value(
                t@.subrange(from as int, to as int),
            ) == Some(t@.subrange(a as int, b as int)),
            None => setting_value(t@.subrange(from as int, to as int)) is None,
        },
{
    let sign = run_end(t, from, to, '=');
    if sign == to {
        return None;
    }
    assert(t@.subrange(from as int, to as int).skip(sign - from + 1) =~= t@.subrange(
        sign + 1,
        to as int,
    ));
    Some(trim_bounds(t, sign + 1, to))
}

/// The value on the first line of `text` that mentions the key: `None`
/// where no line does, `Some(None)` where that line holds no `=`.
fn stream_value(text: &str) -> (r: Option<Option<String>>)
    ensures
        match property_line(text@) {
            Some(line) => r matches Some(found) && match setting_value(line) {
                Some(value) => found matches Some(s) && s@ == value,
                None => found is None,
            },
            None => r is None,
        },
{
    let t = chars_of(text);
    match find_property_line(&t) {
        Some((from, to)) => match value_bounds(&t, from, to) {
            Some((a, b)) => Some(Some(text.substring_char(a, b).to_owned())),
            None => Some(None),
        },
        None => None,
    }
}

/// Reads the home directory out of what the launcher printed on its two
/// streams. Where neither mentions the key, there is none to read.
pub fn read_java_home(stdout: &str, stderr: &str) -> (r: Option<String>)
    ensures
        match java_home_value(stdout@, stderr@) {
            Some(value) => r matches Some(s) && s@ == value,
            None => r is None,
        },
        !mentions(stdout@, key()) && !mentions(stderr@, key()) ==> r is None,
{
    proof {
        lemma_property_line_found(stdout@);
        lemma_property_line_found(stderr@);
    }
    match stream_value(stdout) {
        Some(found) => found,
        None => match stream_value(stderr) {
            Some(found) => found,
            None => None,
        },
    }
}

} // verus!
