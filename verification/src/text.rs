//! Plain text operations: trimming, joining, and the clean-up of indented blocks.

use vstd::prelude::*;

verus! {

/// Columns between two tab stops.
pub const TAB_WIDTH: usize = 8;

/// `String::push`: the character goes to the end of the text.
pub assume_specification[ String::push ](string: &mut String, c: char)
    ensures
        final(string)@ == old(string)@.push(c),
;

/// The characters with the Unicode property `White_Space`.
pub open spec fn is_space(c: char) -> bool {
    ||| '\u{9}' <= c <= '\u{d}'
    ||| c == '\u{20}'
    ||| c == '\u{85}'
    ||| c == '\u{a0}'
    ||| c == '\u{1680}'
    ||| '\u{2000}' <= c <= '\u{200a}'
    ||| c == '\u{2028}'
    ||| c == '\u{2029}'
    ||| c == '\u{202f}'
    ||| c == '\u{205f}'
    ||| c == '\u{3000}'
}

/// How many whitespace characters `text` starts with.
pub open spec fn indent_of(text: Seq<char>) -> nat
    decreases text.len(),
{
    if text.len() > 0 && is_space(text[0]) {
        1 + indent_of(text.drop_first())
    } else {
        0
    }
}

/// Whether `text` is empty or all whitespace.
pub open spec fn is_blank(text: Seq<char>) -> bool {
    forall|i: int| 0 <= i < text.len() ==> is_space(#[trigger] text[i])
}

/// `text` without the whitespace it starts with.
pub open spec fn trimmed_start(text: Seq<char>) -> Seq<char> {
    text.skip(indent_of(text) as int)
}

/// `text` without the whitespace it ends with.
pub open spec fn trimmed_end(text: Seq<char>) -> Seq<char>
    decreases text.len(),
{
    if text.len() > 0 && is_space(text.last()) {
        trimmed_end(text.drop_last())
    } else {
        text
    }
}

/// `text` without the whitespace around it.
pub open spec fn trimmed(text: Seq<char>) -> Seq<char> {
    trimmed_end(trimmed_start(text))
}

/// `parts` in order, with `separator` between each two.
pub open spec fn joined(parts: Seq<Seq<char>>, separator: Seq<char>) -> Seq<char>
    decreases parts.len(),
{
    if parts.len() == 0 {
        Seq::empty()
    } else if parts.len() == 1 {
        parts[0]
    } else {
        joined(parts.drop_last(), separator) + separator + parts.last()
    }
}

/// The views of `strings`, in order.
pub open spec fn views(strings: Seq<String>) -> Seq<Seq<char>> {
    strings.map_values(|s: String| s@)
}

/// The lines of `text`: what stands between its line feeds.
pub open spec fn lines_of(text: Seq<char>) -> Seq<Seq<char>>
    decreases text.len(),
{
    if text.len() == 0 {
        seq![Seq::empty()]
    } else {
        let before = lines_of(text.drop_last());
        if text.last() == '\n' {
            before.push(Seq::empty())
        } else {
            before.drop_last().push(before.last().push(text.last()))
        }
    }
}

/// `count` spaces.
pub open spec fn spaces(count: nat) -> Seq<char> {
    Seq::new(count, |i: int| ' ')
}

/// The column, counted from the last tab stop, that follows `text`.
pub open spec fn column_after(text: Seq<char>) -> nat
    decreases text.len(),
{
    if text.len() == 0 {
        0
    } else if text.last() == '\t' || text.last() == '\n' || text.last() == '\r' {
        0
    } else {
        (column_after(text.drop_last()) + 1) % TAB_WIDTH as nat
    }
}

/// `text` with each tab replaced by the spaces up to the next tab stop.
pub open spec fn tabs_expanded(text: Seq<char>) -> Seq<char>
    decreases text.len(),
{
    if text.len() == 0 {
        Seq::empty()
    } else {
        let before = text.drop_last();
        if text.last() == '\t' {
            tabs_expanded(before) + spaces((TAB_WIDTH - column_after(before)) as nat)
        } else {
            tabs_expanded(before).push(text.last())
        }
    }
}

/// The least indentation of the lines that are not blank; `None` if all are.
pub open spec fn margin_of(lines: Seq<Seq<char>>) -> Option<nat>
    decreases lines.len(),
{
    if lines.len() == 0 {
        None
    } else {
        let before = margin_of(lines.drop_last());
        let indent = indent_of(lines.last());
        if is_blank(lines.last()) {
            before
        } else if before is Some && before->0 <= indent {
            before
        } else {
            Some(indent)
        }
    }
}

/// `line` without its first `margin` characters, or without all if it has fewer.
pub open spec fn unindented(line: Seq<char>, margin: Option<nat>) -> Seq<char> {
    match margin {
        None => line,
        Some(m) => if m < line.len() {
            line.skip(m as int)
        } else {
            Seq::empty()
        },
    }
}

/// The first line without its leading whitespace, the others without the margin
/// that they share.
pub open spec fn dedented(lines: Seq<Seq<char>>) -> Seq<Seq<char>> {
    let margin = margin_of(lines.skip(1));
    Seq::new(
        lines.len(),
        |i: int|
            if i == 0 {
                trimmed_start(lines[0])
            } else {
                unindented(lines[i], margin)
            },
    )
}

/// `lines` without the empty ones at the end.
pub open spec fn without_trailing_empty(lines: Seq<Seq<char>>) -> Seq<Seq<char>>
    decreases lines.len(),
{
    if lines.len() > 0 && lines.last().len() == 0 {
        without_trailing_empty(lines.drop_last())
    } else {
        lines
    }
}

/// `lines` without the empty ones at the start.
pub open spec fn without_leading_empty(lines: Seq<Seq<char>>) -> Seq<Seq<char>>
    decreases lines.len(),
{
    if lines.len() > 0 && lines[0].len() == 0 {
        without_leading_empty(lines.drop_first())
    } else {
        lines
    }
}

/// An indented block of text, cleaned up: tabs become spaces, the first line
/// loses its indentation, the others lose the margin that they share, and empty
/// lines at both ends go.
pub open spec fn cleaned(text: Seq<char>) -> Seq<char> {
    joined(
        without_leading_empty(
            without_trailing_empty(dedented(lines_of(tabs_expanded(text)))),
        ),
        seq!['\n'],
    )
}

/// Whether `c` is whitespace.
pub fn is_whitespace(c: char) -> (space: bool)
    ensures
        space == is_space(c),
{
    ('\u{9}' <= c && c <= '\u{d}') || c == '\u{20}' || c == '\u{85}' || c == '\u{a0}' || c
        == '\u{1680}' || ('\u{2000}' <= c && c <= '\u{200a}') || c == '\u{2028}' || c == '\u{2029}'
        || c == '\u{202f}' || c == '\u{205f}' || c == '\u{3000}'
}

/// The characters of `text`.
fn chars_of(text: &str) -> (chars: Vec<char>)
    ensures
        chars@ == text@,
{
    let mut chars: Vec<char> = Vec::new();
    for c in it: text.chars()
        invariant
            chars@ == text@.take(it.index()),
            it.seq() == text@,
    {
        chars.push(c);
    }
    assert(text@.take(text@.len() as int) =~= text@);
    chars
}

/// `indent_of` is the first position that holds no whitespace.
pub proof fn lemma_indent(text: Seq<char>, n: int)
    requires
        0 <= n <= text.len(),
        forall|i: int| 0 <= i < n ==> is_space(#[trigger] text[i]),
        n < text.len() ==> !is_space(text[n]),
    ensures
        indent_of(text) == n,
    decreases n,
{
    if n > 0 {
        let rest = text.drop_first();
        assert forall|i: int| 0 <= i < n - 1 implies is_space(#[trigger] rest[i]) by {
            assert(rest[i] == text[i + 1]);
        }
        lemma_indent(rest, n - 1);
        assert(is_space(text[0]));
    }
}

/// The whitespace that `indent_of` counts, and the character that ends it.
pub proof fn lemma_indent_prefix(text: Seq<char>)
    ensures
        indent_of(text) <= text.len(),
        forall|i: int| 0 <= i < indent_of(text) ==> is_space(#[trigger] text[i]),
        indent_of(text) < text.len() ==> !is_space(text[indent_of(text) as int]),
        indent_of(text) == text.len() <==> is_blank(text),
    decreases text.len(),
{
    if text.len() > 0 && is_space(text[0]) {
        let rest = text.drop_first();
        lemma_indent_prefix(rest);
        assert forall|i: int| 0 <= i < indent_of(text) implies is_space(#[trigger] text[i]) by {
            if i > 0 {
                assert(rest[i - 1] == text[i]);
            }
        }
        if indent_of(text) < text.len() {
            assert(rest[indent_of(rest) as int] == text[indent_of(text) as int]);
        }
    }
}

/// `trimmed_end` cuts after the last character that is no whitespace.
proof fn lemma_trimmed_end(text: Seq<char>, n: int)
    requires
        0 <= n <= text.len(),
        forall|i: int| n <= i < text.len() ==> is_space(#[trigger] text[i]),
        n > 0 ==> !is_space(text[n - 1]),
    ensures
        trimmed_end(text) == text.take(n),
    decreases text.len() - n,
{
    if n < text.len() {
        assert(is_space(text[text.len() - 1]));
        lemma_trimmed_end(text.drop_last(), n);
        assert(text.drop_last().take(n) =~= text.take(n));
    } else {
        assert(text.take(n) =~= text);
    }
}

/// `trimmed_end` leaves a prefix that does not end in whitespace, and cuts off
/// nothing but whitespace.
proof fn lemma_trimmed_end_prefix(text: Seq<char>)
    ensures
        trimmed_end(text).len() <= text.len(),
        trimmed_end(text) == text.take(trimmed_end(text).len() as int),
        trimmed_end(text).len() > 0 ==> !is_space(trimmed_end(text).last()),
        forall|i: int|
            trimmed_end(text).len() <= i < text.len() ==> is_space(#[trigger] text[i]),
    decreases text.len(),
{
    if text.len() > 0 && is_space(text.last()) {
        let before = text.drop_last();
        lemma_trimmed_end_prefix(before);
        let n = trimmed_end(before).len() as int;
        assert(before.take(n) =~= text.take(n));
        assert forall|i: int| n <= i < text.len() implies is_space(#[trigger] text[i]) by {
            if i < before.len() {
                assert(before[i] == text[i]);
            }
        }
    } else {
        assert(text.take(text.len() as int) =~= text);
    }
}

/// A trimmed text has no whitespace at either end.
pub proof fn law_trimmed_ends(text: Seq<char>)
    ensures
        trimmed(text).len() > 0 ==> !is_space(trimmed(text)[0]) && !is_space(trimmed(text).last()),
        trimmed(text).len() == 0 <==> is_blank(text),
{
    lemma_indent_prefix(text);
    let rest = trimmed_start(text);
    lemma_trimmed_end_prefix(rest);
    if rest.len() > 0 {
        let n = indent_of(text) as int;
        assert(rest[0] == text[n]);
    }
}

/// Trimming a trimmed text leaves it as it is.
pub proof fn law_trim_is_idempotent(text: Seq<char>)
    ensures
        trimmed(trimmed(text)) == trimmed(text),
{
    law_trimmed_ends(text);
    let inner = trimmed(text);
    lemma_indent(inner, 0);
    assert(inner.skip(0) =~= inner);
    lemma_trimmed_end(inner, inner.len() as int);
    assert(inner.take(inner.len() as int) =~= inner);
}

/// How many whitespace characters `line` starts with.
fn indent(line: &Vec<char>) -> (count: usize)
    ensures
        count == indent_of(line@),
        count <= line@.len(),
{
    let mut count: usize = 0;
    while count < line.len() && is_whitespace(line[count])
        invariant
            count <= line@.len(),
            forall|i: int| 0 <= i < count ==> is_space(#[trigger] line@[i]),
        decreases line@.len() - count,
    {
        count += 1;
    }
    proof {
        lemma_indent(line@, count as int);
    }
    count
}

/// `text` without the whitespace around it.
pub fn trim(text: &str) -> (inner: &str)
    ensures
        inner@ == trimmed(text@),
        exists|a: int, b: int|
            {
                &&& 0 <= a <= b <= text@.len()
                &&& inner@ == #[trigger] text@.subrange(a, b)
                &&& forall|i: int| 0 <= i < a ==> is_space(#[trigger] text@[i])
                &&& forall|i: int| b <= i < text@.len() ==> is_space(#[trigger] text@[i])
            },
        inner@.len() > 0 ==> !is_space(inner@[0]) && !is_space(inner@.last()),
{
    proof {
        law_trimming_removes_only_whitespace(text@);
        law_trimmed_ends(text@);
    }
    let chars = chars_of(text);
    let start = indent(&chars);
    let mut end: usize = chars.len();
    proof {
        lemma_indent_prefix(text@);
    }
    while end > start && is_whitespace(chars[end - 1])
        invariant
            start <= end <= chars@.len(),
            forall|i: int| end <= i < chars@.len() ==> is_space(#[trigger] chars@[i]),
        decreases end,
    {
        end -= 1;
    }
    proof {
        let rest = trimmed_start(text@);
        assert forall|i: int| end - start <= i < rest.len() implies is_space(#[trigger] rest[i]) by {
            assert(rest[i] == chars@[i + start]);
        }
        lemma_trimmed_end(rest, end - start);
        assert(rest.take(end - start) =~= text@.subrange(start as int, end as int));
    }
    text.substring_char(start, end)
}

/// `text` with each tab replaced by the spaces up to the next tab stop.
fn expand_tabs(text: &Vec<char>) -> (expanded: Vec<char>)
    ensures
        expanded@ == tabs_expanded(text@),
{
    let mut expanded: Vec<char> = Vec::new();
    let mut column: usize = 0;
    let mut i: usize = 0;
    while i < text.len()
        invariant
            i <= text@.len(),
            column < TAB_WIDTH,
            column == column_after(text@.take(i as int)),
            expanded@ == tabs_expanded(text@.take(i as int)),
        decreases text@.len() - i,
    {
        let c = text[i];
        assert(text@.take(i + 1).drop_last() =~= text@.take(i as int));
        if c == '\t' {
            let ghost before = expanded@;
            let width = TAB_WIDTH - column;
            let mut filled: usize = 0;
            while filled < width
                invariant
                    filled <= width,
                    expanded@ == before + spaces(filled as nat),
                decreases width - filled,
            {
                expanded.push(' ');
                filled += 1;
                assert(before + spaces(filled as nat) =~= (before + spaces(
                    (filled - 1) as nat,
                )).push(' '));
            }
            column = 0;
        } else {
            expanded.push(c);
            if c == '\n' || c == '\r' || column == TAB_WIDTH - 1 {
                column = 0;
            } else {
                column += 1;
            }
        }
        i += 1;
    }
    assert(text@.take(text@.len() as int) =~= text@);
    expanded
}

/// The views of `lines`, in order.
spec fn line_views(lines: Seq<Vec<char>>) -> Seq<Seq<char>> {
    lines.map_values(|line: Vec<char>| line@)
}

/// The lines of `text`.
fn split_lines(text: &Vec<char>) -> (lines: Vec<Vec<char>>)
    ensures
        line_views(lines@) == lines_of(text@),
        lines@.len() > 0,
{
    let mut lines: Vec<Vec<char>> = Vec::new();
    let mut current: Vec<char> = Vec::new();
    let mut i: usize = 0;
    while i < text.len()
        invariant
            i <= text@.len(),
            line_views(lines@).push(current@) == lines_of(text@.take(i as int)),
        decreases text@.len() - i,
    {
        let c = text[i];
        let ghost before = line_views(lines@);
        let ghost line = current@;
        assert(text@.take(i + 1).drop_last() =~= text@.take(i as int));
        assert(before.push(line).drop_last() =~= before);
        if c == '\n' {
            lines.push(current);
            current = Vec::new();
            assert(line_views(lines@) =~= before.push(line));
        } else {
            current.push(c);
        }
        i += 1;
    }
    assert(text@.take(text@.len() as int) =~= text@);
    let ghost before = line_views(lines@);
    let ghost line = current@;
    lines.push(current);
    assert(line_views(lines@) =~= before.push(line));
    lines
}

/// The least indentation of the lines after the first that are not blank.
fn shared_margin(lines: &Vec<Vec<char>>) -> (margin: Option<usize>)
    requires
        lines@.len() > 0,
    ensures
        match (margin, margin_of(line_views(lines@).skip(1))) {
            (None, None) => true,
            (Some(found), Some(expected)) => found == expected,
            _ => false,
        },
{
    let ghost rest = line_views(lines@).skip(1);
    let mut margin: Option<usize> = None;
    let mut i: usize = 1;
    while i < lines.len()
        invariant
            1 <= i <= lines@.len(),
            rest == line_views(lines@).skip(1),
            match (margin, margin_of(rest.take(i - 1))) {
                (None, None) => true,
                (Some(found), Some(expected)) => found == expected,
                _ => false,
            },
        decreases lines@.len() - i,
    {
        let count = indent(&lines[i]);
        proof {
            assert(rest.take(i as int).drop_last() =~= rest.take(i - 1));
            assert(rest.take(i as int).last() == lines@[i as int]@);
            lemma_indent_prefix(lines@[i as int]@);
        }
        if count < lines[i].len() {
            margin = match margin {
                Some(least) if least <= count => Some(least),
                _ => Some(count),
            };
        }
        i += 1;
    }
    assert(rest.take(rest.len() as int) =~= rest);
    margin
}

/// What follows the first `count` characters of `line`.
fn tail(line: &Vec<char>, count: usize) -> (rest: Vec<char>)
    ensures
        rest@ == unindented(line@, Some(count as nat)),
{
    let mut rest: Vec<char> = Vec::new();
    let mut i: usize = count;
    while i < line.len()
        invariant
            count <= i,
            count < line@.len() ==> i <= line@.len() && rest@ == line@.subrange(
                count as int,
                i as int,
            ),
            count >= line@.len() ==> rest@.len() == 0,
        decreases line@.len() - i,
    {
        rest.push(line[i]);
        i += 1;
        assert(line@.subrange(count as int, i as int) =~= line@.subrange(
            count as int,
            i - 1,
        ).push(line@[i - 1]));
    }
    rest
}

/// The first line without its indentation, the others without their margin.
fn dedent(lines: &Vec<Vec<char>>) -> (result: Vec<Vec<char>>)
    requires
        lines@.len() > 0,
    ensures
        line_views(result@) == dedented(line_views(lines@)),
{
    let margin = shared_margin(lines);
    let cut: usize = match margin {
        Some(m) => m,
        None => 0,
    };
    let ghost views = line_views(lines@);
    let mut result: Vec<Vec<char>> = Vec::new();
    let first = indent(&lines[0]);
    let ghost all = dedented(views);
    result.push(tail(&lines[0], first));
    let mut i: usize = 1;
    assert(line_views(result@) =~= all.take(1)) by {
        lemma_indent_prefix(views[0]);
        assert(unindented(views[0], Some(indent_of(views[0]))) =~= trimmed_start(views[0]));
    }
    while i < lines.len()
        invariant
            1 <= i <= lines@.len(),
            views == line_views(lines@),
            all == dedented(views),
            match margin_of(views.skip(1)) {
                Some(m) => cut == m,
                None => cut == 0,
            },
            line_views(result@) == all.take(i as int),
        decreases lines@.len() - i,
    {
        let line = tail(&lines[i], cut);
        proof {
            assert(views[i as int].skip(0) =~= views[i as int]);
            assert(line@ =~= all[i as int]);
            assert(all.take(i + 1) =~= all.take(i as int).push(line@));
            assert(line_views(result@.push(line)) =~= line_views(result@).push(line@));
        }
        result.push(line);
        i += 1;
    }
    assert(all.take(all.len() as int) =~= all);
    result
}

/// Cutting the empty lines at the end leaves a prefix.
pub proof fn lemma_without_trailing_empty(lines: Seq<Seq<char>>, n: int)
    requires
        0 <= n <= lines.len(),
        forall|i: int| n <= i < lines.len() ==> (#[trigger] lines[i]).len() == 0,
        n > 0 ==> lines[n - 1].len() > 0,
    ensures
        without_trailing_empty(lines) == lines.take(n),
    decreases lines.len() - n,
{
    if n < lines.len() {
        assert(lines[lines.len() - 1].len() == 0);
        lemma_without_trailing_empty(lines.drop_last(), n);
        assert(lines.drop_last().take(n) =~= lines.take(n));
    } else {
        assert(lines.take(n) =~= lines);
    }
}

/// Cutting the empty lines at the start leaves a suffix.
pub proof fn lemma_without_leading_empty(lines: Seq<Seq<char>>, n: int)
    requires
        0 <= n <= lines.len(),
        forall|i: int| 0 <= i < n ==> (#[trigger] lines[i]).len() == 0,
        n < lines.len() ==> lines[n].len() > 0,
    ensures
        without_leading_empty(lines) == lines.skip(n),
    decreases n,
{
    if n > 0 {
        let rest = lines.drop_first();
        assert forall|i: int| 0 <= i < n - 1 implies (#[trigger] rest[i]).len() == 0 by {
            assert(rest[i] == lines[i + 1]);
        }
        assert(lines[0].len() == 0);
        lemma_without_leading_empty(rest, n - 1);
        assert(rest.skip(n - 1) =~= lines.skip(n));
    } else {
        assert(lines.skip(0) =~= lines);
    }
}

/// One more part goes behind the others, after a separator if there are others.
pub proof fn lemma_joined_push(parts: Seq<Seq<char>>, separator: Seq<char>, part: Seq<char>)
    ensures
        joined(parts.push(part), separator) == if parts.len() == 0 {
            part
        } else {
            joined(parts, separator) + separator + part
        },
{
    assert(parts.push(part).drop_last() =~= parts);
}

/// The characters of `line` go to the end of `text`.
fn append_chars(text: &mut String, line: &Vec<char>)
    ensures
        final(text)@ == old(text)@ + line@,
{
    let ghost before = text@;
    let mut i: usize = 0;
    while i < line.len()
        invariant
            i <= line@.len(),
            text@ == before + line@.take(i as int),
        decreases line@.len() - i,
    {
        text.push(line[i]);
        i += 1;
        assert(before + line@.take(i as int) =~= (before + line@.take(i - 1)).push(line@[i - 1]));
    }
    assert(line@.take(line@.len() as int) =~= line@);
}

/// An indented block of text, cleaned up: tabs become spaces, the first line
/// loses its indentation, the others lose the margin that they share, and empty
/// lines at both ends go.
pub fn cleandoc(text: &str) -> (clean: String)
    ensures
        clean@ == cleaned(text@),
{
    let chars = chars_of(text);
    let lines = dedent(&split_lines(&expand_tabs(&chars)));
    let ghost all = line_views(lines@);
    let mut end: usize = lines.len();
    while end > 0 && lines[end - 1].len() == 0
        invariant
            end <= lines@.len(),
            all == line_views(lines@),
            forall|i: int| end <= i < all.len() ==> (#[trigger] all[i]).len() == 0,
        decreases end,
    {
        end -= 1;
    }
    let mut start: usize = 0;
    while start < end && lines[start].len() == 0
        invariant
            start <= end <= lines@.len(),
            all == line_views(lines@),
            forall|i: int| 0 <= i < start ==> (#[trigger] all[i]).len() == 0,
        decreases end - start,
    {
        start += 1;
    }
    let ghost kept = all.subrange(start as int, end as int);
    proof {
        lemma_without_trailing_empty(all, end as int);
        lemma_without_leading_empty(all.take(end as int), start as int);
        assert(all.take(end as int).skip(start as int) =~= kept);
    }
    let mut clean = String::new();
    let mut i: usize = start;
    while i < end
        invariant
            start <= i <= end <= lines@.len(),
            all == line_views(lines@),
            kept == all.subrange(start as int, end as int),
            clean@ == joined(kept.take(i - start), seq!['\n']),
        decreases end - i,
    {
        if i > start {
            clean.push('\n');
        }
        append_chars(&mut clean, &lines[i]);
        proof {
            lemma_joined_push(kept.take(i - start), seq!['\n'], all[i as int]);
            assert(kept.take(i - start).push(all[i as int]) =~= kept.take(i - start + 1));
        }
        i += 1;
    }
    assert(kept.take(end - start) =~= kept);
    clean
}

/// A text without a line feed is one line.
pub proof fn lemma_one_line(text: Seq<char>)
    requires
        !text.contains('\n'),
    ensures
        lines_of(text) == seq![text],
    decreases text.len(),
{
    if text.len() > 0 {
        let before = text.drop_last();
        assert(text[text.len() - 1] != '\n');
        assert forall|i: int| 0 <= i < before.len() implies before[i] != '\n' by {
            assert(before[i] == text[i]);
        }
        lemma_one_line(before);
        assert(before.push(text.last()) =~= text);
        assert(lines_of(text) =~= seq![text]);
    } else {
        assert(text =~= Seq::empty());
    }
}

/// There is always a line.
pub proof fn lemma_some_line(text: Seq<char>)
    ensures
        lines_of(text).len() > 0,
    decreases text.len(),
{
    if text.len() > 0 {
        lemma_some_line(text.drop_last());
    }
}

/// A line feed parts the lines before it from those after it.
pub proof fn lemma_lines_concat(one: Seq<char>, other: Seq<char>)
    ensures
        lines_of(one + seq!['\n'] + other) == lines_of(one) + lines_of(other),
    decreases other.len(),
{
    let text = one + seq!['\n'] + other;
    if other.len() == 0 {
        assert(text.drop_last() =~= one);
        assert(lines_of(text) =~= lines_of(one) + lines_of(other));
    } else {
        lemma_lines_concat(one, other.drop_last());
        lemma_some_line(other.drop_last());
        assert(text.drop_last() =~= one + seq!['\n'] + other.drop_last());
        assert(lines_of(text) =~= lines_of(one) + lines_of(other));
    }
}

/// What stands before a text without a line feed in between belongs to its first
/// line.
pub proof fn lemma_lines_prefixed(prefix: Seq<char>, text: Seq<char>)
    requires
        !prefix.contains('\n'),
    ensures
        lines_of(prefix + text).len() == lines_of(text).len(),
        lines_of(prefix + text)[0] == prefix + lines_of(text)[0],
        forall|i: int|
            1 <= i < lines_of(text).len() ==> #[trigger] lines_of(prefix + text)[i] == lines_of(
                text,
            )[i],
    decreases text.len(),
{
    if text.len() == 0 {
        assert(prefix + text =~= prefix);
        lemma_one_line(prefix);
    } else {
        let before = text.drop_last();
        lemma_lines_prefixed(prefix, before);
        lemma_some_line(before);
        assert((prefix + text).drop_last() =~= prefix + before);
        assert((prefix + text).last() == text.last());
        if text.last() != '\n' && lines_of(before).len() == 1 {
            assert((prefix + lines_of(before)[0]).push(text.last()) =~= prefix + lines_of(
                before,
            )[0].push(text.last()));
        }
    }
}

/// The lines of a text, joined again, are the text.
pub proof fn law_joined_lines_are_the_text(text: Seq<char>)
    ensures
        joined(lines_of(text), seq!['\n']) == text,
    decreases text.len(),
{
    if text.len() > 0 {
        let before = text.drop_last();
        let lines = lines_of(before);
        law_joined_lines_are_the_text(before);
        lemma_some_line(before);
        if text.last() == '\n' {
            lemma_joined_push(lines, seq!['\n'], Seq::empty());
            assert(before + seq!['\n'] + Seq::empty() =~= text);
        } else {
            let grown = lines.last().push(text.last());
            lemma_joined_push(lines.drop_last(), seq!['\n'], lines.last());
            lemma_joined_push(lines.drop_last(), seq!['\n'], grown);
            assert(lines.drop_last().push(lines.last()) =~= lines);
            if lines.len() == 1 {
                assert(grown =~= text);
            } else {
                let start = joined(lines.drop_last(), seq!['\n']) + seq!['\n'];
                assert(start + grown =~= (start + lines.last()).push(text.last()));
            }
            assert(before.push(text.last()) =~= text);
        }
    } else {
        assert(text =~= Seq::empty());
    }
}

/// A text without tabs is not changed by their expansion.
pub proof fn lemma_no_tabs(text: Seq<char>)
    requires
        !text.contains('\t'),
    ensures
        tabs_expanded(text) == text,
    decreases text.len(),
{
    if text.len() > 0 {
        let before = text.drop_last();
        assert(text[text.len() - 1] != '\t');
        assert forall|i: int| 0 <= i < before.len() implies before[i] != '\t' by {
            assert(before[i] == text[i]);
        }
        lemma_no_tabs(before);
        assert(before.push(text.last()) =~= text);
    } else {
        assert(tabs_expanded(text) =~= text);
    }
}

/// The column behind a text that starts at a tab stop is the one behind it alone.
proof fn lemma_column_after_concat(one: Seq<char>, other: Seq<char>)
    requires
        column_after(one) == 0,
    ensures
        column_after(one + other) == column_after(other),
    decreases other.len(),
{
    if other.len() == 0 {
        assert(one + other =~= one);
    } else {
        lemma_column_after_concat(one, other.drop_last());
        assert((one + other).drop_last() =~= one + other.drop_last());
        assert((one + other).last() == other.last());
    }
}

/// A text that starts at a tab stop expands as it does alone.
pub proof fn lemma_tabs_expanded_at_stop(one: Seq<char>, other: Seq<char>)
    requires
        column_after(one) == 0,
    ensures
        tabs_expanded(one + other) == tabs_expanded(one) + tabs_expanded(other),
    decreases other.len(),
{
    if other.len() == 0 {
        assert(one + other =~= one);
        assert(tabs_expanded(one) + tabs_expanded(other) =~= tabs_expanded(one));
    } else {
        let before = other.drop_last();
        lemma_tabs_expanded_at_stop(one, before);
        lemma_column_after_concat(one, before);
        assert((one + other).drop_last() =~= one + before);
        assert((one + other).last() == other.last());
        assert(tabs_expanded(one + other) =~= tabs_expanded(one) + tabs_expanded(other));
    }
}

/// A text without tabs is not changed by the expansion of what stands before it.
pub proof fn lemma_tabs_expanded_before(one: Seq<char>, other: Seq<char>)
    requires
        !other.contains('\t'),
    ensures
        tabs_expanded(one + other) == tabs_expanded(one) + other,
    decreases other.len(),
{
    if other.len() == 0 {
        assert(one + other =~= one);
        assert(tabs_expanded(one) + other =~= tabs_expanded(one));
    } else {
        let before = other.drop_last();
        assert(other[other.len() - 1] != '\t');
        assert forall|i: int| 0 <= i < before.len() implies before[i] != '\t' by {
            assert(before[i] == other[i]);
        }
        lemma_tabs_expanded_before(one, before);
        assert((one + other).drop_last() =~= one + before);
        assert(tabs_expanded(one + other) =~= tabs_expanded(one) + other);
    }
}

/// Spaces up to a tab stop lead to a tab stop.
pub proof fn lemma_column_after_spaces(text: Seq<char>, count: nat)
    requires
        column_after(text) == 0,
        count <= TAB_WIDTH,
    ensures
        column_after(text + spaces(count)) == count % TAB_WIDTH as nat,
    decreases count,
{
    if count == 0 {
        assert(text + spaces(0) =~= text);
    } else {
        let shorter = (count - 1) as nat;
        lemma_column_after_spaces(text, shorter);
        assert((text + spaces(count)).drop_last() =~= text + spaces(shorter));
        assert((text + spaces(count)).last() == ' ');
    }
}

/// The expansion of tabs brings no line feed, and keeps what stands at the ends
/// where that is no tab.
pub proof fn lemma_tabs_expanded_ends(text: Seq<char>)
    ensures
        text.len() <= tabs_expanded(text).len(),
        !text.contains('\n') ==> !tabs_expanded(text).contains('\n'),
        text.len() > 0 && text[0] != '\t' ==> tabs_expanded(text)[0] == text[0],
        text.len() > 0 && text.last() != '\t' ==> tabs_expanded(text).last() == text.last(),
    decreases text.len(),
{
    if text.len() > 0 {
        let before = text.drop_last();
        let expanded = tabs_expanded(text);
        lemma_tabs_expanded_ends(before);
        assert(column_after(before) < TAB_WIDTH);
        if !text.contains('\n') {
            assert(text[text.len() - 1] != '\n');
            assert forall|i: int| 0 <= i < before.len() implies before[i] != '\n' by {
                assert(before[i] == text[i]);
            }
            assert forall|i: int| 0 <= i < expanded.len() implies expanded[i] != '\n' by {
                if i < tabs_expanded(before).len() {
                    assert(expanded[i] == tabs_expanded(before)[i]);
                }
            }
        }
    }
}

/// The margin is at most the indentation of any line that is not blank.
pub proof fn lemma_margin_bound(lines: Seq<Seq<char>>, i: int)
    requires
        0 <= i < lines.len(),
        !is_blank(lines[i]),
    ensures
        margin_of(lines) is Some,
        margin_of(lines)->0 <= indent_of(lines[i]),
    decreases lines.len(),
{
    if i < lines.len() - 1 {
        lemma_margin_bound(lines.drop_last(), i);
    }
}

/// The margin of two groups of lines is the lesser of their margins.
pub proof fn lemma_margin_concat(one: Seq<Seq<char>>, other: Seq<Seq<char>>)
    ensures
        margin_of(one + other) == match (margin_of(one), margin_of(other)) {
            (None, m) => m,
            (m, None) => m,
            (Some(a), Some(b)) => if a <= b {
                Some(a)
            } else {
                Some(b)
            },
        },
    decreases other.len(),
{
    if other.len() == 0 {
        assert(one + other =~= one);
    } else {
        lemma_margin_concat(one, other.drop_last());
        assert((one + other).drop_last() =~= one + other.drop_last());
        assert((one + other).last() == other.last());
    }
}

/// The first line starts and the last line ends as the text does.
pub proof fn lemma_outer_lines(text: Seq<char>)
    requires
        text.len() > 0,
    ensures
        text[0] != '\n' ==> lines_of(text)[0].len() > 0 && lines_of(text)[0][0] == text[0],
        text.last() != '\n' ==> lines_of(text).last().len() > 0 && lines_of(text).last().last()
            == text.last(),
    decreases text.len(),
{
    let before = text.drop_last();
    lemma_some_line(before);
    if before.len() > 0 {
        lemma_outer_lines(before);
    }
}

/// Further parts never make a joined text shorter.
pub proof fn lemma_joined_grows(parts: Seq<Seq<char>>, separator: Seq<char>, n: int)
    requires
        0 <= n <= parts.len(),
    ensures
        joined(parts, separator).len() >= joined(parts.take(n), separator).len(),
    decreases parts.len(),
{
    if n == parts.len() {
        assert(parts.take(n) =~= parts);
    } else {
        lemma_joined_grows(parts.drop_last(), separator, n);
        assert(parts.drop_last().take(n) =~= parts.take(n));
        if parts.len() == 1 {
            assert(parts.take(n) =~= Seq::empty());
        }
    }
}

/// The whitespace characters, by their numbers.
pub proof fn law_whitespace_by_number(c: char)
    ensures
        is_space(c) <==> {
            let n = c as u32;
            ||| 9 <= n <= 13
            ||| n == 32
            ||| n == 133
            ||| n == 160
            ||| n == 5760
            ||| 8192 <= n <= 8202
            ||| n == 8232
            ||| n == 8233
            ||| n == 8239
            ||| n == 8287
            ||| n == 12288
        },
{
}

/// Trimming removes whitespace from the two ends, and nothing else: what is left
/// is a stretch of the text with nothing but whitespace before it and behind it.
pub proof fn law_trimming_removes_only_whitespace(text: Seq<char>)
    ensures
        exists|a: int, b: int|
            {
                &&& 0 <= a <= b <= text.len()
                &&& trimmed(text) == #[trigger] text.subrange(a, b)
                &&& forall|i: int| 0 <= i < a ==> is_space(#[trigger] text[i])
                &&& forall|i: int| b <= i < text.len() ==> is_space(#[trigger] text[i])
            },
        trimmed(text).len() == 0 <==> forall|i: int|
            0 <= i < text.len() ==> is_space(#[trigger] text[i]),
{
    lemma_indent_prefix(text);
    law_trimmed_ends(text);
    let rest = trimmed_start(text);
    lemma_trimmed_end_prefix(rest);
    let a = indent_of(text) as int;
    let b = a + trimmed_end(rest).len();
    assert(trimmed(text) =~= text.subrange(a, b));
    assert forall|i: int| b <= i < text.len() implies is_space(#[trigger] text[i]) by {
        assert(rest[i - a] == text[i]);
    }
}

/// A stretch of the text that starts and ends with no whitespace, with nothing but
/// whitespace around it, is the trimmed text.
pub proof fn law_trimmed_is_the_inside(text: Seq<char>, a: int, b: int)
    requires
        0 <= a < b <= text.len(),
        !is_space(text[a]),
        !is_space(text[b - 1]),
        forall|i: int| 0 <= i < a ==> is_space(#[trigger] text[i]),
        forall|i: int| b <= i < text.len() ==> is_space(#[trigger] text[i]),
    ensures
        trimmed(text) == text.subrange(a, b),
{
    lemma_indent(text, a);
    let rest = trimmed_start(text);
    assert forall|i: int| b - a <= i < rest.len() implies is_space(#[trigger] rest[i]) by {
        assert(rest[i] == text[i + a]);
    }
    assert(rest[b - a - 1] == text[b - 1]);
    lemma_trimmed_end(rest, b - a);
    assert(rest.take(b - a) =~= text.subrange(a, b));
}

/// A text with no whitespace at either end is its own trimmed text.
pub proof fn law_trimmed_text_stays(text: Seq<char>)
    requires
        text.len() > 0 ==> !is_space(text[0]) && !is_space(text.last()),
    ensures
        trimmed(text) == text,
{
    if text.len() > 0 {
        law_trimmed_is_the_inside(text, 0, text.len() as int);
        assert(text.subrange(0, text.len() as int) =~= text);
    } else {
        law_trimming_removes_only_whitespace(text);
        assert(trimmed(text) =~= text);
    }
}

/// No part gives no text, one part is itself, and each further part follows a
/// separator.
pub proof fn law_joining(parts: Seq<Seq<char>>, separator: Seq<char>, part: Seq<char>)
    ensures
        joined(Seq::empty(), separator) == Seq::<char>::empty(),
        joined(seq![part], separator) == part,
        parts.len() > 0 ==> joined(parts.push(part), separator) == joined(parts, separator)
            + separator + part,
{
    lemma_joined_push(parts, separator, part);
}

/// The views of strings are the strings' own, one by one.
pub proof fn law_views_one_by_one(strings: Seq<String>)
    ensures
        views(strings).len() == strings.len(),
        forall|i: int| 0 <= i < strings.len() ==> #[trigger] views(strings)[i] == strings[i]@,
{
}

/// Lines hold no line feed, and make up the text with a line feed between each two.
pub proof fn law_lines_make_up_the_text(text: Seq<char>)
    ensures
        lines_of(text).len() > 0,
        forall|i: int| 0 <= i < lines_of(text).len() ==> !(#[trigger] lines_of(text)[i]).contains('\n'),
        joined(lines_of(text), seq!['\n']) == text,
    decreases text.len(),
{
    law_joined_lines_are_the_text(text);
    lemma_some_line(text);
    if text.len() > 0 {
        let before = text.drop_last();
        law_lines_make_up_the_text(before);
        let lines = lines_of(text);
        assert forall|i: int| 0 <= i < lines.len() implies !(#[trigger] lines[i]).contains('\n') by {
            if i < lines.len() - 1 {
                assert(lines[i] == lines_of(before)[i]);
            } else if text.last() != '\n' {
                let last = lines_of(before)[i];
                assert(!last.contains('\n'));
                assert(lines[i] == last.push(text.last()));
                assert forall|j: int| 0 <= j < lines[i].len() implies lines[i][j] != '\n' by {
                    if j < last.len() {
                        assert(last[j] == lines[i][j]);
                    }
                }
            }
        }
    }
}

/// The column behind a text without tab and without line end is its length.
proof fn lemma_column_is_length(text: Seq<char>)
    requires
        !text.contains('\t'),
        !text.contains('\n'),
        !text.contains('\r'),
    ensures
        column_after(text) == text.len() % 8,
    decreases text.len(),
{
    if text.len() > 0 {
        let before = text.drop_last();
        let last = text[text.len() - 1];
        assert(last != '\t' && last != '\n' && last != '\r');
        assert forall|i: int| 0 <= i < before.len() implies before[i] != '\t' && before[i] != '\n'
            && before[i] != '\r' by {
            assert(before[i] == text[i]);
        }
        lemma_column_is_length(before);
    }
}

/// A tab behind text of one line fills up with spaces, at least one, to the next
/// multiple of eight columns.
pub proof fn law_tab_fills_up_to_the_next_stop(line: Seq<char>, width: nat)
    requires
        !line.contains('\t'),
        !line.contains('\n'),
        !line.contains('\r'),
        1 <= width <= 8,
        (line.len() + width) % 8 == 0,
    ensures
        tabs_expanded(line.push('\t')) == line + Seq::new(width, |i: int| ' '),
{
    lemma_column_is_length(line);
    lemma_no_tabs(line);
    assert(line.push('\t').drop_last() =~= line);
    assert(spaces(width) =~= Seq::new(width, |i: int| ' '));
}

/// A character other than a tab stays, and behind a tab or a line end the columns
/// are counted anew.
pub proof fn law_tabs_expand_piece_by_piece(text: Seq<char>, c: char, rest: Seq<char>)
    ensures
        tabs_expanded(Seq::empty()) == Seq::<char>::empty(),
        c != '\t' ==> tabs_expanded(text.push(c)) == tabs_expanded(text).push(c),
        c == '\t' || c == '\n' || c == '\r' ==> tabs_expanded(text.push(c) + rest) == tabs_expanded(
            text.push(c),
        ) + tabs_expanded(rest),
{
    assert(text.push(c).drop_last() =~= text);
    if c == '\t' || c == '\n' || c == '\r' {
        lemma_tabs_expanded_at_stop(text.push(c), rest);
    }
}

/// The margin of lines that all have at least `margin` leading whitespace unless
/// they are blank, one of them just that.
proof fn lemma_margin_exact(lines: Seq<Seq<char>>, margin: nat, at: int)
    requires
        forall|i: int|
            0 <= i < lines.len() && !is_blank(#[trigger] lines[i]) ==> margin <= indent_of(lines[i]),
        0 <= at < lines.len(),
        !is_blank(lines[at]),
        indent_of(lines[at]) == margin,
    ensures
        margin_of(lines) == Some(margin),
    decreases lines.len(),
{
    lemma_margin_bound(lines, at);
    lemma_margin_reached(lines);
    let i = choose|i: int|
        0 <= i < lines.len() && !is_blank(#[trigger] lines[i]) && indent_of(lines[i]) == margin_of(
            lines,
        )->0;
    assert(margin <= indent_of(lines[i]));
}

/// A margin is the indentation of some line that is not blank.
proof fn lemma_margin_reached(lines: Seq<Seq<char>>)
    ensures
        margin_of(lines) is Some ==> exists|i: int|
            0 <= i < lines.len() && !is_blank(#[trigger] lines[i]) && indent_of(lines[i])
                == margin_of(lines)->0,
    decreases lines.len(),
{
    if lines.len() > 0 {
        let before = lines.drop_last();
        lemma_margin_reached(before);
        if margin_of(lines) is Some {
            if !is_blank(lines.last()) && margin_of(lines) == Some(indent_of(lines.last())) {
                assert(!is_blank(lines[lines.len() - 1]));
            } else {
                let i = choose|i: int|
                    0 <= i < before.len() && !is_blank(#[trigger] before[i]) && indent_of(before[i])
                        == margin_of(before)->0;
                assert(lines[i] == before[i]);
            }
        }
    }
}

/// The clean-up of an indented block, by what it does to the lines of the text
/// with its tabs expanded. The first line loses its leading whitespace, `first`
/// characters. Each other line loses `margin` characters, where every line after
/// the first that is not all whitespace starts with that many of them, and one of
/// them with no more; nothing, where there is no such line. Of the lines so cut,
/// those before `start` and from `end` on are empty and go, and the others stay.
pub proof fn law_clean_up_line_by_line(
    text: Seq<char>,
    first: int,
    margin: nat,
    start: int,
    end: int,
)
    requires
        ({
            let lines = lines_of(tabs_expanded(text));
            let cut = Seq::new(
                lines.len(),
                |i: int|
                    if i == 0 {
                        lines[0].skip(first)
                    } else if margin <= lines[i].len() {
                        lines[i].skip(margin as int)
                    } else {
                        Seq::empty()
                    },
            );
            &&& 0 <= first <= lines[0].len()
            &&& forall|j: int| 0 <= j < first ==> is_space(#[trigger] lines[0][j])
            &&& first < lines[0].len() ==> !is_space(lines[0][first])
            &&& forall|i: int, j: int|
                #![trigger lines[i][j]]
                1 <= i < lines.len() && 0 <= j < lines[i].len() && !is_space(lines[i][j])
                    ==> margin <= j
            &&& {
                ||| exists|i: int|
                    1 <= i < lines.len() && margin < (#[trigger] lines[i]).len() && !is_space(
                        lines[i][margin as int],
                    )
                ||| margin == 0 && forall|i: int, j: int|
                    #![trigger lines[i][j]]
                    1 <= i < lines.len() && 0 <= j < lines[i].len() ==> is_space(lines[i][j])
            }
            &&& 0 <= start <= end <= lines.len()
            &&& forall|i: int| 0 <= i < start ==> (#[trigger] cut[i]).len() == 0
            &&& forall|i: int| end <= i < lines.len() ==> (#[trigger] cut[i]).len() == 0
            &&& start < end ==> cut[start].len() > 0 && cut[end - 1].len() > 0
        }),
    ensures
        ({
            let lines = lines_of(tabs_expanded(text));
            let cut = Seq::new(
                lines.len(),
                |i: int|
                    if i == 0 {
                        lines[0].skip(first)
                    } else if margin <= lines[i].len() {
                        lines[i].skip(margin as int)
                    } else {
                        Seq::empty()
                    },
            );
            cleaned(text) == joined(cut.subrange(start, end), seq!['\n'])
        }),
{
    let lines = lines_of(tabs_expanded(text));
    let cut = Seq::new(
        lines.len(),
        |i: int|
            if i == 0 {
                lines[0].skip(first)
            } else if margin <= lines[i].len() {
                lines[i].skip(margin as int)
            } else {
                Seq::empty()
            },
    );
    let rest = lines.skip(1);
    lemma_some_line(tabs_expanded(text));
    lemma_indent(lines[0], first);
    assert forall|i: int| 0 <= i < rest.len() && !is_blank(#[trigger] rest[i]) implies margin
        <= indent_of(rest[i]) by {
        lemma_indent_prefix(rest[i]);
        assert(rest[i] == lines[i + 1]);
        assert(!is_space(lines[i + 1][indent_of(rest[i]) as int]));
    }
    if exists|i: int|
        1 <= i < lines.len() && margin < (#[trigger] lines[i]).len() && !is_space(
            lines[i][margin as int],
        ) {
        let i = choose|i: int|
            1 <= i < lines.len() && margin < (#[trigger] lines[i]).len() && !is_space(
                lines[i][margin as int],
            );
        assert forall|j: int| 0 <= j < margin implies is_space(#[trigger] lines[i][j]) by {}
        lemma_indent(lines[i], margin as int);
        assert(rest[i - 1] == lines[i]);
        lemma_margin_exact(rest, margin, i - 1);
    } else {
        lemma_margin_reached(rest);
        if margin_of(rest) is Some {
            let i = choose|i: int|
                0 <= i < rest.len() && !is_blank(#[trigger] rest[i]) && indent_of(rest[i])
                    == margin_of(rest)->0;
            assert(rest[i] == lines[i + 1]);
            assert(is_blank(rest[i]));
        }
    }
    let clean = dedented(lines);
    assert forall|i: int| 0 <= i < lines.len() implies #[trigger] clean[i] == cut[i] by {
        assert(lines[i].skip(0) =~= lines[i]);
        if i > 0 && margin == lines[i].len() {
            assert(lines[i].skip(margin as int) =~= Seq::empty());
        }
    }
    assert(clean =~= cut);
    if start < end {
        lemma_without_trailing_empty(cut, end);
        lemma_without_leading_empty(cut.take(end), start);
        assert(cut.take(end).skip(start) =~= cut.subrange(start, end));
    } else {
        assert forall|i: int| 0 <= i < cut.len() implies (#[trigger] cut[i]).len() == 0 by {}
        lemma_without_trailing_empty(cut, 0);
        assert(cut.take(0) =~= Seq::empty());
        assert(cut.subrange(start, end) =~= Seq::empty());
    }
}

} // verus!
