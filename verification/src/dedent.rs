//! What `textwrap::dedent` does to a text, stated line by line.
use vstd::prelude::*;

use crate::text::{
    first_line_len, first_line_len_facts, first_line_len_of_concat, is_blank, is_line_start,
    is_white_space, spaces,
};

verus! {

/// A line without the `\r` of a `\r\n` line ending.
pub open spec fn strip_carriage_return(line: Seq<char>) -> Seq<char> {
    if line.len() > 0 && line.last() == '\r' {
        line.drop_last()
    } else {
        line
    }
}

/// The lines of `s`, as `str::lines` yields them: the pieces between `\n`s,
/// each without the `\r` of a `\r\n`, and without a last empty piece after a
/// final `\n`.
pub open spec fn text_lines(s: Seq<char>) -> Seq<Seq<char>>
    decreases s.len(),
{
    if s.len() == 0 {
        Seq::empty()
    } else {
        let k = first_line_len(s);
        if k < s.len() {
            seq![strip_carriage_return(s.take(k as int))] + text_lines(s.skip(k + 1 as int))
        } else {
            seq![s]
        }
    }
}

/// How many whitespace characters a line starts with.
pub open spec fn leading_white_space_len(line: Seq<char>) -> nat
    decreases line.len(),
{
    if line.len() > 0 && is_white_space(line[0]) {
        1 + leading_white_space_len(line.drop_first())
    } else {
        0
    }
}

/// How many leading characters two texts share (at most the shorter length).
pub open spec fn shared_len(a: Seq<char>, b: Seq<char>) -> nat
    decreases a.len(),
{
    if a.len() > 0 && b.len() > 0 && a[0] == b[0] {
        1 + shared_len(a.drop_first(), b.drop_first())
    } else {
        0
    }
}

/// The prefix after `dedent` compares it with one more line: where the line
/// differs from it at a position inside both, the prefix is cut there.
pub open spec fn narrow_step(prefix: Seq<char>, line: Seq<char>) -> Seq<char> {
    let m = shared_len(line, prefix);
    if m < line.len() && m < prefix.len() {
        line.take(m as int)
    } else {
        prefix
    }
}

/// The prefix narrowed by every line in turn.
pub open spec fn narrow_prefix(prefix: Seq<char>, lines: Seq<Seq<char>>) -> Seq<char>
    decreases lines.len(),
{
    if lines.len() == 0 {
        prefix
    } else {
        narrow_prefix(narrow_step(prefix, lines[0]), lines.drop_first())
    }
}

/// The prefix that `dedent` removes: the leading whitespace of the first
/// non-blank line, narrowed by every line after it.
pub open spec fn dedent_prefix(lines: Seq<Seq<char>>) -> Seq<char>
    decreases lines.len(),
{
    if lines.len() == 0 {
        Seq::empty()
    } else if !is_blank(lines[0]) {
        narrow_prefix(lines[0].take(leading_white_space_len(lines[0]) as int), lines.drop_first())
    } else {
        dedent_prefix(lines.drop_first())
    }
}

/// Whether `line` starts with `prefix`.
pub open spec fn starts_with(line: Seq<char>, prefix: Seq<char>) -> bool {
    prefix.len() <= line.len() && line.take(prefix.len() as int) == prefix
}

/// Each line, with `prefix` taken off where it starts with it and has a
/// non-whitespace character (and emptied where it is blank), followed by `\n`.
pub open spec fn dedent_lines(lines: Seq<Seq<char>>, prefix: Seq<char>) -> Seq<char>
    decreases lines.len(),
{
    if lines.len() == 0 {
        Seq::empty()
    } else {
        let line = lines[0];
        let kept = if starts_with(line, prefix) && !is_blank(line) {
            line.skip(prefix.len() as int)
        } else {
            Seq::empty()
        };
        kept + seq!['\n'] + dedent_lines(lines.drop_first(), prefix)
    }
}

/// What `textwrap::dedent(s)` returns: the lines of `s` without their common
/// prefix, each followed by `\n`, but for the last where `s` does not end with
/// `\n`.
pub open spec fn textwrap_dedent(s: Seq<char>) -> Seq<char> {
    let lines = text_lines(s);
    let joined = dedent_lines(lines, dedent_prefix(lines));
    if joined.len() > 0 && joined.last() == '\n' && !(s.len() > 0 && s.last() == '\n') {
        joined.drop_last()
    } else {
        joined
    }
}

/// Whether the only whitespace in `line` is the space.
pub open spec fn spaces_only(line: Seq<char>) -> bool {
    forall|i: int| 0 <= i < line.len() && is_white_space(#[trigger] line[i]) ==> line[i] == ' '
}

/// Whether every line of a list has the space as its only whitespace.
pub open spec fn all_spaces_only(lines: Seq<Seq<char>>) -> bool {
    forall|i: int| 0 <= i < lines.len() ==> spaces_only(#[trigger] lines[i])
}

/// A line's leading whitespace is spaces, and it ends at the first other
/// character, which exists exactly when the line is not blank.
pub proof fn leading_spaces_facts(line: Seq<char>)
    requires
        spaces_only(line),
    ensures
        leading_white_space_len(line) <= line.len(),
        line.take(leading_white_space_len(line) as int) == spaces(leading_white_space_len(line)),
        leading_white_space_len(line) < line.len() <==> !is_blank(line),
        leading_white_space_len(line) < line.len() ==> !is_white_space(
            line[leading_white_space_len(line) as int],
        ),
    decreases line.len(),
{
    if line.len() > 0 && is_white_space(line[0]) {
        let rest = line.drop_first();
        assert(spaces_only(rest)) by {
            assert forall|i: int| 0 <= i < rest.len() && is_white_space(#[trigger] rest[i]) implies rest[i]
                == ' ' by {
                assert(rest[i] == line[i + 1]);
            }
        }
        leading_spaces_facts(rest);
        let k = leading_white_space_len(line);
        assert(line.take(k as int) =~= seq![line[0]] + rest.take(k - 1));
        assert(spaces(k) =~= seq![' '] + spaces((k - 1) as nat));
        if is_blank(rest) {
            assert(is_blank(line)) by {
                assert forall|i: int| 0 <= i < line.len() implies is_white_space(#[trigger] line[i]) by {
                    if i > 0 {
                        assert(line[i] == rest[i - 1]);
                    }
                }
            }
        } else {
            let j = choose|j: int| 0 <= j < rest.len() && !is_white_space(#[trigger] rest[j]);
            assert(line[j + 1] == rest[j]);
        }
        if k < line.len() {
            assert(line[k as int] == rest[k - 1]);
        }
    } else {
        assert(line.take(0) =~= spaces(0));
        if line.len() > 0 {
            assert(!is_white_space(line[0]));
        }
    }
}

/// How far a line shares its start with `p` spaces: as far as its leading
/// spaces go, at most `p`.
pub proof fn shared_len_with_spaces(line: Seq<char>, p: nat)
    requires
        spaces_only(line),
    ensures
        shared_len(line, spaces(p)) == if leading_white_space_len(line) < p {
            leading_white_space_len(line)
        } else {
            p
        },
    decreases line.len(),
{
    if line.len() > 0 && p > 0 {
        let rest = line.drop_first();
        assert(spaces_only(rest)) by {
            assert forall|i: int| 0 <= i < rest.len() && is_white_space(#[trigger] rest[i]) implies rest[i]
                == ' ' by {
                assert(rest[i] == line[i + 1]);
            }
        }
        assert(spaces(p).drop_first() =~= spaces((p - 1) as nat));
        shared_len_with_spaces(rest, (p - 1) as nat);
        if is_white_space(line[0]) {
            assert(line[0] == ' ');
        }
    }
}

/// The indentation that narrowing `p` spaces by the non-blank lines leaves:
/// the least of `p` and their leading whitespace.
pub open spec fn min_indent(p: nat, lines: Seq<Seq<char>>) -> nat
    decreases lines.len(),
{
    if lines.len() == 0 {
        p
    } else {
        let next = if !is_blank(lines[0]) && leading_white_space_len(lines[0]) < p {
            leading_white_space_len(lines[0])
        } else {
            p
        };
        min_indent(next, lines.drop_first())
    }
}

/// The indentation common to the non-blank lines (0 where there are none).
pub open spec fn dedent_indent(lines: Seq<Seq<char>>) -> nat
    decreases lines.len(),
{
    if lines.len() == 0 {
        0
    } else if !is_blank(lines[0]) {
        min_indent(leading_white_space_len(lines[0]), lines.drop_first())
    } else {
        dedent_indent(lines.drop_first())
    }
}

/// Narrowing a prefix of spaces by lines whose only whitespace is the space
/// leaves the least indentation.
pub proof fn narrow_spaces(p: nat, lines: Seq<Seq<char>>)
    requires
        all_spaces_only(lines),
    ensures
        narrow_prefix(spaces(p), lines) == spaces(min_indent(p, lines)),
    decreases lines.len(),
{
    if lines.len() > 0 {
        let line = lines[0];
        assert(spaces_only(line));
        leading_spaces_facts(line);
        shared_len_with_spaces(line, p);
        let next = if !is_blank(line) && leading_white_space_len(line) < p {
            leading_white_space_len(line)
        } else {
            p
        };
        assert(narrow_step(spaces(p), line) == spaces(next));
        assert(all_spaces_only(lines.drop_first())) by {
            assert forall|i: int| 0 <= i < lines.drop_first().len() implies spaces_only(
                #[trigger] lines.drop_first()[i],
            ) by {
                assert(lines.drop_first()[i] == lines[i + 1]);
            }
        }
        narrow_spaces(next, lines.drop_first());
    }
}

/// The prefix that `dedent` removes from such lines is their common
/// indentation in spaces.
pub proof fn dedent_prefix_is_spaces(lines: Seq<Seq<char>>)
    requires
        all_spaces_only(lines),
    ensures
        dedent_prefix(lines) == spaces(dedent_indent(lines)),
    decreases lines.len(),
{
    if lines.len() == 0 {
        assert(Seq::<char>::empty() =~= spaces(0));
    } else {
        assert(all_spaces_only(lines.drop_first())) by {
            assert forall|i: int| 0 <= i < lines.drop_first().len() implies spaces_only(
                #[trigger] lines.drop_first()[i],
            ) by {
                assert(lines.drop_first()[i] == lines[i + 1]);
            }
        }
        if !is_blank(lines[0]) {
            assert(spaces_only(lines[0]));
            leading_spaces_facts(lines[0]);
            narrow_spaces(leading_white_space_len(lines[0]), lines.drop_first());
        } else {
            dedent_prefix_is_spaces(lines.drop_first());
        }
    }
}

/// The least indentation is at most `p` and at most that of every non-blank
/// line, and it is `p` or the indentation of one of them.
pub proof fn min_indent_facts(p: nat, lines: Seq<Seq<char>>)
    ensures
        min_indent(p, lines) <= p,
        forall|i: int|
            0 <= i < lines.len() && !is_blank(#[trigger] lines[i]) ==> min_indent(p, lines)
                <= leading_white_space_len(lines[i]),
        min_indent(p, lines) == p || exists|i: int|
            0 <= i < lines.len() && !is_blank(#[trigger] lines[i]) && leading_white_space_len(
                lines[i],
            ) == min_indent(p, lines),
    decreases lines.len(),
{
    if lines.len() > 0 {
        let next = if !is_blank(lines[0]) && leading_white_space_len(lines[0]) < p {
            leading_white_space_len(lines[0])
        } else {
            p
        };
        let rest = lines.drop_first();
        min_indent_facts(next, rest);
        let m = min_indent(p, lines);
        assert forall|i: int|
            0 <= i < lines.len() && !is_blank(#[trigger] lines[i]) implies m
            <= leading_white_space_len(lines[i]) by {
            if i > 0 {
                assert(lines[i] == rest[i - 1]);
            }
        }
        if m != p {
            if m == next {
                assert(!is_blank(lines[0]) && leading_white_space_len(lines[0]) == m);
            } else {
                let j = choose|j: int|
                    0 <= j < rest.len() && !is_blank(#[trigger] rest[j]) && leading_white_space_len(
                        rest[j],
                    ) == m;
                assert(lines[j + 1] == rest[j]);
            }
        }
    }
}

/// Where some line is not blank, the common indentation is that of one of
/// them, and no non-blank line is indented less.
pub proof fn dedent_indent_facts(lines: Seq<Seq<char>>)
    ensures
        forall|i: int|
            0 <= i < lines.len() && !is_blank(#[trigger] lines[i]) ==> dedent_indent(lines)
                <= leading_white_space_len(lines[i]),
        (exists|i: int| 0 <= i < lines.len() && !is_blank(#[trigger] lines[i])) ==> exists|i: int|
            0 <= i < lines.len() && !is_blank(#[trigger] lines[i]) && leading_white_space_len(
                lines[i],
            ) == dedent_indent(lines),
    decreases lines.len(),
{
    if lines.len() > 0 {
        let rest = lines.drop_first();
        if !is_blank(lines[0]) {
            min_indent_facts(leading_white_space_len(lines[0]), rest);
            let m = dedent_indent(lines);
            assert forall|i: int|
                0 <= i < lines.len() && !is_blank(#[trigger] lines[i]) implies m
                <= leading_white_space_len(lines[i]) by {
                if i > 0 {
                    assert(lines[i] == rest[i - 1]);
                }
            }
            if m != leading_white_space_len(lines[0]) {
                let j = choose|j: int|
                    0 <= j < rest.len() && !is_blank(#[trigger] rest[j]) && leading_white_space_len(
                        rest[j],
                    ) == m;
                assert(lines[j + 1] == rest[j]);
            }
        } else {
            dedent_indent_facts(rest);
            assert forall|i: int|
                0 <= i < lines.len() && !is_blank(#[trigger] lines[i]) implies dedent_indent(lines)
                <= leading_white_space_len(lines[i]) by {
                assert(i > 0);
                assert(lines[i] == rest[i - 1]);
            }
            if exists|i: int| 0 <= i < lines.len() && !is_blank(#[trigger] lines[i]) {
                let i = choose|i: int| 0 <= i < lines.len() && !is_blank(#[trigger] lines[i]);
                assert(i > 0);
                assert(rest[i - 1] == lines[i]);
                let j = choose|j: int|
                    0 <= j < rest.len() && !is_blank(#[trigger] rest[j]) && leading_white_space_len(
                        rest[j],
                    ) == dedent_indent(rest);
                assert(lines[j + 1] == rest[j]);
            }
        }
    }
}

/// Whether the only whitespace in `s` is the space and the line feed.
pub open spec fn spaces_and_newlines_only(s: Seq<char>) -> bool {
    forall|i: int|
        0 <= i < s.len() && is_white_space(#[trigger] s[i]) ==> s[i] == ' ' || s[i] == '\n'
}

/// The lines of a text whose only whitespace is the space and the line feed
/// have the space as their only whitespace, and one of them is not blank
/// where the text has a character other than whitespace.
pub proof fn lines_of_plain_text(t: Seq<char>)
    requires
        spaces_and_newlines_only(t),
    ensures
        all_spaces_only(text_lines(t)),
        (exists|j: int| 0 <= j < t.len() && !is_white_space(#[trigger] t[j])) ==> exists|i: int|
            0 <= i < text_lines(t).len() && !is_blank(#[trigger] text_lines(t)[i]),
    decreases t.len(),
{
    if t.len() > 0 {
        first_line_len_facts(t);
        let k = first_line_len(t);
        let piece = t.take(k as int);
        assert(spaces_only(piece)) by {
            assert forall|i: int| 0 <= i < piece.len() && is_white_space(#[trigger] piece[i]) implies piece[i]
                == ' ' by {
                assert(piece[i] == t[i]);
            }
        }
        if k < t.len() {
            let rest = t.skip(k + 1 as int);
            assert(spaces_and_newlines_only(rest)) by {
                assert forall|i: int| 0 <= i < rest.len() && is_white_space(#[trigger] rest[i]) implies rest[i]
                    == ' ' || rest[i] == '\n' by {
                    assert(rest[i] == t[i + k + 1]);
                }
            }
            lines_of_plain_text(rest);
            if piece.len() > 0 {
                assert(piece.last() == t[k - 1]);
                assert(piece.last() != '\r');
            }
            assert(strip_carriage_return(piece) == piece);
            let lines = text_lines(t);
            assert(lines =~= seq![piece] + text_lines(rest));
            assert(all_spaces_only(lines)) by {
                assert forall|i: int| 0 <= i < lines.len() implies spaces_only(#[trigger] lines[i]) by {
                    if i > 0 {
                        assert(lines[i] == text_lines(rest)[i - 1]);
                    }
                }
            }
            if exists|j: int| 0 <= j < t.len() && !is_white_space(#[trigger] t[j]) {
                let j = choose|j: int| 0 <= j < t.len() && !is_white_space(#[trigger] t[j]);
                if j < k {
                    assert(piece[j] == t[j]);
                    assert(!is_blank(lines[0]));
                } else {
                    assert(j != k);
                    assert(rest[j - k - 1] == t[j]);
                    let i = choose|i: int|
                        0 <= i < text_lines(rest).len() && !is_blank(#[trigger] text_lines(rest)[i]);
                    assert(lines[i + 1] == text_lines(rest)[i]);
                }
            }
        } else {
            assert(piece =~= t);
            let lines = text_lines(t);
            assert(lines =~= seq![t]);
            if exists|j: int| 0 <= j < t.len() && !is_white_space(#[trigger] t[j]) {
                assert(!is_blank(lines[0]));
            }
        }
    }
}

/// Where a line starts with the prefix and has, right after it, a character
/// other than whitespace, that character starts a line of the joined text.
pub proof fn kept_line_starts_a_line(lines: Seq<Seq<char>>, prefix: Seq<char>, w: int)
    requires
        0 <= w < lines.len(),
        starts_with(lines[w], prefix),
        prefix.len() < lines[w].len(),
        !is_white_space(lines[w][prefix.len() as int]),
    ensures
        exists|pos: int|
            is_line_start(dedent_lines(lines, prefix), pos) && #[trigger] dedent_lines(lines, prefix)[pos]
                == lines[w][prefix.len() as int],
    decreases lines.len(),
{
    let line = lines[0];
    let kept = if starts_with(line, prefix) && !is_blank(line) {
        line.skip(prefix.len() as int)
    } else {
        Seq::empty()
    };
    let rest = dedent_lines(lines.drop_first(), prefix);
    let joined = dedent_lines(lines, prefix);
    assert(joined =~= kept + seq!['\n'] + rest);
    if w == 0 {
        assert(!is_blank(line));
        assert(joined[0] == line[prefix.len() as int]);
        assert(is_line_start(joined, 0));
    } else {
        assert(lines.drop_first()[w - 1] == lines[w]);
        kept_line_starts_a_line(lines.drop_first(), prefix, w - 1);
        let p = choose|p: int|
            is_line_start(rest, p) && #[trigger] rest[p] == lines[w][prefix.len() as int];
        let pos = kept.len() + 1 + p;
        assert(joined[pos] == rest[p]);
        assert(joined[pos - 1] == if p == 0 {
            '\n'
        } else {
            rest[p - 1]
        });
        assert(is_line_start(joined, pos));
    }
}

/// A text whose only whitespace is the space and the line feed, and which
/// has another character, keeps after `dedent` a line that starts with a
/// character other than whitespace: `dedent` takes off all the common
/// indentation and no more.
pub proof fn dedent_leaves_an_unindented_line(t: Seq<char>)
    requires
        spaces_and_newlines_only(t),
        exists|j: int| 0 <= j < t.len() && !is_white_space(#[trigger] t[j]),
    ensures
        exists|pos: int|
            is_line_start(textwrap_dedent(t), pos) && !is_white_space(
                #[trigger] textwrap_dedent(t)[pos],
            ),
{
    lines_of_plain_text(t);
    let lines = text_lines(t);
    dedent_prefix_is_spaces(lines);
    dedent_indent_facts(lines);
    let m = dedent_indent(lines);
    let w = choose|i: int|
        0 <= i < lines.len() && !is_blank(#[trigger] lines[i]) && leading_white_space_len(lines[i])
            == m;
    assert(spaces_only(lines[w]));
    leading_spaces_facts(lines[w]);
    assert(spaces(m).len() == m);
    kept_line_starts_a_line(lines, spaces(m), w);
    let joined = dedent_lines(lines, spaces(m));
    let pos = choose|pos: int|
        is_line_start(joined, pos) && #[trigger] joined[pos] == lines[w][spaces(m).len() as int];
    let d = textwrap_dedent(t);
    if d != joined {
        assert(d == joined.drop_last());
        assert(joined[pos] != '\n');
        assert(pos != joined.len() - 1);
        assert(d[pos] == joined[pos]);
        assert(is_line_start(d, pos));
    } else {
        assert(is_line_start(d, pos));
    }
}

/// `s` with `n` spaces put after every line feed.
pub open spec fn shift_after_newlines(s: Seq<char>, n: nat) -> Seq<char>
    decreases s.len(),
{
    if s.len() == 0 {
        Seq::empty()
    } else if s[0] == '\n' {
        seq!['\n'] + spaces(n) + shift_after_newlines(s.drop_first(), n)
    } else {
        seq![s[0]] + shift_after_newlines(s.drop_first(), n)
    }
}

/// `s` with `n` more spaces at the start of every line.
pub open spec fn shift_lines(s: Seq<char>, n: nat) -> Seq<char> {
    spaces(n) + shift_after_newlines(s, n)
}

/// Each line with `n` more spaces at its start.
pub open spec fn shift_each(lines: Seq<Seq<char>>, n: nat) -> Seq<Seq<char>> {
    Seq::new(lines.len(), |i: int| spaces(n) + lines[i])
}

/// Shifting works piece by piece.
pub proof fn shift_concat(a: Seq<char>, b: Seq<char>, n: nat)
    ensures
        shift_after_newlines(a + b, n) == shift_after_newlines(a, n) + shift_after_newlines(b, n),
    decreases a.len(),
{
    if a.len() == 0 {
        assert(a + b =~= b);
        assert(shift_after_newlines(a, n) + shift_after_newlines(b, n) =~= shift_after_newlines(b, n));
    } else {
        assert((a + b)[0] == a[0]);
        assert((a + b).drop_first() =~= a.drop_first() + b);
        shift_concat(a.drop_first(), b, n);
        if a[0] == '\n' {
            assert(shift_after_newlines(a + b, n) =~= seq!['\n'] + spaces(n) + (shift_after_newlines(
                a.drop_first(),
                n,
            ) + shift_after_newlines(b, n)));
        } else {
            assert(shift_after_newlines(a + b, n) =~= seq![a[0]] + (shift_after_newlines(
                a.drop_first(),
                n,
            ) + shift_after_newlines(b, n)));
        }
    }
}

/// Shifting a text without line feeds changes nothing.
pub proof fn shift_without_newline(a: Seq<char>, n: nat)
    requires
        forall|i: int| 0 <= i < a.len() ==> a[i] != '\n',
    ensures
        shift_after_newlines(a, n) == a,
    decreases a.len(),
{
    if a.len() > 0 {
        shift_without_newline(a.drop_first(), n);
        assert(seq![a[0]] + a.drop_first() =~= a);
    }
}

/// Shifting by nothing changes nothing.
pub proof fn shift_by_zero(a: Seq<char>)
    ensures
        shift_after_newlines(a, 0) == a,
    decreases a.len(),
{
    if a.len() > 0 {
        shift_by_zero(a.drop_first());
        assert(spaces(0) =~= Seq::<char>::empty());
        assert(seq![a[0]] + a.drop_first() =~= a);
        if a[0] == '\n' {
            assert(seq!['\n'] + spaces(0) + a.drop_first() =~= a);
        }
    }
}

/// `n` more leading spaces: the same blankness, `n` more leading whitespace.
pub proof fn shifted_line(line: Seq<char>, n: nat)
    ensures
        leading_white_space_len(spaces(n) + line) == n + leading_white_space_len(line),
        is_blank(spaces(n) + line) == is_blank(line),
    decreases n,
{
    if n > 0 {
        shifted_line(line, (n - 1) as nat);
        let s = spaces(n) + line;
        assert(s[0] == ' ');
        assert(s.drop_first() =~= spaces((n - 1) as nat) + line);
        if is_blank(s.drop_first()) {
            assert forall|i: int| 0 <= i < s.len() implies is_white_space(#[trigger] s[i]) by {
                if i > 0 {
                    assert(s[i] == s.drop_first()[i - 1]);
                }
            }
        }
        if is_blank(s) {
            assert forall|i: int| 0 <= i < s.drop_first().len() implies is_white_space(
                #[trigger] s.drop_first()[i],
            ) by {
                assert(s.drop_first()[i] == s[i + 1]);
            }
        }
    } else {
        assert(spaces(0) + line =~= line);
    }
}

/// The lines of a shifted text are the lines of the text, shifted, and one
/// more blank line where the text is empty or ends with a line feed.
pub proof fn lines_of_shifted_text(t: Seq<char>, n: nat)
    requires
        n > 0,
        spaces_and_newlines_only(t),
    ensures
        text_lines(shift_lines(t, n)) == shift_each(text_lines(t), n) + if t.len() == 0 || t.last()
            == '\n' {
            seq![spaces(n)]
        } else {
            Seq::empty()
        },
    decreases t.len(),
{
    first_line_len_facts(t);
    let k = first_line_len(t);
    let piece = t.take(k as int);
    let sp = spaces(n);
    assert(forall|i: int| 0 <= i < sp.len() ==> sp[i] == ' ');
    if k == t.len() {
        assert(piece =~= t);
        shift_without_newline(t, n);
        let whole = sp + t;
        assert(shift_lines(t, n) == whole);
        assert(forall|i: int| 0 <= i < whole.len() ==> whole[i] != '\n');
        first_line_len_of_concat(whole, Seq::empty());
        assert(whole + Seq::<char>::empty() =~= whole);
        assert(text_lines(whole) =~= seq![whole]);
        if t.len() == 0 {
            assert(whole =~= sp);
            assert(text_lines(t) =~= Seq::<Seq<char>>::empty());
            assert(shift_each(text_lines(t), n) + seq![sp] =~= seq![sp]);
        } else {
            assert(t.last() == t[t.len() - 1]);
            assert(text_lines(t) =~= seq![t]);
            assert(shift_each(text_lines(t), n) + Seq::<Seq<char>>::empty() =~= seq![whole]);
        }
    } else {
        let rest = t.skip(k + 1 as int);
        assert(t =~= piece + seq!['\n'] + rest);
        assert(spaces_and_newlines_only(rest)) by {
            assert forall|i: int| 0 <= i < rest.len() && is_white_space(#[trigger] rest[i]) implies rest[i]
                == ' ' || rest[i] == '\n' by {
                assert(rest[i] == t[i + k + 1]);
            }
        }
        lines_of_shifted_text(rest, n);
        shift_concat(piece + seq!['\n'], rest, n);
        shift_concat(piece, seq!['\n'], n);
        shift_without_newline(piece, n);
        assert(seq!['\n'].drop_first() =~= Seq::<char>::empty());
        assert(seq!['\n'][0] == '\n');
        assert(shift_after_newlines(Seq::<char>::empty(), n) == Seq::<char>::empty());
        assert(shift_after_newlines(seq!['\n'], n) =~= seq!['\n'] + sp);
        let line2 = sp + piece;
        let shifted = shift_lines(t, n);
        assert(shifted =~= line2 + (seq!['\n'] + shift_lines(rest, n)));
        assert(forall|i: int| 0 <= i < line2.len() ==> line2[i] != '\n');
        first_line_len_of_concat(line2, seq!['\n'] + shift_lines(rest, n));
        assert(shifted.take(line2.len() as int) =~= line2);
        assert(shifted.skip(line2.len() + 1 as int) =~= shift_lines(rest, n));
        if piece.len() > 0 {
            assert(piece.last() == t[k - 1]);
            assert(line2.last() == piece.last());
        }
        if line2.len() > 0 && piece.len() == 0 {
            assert(line2.last() == ' ');
        }
        assert(strip_carriage_return(line2) == line2);
        assert(strip_carriage_return(piece) == piece);
        assert(text_lines(t) =~= seq![piece] + text_lines(rest));
        assert(text_lines(shifted) =~= seq![line2] + text_lines(shift_lines(rest, n)));
        let extra_t = t.len() == 0 || t.last() == '\n';
        let extra_r = rest.len() == 0 || rest.last() == '\n';
        assert(extra_t == extra_r) by {
            if rest.len() > 0 {
                assert(t.last() == rest.last());
            } else {
                assert(t.last() == '\n');
            }
        }
        assert(shift_each(text_lines(t), n) =~= seq![line2] + shift_each(text_lines(rest), n));
    }
}

/// Joining works list by list.
pub proof fn dedent_lines_concat(a: Seq<Seq<char>>, b: Seq<Seq<char>>, prefix: Seq<char>)
    ensures
        dedent_lines(a + b, prefix) == dedent_lines(a, prefix) + dedent_lines(b, prefix),
    decreases a.len(),
{
    if a.len() == 0 {
        assert(a + b =~= b);
        assert(dedent_lines(a, prefix) + dedent_lines(b, prefix) =~= dedent_lines(b, prefix));
    } else {
        assert((a + b)[0] == a[0]);
        assert((a + b).drop_first() =~= a.drop_first() + b);
        dedent_lines_concat(a.drop_first(), b, prefix);
        let line = a[0];
        let kept = if starts_with(line, prefix) && !is_blank(line) {
            line.skip(prefix.len() as int)
        } else {
            Seq::empty()
        };
        assert(dedent_lines(a + b, prefix) =~= kept + seq!['\n'] + (dedent_lines(
            a.drop_first(),
            prefix,
        ) + dedent_lines(b, prefix)));
    }
}

/// Shifted lines lose the shifted prefix to the same text.
pub proof fn dedent_lines_of_shifted(lines: Seq<Seq<char>>, n: nat, m: nat)
    requires
        all_spaces_only(lines),
        forall|i: int|
            0 <= i < lines.len() && !is_blank(#[trigger] lines[i]) ==> m <= leading_white_space_len(
                lines[i],
            ),
    ensures
        dedent_lines(shift_each(lines, n), spaces(n + m)) == dedent_lines(lines, spaces(m)),
    decreases lines.len(),
{
    if lines.len() > 0 {
        let line = lines[0];
        let line2 = spaces(n) + line;
        let rest = lines.drop_first();
        assert(shift_each(lines, n)[0] == line2);
        assert(shift_each(lines, n).drop_first() =~= shift_each(rest, n));
        assert(all_spaces_only(rest)) by {
            assert forall|i: int| 0 <= i < rest.len() implies spaces_only(#[trigger] rest[i]) by {
                assert(rest[i] == lines[i + 1]);
            }
        }
        assert forall|i: int|
            0 <= i < rest.len() && !is_blank(#[trigger] rest[i]) implies m
            <= leading_white_space_len(rest[i]) by {
            assert(rest[i] == lines[i + 1]);
        }
        dedent_lines_of_shifted(rest, n, m);
        shifted_line(line, n);
        if !is_blank(line) {
            assert(spaces_only(line));
            leading_spaces_facts(line);
            let lead = leading_white_space_len(line);
            assert(line.take(m as int) =~= line.take(lead as int).take(m as int));
            assert(spaces(lead).take(m as int) =~= spaces(m));
            assert(starts_with(line, spaces(m)));
            assert(line2.take((n + m) as int) =~= spaces(n + m)) by {
                assert forall|i: int| 0 <= i < n + m implies #[trigger] line2.take((n + m) as int)[i]
                    == spaces(n + m)[i] by {
                    if i >= n {
                        assert(line2[i] == line[i - n]);
                        assert(line.take(m as int)[i - n] == line[i - n]);
                    }
                }
            }
            assert(starts_with(line2, spaces(n + m)));
            assert(line2.skip((n + m) as int) =~= line.skip(m as int));
        }
    }
}

/// Blank lines are emptied whatever the prefix.
pub proof fn dedent_lines_of_blank(lines: Seq<Seq<char>>, p: Seq<char>, q: Seq<char>)
    requires
        forall|i: int| 0 <= i < lines.len() ==> is_blank(#[trigger] lines[i]),
    ensures
        dedent_lines(lines, p) == dedent_lines(lines, q),
    decreases lines.len(),
{
    if lines.len() > 0 {
        assert(is_blank(lines[0]));
        assert forall|i: int| 0 <= i < lines.drop_first().len() implies is_blank(
            #[trigger] lines.drop_first()[i],
        ) by {
            assert(lines.drop_first()[i] == lines[i + 1]);
        }
        dedent_lines_of_blank(lines.drop_first(), p, q);
    }
}

/// Where no line is non-blank, there is no common indentation.
pub proof fn dedent_indent_of_blank_lines(lines: Seq<Seq<char>>)
    requires
        forall|i: int| 0 <= i < lines.len() ==> is_blank(#[trigger] lines[i]),
    ensures
        dedent_indent(lines) == 0,
    decreases lines.len(),
{
    if lines.len() > 0 {
        assert(is_blank(lines[0]));
        assert forall|i: int| 0 <= i < lines.drop_first().len() implies is_blank(
            #[trigger] lines.drop_first()[i],
        ) by {
            assert(lines.drop_first()[i] == lines[i + 1]);
        }
        dedent_indent_of_blank_lines(lines.drop_first());
    }
}

/// Shifting every line of a text right by the same number of spaces does not
/// change what `dedent` gives, where the text's only whitespace is the space
/// and the line feed.
pub proof fn dedent_ignores_shift(t: Seq<char>, n: nat)
    requires
        spaces_and_newlines_only(t),
    ensures
        textwrap_dedent(shift_lines(t, n)) == textwrap_dedent(t),
{
    if n == 0 {
        shift_by_zero(t);
        assert(spaces(0) + t =~= t);
        return;
    }
    let t2 = shift_lines(t, n);
    lines_of_shifted_text(t, n);
    lines_of_plain_text(t);
    let l1 = text_lines(t);
    let has_extra = t.len() == 0 || t.last() == '\n';
    let extra = if has_extra {
        seq![spaces(n)]
    } else {
        Seq::<Seq<char>>::empty()
    };
    let l2 = text_lines(t2);
    assert(l2 == shift_each(l1, n) + extra);
    shifted_line(Seq::empty(), n);
    assert(spaces(n) + Seq::<char>::empty() =~= spaces(n));
    assert(is_blank(spaces(n))) by {
        assert forall|i: int| 0 <= i < spaces(n).len() implies is_white_space(#[trigger] spaces(n)[i]) by {}
    }
    // Every line of the shifted text has the space as its only whitespace.
    assert(all_spaces_only(l2)) by {
        assert forall|i: int| 0 <= i < l2.len() implies spaces_only(#[trigger] l2[i]) by {
            if i < l1.len() {
                assert(l2[i] == spaces(n) + l1[i]);
                assert(spaces_only(l1[i]));
                let x = l2[i];
                assert forall|j: int| 0 <= j < x.len() && is_white_space(#[trigger] x[j]) implies x[j]
                    == ' ' by {
                    if j >= n {
                        assert(x[j] == l1[i][j - n]);
                    }
                }
            } else {
                assert(l2[i] == spaces(n));
            }
        }
    }
    dedent_prefix_is_spaces(l1);
    dedent_prefix_is_spaces(l2);
    dedent_indent_facts(l1);
    dedent_indent_facts(l2);
    let m1 = dedent_indent(l1);
    let m2 = dedent_indent(l2);
    // The shifted lines are non-blank exactly where the lines are.
    assert forall|i: int| 0 <= i < l1.len() implies #[trigger] is_blank(l2[i]) == is_blank(l1[i])
        && (!is_blank(l1[i]) ==> leading_white_space_len(l2[i]) == n + leading_white_space_len(
        l1[i],
    )) by {
        assert(l2[i] == spaces(n) + l1[i]);
        shifted_line(l1[i], n);
    }
    if exists|i: int| 0 <= i < l1.len() && !is_blank(#[trigger] l1[i]) {
        let w1 = choose|i: int|
            0 <= i < l1.len() && !is_blank(#[trigger] l1[i]) && leading_white_space_len(l1[i]) == m1;
        assert(is_blank(l2[w1]) == is_blank(l1[w1]));
        assert(!is_blank(l2[w1]));
        let w2 = choose|i: int|
            0 <= i < l2.len() && !is_blank(#[trigger] l2[i]) && leading_white_space_len(l2[i]) == m2;
        if w2 >= l1.len() {
            assert(l2[w2] == spaces(n));
        }
        assert(w2 < l1.len());
        assert(is_blank(l2[w2]) == is_blank(l1[w2]));
        assert(m2 <= n + m1);
        assert(m1 <= leading_white_space_len(l1[w2]));
        assert(m2 == n + m1);
    } else {
        dedent_indent_of_blank_lines(l1);
        assert forall|i: int| 0 <= i < l2.len() implies is_blank(#[trigger] l2[i]) by {
            if i < l1.len() {
                assert(is_blank(l1[i]));
                assert(is_blank(l2[i]) == is_blank(l1[i]));
            } else {
                assert(l2[i] == spaces(n));
            }
        }
        dedent_indent_of_blank_lines(l2);
        assert(m1 == 0 && m2 == 0);
        assert forall|i: int|
            0 <= i < l1.len() && !is_blank(#[trigger] l1[i]) implies m1 <= leading_white_space_len(
            l1[i],
        ) by {}
        dedent_lines_of_blank(l2, spaces(m2), spaces(n + m1));
    }
    assert(dedent_lines(l2, spaces(m2)) == dedent_lines(l2, spaces(n + m1)));
    dedent_lines_of_shifted(l1, n, m1);
    dedent_lines_concat(shift_each(l1, n), extra, spaces(n + m1));
    let j1 = dedent_lines(l1, spaces(m1));
    let j2 = dedent_lines(l2, spaces(n + m1));
    let tail = dedent_lines(extra, spaces(n + m1));
    assert(j2 == j1 + tail);
    if has_extra {
        assert(extra.drop_first() =~= Seq::<Seq<char>>::empty());
        assert(extra[0] == spaces(n));
        assert(dedent_lines(Seq::<Seq<char>>::empty(), spaces(n + m1)) == Seq::<char>::empty());
        assert(tail =~= Seq::<char>::empty() + seq!['\n'] + Seq::<char>::empty());
        assert(t2.last() == ' ') by {
            assert(t2 =~= spaces(n) + shift_after_newlines(t, n));
            if t.len() == 0 {
                assert(t2 =~= spaces(n));
            } else {
                shift_concat(t.drop_last(), seq!['\n'], n);
                assert(t.drop_last() + seq!['\n'] =~= t);
                assert(seq!['\n'].drop_first() =~= Seq::<char>::empty());
                assert(seq!['\n'][0] == '\n');
                assert(shift_after_newlines(Seq::<char>::empty(), n) == Seq::<char>::empty());
                assert(shift_after_newlines(seq!['\n'], n) =~= seq!['\n'] + spaces(n));
            }
        }
        assert((j1 + tail).drop_last() =~= j1);
        if t.len() == 0 {
            assert(l1 =~= Seq::<Seq<char>>::empty());
            assert(j1 =~= Seq::<char>::empty());
        }
    } else {
        assert(tail =~= Seq::<char>::empty());
        assert(j2 =~= j1);
        assert(t.last() != '\n');
        shift_concat(t.drop_last(), seq![t.last()], n);
        assert(t.drop_last() + seq![t.last()] =~= t);
        shift_without_newline(seq![t.last()], n);
        assert(t2.last() == t.last());
    }
}

/// The characters of `s` that are not whitespace, in order.
pub open spec fn non_white_space(s: Seq<char>) -> Seq<char>
    decreases s.len(),
{
    if s.len() == 0 {
        Seq::empty()
    } else if is_white_space(s.last()) {
        non_white_space(s.drop_last())
    } else {
        non_white_space(s.drop_last()).push(s.last())
    }
}

/// A single whitespace character has no non-whitespace characters.
pub proof fn non_white_space_of_white(c: char)
    requires
        is_white_space(c),
    ensures
        non_white_space(seq![c]) == Seq::<char>::empty(),
{
    let s = seq![c];
    assert(s.len() == 1);
    assert(s.last() == c);
    assert(s.drop_last() =~= Seq::<char>::empty());
    assert(non_white_space(Seq::<char>::empty()) == Seq::<char>::empty());
}

/// Taking the non-whitespace characters works piece by piece.
pub proof fn non_white_space_concat(a: Seq<char>, b: Seq<char>)
    ensures
        non_white_space(a + b) == non_white_space(a) + non_white_space(b),
    decreases b.len(),
{
    if b.len() == 0 {
        assert(a + b =~= a);
        assert(non_white_space(a) + non_white_space(b) =~= non_white_space(a));
    } else {
        assert((a + b).drop_last() =~= a + b.drop_last());
        assert((a + b).last() == b.last());
        non_white_space_concat(a, b.drop_last());
        if !is_white_space(b.last()) {
            assert((non_white_space(a) + non_white_space(b.drop_last())).push(b.last())
                =~= non_white_space(a) + non_white_space(b.drop_last()).push(b.last()));
        }
    }
}

/// A blank text has no non-whitespace characters.
pub proof fn non_white_space_of_blank(s: Seq<char>)
    requires
        is_blank(s),
    ensures
        non_white_space(s) == Seq::<char>::empty(),
    decreases s.len(),
{
    if s.len() > 0 {
        assert(is_white_space(s[s.len() - 1]));
        assert(is_blank(s.drop_last())) by {
            assert forall|i: int| 0 <= i < s.drop_last().len() implies is_white_space(
                #[trigger] s.drop_last()[i],
            ) by {
                assert(s.drop_last()[i] == s[i]);
            }
        }
        non_white_space_of_blank(s.drop_last());
    }
}

/// A prefix of a blank text is blank.
pub proof fn take_of_blank(s: Seq<char>, k: int)
    requires
        is_blank(s),
        0 <= k <= s.len(),
    ensures
        is_blank(s.take(k)),
{
    assert forall|i: int| 0 <= i < s.take(k).len() implies is_white_space(#[trigger] s.take(k)[i]) by {
        assert(s.take(k)[i] == s[i]);
    }
}

/// The non-whitespace characters of the lines, one line after another.
pub open spec fn lines_non_white_space(lines: Seq<Seq<char>>) -> Seq<char>
    decreases lines.len(),
{
    if lines.len() == 0 {
        Seq::empty()
    } else {
        non_white_space(lines[0]) + lines_non_white_space(lines.drop_first())
    }
}

/// Splitting a text into lines loses only whitespace.
pub proof fn non_white_space_of_lines(t: Seq<char>)
    ensures
        lines_non_white_space(text_lines(t)) == non_white_space(t),
    decreases t.len(),
{
    if t.len() > 0 {
        first_line_len_facts(t);
        let k = first_line_len(t);
        let piece = t.take(k as int);
        if k < t.len() {
            let rest = t.skip(k + 1 as int);
            non_white_space_of_lines(rest);
            assert(t =~= piece + (seq!['\n'] + rest));
            non_white_space_concat(piece, seq!['\n'] + rest);
            non_white_space_concat(seq!['\n'], rest);
            non_white_space_of_white('\n');
            let line = strip_carriage_return(piece);
            if line != piece {
                assert(piece =~= line + seq!['\r']);
                non_white_space_concat(line, seq!['\r']);
                non_white_space_of_white('\r');
                assert(non_white_space(line) + Seq::<char>::empty() =~= non_white_space(line));
            }
            assert(non_white_space(line) == non_white_space(piece));
            assert(Seq::<char>::empty() + non_white_space(rest) =~= non_white_space(rest));
            assert(non_white_space(t) == non_white_space(piece) + non_white_space(rest));
            let lines = text_lines(t);
            assert(lines =~= seq![line] + text_lines(rest));
            assert(lines[0] == line);
            assert(lines.drop_first() =~= text_lines(rest));
            assert(lines_non_white_space(lines) == non_white_space(lines[0])
                + lines_non_white_space(lines.drop_first()));
        } else {
            let lines = text_lines(t);
            assert(lines =~= seq![t]);
            assert(lines.drop_first() =~= Seq::<Seq<char>>::empty());
            assert(lines_non_white_space(Seq::<Seq<char>>::empty()) == Seq::<char>::empty());
            assert(lines[0] == t);
            assert(non_white_space(t) + Seq::<char>::empty() =~= non_white_space(t));
        }
    }
}

/// Narrowing a blank prefix keeps it blank and a prefix of what it was, and
/// every non-blank line narrowed by starts with the result.
pub proof fn narrow_prefix_facts(prefix: Seq<char>, lines: Seq<Seq<char>>)
    requires
        is_blank(prefix),
    ensures
        is_blank(narrow_prefix(prefix, lines)),
        narrow_prefix(prefix, lines).len() <= prefix.len(),
        prefix.take(narrow_prefix(prefix, lines).len() as int) == narrow_prefix(prefix, lines),
        forall|i: int|
            0 <= i < lines.len() && !is_blank(#[trigger] lines[i]) ==> starts_with(
                lines[i],
                narrow_prefix(prefix, lines),
            ),
    decreases lines.len(),
{
    if lines.len() == 0 {
        assert(prefix.take(prefix.len() as int) =~= prefix);
    } else {
        let line = lines[0];
        let m = shared_len(line, prefix);
        shared_len_facts(line, prefix);
        let next = narrow_step(prefix, line);
        if m < line.len() && m < prefix.len() {
            assert(next =~= prefix.take(m as int));
            take_of_blank(prefix, m as int);
        }
        assert(is_blank(next));
        assert(next.len() <= prefix.len());
        assert(prefix.take(next.len() as int) =~= next);
        let rest = lines.drop_first();
        narrow_prefix_facts(next, rest);
        let fin = narrow_prefix(prefix, lines);
        assert(fin == narrow_prefix(next, rest));
        assert(prefix.take(fin.len() as int) =~= next.take(fin.len() as int));
        assert forall|i: int| 0 <= i < lines.len() && !is_blank(#[trigger] lines[i]) implies starts_with(
            lines[i],
            fin,
        ) by {
            if i > 0 {
                assert(lines[i] == rest[i - 1]);
            } else {
                // The first line starts with `next` (or is blank), and `fin`
                // begins `next`.
                if m < line.len() && m < prefix.len() {
                    assert(line.take(m as int) =~= next);
                } else if m == prefix.len() {
                    assert(line.take(prefix.len() as int) =~= prefix);
                } else {
                    assert(m == line.len());
                    assert(line =~= prefix.take(m as int));
                    take_of_blank(prefix, m as int);
                }
                assert(line.take(fin.len() as int) =~= next.take(fin.len() as int));
            }
        }
    }
}

/// Two texts share their first characters up to the first difference (or
/// the end of the shorter one).
pub proof fn shared_len_facts(a: Seq<char>, b: Seq<char>)
    ensures
        shared_len(a, b) <= a.len(),
        shared_len(a, b) <= b.len(),
        a.take(shared_len(a, b) as int) == b.take(shared_len(a, b) as int),
        shared_len(a, b) < a.len() && shared_len(a, b) < b.len() ==> a[shared_len(a, b) as int]
            != b[shared_len(a, b) as int],
    decreases a.len(),
{
    if a.len() > 0 && b.len() > 0 && a[0] == b[0] {
        shared_len_facts(a.drop_first(), b.drop_first());
        let c = shared_len(a, b);
        assert(a.take(c as int) =~= seq![a[0]] + a.drop_first().take(c - 1));
        assert(b.take(c as int) =~= seq![b[0]] + b.drop_first().take(c - 1));
    } else {
        assert(a.take(0) =~= b.take(0));
    }
}

/// The prefix that `dedent` removes is whitespace, and every non-blank line
/// starts with it.
pub proof fn dedent_prefix_facts(lines: Seq<Seq<char>>)
    ensures
        is_blank(dedent_prefix(lines)),
        forall|i: int|
            0 <= i < lines.len() && !is_blank(#[trigger] lines[i]) ==> starts_with(
                lines[i],
                dedent_prefix(lines),
            ),
    decreases lines.len(),
{
    if lines.len() > 0 {
        let rest = lines.drop_first();
        if !is_blank(lines[0]) {
            let l0 = lines[0];
            let lead = leading_white_space_len(l0);
            leading_white_space_facts(l0);
            let p0 = l0.take(lead as int);
            narrow_prefix_facts(p0, rest);
            let fin = dedent_prefix(lines);
            assert forall|i: int| 0 <= i < lines.len() && !is_blank(#[trigger] lines[i]) implies starts_with(
                lines[i],
                fin,
            ) by {
                if i > 0 {
                    assert(lines[i] == rest[i - 1]);
                } else {
                    assert(l0.take(fin.len() as int) =~= p0.take(fin.len() as int));
                }
            }
        } else {
            dedent_prefix_facts(rest);
            assert forall|i: int| 0 <= i < lines.len() && !is_blank(#[trigger] lines[i]) implies starts_with(
                lines[i],
                dedent_prefix(lines),
            ) by {
                assert(i > 0);
                assert(lines[i] == rest[i - 1]);
            }
        }
    } else {
        assert(is_blank(Seq::<char>::empty()));
    }
}

/// The leading whitespace of a line is whitespace and fits in the line.
pub proof fn leading_white_space_facts(line: Seq<char>)
    ensures
        leading_white_space_len(line) <= line.len(),
        is_blank(line.take(leading_white_space_len(line) as int)),
    decreases line.len(),
{
    if line.len() > 0 && is_white_space(line[0]) {
        leading_white_space_facts(line.drop_first());
        let k = leading_white_space_len(line);
        let t = line.take(k as int);
        assert forall|i: int| 0 <= i < t.len() implies is_white_space(#[trigger] t[i]) by {
            if i > 0 {
                assert(t[i] == line.drop_first().take(k - 1)[i - 1]);
            }
        }
    }
}

/// Joining the dedented lines loses only whitespace.
pub proof fn non_white_space_of_dedent_lines(lines: Seq<Seq<char>>, prefix: Seq<char>)
    requires
        is_blank(prefix),
        forall|i: int|
            0 <= i < lines.len() && !is_blank(#[trigger] lines[i]) ==> starts_with(lines[i], prefix),
    ensures
        non_white_space(dedent_lines(lines, prefix)) == lines_non_white_space(lines),
    decreases lines.len(),
{
    if lines.len() > 0 {
        let line = lines[0];
        let rest = lines.drop_first();
        assert forall|i: int|
            0 <= i < rest.len() && !is_blank(#[trigger] rest[i]) implies starts_with(rest[i], prefix) by {
            assert(rest[i] == lines[i + 1]);
        }
        non_white_space_of_dedent_lines(rest, prefix);
        let kept = if starts_with(line, prefix) && !is_blank(line) {
            line.skip(prefix.len() as int)
        } else {
            Seq::empty()
        };
        if !is_blank(line) {
            assert(line =~= prefix + kept);
            non_white_space_concat(prefix, kept);
            non_white_space_of_blank(prefix);
            assert(Seq::<char>::empty() + non_white_space(kept) =~= non_white_space(kept));
        } else {
            non_white_space_of_blank(line);
            assert(non_white_space(Seq::<char>::empty()) == Seq::<char>::empty());
        }
        let tail = dedent_lines(rest, prefix);
        assert(dedent_lines(lines, prefix) =~= kept + (seq!['\n'] + tail));
        non_white_space_concat(kept, seq!['\n'] + tail);
        non_white_space_concat(seq!['\n'], tail);
        non_white_space_of_white('\n');
        assert(Seq::<char>::empty() + non_white_space(tail) =~= non_white_space(tail));
    }
}

/// `dedent` removes whitespace only: the other characters of the text all
/// stay, in order.
pub proof fn dedent_keeps_non_white_space(t: Seq<char>)
    ensures
        non_white_space(textwrap_dedent(t)) == non_white_space(t),
{
    let lines = text_lines(t);
    let prefix = dedent_prefix(lines);
    dedent_prefix_facts(lines);
    non_white_space_of_dedent_lines(lines, prefix);
    non_white_space_of_lines(t);
    let joined = dedent_lines(lines, prefix);
    if textwrap_dedent(t) != joined {
        assert(joined =~= joined.drop_last() + seq!['\n']);
        non_white_space_concat(joined.drop_last(), seq!['\n']);
        non_white_space_of_white('\n');
        assert(non_white_space(joined.drop_last()) + Seq::<char>::empty() =~= non_white_space(
            joined.drop_last(),
        ));
    }
}

} // verus!
