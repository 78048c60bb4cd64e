//! Indentation of code excerpts and quoting of file names in messages.
use vstd::prelude::*;

use crate::dedent::{
    dedent_ignores_shift, dedent_keeps_non_white_space, non_white_space, non_white_space_concat,
    non_white_space_of_blank, non_white_space_of_white, dedent_leaves_an_unindented_line, shift_after_newlines, shift_concat,
    shift_lines, shift_without_newline, spaces_and_newlines_only, textwrap_dedent,
};

verus! {


/// Whether `c` has the Unicode `White_Space` property, which is what
/// `char::is_whitespace` (and so `str::trim`) tests.
pub open spec fn is_white_space(c: char) -> bool {
    ||| ('\t' <= c && c <= '\r')
    ||| c == ' '
    ||| c == '\u{85}'
    ||| c == '\u{a0}'
    ||| c == '\u{1680}'
    ||| ('\u{2000}' <= c && c <= '\u{200a}')
    ||| c == '\u{2028}'
    ||| c == '\u{2029}'
    ||| c == '\u{202f}'
    ||| c == '\u{205f}'
    ||| c == '\u{3000}'
}

/// Whether `s` is made of whitespace only, so that `s.trim()` is empty.
pub open spec fn is_blank(s: Seq<char>) -> bool {
    forall|i: int| 0 <= i < s.len() ==> is_white_space(#[trigger] s[i])
}

/// `s` without the whitespace at its end, as `str::trim_end` gives it.
pub open spec fn trim_end(s: Seq<char>) -> Seq<char>
    decreases s.len(),
{
    if s.len() > 0 && is_white_space(s.last()) {
        trim_end(s.drop_last())
    } else {
        s
    }
}

/// The length of the first line of `s`: the position of its first `\n`, or
/// the whole length where it has none.
pub open spec fn first_line_len(s: Seq<char>) -> nat
    decreases s.len(),
{
    if s.len() == 0 {
        0
    } else if s[0] == '\n' {
        0
    } else {
        1 + first_line_len(s.drop_first())
    }
}

/// What `textwrap::indent(s, prefix)` returns: each line of `s` (the pieces
/// between `\n`s, without a last empty piece after a final `\n`) gets
/// `prefix` before it, or `prefix` with its trailing whitespace trimmed where
/// the line is blank; the `\n`s stay as they are.
pub open spec fn textwrap_indent(s: Seq<char>, prefix: Seq<char>) -> Seq<char>
    decreases s.len(),
{
    if s.len() == 0 {
        Seq::empty()
    } else {
        let k = first_line_len(s);
        let line = s.take(k as int);
        let head = if is_blank(line) {
            trim_end(prefix)
        } else {
            prefix
        } + line;
        if k < s.len() {
            head + seq!['\n'] + textwrap_indent(s.skip(k + 1 as int), prefix)
        } else {
            head
        }
    }
}

/// What `{:?}` writes for a path (that is, for the `OsStr` behind it) whose
/// text is the argument.
pub uninterp spec fn path_debug(s: Seq<char>) -> Seq<char>;

/// Calls `textwrap::dedent`, which removes the whitespace prefix common to all
/// non-blank lines. The contract claims that the result is what
/// `textwrap_dedent` states, following the crate's source (`str::lines`,
/// `char::is_whitespace`, `starts_with`) line by line.
#[verifier::external_body]
pub(crate) fn dedent(s: &str) -> (res: String)
    ensures
        res@ == textwrap_dedent(s@),
{
    textwrap::dedent(s)
}

/// Calls `textwrap::indent`, which puts `prefix` before every line (its
/// trailing whitespace trimmed on blank lines). The contract claims that the
/// result is what `textwrap_indent` states, following the crate's source
/// (`split_terminator('\n')`, `trim`, `trim_end`) and its documentation.
#[verifier::external_body]
pub(crate) fn indent(s: &str, prefix: &str) -> (res: String)
    ensures
        res@ == textwrap_indent(s@, prefix@),
{
    textwrap::indent(s, prefix)
}

/// Formats `std::path::Path::new(s)` with `{:?}`: the text in double quotes with
/// its special characters escaped. The contract claims only that the result is
/// `path_debug` of the argument; the escaping rules are left to std.
#[verifier::external_body]
pub(crate) fn debug_path(s: &str) -> (res: String)
    ensures
        res@ == path_debug(s@),
{
    format!("{:?}", std::path::Path::new(s))
}

/// `n` spaces.
pub open spec fn spaces(n: nat) -> Seq<char> {
    Seq::new(n, |i: int| ' ')
}

/// The text of a definition that starts at `column` (counted from 1), with
/// the code's own indentation replaced by four spaces on every line.
pub open spec fn spec_indent_definition(column: nat, definition: Seq<char>) -> Seq<char>
    recommends
        column >= 1,
{
    textwrap_indent(textwrap_dedent(spaces((column - 1) as nat) + definition), "    "@)
}

/// `n` spaces.
pub fn repeat_space(n: usize) -> (res: String)
    ensures
        res@ == spaces(n as nat),
{
    let mut res = String::new();
    let mut i: usize = 0;
    while i < n
        invariant
            i <= n,
            res@ == spaces(i as nat),
        decreases n - i,
    {
        proof {
            reveal_strlit(" ");
        }
        res.append(" ");
        i = i + 1;
        assert(res@ =~= spaces(i as nat));
    }
    res
}

/// Re-indents a definition that starts at `column` (counted from 1) so that
/// its code is indented by four spaces. The definition does not include the
/// spaces before `column`; they are put back before its common indentation is
/// removed.
pub fn indent_definition(column: usize, definition: String) -> (res: String)
    requires
        column >= 1,
    ensures
        res@ == spec_indent_definition(column as nat, definition@),
{
    let mut code = repeat_space(column - 1);
    code.append(definition.as_str());
    let dedented = dedent(code.as_str());
    indent(dedented.as_str(), "    ")
}

/// The first line of `s`, without its `\n`.
pub open spec fn first_line(s: Seq<char>) -> Seq<char> {
    s.take(first_line_len(s) as int)
}

/// Whether a line of `s` starts at `i`.
pub open spec fn is_line_start(s: Seq<char>, i: int) -> bool {
    0 <= i < s.len() && (i == 0 || s[i - 1] == '\n')
}

/// The first line ends at the first `\n`, or at the end of the text.
pub proof fn first_line_len_facts(s: Seq<char>)
    ensures
        first_line_len(s) <= s.len(),
        first_line_len(s) < s.len() ==> s[first_line_len(s) as int] == '\n',
        forall|i: int| 0 <= i < first_line_len(s) ==> s[i] != '\n',
    decreases s.len(),
{
    if s.len() > 0 && s[0] != '\n' {
        first_line_len_facts(s.drop_first());
        assert forall|i: int| 0 <= i < first_line_len(s) implies s[i] != '\n' by {
            if i > 0 {
                assert(s[i] == s.drop_first()[i - 1]);
            }
        }
    }
}

/// A text that has no `\n` and is followed by a `\n` or by nothing is the
/// first line.
pub proof fn first_line_len_of_concat(a: Seq<char>, b: Seq<char>)
    requires
        forall|i: int| 0 <= i < a.len() ==> a[i] != '\n',
        b.len() == 0 || b[0] == '\n',
    ensures
        first_line_len(a + b) == a.len(),
    decreases a.len(),
{
    if a.len() > 0 {
        first_line_len_of_concat(a.drop_first(), b);
        assert((a + b).drop_first() =~= a.drop_first() + b);
    } else {
        assert(a + b =~= b);
    }
}

/// Four spaces lose all of their whitespace to `trim_end`.
pub proof fn trim_end_four_spaces()
    ensures
        trim_end("    "@) == Seq::<char>::empty(),
{
    reveal_strlit("    ");
    let p = "    "@;
    assert(p.drop_last().drop_last().drop_last().drop_last() =~= Seq::<char>::empty());
    assert(trim_end(p.drop_last().drop_last().drop_last().drop_last()) == Seq::<char>::empty());
    assert(trim_end(p.drop_last().drop_last().drop_last()) == Seq::<char>::empty());
    assert(trim_end(p.drop_last().drop_last()) == Seq::<char>::empty());
    assert(trim_end(p.drop_last()) == Seq::<char>::empty());
}

/// After indenting by four spaces, every line either starts with four spaces
/// or is blank: a blank line gets no prefix, any other line gets all four.
pub proof fn indent_gives_four_spaces(s: Seq<char>)
    ensures
        forall|i: int|
            #![trigger is_line_start(textwrap_indent(s, "    "@), i)]
            is_line_start(textwrap_indent(s, "    "@), i) ==> {
                let rest = textwrap_indent(s, "    "@).skip(i);
                ||| (4 <= rest.len() && rest.take(4) == "    "@)
                ||| is_blank(first_line(rest))
            },
    decreases s.len(),
{
    reveal_strlit("    ");
    let p = "    "@;
    let out = textwrap_indent(s, p);
    if s.len() > 0 {
        trim_end_four_spaces();
        first_line_len_facts(s);
        let k = first_line_len(s);
        let line = s.take(k as int);
        let head = if is_blank(line) {
            trim_end(p)
        } else {
            p
        } + line;
        assert(forall|i: int| 0 <= i < head.len() ==> head[i] != '\n');
        let tail = if k < s.len() {
            seq!['\n'] + textwrap_indent(s.skip(k + 1 as int), p)
        } else {
            Seq::empty()
        };
        assert(out =~= head + tail);
        if k < s.len() {
            indent_gives_four_spaces(s.skip(k + 1 as int));
        }
        assert forall|i: int| #[trigger] is_line_start(out, i) implies {
            let rest = out.skip(i);
            ||| (4 <= rest.len() && rest.take(4) == p)
            ||| is_blank(first_line(rest))
        } by {
            if i == 0 {
                if is_blank(line) {
                    assert(head =~= line);
                    first_line_len_of_concat(head, tail);
                    assert(out.skip(0) =~= out);
                    assert(first_line(out) =~= line);
                } else {
                    assert(out.skip(0).take(4) =~= p);
                }
            } else {
                assert(i - 1 >= head.len());
                assert(k < s.len());
                let inner = textwrap_indent(s.skip(k + 1 as int), p);
                let j = i - head.len() - 1;
                assert(out.skip(i) =~= inner.skip(j));
                assert(j == 0 || inner[j - 1] == out[i - 1]);
                assert(is_line_start(inner, j));
            }
        }
    }
}

/// The entire code of a re-indented definition is indented four spaces:
/// every line of it starts with four spaces, except blank lines.
pub proof fn definition_indented_by_four_spaces(column: nat, definition: Seq<char>)
    requires
        column >= 1,
    ensures
        forall|i: int|
            #![trigger is_line_start(spec_indent_definition(column, definition), i)]
            is_line_start(spec_indent_definition(column, definition), i) ==> {
                let rest = spec_indent_definition(column, definition).skip(i);
                ||| (4 <= rest.len() && rest.take(4) == "    "@)
                ||| is_blank(first_line(rest))
            },
{
    indent_gives_four_spaces(textwrap_dedent(spaces((column - 1) as nat) + definition));
}

/// A line that starts with a character other than whitespace gets all four
/// spaces before it when indented.
pub proof fn indent_keeps_line_after_four_spaces(s: Seq<char>, pos: int)
    requires
        is_line_start(s, pos),
        !is_white_space(s[pos]),
    ensures
        exists|q: int|
            #[trigger] is_line_start(textwrap_indent(s, "    "@), q) && q + 4 < textwrap_indent(
                s,
                "    "@,
            ).len() && textwrap_indent(s, "    "@).subrange(q, q + 4) == "    "@ && textwrap_indent(
                s,
                "    "@,
            )[q + 4] == s[pos],
    decreases s.len(),
{
    reveal_strlit("    ");
    let p = "    "@;
    let out = textwrap_indent(s, p);
    first_line_len_facts(s);
    let k = first_line_len(s);
    let line = s.take(k as int);
    let head = if is_blank(line) {
        trim_end(p)
    } else {
        p
    } + line;
    let tail = if k < s.len() {
        seq!['\n'] + textwrap_indent(s.skip(k + 1 as int), p)
    } else {
        Seq::empty()
    };
    assert(out =~= head + tail);
    if pos == 0 {
        assert(s[0] != '\n');
        assert(k > 0);
        assert(line[0] == s[0]);
        assert(!is_blank(line));
        assert(out[4] == s[0]);
        assert(out.subrange(0, 4) =~= p);
        assert(is_line_start(out, 0));
    } else {
        assert(s[pos - 1] == '\n');
        assert(pos - 1 >= k);
        assert(k < s.len());
        let rest = s.skip(k + 1 as int);
        let j = pos - k - 1;
        assert(rest[j] == s[pos]);
        assert(j == 0 || rest[j - 1] == s[pos - 1]);
        assert(is_line_start(rest, j));
        indent_keeps_line_after_four_spaces(rest, j);
        let inner = textwrap_indent(rest, p);
        let q0 = choose|q: int|
            #[trigger] is_line_start(inner, q) && q + 4 < inner.len() && inner.subrange(q, q + 4)
                == p && inner[q + 4] == rest[j];
        let q = head.len() + 1 + q0;
        assert(out[q + 4] == inner[q0 + 4]);
        assert(out.subrange(q, q + 4) =~= inner.subrange(q0, q0 + 4));
        assert(out[q - 1] == if q0 == 0 {
            '\n'
        } else {
            inner[q0 - 1]
        });
        assert(is_line_start(out, q));
    }
}

/// A re-indented definition is indented exactly four spaces: where its only
/// whitespace is the space and the line feed and it has some other character,
/// some line of the result has four spaces and then a character other than
/// whitespace (and no non-blank line has fewer, by
/// `definition_indented_by_four_spaces`).
pub proof fn definition_indented_exactly_four_spaces(column: nat, definition: Seq<char>)
    requires
        column >= 1,
        spaces_and_newlines_only(definition),
        exists|j: int| 0 <= j < definition.len() && !is_white_space(#[trigger] definition[j]),
    ensures
        exists|i: int|
            #[trigger] is_line_start(spec_indent_definition(column, definition), i) && i + 4
                < spec_indent_definition(column, definition).len() && spec_indent_definition(
                column,
                definition,
            ).subrange(i, i + 4) == "    "@ && !is_white_space(
                spec_indent_definition(column, definition)[i + 4],
            ),
{
    let pad = spaces((column - 1) as nat);
    let t = pad + definition;
    assert(spaces_and_newlines_only(t)) by {
        assert forall|i: int| 0 <= i < t.len() && is_white_space(#[trigger] t[i]) implies t[i]
            == ' ' || t[i] == '\n' by {
            if i >= pad.len() {
                assert(t[i] == definition[i - pad.len()]);
            }
        }
    }
    let j = choose|j: int| 0 <= j < definition.len() && !is_white_space(#[trigger] definition[j]);
    assert(t[pad.len() + j] == definition[j]);
    dedent_leaves_an_unindented_line(t);
    let d = textwrap_dedent(t);
    let pos = choose|pos: int| is_line_start(d, pos) && !is_white_space(#[trigger] d[pos]);
    indent_keeps_line_after_four_spaces(d, pos);
    let out = textwrap_indent(d, "    "@);
    let q = choose|q: int|
        #[trigger] is_line_start(out, q) && q + 4 < out.len() && out.subrange(q, q + 4) == "    "@
            && out[q + 4] == d[pos];
    assert(is_line_start(spec_indent_definition(column, definition), q));
}

/// Shifting a whole definition right by `n` columns (starting it `n` columns
/// later and putting `n` more spaces at the start of every further line) does
/// not change the re-indented definition, where its only whitespace is the
/// space and the line feed.
pub proof fn definition_shift_does_not_matter(column: nat, n: nat, definition: Seq<char>)
    requires
        column >= 1,
        spaces_and_newlines_only(definition),
    ensures
        spec_indent_definition(column + n, shift_after_newlines(definition, n))
            == spec_indent_definition(column, definition),
{
    let pad = spaces((column - 1) as nat);
    let t = pad + definition;
    assert(spaces_and_newlines_only(t)) by {
        assert forall|i: int| 0 <= i < t.len() && is_white_space(#[trigger] t[i]) implies t[i]
            == ' ' || t[i] == '\n' by {
            if i >= pad.len() {
                assert(t[i] == definition[i - pad.len()]);
            }
        }
    }
    dedent_ignores_shift(t, n);
    shift_concat(pad, definition, n);
    shift_without_newline(pad, n);
    assert(spaces(n) + (pad + shift_after_newlines(definition, n)) =~= spaces(
        (column + n - 1) as nat,
    ) + shift_after_newlines(definition, n));
    assert(shift_lines(t, n) == spaces((column + n - 1) as nat) + shift_after_newlines(
        definition,
        n,
    ));
}

/// Indenting by a whitespace prefix adds whitespace only: the other
/// characters of the text all stay, in order.
pub proof fn indent_keeps_non_white_space(s: Seq<char>, prefix: Seq<char>)
    requires
        is_blank(prefix),
    ensures
        non_white_space(textwrap_indent(s, prefix)) == non_white_space(s),
    decreases s.len(),
{
    if s.len() > 0 {
        first_line_len_facts(s);
        let k = first_line_len(s);
        let line = s.take(k as int);
        let lead = if is_blank(line) {
            trim_end(prefix)
        } else {
            prefix
        };
        trim_end_of_blank(prefix);
        non_white_space_of_blank(lead);
        let head = lead + line;
        non_white_space_concat(lead, line);
        assert(non_white_space(head) == non_white_space(line));
        if k < s.len() {
            let rest = s.skip(k + 1 as int);
            indent_keeps_non_white_space(rest, prefix);
            let inner = textwrap_indent(rest, prefix);
            assert(textwrap_indent(s, prefix) == head + seq!['\n'] + inner);
            non_white_space_concat(head + seq!['\n'], inner);
            non_white_space_concat(head, seq!['\n']);
            non_white_space_of_white('\n');
            assert(s =~= line + seq!['\n'] + rest);
            non_white_space_concat(line + seq!['\n'], rest);
            non_white_space_concat(line, seq!['\n']);
            assert(non_white_space(head) + Seq::<char>::empty() =~= non_white_space(head));
            assert(non_white_space(line) + Seq::<char>::empty() =~= non_white_space(line));
        } else {
            assert(line =~= s);
        }
    }
}

/// `trim_end` leaves nothing of a blank text.
pub proof fn trim_end_of_blank(s: Seq<char>)
    ensures
        is_blank(s) ==> trim_end(s) == Seq::<char>::empty(),
    decreases s.len(),
{
    if s.len() > 0 && is_white_space(s.last()) {
        if is_blank(s) {
            assert(is_blank(s.drop_last())) by {
                assert forall|i: int| 0 <= i < s.drop_last().len() implies is_white_space(
                    #[trigger] s.drop_last()[i],
                ) by {
                    assert(s.drop_last()[i] == s[i]);
                }
            }
        }
        trim_end_of_blank(s.drop_last());
    } else if s.len() > 0 {
        assert(!is_white_space(s[s.len() - 1]));
    }
}

/// The excerpt of a definition holds every character of its code other than
/// whitespace, in order: re-indenting only moves whitespace, so no part of
/// the definition is dropped or changed.
pub proof fn definition_excerpt_keeps_code(column: nat, definition: Seq<char>)
    ensures
        non_white_space(spec_indent_definition(column, definition)) == non_white_space(definition),
{
    let shifted = spaces((column - 1) as nat) + definition;
    dedent_keeps_non_white_space(shifted);
    non_white_space_concat(spaces((column - 1) as nat), definition);
    assert(is_blank(spaces((column - 1) as nat)));
    non_white_space_of_blank(spaces((column - 1) as nat));
    assert(Seq::<char>::empty() + non_white_space(definition) =~= non_white_space(definition));
    reveal_strlit("    ");
    assert(is_blank("    "@));
    indent_keeps_non_white_space(textwrap_dedent(shifted), "    "@);
}

} // verus!
