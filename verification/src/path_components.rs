//! Relative paths as sequences of components, as the `relative_path` crate
//! reads and builds them.
use vstd::prelude::*;

verus! {

/// The length of the first component of `s`: the position of its first `/`,
/// or the whole length where it has none.
pub open spec fn segment_len(s: Seq<char>) -> nat
    decreases s.len(),
{
    if s.len() == 0 {
        0
    } else if s[0] == '/' {
        0
    } else {
        1 + segment_len(s.drop_first())
    }
}

/// The first component ends at the first `/`, or at the end of the text.
pub proof fn segment_len_facts(s: Seq<char>)
    ensures
        segment_len(s) <= s.len(),
        segment_len(s) < s.len() ==> s[segment_len(s) as int] == '/',
        forall|i: int| 0 <= i < segment_len(s) ==> s[i] != '/',
        s.len() > 0 && s[0] != '/' ==> segment_len(s) > 0,
    decreases s.len(),
{
    if s.len() > 0 && s[0] != '/' {
        segment_len_facts(s.drop_first());
        assert forall|i: int| 0 <= i < segment_len(s) implies s[i] != '/' by {
            if i > 0 {
                assert(s[i] == s.drop_first()[i - 1]);
            }
        }
    }
}

/// The components of a path, as `Components` yields them: the non-empty
/// pieces of the text between `/` separators, in order.
pub open spec fn path_components(s: Seq<char>) -> Seq<Seq<char>>
    decreases s.len(),
{
    if s.len() == 0 {
        Seq::empty()
    } else if s[0] == '/' {
        path_components(s.drop_first())
    } else {
        let k = segment_len(s);
        proof {
            segment_len_facts(s);
        }
        seq![s.take(k as int)] + path_components(s.skip(k as int))
    }
}

/// Applies components to a stack of components, as `relative_traversal`
/// does: `.` changes nothing, `..` takes off the last component (or is kept
/// where there is none to take off, or the last is `..` too), and any other
/// component is put on.
pub open spec fn traverse(stack: Seq<Seq<char>>, comps: Seq<Seq<char>>) -> Seq<Seq<char>>
    decreases comps.len(),
{
    if comps.len() == 0 {
        stack
    } else {
        let c = comps[0];
        let next = if c == "."@ {
            stack
        } else if c == ".."@ {
            if stack.len() == 0 || stack.last() == ".."@ {
                stack.push(".."@)
            } else {
                stack.drop_last()
            }
        } else {
            stack.push(c)
        };
        traverse(next, comps.drop_first())
    }
}

/// How many leading components two component lists share.
pub open spec fn common_prefix_len(a: Seq<Seq<char>>, b: Seq<Seq<char>>) -> nat
    decreases a.len(),
{
    if a.len() > 0 && b.len() > 0 && a[0] == b[0] {
        1 + common_prefix_len(a.drop_first(), b.drop_first())
    } else {
        0
    }
}

/// The text of components pushed one after another onto an empty
/// `RelativePathBuf`: joined with `/`.
pub open spec fn join_components(cs: Seq<Seq<char>>) -> Seq<char>
    decreases cs.len(),
{
    if cs.len() == 0 {
        Seq::empty()
    } else if cs.len() == 1 {
        cs[0]
    } else {
        cs[0] + seq!['/'] + join_components(cs.drop_first())
    }
}

/// `n` parent components.
pub open spec fn parents(n: nat) -> Seq<Seq<char>> {
    Seq::new(n, |i: int| ".."@)
}

/// What `RelativePath::relative(from, to)` returns: both paths are first
/// traversed from an empty stack, the components they share at the start are
/// dropped, and the result is a `..` for each component left of `from`
/// followed by the components left of `to`; it is empty where the first
/// component left of `from` is `..`.
pub open spec fn relative_path_relative(from: Seq<char>, to: Seq<char>) -> Seq<char> {
    let f = traverse(Seq::empty(), path_components(from));
    let t = traverse(Seq::empty(), path_components(to));
    let c = common_prefix_len(f, t);
    if c < f.len() && f[c as int] == ".."@ {
        Seq::empty()
    } else {
        join_components(parents((f.len() - c) as nat) + t.skip(c as int))
    }
}

/// A text without `/` is one segment.
pub proof fn segment_len_without_separator(s: Seq<char>)
    requires
        forall|i: int| 0 <= i < s.len() ==> s[i] != '/',
    ensures
        segment_len(s) == s.len(),
    decreases s.len(),
{
    if s.len() > 0 {
        segment_len_without_separator(s.drop_first());
    }
}

/// The first segment of `a + b` is that of `a` where it ends inside `a`, or
/// all of `a` where `a` has no `/` and `b` starts with one (or is empty).
pub proof fn segment_len_of_concat(a: Seq<char>, b: Seq<char>)
    requires
        segment_len(a) < a.len() || b.len() == 0 || b[0] == '/',
    ensures
        segment_len(a + b) == segment_len(a),
    decreases a.len(),
{
    if a.len() == 0 {
        assert(a + b =~= b);
    } else if a[0] != '/' {
        assert((a + b).drop_first() =~= a.drop_first() + b);
        segment_len_of_concat(a.drop_first(), b);
    }
}

/// Splitting a text where a separator is (or at either end) splits its
/// components.
pub proof fn components_of_concat(a: Seq<char>, b: Seq<char>)
    requires
        a.len() == 0 || b.len() == 0 || a.last() == '/' || b[0] == '/',
    ensures
        path_components(a + b) == path_components(a) + path_components(b),
    decreases a.len(),
{
    if a.len() == 0 {
        assert(a + b =~= b);
        assert(path_components(a) + path_components(b) =~= path_components(b));
    } else if b.len() == 0 {
        assert(a + b =~= a);
        assert(path_components(a) + path_components(b) =~= path_components(a));
    } else if a[0] == '/' {
        assert((a + b).drop_first() =~= a.drop_first() + b);
        components_of_concat(a.drop_first(), b);
    } else {
        segment_len_facts(a);
        let k = segment_len(a);
        if k < a.len() {
            segment_len_of_concat(a, b);
        } else {
            assert(a.last() == a[k - 1]);
            segment_len_of_concat(a, b);
        }
        assert((a + b).take(k as int) =~= a.take(k as int));
        assert((a + b).skip(k as int) =~= a.skip(k as int) + b);
        if k < a.len() {
            components_of_concat(a.skip(k as int), b);
            assert(path_components(a + b) =~= seq![a.take(k as int)] + (path_components(
                a.skip(k as int),
            ) + path_components(b)));
        } else {
            assert(a.skip(k as int) =~= Seq::<char>::empty());
            assert(path_components(Seq::<char>::empty()) == Seq::<Seq<char>>::empty());
            assert(path_components(a + b) =~= seq![a.take(k as int)] + path_components(b));
            assert(path_components(a) =~= seq![a.take(k as int)]);
        }
    }
}

/// A text of separators only has no components.
pub proof fn components_of_separators(s: Seq<char>)
    requires
        forall|i: int| 0 <= i < s.len() ==> s[i] == '/',
    ensures
        path_components(s) == Seq::<Seq<char>>::empty(),
    decreases s.len(),
{
    if s.len() > 0 {
        components_of_separators(s.drop_first());
    }
}

/// Whether `c` can be a component as written: non-empty, without `/`.
pub open spec fn is_component(c: Seq<char>) -> bool {
    c.len() > 0 && forall|i: int| 0 <= i < c.len() ==> c[i] != '/'
}

/// Joining components and reading them back gives the same components.
pub proof fn components_of_join(cs: Seq<Seq<char>>)
    requires
        forall|i: int| 0 <= i < cs.len() ==> is_component(#[trigger] cs[i]),
    ensures
        path_components(join_components(cs)) == cs,
    decreases cs.len(),
{
    if cs.len() == 1 {
        let c = cs[0];
        assert(is_component(c));
        segment_len_without_separator(c);
        assert(c.take(c.len() as int) =~= c);
        assert(c.skip(c.len() as int) =~= Seq::<char>::empty());
        assert(path_components(Seq::<char>::empty()) == Seq::<Seq<char>>::empty());
        assert(path_components(c) =~= seq![c]);
        assert(cs =~= seq![c]);
    } else if cs.len() > 1 {
        let c = cs[0];
        assert(is_component(c));
        let rest = cs.drop_first();
        components_of_join(rest);
        let a = c + seq!['/'];
        segment_len_without_separator(c);
        segment_len_of_concat(c, seq!['/']);
        assert(a.take(c.len() as int) =~= c);
        assert(a.skip(c.len() as int) =~= seq!['/']);
        components_of_separators(seq!['/']);
        assert(path_components(a) =~= seq![c]);
        components_of_concat(a, join_components(rest));
        assert(join_components(cs) =~= a + join_components(rest));
        assert(cs =~= seq![c] + rest);
    }
}

/// Whether no component is `.` or `..`.
pub open spec fn all_normal(cs: Seq<Seq<char>>) -> bool {
    forall|i: int| 0 <= i < cs.len() ==> #[trigger] cs[i] != "."@ && cs[i] != ".."@
}

/// Traversing normal components puts them all on the stack.
pub proof fn traverse_normal(stack: Seq<Seq<char>>, cs: Seq<Seq<char>>)
    requires
        all_normal(cs),
    ensures
        traverse(stack, cs) == stack + cs,
    decreases cs.len(),
{
    if cs.len() == 0 {
        assert(stack + cs =~= stack);
    } else {
        assert(cs[0] != "."@ && cs[0] != ".."@);
        traverse_normal(stack.push(cs[0]), cs.drop_first());
        assert(stack.push(cs[0]) + cs.drop_first() =~= stack + cs);
    }
}

/// Traversing two lists one after the other is traversing their
/// concatenation.
pub proof fn traverse_concat(stack: Seq<Seq<char>>, a: Seq<Seq<char>>, b: Seq<Seq<char>>)
    ensures
        traverse(stack, a + b) == traverse(traverse(stack, a), b),
    decreases a.len(),
{
    if a.len() == 0 {
        assert(a + b =~= b);
    } else {
        assert((a + b)[0] == a[0]);
        assert((a + b).drop_first() =~= a.drop_first() + b);
        let c = a[0];
        let next = if c == "."@ {
            stack
        } else if c == ".."@ {
            if stack.len() == 0 || stack.last() == ".."@ {
                stack.push(".."@)
            } else {
                stack.drop_last()
            }
        } else {
            stack.push(c)
        };
        traverse_concat(next, a.drop_first(), b);
    }
}

/// `k` parent components take the last `k` components off a stack whose
/// last `k` components are not `..`.
pub proof fn traverse_parents(stack: Seq<Seq<char>>, k: nat)
    requires
        k <= stack.len(),
        forall|i: int| stack.len() - k <= i < stack.len() ==> stack[i] != ".."@,
    ensures
        traverse(stack, parents(k)) == stack.take(stack.len() - k),
    decreases k,
{
    if k == 0 {
        assert(stack.take(stack.len() as int) =~= stack);
    } else {
        reveal_strlit("..");
        reveal_strlit(".");
        assert(parents(k)[0] == ".."@);
        assert(".."@ != "."@);
        assert(stack.last() == stack[stack.len() - 1]);
        assert(parents(k).drop_first() =~= parents((k - 1) as nat));
        let next = stack.drop_last();
        traverse_parents(next, (k - 1) as nat);
        assert(next.take(next.len() - (k - 1)) =~= stack.take(stack.len() - k));
    }
}

/// The shared leading components: as many as both lists agree on, and no
/// more.
pub proof fn common_prefix_facts(a: Seq<Seq<char>>, b: Seq<Seq<char>>)
    ensures
        common_prefix_len(a, b) <= a.len(),
        common_prefix_len(a, b) <= b.len(),
        a.take(common_prefix_len(a, b) as int) == b.take(common_prefix_len(a, b) as int),
        common_prefix_len(a, b) < a.len() && common_prefix_len(a, b) < b.len() ==> a[common_prefix_len(a, b) as int]
            != b[common_prefix_len(a, b) as int],
    decreases a.len(),
{
    if a.len() > 0 && b.len() > 0 && a[0] == b[0] {
        common_prefix_facts(a.drop_first(), b.drop_first());
        let c = common_prefix_len(a, b);
        assert(a.take(c as int) =~= seq![a[0]] + a.drop_first().take(c - 1));
        assert(b.take(c as int) =~= seq![b[0]] + b.drop_first().take(c - 1));
    } else {
        assert(a.take(0) =~= b.take(0));
    }
}

/// The components of a path are components as written.
pub proof fn components_are_components(s: Seq<char>)
    ensures
        forall|i: int|
            0 <= i < path_components(s).len() ==> is_component(#[trigger] path_components(s)[i]),
    decreases s.len(),
{
    if s.len() > 0 {
        if s[0] == '/' {
            components_are_components(s.drop_first());
            assert(path_components(s) == path_components(s.drop_first()));
        } else {
            segment_len_facts(s);
            let k = segment_len(s);
            components_are_components(s.skip(k as int));
            let cs = path_components(s);
            assert forall|i: int| 0 <= i < cs.len() implies is_component(#[trigger] cs[i]) by {
                if i == 0 {
                    assert(cs[0] == s.take(k as int));
                } else {
                    assert(cs[i] == path_components(s.skip(k as int))[i - 1]);
                }
            }
        }
    }
}

} // verus!
