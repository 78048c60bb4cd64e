//! Nix path expressions that lead from one file of Nixpkgs to another.
use vstd::prelude::*;

use crate::path_components::{
    all_normal, common_prefix_facts, common_prefix_len, components_are_components,
    components_of_concat, components_of_join, components_of_separators, is_component, join_components,
    parents, path_components, relative_path_relative, segment_len, traverse, traverse_concat, traverse_normal,
    traverse_parents,
};

verus! {

/// Whether `RelativePath::from_path` accepts the path with this text: it does
/// when the path is a platform-neutral relative path.
pub uninterp spec fn relative_path_accepts(path: Seq<char>) -> bool;

/// `path` without the `/` separators at its end.
pub open spec fn trim_end_separators(path: Seq<char>) -> Seq<char>
    decreases path.len(),
{
    if path.len() > 0 && path.last() == '/' {
        trim_end_separators(path.drop_last())
    } else {
        path
    }
}

/// Where the final component of `path` starts: just after its last `/`, or
/// at 0 where it has none.
pub open spec fn final_component_start(path: Seq<char>) -> nat
    decreases path.len(),
{
    if path.len() == 0 {
        0
    } else if path.last() == '/' {
        path.len()
    } else {
        final_component_start(path.drop_last())
    }
}

/// Trimming separators keeps a prefix of the path, and takes off only `/`s,
/// all of them.
pub proof fn trim_end_separators_shorter(path: Seq<char>)
    ensures
        trim_end_separators(path).len() <= path.len(),
        trim_end_separators(path) == path.take(trim_end_separators(path).len() as int),
        forall|i: int| trim_end_separators(path).len() <= i < path.len() ==> path[i] == '/',
        trim_end_separators(path).len() == 0 || trim_end_separators(path).last() != '/',
    decreases path.len(),
{
    if path.len() > 0 && path.last() == '/' {
        trim_end_separators_shorter(path.drop_last());
        assert(path.drop_last().take(trim_end_separators(path).len() as int) =~= path.take(
            trim_end_separators(path).len() as int,
        ));
        assert forall|i: int| trim_end_separators(path).len() <= i < path.len() implies path[i]
            == '/' by {
            if i < path.len() - 1 {
                assert(path[i] == path.drop_last()[i]);
            }
        }
    } else {
        assert(path.take(path.len() as int) =~= path);
    }
}

/// The final component starts within the path, just after a `/`, and holds
/// no `/`.
pub proof fn final_component_start_bound(path: Seq<char>)
    ensures
        final_component_start(path) <= path.len(),
        final_component_start(path) > 0 ==> path[final_component_start(path) - 1] == '/',
        forall|i: int| final_component_start(path) <= i < path.len() ==> path[i] != '/',
    decreases path.len(),
{
    if path.len() > 0 && path.last() != '/' {
        final_component_start_bound(path.drop_last());
        assert forall|i: int| final_component_start(path) <= i < path.len() implies path[i]
            != '/' by {
            if i < path.len() - 1 {
                assert(path[i] == path.drop_last()[i]);
            }
        }
    }
}

/// What `RelativePath::parent` returns for a non-empty path: it takes
/// components off the end (as `Components::next_back` splits them, at the
/// last `/` after trailing `/` are trimmed) for as long as they are `.`, then
/// takes one more, and gives what remains of the text.
pub open spec fn relative_path_parent(path: Seq<char>) -> Seq<char>
    decreases path.len(),
{
    let trimmed = trim_end_separators(path);
    let start = final_component_start(trimmed);
    let rest = if start > 0 {
        trim_end_separators(trimmed.take(start as int))
    } else {
        Seq::empty()
    };
    if trimmed.skip(start as int) == "."@ {
        proof {
            reveal_strlit(".");
            trim_end_separators_shorter(path);
            final_component_start_bound(trimmed);
            if start > 0 {
                trim_end_separators_shorter(trimmed.take(start as int));
            }
            assert(trimmed.skip(start as int).len() == 1);
            assert(rest.len() < path.len());
        }
        relative_path_parent(rest)
    } else {
        rest
    }
}



/// Calls `RelativePath::from_path` on `std::path::Path::new(path)`. Its
/// contract claims that it succeeds exactly when `relative_path_accepts` holds,
/// and that on success the relative path has the same text (the source wraps the
/// path's own `str`). What the acceptance depends on is left to the crate and
/// to std's path parsing.
#[verifier::external_body]
fn relative_from_path(path: &str) -> (res: Option<String>)
    ensures
        res is Some <==> relative_path_accepts(path@),
        res matches Some(r) ==> r@ == path@,
{
    match relative_path::RelativePath::from_path(std::path::Path::new(path)) {
        Ok(rel) => Some(rel.as_str().to_string()),
        Err(_) => None,
    }
}

/// Calls `RelativePath::parent`. Its contract claims that it returns `None`
/// exactly for the empty path (the source returns early there and `Some`
/// otherwise), and that the parent's text is what `relative_path_parent`
/// states of the argument, following the crate's `parent` and
/// `Components::next_back`.
#[verifier::external_body]
fn relative_parent(path: &str) -> (res: Option<String>)
    ensures
        res is None <==> path@.len() == 0,
        res matches Some(r) ==> r@ == relative_path_parent(path@),
{
    match relative_path::RelativePath::new(path).parent() {
        Some(parent) => Some(parent.as_str().to_string()),
        None => None,
    }
}

/// Calls `RelativePath::relative`; the text of its result (which is what
/// `Display` writes for it) is what `relative_path_relative` states of the two
/// arguments, following the crate's `relative`, `relative_traversal`,
/// `Components` and `RelativePathBuf::push`/`pop`.
#[verifier::external_body]
fn relative_between(from: &str, to: &str) -> (res: String)
    ensures
        res@ == relative_path_relative(from@, to@),
{
    relative_path::RelativePath::new(from).relative(relative_path::RelativePath::new(to)).into_string()
}

/// The paths for which a path expression can be made: both are relative
/// paths, and the file that the expression is written in has a parent.
pub open spec fn path_expr_defined(from_file: Seq<char>, to_file: Seq<char>) -> bool {
    &&& relative_path_accepts(from_file)
    &&& from_file.len() > 0
    &&& relative_path_accepts(to_file)
}

/// The Nix path expression that, written in `from_file`, points to `to_file`:
/// `./` followed by the relative path from the directory of `from_file` to
/// `to_file`, or `./.` where that relative path is empty (`to_file` is that
/// directory itself), since Nix does not read `./` as a path.
pub open spec fn spec_create_path_expr(from_file: Seq<char>, to_file: Seq<char>) -> Seq<char> {
    let rel = relative_path_relative(relative_path_parent(from_file), to_file);
    if rel.len() == 0 {
        "./."@
    } else {
        "./"@ + rel
    }
}

/// Creates a Nix path expression that when put into Nix file `from_file`,
/// would point to the `to_file`.
pub fn create_path_expr(from_file: &str, to_file: &str) -> (res: String)
    requires
        path_expr_defined(from_file@, to_file@),
    ensures
        res@ == spec_create_path_expr(from_file@, to_file@),
{
    let from = relative_from_path(from_file).unwrap();
    let from_dir = relative_parent(from.as_str()).unwrap();
    let to = relative_from_path(to_file).unwrap();
    let rel = relative_between(from_dir.as_str(), to.as_str());
    if rel.as_str().unicode_len() == 0 {
        return String::from_str("./.");
    }
    let mut res = String::from_str("./");
    res.append(rel.as_str());
    res
}

/// Whether a path expression can be made from `from_file` to `to_file`.
pub fn path_expr_is_defined(from_file: &str, to_file: &str) -> (res: bool)
    ensures
        res == path_expr_defined(from_file@, to_file@),
{
    if from_file.unicode_len() == 0 {
        return false;
    }
    relative_from_path(from_file).is_some() && relative_from_path(to_file).is_some()
}

/// Like `create_path_expr`, but returns `None` where no path expression can be
/// made (a path that is not relative, or an empty `from_file`).
pub fn try_create_path_expr(from_file: &str, to_file: &str) -> (res: Option<String>)
    ensures
        res is Some <==> path_expr_defined(from_file@, to_file@),
        res matches Some(r) ==> r@ == spec_create_path_expr(from_file@, to_file@),
{
    if path_expr_is_defined(from_file, to_file) {
        Some(create_path_expr(from_file, to_file))
    } else {
        None
    }
}

/// A path expression always starts with `./`, so Nix reads it as a path
/// relative to the file that holds it, and is never `./` alone, which Nix
/// does not read as a path.
pub proof fn path_expr_is_local(from_file: Seq<char>, to_file: Seq<char>)
    ensures
        spec_create_path_expr(from_file, to_file).len() > 2,
        spec_create_path_expr(from_file, to_file).take(2) == "./"@,
        spec_create_path_expr(from_file, to_file) != "./"@,
{
    reveal_strlit("./");
    reveal_strlit("./.");
    let e = spec_create_path_expr(from_file, to_file);
    assert(e.take(2) =~= "./"@);
    assert(e.len() > 2);
}

/// Separators at the end of a path do not change its components.
pub proof fn components_of_trimmed(path: Seq<char>)
    ensures
        path_components(trim_end_separators(path)) == path_components(path),
{
    trim_end_separators_shorter(path);
    let t = trim_end_separators(path);
    let tail = path.skip(t.len() as int);
    assert(path =~= t + tail);
    components_of_separators(tail);
    components_of_concat(t, tail);
    assert(path_components(t) + path_components(tail) =~= path_components(t));
}

/// The parent of a path whose last component is not `.` has the path's
/// components but the last.
pub proof fn components_of_parent(path: Seq<char>)
    requires
        path_components(path).len() > 0,
        path_components(path).last() != "."@,
    ensures
        path_components(relative_path_parent(path)) == path_components(path).drop_last(),
{
    components_of_trimmed(path);
    trim_end_separators_shorter(path);
    let t = trim_end_separators(path);
    final_component_start_bound(t);
    let start = final_component_start(t);
    let head = t.take(start as int);
    let seg = t.skip(start as int);
    assert(t =~= head + seg);
    if t.len() == 0 {
        assert(path_components(t) == Seq::<Seq<char>>::empty());
    }
    assert(t.len() > 0);
    assert(seg.len() > 0) by {
        if start == t.len() {
            assert(t[start - 1] == '/');
            assert(t.last() == t[start - 1]);
        }
    }
    assert(is_component(seg));
    components_of_join(seq![seg]);
    assert(join_components(seq![seg]) == seg);
    components_of_concat(head, seg);
    assert(path_components(t) =~= path_components(head) + seq![seg]);
    assert(path_components(t).last() == seg);
    if start > 0 {
        components_of_trimmed(head);
    } else {
        assert(head =~= Seq::<char>::empty());
        assert(path_components(Seq::<char>::empty()) == Seq::<Seq<char>>::empty());
    }
    assert(path_components(t).drop_last() =~= path_components(head));
}

/// Whether every component of the path is a name (neither `.` nor `..`).
pub open spec fn is_plain_path(path: Seq<char>) -> bool {
    all_normal(path_components(path))
}

/// The directory that a path expression is read in: that of the file.
pub open spec fn directory_of(file: Seq<char>) -> Seq<Seq<char>> {
    path_components(relative_path_parent(file))
}

/// A path expression, read in the directory of `from_file` (following its
/// components from there, `.` staying and `..` going up), leads to `to_file`,
/// for paths made of names only where `from_file` has at least one.
pub proof fn path_expr_points_to_target(from_file: Seq<char>, to_file: Seq<char>)
    requires
        is_plain_path(from_file),
        is_plain_path(to_file),
        path_components(from_file).len() > 0,
    ensures
        traverse(directory_of(from_file), path_components(spec_create_path_expr(from_file, to_file)))
            == path_components(to_file),
{
    reveal_strlit(".");
    reveal_strlit("..");
    reveal_strlit("./");
    reveal_strlit("./.");
    let fc = path_components(from_file);
    assert(fc.last() == fc[fc.len() - 1]);
    components_of_parent(from_file);
    let dir = relative_path_parent(from_file);
    let f0 = path_components(dir);
    let t0 = path_components(to_file);
    assert(all_normal(f0)) by {
        assert forall|i: int| 0 <= i < f0.len() implies #[trigger] f0[i] != "."@ && f0[i]
            != ".."@ by {
            assert(f0[i] == fc[i]);
        }
    }
    traverse_normal(Seq::empty(), f0);
    traverse_normal(Seq::empty(), t0);
    assert(Seq::<Seq<char>>::empty() + f0 =~= f0);
    assert(Seq::<Seq<char>>::empty() + t0 =~= t0);
    let f = traverse(Seq::empty(), f0);
    let t = traverse(Seq::empty(), t0);
    common_prefix_facts(f, t);
    let c = common_prefix_len(f, t);
    let rel = relative_path_relative(dir, to_file);
    let list = parents((f.len() - c) as nat) + t.skip(c as int);
    assert(rel == join_components(list));
    components_are_components(to_file);
    assert forall|i: int| 0 <= i < list.len() implies is_component(#[trigger] list[i]) by {
        if i < f.len() - c {
            assert(list[i] == ".."@);
        } else {
            assert(list[i] == t0[c + i - (f.len() - c)]);
        }
    }
    components_of_join(list);
    let e = spec_create_path_expr(from_file, to_file);
    // Reading the expression: its leading `.` stays, then the rest is `list`.
    let after_dot = if rel.len() == 0 {
        seq!['.']
    } else {
        rel
    };
    assert(e =~= seq!['.', '/'] + after_dot);
    components_of_concat(seq!['.', '/'], after_dot);
    let dot_slash = seq!['.', '/'];
    assert(segment_len(dot_slash) == 1) by {
        assert(dot_slash[0] == '.');
        assert(dot_slash.drop_first() =~= seq!['/']);
        assert(seq!['/'][0] == '/');
        assert(segment_len(seq!['/']) == 0);
    }
    assert(path_components(dot_slash) =~= seq![seq!['.']]) by {
        components_of_separators(seq!['/']);
        assert(dot_slash.skip(1) =~= seq!['/']);
        assert(dot_slash.take(1) =~= seq!['.']);
    }
    assert(seq!['.'] == "."@);
    let read = path_components(e);
    assert(read =~= seq![seq!['.']] + path_components(after_dot));
    traverse_concat(f0, seq![seq!['.']], path_components(after_dot));
    assert(traverse(f0, seq![seq!['.']]) == f0) by {
        assert(seq![seq!['.']][0] == "."@);
        assert(seq![seq!['.']].drop_first() =~= Seq::<Seq<char>>::empty());
        assert(traverse(f0, Seq::<Seq<char>>::empty()) == f0);
    }
    if rel.len() == 0 {
        // Nothing is left of either path: they are the same directory.
        assert(list.len() == 0) by {
            if list.len() > 0 {
                assert(is_component(list[0]));
                components_of_join(list);
            }
        }
        assert(f.len() == c && t.len() == c);
        assert(f =~= f.take(c as int));
        assert(t =~= t.take(c as int));
        assert(path_components(after_dot) =~= seq![seq!['.']]) by {
            assert(after_dot =~= seq!['.']);
            assert(after_dot[0] == '.');
            assert(after_dot.drop_first() =~= Seq::<char>::empty());
            assert(segment_len(Seq::<char>::empty()) == 0);
            assert(segment_len(after_dot) == 1 + segment_len(after_dot.drop_first()));
            assert(segment_len(after_dot) == 1);
            assert(after_dot.take(1) =~= seq!['.']);
            assert(after_dot.skip(1) =~= Seq::<char>::empty());
            assert(path_components(Seq::<char>::empty()) == Seq::<Seq<char>>::empty());
        }
        assert(traverse(f0, seq![seq!['.']]) == f0) by {
            assert(seq![seq!['.']].drop_first() =~= Seq::<Seq<char>>::empty());
        }
    } else {
        assert(path_components(after_dot) == list);
        traverse_concat(f0, parents((f.len() - c) as nat), t.skip(c as int));
        traverse_parents(f0, (f.len() - c) as nat);
        assert(f0.take(f0.len() - (f.len() - c)) =~= f.take(c as int));
        traverse_normal(f.take(c as int), t.skip(c as int));
        assert(f.take(c as int) + t.skip(c as int) =~= t);
    }
}

} // verus!
