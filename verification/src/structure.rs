//! Where a package lives inside `pkgs/by-name`.
use vstd::prelude::*;

verus! {

/// The directory, relative to Nixpkgs, that holds all shards.
pub const BASE_SUBPATH: &'static str = "pkgs/by-name";

/// The file that every package directory must hold.
pub const PACKAGE_NIX_FILENAME: &'static str = "package.nix";

/// The lower-case form of `s`, as `str::to_lowercase` gives it.
pub uninterp spec fn lowercase(s: Seq<char>) -> Seq<char>;

/// Calls `str::to_lowercase`. Its contract claims only that the result is the
/// lower-case form named by `lowercase` of the argument; the Unicode mapping
/// itself is left to std.
#[verifier::external_body]
fn to_lowercase(s: &str) -> (res: String)
    ensures
        res@ == lowercase(s@),
{
    s.to_lowercase()
}

/// Appends `tail` to the path `base` as `PathBuf::push` does on Unix: a tail
/// that starts at the root replaces the base, and otherwise a `/` is put in
/// between unless the base is empty or already ends with one.
pub open spec fn path_join(base: Seq<char>, tail: Seq<char>) -> Seq<char> {
    if tail.len() > 0 && tail[0] == '/' {
        tail
    } else if base.len() > 0 && base.last() != '/' {
        base + seq!['/'] + tail
    } else {
        base + tail
    }
}

/// The shard of a package: the first two characters of its lower-cased name.
pub open spec fn spec_shard_for_package(package_name: Seq<char>) -> Seq<char> {
    let lower = lowercase(package_name);
    if lower.len() < 2 {
        lower
    } else {
        lower.take(2)
    }
}

/// The directory of a shard, relative to Nixpkgs.
pub open spec fn spec_relative_dir_for_shard(shard_name: Seq<char>) -> Seq<char> {
    BASE_SUBPATH@ + seq!['/'] + shard_name
}

/// The directory of a package, relative to Nixpkgs.
pub open spec fn spec_relative_dir_for_package(package_name: Seq<char>) -> Seq<char> {
    path_join(spec_relative_dir_for_shard(spec_shard_for_package(package_name)), package_name)
}

/// The `package.nix` file of a package, relative to Nixpkgs.
pub open spec fn spec_relative_file_for_package(package_name: Seq<char>) -> Seq<char> {
    path_join(spec_relative_dir_for_package(package_name), PACKAGE_NIX_FILENAME@)
}

/// Joins two paths; see `path_join`.
pub fn join_path(base: &str, tail: &str) -> (res: String)
    ensures
        res@ == path_join(base@, tail@),
{
    proof {
        reveal_strlit("/");
    }
    let tail_len = tail.unicode_len();
    if tail_len > 0 && tail.get_char(0) == '/' {
        return String::from_str(tail);
    }
    let base_len = base.unicode_len();
    let mut res = String::from_str(base);
    if base_len > 0 && base.get_char(base_len - 1) != '/' {
        res.append("/");
    }
    res.append(tail);
    res
}

/// The shard that a package belongs to.
pub fn shard_for_package(package_name: &str) -> (res: String)
    ensures
        res@ == spec_shard_for_package(package_name@),
{
    let lower = to_lowercase(package_name);
    let len = lower.as_str().unicode_len();
    let end: usize = if len < 2 {
        len
    } else {
        2
    };
    let res = String::from_str(lower.as_str().substring_char(0, end));
    assert(lower@.len() < 2 ==> lower@.subrange(0, end as int) =~= lower@);
    res
}

/// The directory of a shard, relative to Nixpkgs.
pub fn relative_dir_for_shard(shard_name: &str) -> (res: String)
    ensures
        res@ == spec_relative_dir_for_shard(shard_name@),
{
    proof {
        reveal_strlit("/");
    }
    let mut res = String::from_str(BASE_SUBPATH);
    res.append("/");
    res.append(shard_name);
    res
}

/// The directory of a package, relative to Nixpkgs.
pub fn relative_dir_for_package(package_name: &str) -> (res: String)
    ensures
        res@ == spec_relative_dir_for_package(package_name@),
{
    let shard = shard_for_package(package_name);
    let shard_dir = relative_dir_for_shard(shard.as_str());
    join_path(shard_dir.as_str(), package_name)
}

/// The `package.nix` file of a package, relative to Nixpkgs.
pub fn relative_file_for_package(package_name: &str) -> (res: String)
    ensures
        res@ == spec_relative_file_for_package(package_name@),
{
    let dir = relative_dir_for_package(package_name);
    join_path(dir.as_str(), PACKAGE_NIX_FILENAME)
}

/// A shard is the first two characters of the lower-cased package name, or
/// all of it where it is shorter: it has exactly that many characters, and it
/// is how the lower-cased name begins.
pub proof fn shard_is_lowercase_prefix(package_name: Seq<char>)
    ensures
        spec_shard_for_package(package_name).len() <= 2,
        spec_shard_for_package(package_name).len() == if lowercase(package_name).len() < 2 {
            lowercase(package_name).len()
        } else {
            2
        },
        spec_shard_for_package(package_name) =~= lowercase(package_name).take(
            spec_shard_for_package(package_name).len() as int,
        ),
{
}

/// A package directory lies under `pkgs/by-name/` and ends with the package
/// name as its own path component, for every name that does not start at the
/// root.
pub proof fn package_dir_ends_with_name(package_name: Seq<char>)
    requires
        package_name.len() > 0,
        package_name[0] != '/',
    ensures
        ({
            let dir = spec_relative_dir_for_package(package_name);
            let k = dir.len() - package_name.len();
            &&& dir.take(13) == "pkgs/by-name/"@
            &&& k >= 13
            &&& dir.subrange(k, dir.len() as int) == package_name
            &&& dir[k - 1] == '/'
        }),
{
    reveal_strlit("pkgs/by-name");
    reveal_strlit("pkgs/by-name/");
    let shard_dir = spec_relative_dir_for_shard(spec_shard_for_package(package_name));
    let dir = spec_relative_dir_for_package(package_name);
    assert(shard_dir.take(13) =~= "pkgs/by-name/"@);
    if shard_dir.last() != '/' {
        assert(dir =~= shard_dir + seq!['/'] + package_name);
    } else {
        assert(dir =~= shard_dir + package_name);
    }
    assert(dir.take(13) =~= "pkgs/by-name/"@);
    assert(dir.subrange(dir.len() - package_name.len(), dir.len() as int) =~= package_name);
}

/// The `package.nix` file of a package is `package.nix` inside the package's
/// directory, for every name that neither starts nor ends with `/`.
pub proof fn package_file_in_package_dir(package_name: Seq<char>)
    requires
        package_name.len() > 0,
        package_name[0] != '/',
        package_name.last() != '/',
    ensures
        spec_relative_file_for_package(package_name) == spec_relative_dir_for_package(
            package_name,
        ) + "/"@ + PACKAGE_NIX_FILENAME@,
{
    reveal_strlit("package.nix");
    reveal_strlit("/");
    package_dir_ends_with_name(package_name);
    let dir = spec_relative_dir_for_package(package_name);
    assert(dir.last() == package_name.last()) by {
        let k = dir.len() - package_name.len();
        assert(dir.subrange(k, dir.len() as int)[package_name.len() - 1] == dir[dir.len() - 1]);
    }
    assert(PACKAGE_NIX_FILENAME@[0] == 'p');
    assert(spec_relative_file_for_package(package_name) =~= dir + "/"@ + PACKAGE_NIX_FILENAME@);
}

/// A package directory lies in the shard of the package: right after
/// `pkgs/by-name/` come the first two characters of the lower-cased name (all
/// of it where it is shorter), for every name that does not start at the root.
pub proof fn package_dir_is_in_its_shard(package_name: Seq<char>)
    requires
        package_name.len() > 0,
        package_name[0] != '/',
    ensures
        ({
            let lower = lowercase(package_name);
            let k: int = if lower.len() < 2 {
                lower.len() as int
            } else {
                2
            };
            let dir = spec_relative_dir_for_package(package_name);
            &&& dir.len() >= 13 + k
            &&& dir.take(13 + k) == "pkgs/by-name/"@ + lower.take(k)
        }),
{
    reveal_strlit("pkgs/by-name");
    reveal_strlit("pkgs/by-name/");
    let lower = lowercase(package_name);
    let k: int = if lower.len() < 2 {
        lower.len() as int
    } else {
        2
    };
    let shard = spec_shard_for_package(package_name);
    assert(shard =~= lower.take(k));
    let shard_dir = spec_relative_dir_for_shard(shard);
    assert(shard_dir =~= "pkgs/by-name/"@ + lower.take(k));
    let dir = spec_relative_dir_for_package(package_name);
    if shard_dir.last() != '/' {
        assert(dir =~= shard_dir + seq!['/'] + package_name);
    } else {
        assert(dir =~= shard_dir + package_name);
    }
    assert(dir.take(13 + k) =~= shard_dir);
}

/// The directory of a package is `pkgs/by-name/`, the first two characters
/// of its lower-cased name (all of it where it is shorter), a `/` and its
/// name, for every name that does not start at the root and whose lower-cased
/// form is not empty and has no `/` among those characters (so for every
/// valid package name).
pub proof fn package_dir_layout(package_name: Seq<char>)
    requires
        package_name.len() > 0,
        package_name[0] != '/',
        lowercase(package_name).len() > 0,
        forall|i: int|
            0 <= i < 2 && i < lowercase(package_name).len() ==> #[trigger] lowercase(
                package_name,
            )[i] != '/',
    ensures
        ({
            let lower = lowercase(package_name);
            let k: int = if lower.len() < 2 {
                lower.len() as int
            } else {
                2
            };
            spec_relative_dir_for_package(package_name) == "pkgs/by-name/"@ + lower.take(k) + "/"@
                + package_name
        }),
{
    reveal_strlit("pkgs/by-name");
    reveal_strlit("pkgs/by-name/");
    reveal_strlit("/");
    let lower = lowercase(package_name);
    let k: int = if lower.len() < 2 {
        lower.len() as int
    } else {
        2
    };
    let shard = spec_shard_for_package(package_name);
    assert(shard =~= lower.take(k));
    assert(shard.last() == lower[k - 1]);
    let shard_dir = spec_relative_dir_for_shard(shard);
    assert(shard_dir =~= "pkgs/by-name/"@ + shard);
    assert(shard_dir.last() == shard.last());
    assert(spec_relative_dir_for_package(package_name) =~= shard_dir + seq!['/'] + package_name);
}

} // verus!
