use nixpkgs_check_by_name::problem::NixpkgsProblem;

fn s(text: &str) -> String {
    text.to_string()
}

#[test]
fn shard_non_dir() {
    let p = NixpkgsProblem::ShardNonDir { relative_shard_path: s("pkgs/by-name/fo") };
    assert_eq!(p.to_string(), "pkgs/by-name/fo: This is a file, but it should be a directory.");
}

#[test]
fn invalid_shard_name() {
    let p = NixpkgsProblem::InvalidShardName {
        relative_shard_path: s("pkgs/by-name/FOO"),
        shard_name: s("FOO"),
    };
    assert_eq!(
        p.to_string(),
        "pkgs/by-name/FOO: Invalid directory name \"FOO\", must be at most 2 ASCII characters consisting of a-z, 0-9, \"-\" or \"_\"."
    );
}

#[test]
fn package_non_dir() {
    let p = NixpkgsProblem::PackageNonDir { relative_package_dir: s("pkgs/by-name/fo/foo") };
    assert_eq!(
        p.to_string(),
        "pkgs/by-name/fo/foo: This path is a file, but it should be a directory."
    );
}

#[test]
fn case_sensitive_duplicate() {
    let p = NixpkgsProblem::CaseSensitiveDuplicate {
        relative_shard_path: s("pkgs/by-name/fo"),
        first: s("foo"),
        second: s("Foo"),
    };
    assert_eq!(
        p.to_string(),
        "pkgs/by-name/fo: Duplicate case-sensitive package directories \"foo\" and \"Foo\"."
    );
}

#[test]
fn case_sensitive_duplicate_escapes_quotes() {
    let p = NixpkgsProblem::CaseSensitiveDuplicate {
        relative_shard_path: s("pkgs/by-name/fo"),
        first: s("fo\"o"),
        second: s("a\nb"),
    };
    assert_eq!(
        p.to_string(),
        "pkgs/by-name/fo: Duplicate case-sensitive package directories \"fo\\\"o\" and \"a\\nb\"."
    );
}

#[test]
fn invalid_package_name() {
    let p = NixpkgsProblem::InvalidPackageName {
        relative_package_dir: s("pkgs/by-name/fo/fo@"),
        package_name: s("fo@"),
    };
    assert_eq!(
        p.to_string(),
        "pkgs/by-name/fo/fo@: Invalid package directory name \"fo@\", must be ASCII characters consisting of a-z, A-Z, 0-9, \"-\" or \"_\"."
    );
}

#[test]
fn incorrect_shard() {
    let p = NixpkgsProblem::IncorrectShard {
        relative_package_dir: s("pkgs/by-name/ba/foo"),
        correct_relative_package_dir: s("pkgs/by-name/fo/foo"),
    };
    assert_eq!(
        p.to_string(),
        "pkgs/by-name/ba/foo: Incorrect directory location, should be pkgs/by-name/fo/foo instead."
    );
}

#[test]
fn package_nix_non_existent_and_dir() {
    let p = NixpkgsProblem::PackageNixNonExistent { relative_package_dir: s("pkgs/by-name/fo/foo") };
    assert_eq!(p.to_string(), "pkgs/by-name/fo/foo: Missing required \"package.nix\" file.");
    let p = NixpkgsProblem::PackageNixDir { relative_package_dir: s("pkgs/by-name/fo/foo") };
    assert_eq!(p.to_string(), "pkgs/by-name/fo/foo: \"package.nix\" must be a file.");
}

#[test]
fn undefined_attr_and_non_derivation() {
    let p = NixpkgsProblem::UndefinedAttr {
        relative_package_file: s("pkgs/by-name/fo/foo/package.nix"),
        package_name: s("foo"),
    };
    assert_eq!(
        p.to_string(),
        "pkgs.foo: This attribute is not defined but it should be defined automatically as pkgs/by-name/fo/foo/package.nix"
    );
    let p = NixpkgsProblem::NonDerivation {
        relative_package_file: s("pkgs/by-name/fo/foo/package.nix"),
        package_name: s("foo"),
    };
    assert_eq!(
        p.to_string(),
        "pkgs.foo: This attribute defined by pkgs/by-name/fo/foo/package.nix is not a derivation"
    );
}

#[test]
fn empty_argument() {
    let p = NixpkgsProblem::EmptyArgument {
        package_name: s("foo"),
        file: s("pkgs/top-level/all-packages.nix"),
        line: 42,
        column: 3,
        definition: s("foo = callPackage ./foo { };"),
    };
    assert_eq!(
        p.to_string(),
        "- Because pkgs/by-name/fo/foo exists, the attribute `pkgs.foo` must be defined like\n\n    foo = callPackage ./pkgs/by-name/fo/foo/package.nix { /* ... */ };\n\n  However, in this PR, the second argument is empty. See the definition in pkgs/top-level/all-packages.nix:42:\n\n    foo = callPackage ./foo { };\n"
    );
}

#[test]
fn non_toplevel_call_package() {
    let p = NixpkgsProblem::NonToplevelCallPackage {
        package_name: s("foo"),
        file: s("pkgs/top-level/all-packages.nix"),
        line: 7,
        column: 3,
        definition: s("foo = lib.callPackage ./foo {\n    x = 1;\n  };"),
    };
    assert_eq!(
        p.to_string(),
        "- Because pkgs/by-name/fo/foo exists, the attribute `pkgs.foo` must be defined like\n\n    foo = callPackage ./pkgs/by-name/fo/foo/package.nix { /* ... */ };\n\n  However, in this PR, a different `callPackage` is used. See the definition in pkgs/top-level/all-packages.nix:7:\n\n    foo = lib.callPackage ./foo {\n      x = 1;\n    };\n"
    );
}

#[test]
fn non_path() {
    let p = NixpkgsProblem::NonPath {
        package_name: s("Foo"),
        file: s("pkgs/top-level/all-packages.nix"),
        line: 1,
        column: 1,
        definition: s("Foo = callPackage \"x\" { };"),
    };
    assert_eq!(
        p.to_string(),
        "- Because pkgs/by-name/fo/Foo exists, the attribute `pkgs.Foo` must be defined like\n\n    Foo = callPackage ./pkgs/by-name/fo/Foo/package.nix { /* ... */ };\n\n  However, in this PR, the first `callPackage` argument is not a path. See the definition in pkgs/top-level/all-packages.nix:1:\n\n    Foo = callPackage \"x\" { };\n"
    );
}

#[test]
fn wrong_call_package_path() {
    let p = NixpkgsProblem::WrongCallPackagePath {
        package_name: s("foo"),
        file: s("pkgs/top-level/all-packages.nix"),
        line: 10,
        actual_path: s("pkgs/applications/foo/default.nix"),
        expected_path: s("pkgs/by-name/fo/foo/package.nix"),
    };
    assert_eq!(
        p.to_string(),
        "- Because pkgs/by-name/fo/foo exists, the attribute `pkgs.foo` must be defined like\n\n    foo = callPackage ./../by-name/fo/foo/package.nix { /* ... */ };\n\n  However, in this PR, the first `callPackage` argument is the wrong path. See the definition in pkgs/top-level/all-packages.nix:10:\n\n    foo = callPackage ./../applications/foo/default.nix { /* ... */ };\n"
    );
}

#[test]
fn non_syntactic_call_package() {
    let p = NixpkgsProblem::NonSyntacticCallPackage {
        package_name: s("foo"),
        file: s("pkgs/top-level/all-packages.nix"),
        line: 3,
        column: 5,
        definition: s("foo = import ./foo;"),
    };
    assert_eq!(
        p.to_string(),
        "- Because pkgs/by-name/fo/foo exists, the attribute `pkgs.foo` must be defined like\n\n    foo = callPackage ./pkgs/by-name/fo/foo/package.nix { /* ... */ };\n\n  However, in this PR, it isn't defined that way. See the definition in pkgs/top-level/all-packages.nix:3\n\n    foo = import ./foo;\n"
    );
}

#[test]
fn symlink_problems() {
    let p = NixpkgsProblem::OutsideSymlink {
        relative_package_dir: s("pkgs/by-name/fo/foo"),
        subpath: s("link"),
    };
    assert_eq!(
        p.to_string(),
        "pkgs/by-name/fo/foo: Path link is a symlink pointing to a path outside the directory of that package."
    );
    let p = NixpkgsProblem::UnresolvableSymlink {
        relative_package_dir: s("pkgs/by-name/fo/foo"),
        subpath: s("link"),
        io_error: s("No such file or directory (os error 2)"),
    };
    assert_eq!(
        p.to_string(),
        "pkgs/by-name/fo/foo: Path link is a symlink which cannot be resolved: No such file or directory (os error 2)."
    );
}

#[test]
fn path_expression_problems() {
    let dir = s("pkgs/by-name/fo/foo");
    let p = NixpkgsProblem::PathInterpolation {
        relative_package_dir: dir.clone(),
        subpath: s("package.nix"),
        line: 12,
        text: s("./${x}"),
    };
    assert_eq!(
        p.to_string(),
        "pkgs/by-name/fo/foo: File package.nix at line 12 contains the path expression \"./${x}\", which is not yet supported and may point outside the directory of that package."
    );
    let p = NixpkgsProblem::SearchPath {
        relative_package_dir: dir.clone(),
        subpath: s("package.nix"),
        line: 3,
        text: s("<nixpkgs>"),
    };
    assert_eq!(
        p.to_string(),
        "pkgs/by-name/fo/foo: File package.nix at line 3 contains the nix search path expression \"<nixpkgs>\" which may point outside the directory of that package."
    );
    let p = NixpkgsProblem::OutsidePathReference {
        relative_package_dir: dir.clone(),
        subpath: s("package.nix"),
        line: 100,
        text: s("../bar"),
    };
    assert_eq!(
        p.to_string(),
        "pkgs/by-name/fo/foo: File package.nix at line 100 contains the path expression \"../bar\" which may point outside the directory of that package."
    );
    let p = NixpkgsProblem::UnresolvablePathReference {
        relative_package_dir: dir,
        subpath: s("package.nix"),
        line: 0,
        text: s("./missing"),
        io_error: s("not found"),
    };
    assert_eq!(
        p.to_string(),
        "pkgs/by-name/fo/foo: File package.nix at line 0 contains the path expression \"./missing\" which cannot be resolved: not found."
    );
}

#[test]
fn moved_out_of_by_name() {
    let p = NixpkgsProblem::MovedOutOfByNameEmptyArg {
        package_name: s("foo"),
        call_package_path: Some(s("pkgs/foo")),
        file: s("pkgs/top-level/all-packages.nix"),
    };
    assert_eq!(
        p.to_string(),
        "- Attribute `pkgs.foo` was previously defined in pkgs/by-name/fo/foo/package.nix, but is now manually defined as `callPackage ./pkgs/foo { /* ... */ }` in pkgs/top-level/all-packages.nix.\n  Please move the package back and remove the manual `callPackage`.\n"
    );
    let p = NixpkgsProblem::MovedOutOfByNameNonEmptyArg {
        package_name: s("foo"),
        call_package_path: None,
        file: s("pkgs/top-level/all-packages.nix"),
    };
    assert_eq!(
        p.to_string(),
        "- Attribute `pkgs.foo` was previously defined in pkgs/by-name/fo/foo/package.nix, but is now manually defined as `callPackage ... { ... }` in pkgs/top-level/all-packages.nix.\n  While the manual `callPackage` is still needed, it's not necessary to move the package files.\n"
    );
}

#[test]
fn new_package_not_using_by_name() {
    let p = NixpkgsProblem::NewPackageNotUsingByNameEmptyArg {
        package_name: s("bar"),
        call_package_path: Some(s("pkgs/bar")),
        file: s("pkgs/top-level/all-packages.nix"),
    };
    assert_eq!(
        p.to_string(),
        "- Attribute `pkgs.bar` is a new top-level package using `pkgs.callPackage ./pkgs/bar { /* ... */ }`.\n  Please define it in pkgs/by-name/ba/bar/package.nix instead.\n  See `pkgs/by-name/README.md` for more details.\n  Since the second `callPackage` argument is `{ }`, no manual `callPackage` in pkgs/top-level/all-packages.nix is needed anymore.\n"
    );
    let p = NixpkgsProblem::NewPackageNotUsingByNameNonEmptyArg {
        package_name: s("bar"),
        call_package_path: None,
        file: s("pkgs/top-level/all-packages.nix"),
    };
    assert_eq!(
        p.to_string(),
        "- Attribute `pkgs.bar` is a new top-level package using `pkgs.callPackage ... { /* ... */ }`.\n  Please define it in pkgs/by-name/ba/bar/package.nix instead.\n  See `pkgs/by-name/README.md` for more details.\n  Since the second `callPackage` argument is not `{ }`, the manual `callPackage` in pkgs/top-level/all-packages.nix is still needed.\n"
    );
}

#[test]
fn internal_call_package_and_attribute_location() {
    let p = NixpkgsProblem::InternalCallPackageUsed { attr_name: s("foo") };
    assert_eq!(
        p.to_string(),
        "pkgs.foo: This attribute is defined using `_internalCallByNamePackageFile`, which is an internal function not intended for manual use."
    );
    let p = NixpkgsProblem::CannotDetermineAttributeLocation { attr_name: s("foo") };
    assert_eq!(
        p.to_string(),
        "pkgs.foo: Cannot determine the location of this attribute using `builtins.unsafeGetAttrPos`."
    );
}

#[test]
fn try_to_string_refuses_column_zero() {
    let p = NixpkgsProblem::EmptyArgument {
        package_name: s("foo"),
        file: s("a.nix"),
        line: 1,
        column: 0,
        definition: s("x"),
    };
    assert_eq!(p.try_to_string(), None);
}

#[test]
fn try_to_string_refuses_absolute_call_package_paths() {
    let p = NixpkgsProblem::WrongCallPackagePath {
        package_name: s("foo"),
        file: s("/abs/all-packages.nix"),
        line: 1,
        actual_path: s("a.nix"),
        expected_path: s("b.nix"),
    };
    assert_eq!(p.try_to_string(), None);
}

#[test]
fn try_to_string_agrees_with_to_string() {
    let problems = vec![
        NixpkgsProblem::ShardNonDir { relative_shard_path: s("pkgs/by-name/fo") },
        NixpkgsProblem::InternalCallPackageUsed { attr_name: s("x") },
        NixpkgsProblem::NonPath {
            package_name: s("x"),
            file: s("f.nix"),
            line: 2,
            column: 2,
            definition: s("x = 1;"),
        },
    ];
    for p in problems {
        assert_eq!(p.try_to_string(), Some(p.to_string()));
    }
}

#[test]
fn every_message_begins_with_its_subject() {
    let p = NixpkgsProblem::SearchPath {
        relative_package_dir: s("pkgs/by-name/ab/abc"),
        subpath: s("x.nix"),
        line: 1,
        text: s("<a>"),
    };
    assert!(p.to_string().starts_with("pkgs/by-name/ab/abc: "));
    let p = NixpkgsProblem::NonDerivation { relative_package_file: s("f"), package_name: s("abc") };
    assert!(p.to_string().starts_with("pkgs.abc: "));
    let p = NixpkgsProblem::MovedOutOfByNameEmptyArg {
        package_name: s("abc"),
        call_package_path: None,
        file: s("f"),
    };
    assert!(p.to_string().starts_with("- "));
}

#[test]
fn clone_keeps_the_message() {
    let p = NixpkgsProblem::UnresolvableSymlink {
        relative_package_dir: s("d"),
        subpath: s("s"),
        io_error: s("e"),
    };
    assert_eq!(p.clone().to_string(), p.to_string());
}

#[test]
fn wrong_call_package_path_to_the_files_own_directory() {
    let p = NixpkgsProblem::WrongCallPackagePath {
        package_name: s("foo"),
        file: s("pkgs/by-name/fo/foo/package.nix"),
        line: 2,
        actual_path: s("pkgs/by-name/fo/foo"),
        expected_path: s("pkgs/by-name/fo/foo/package.nix"),
    };
    assert_eq!(
        p.to_string(),
        "- Because pkgs/by-name/fo/foo exists, the attribute `pkgs.foo` must be defined like\n\n    foo = callPackage ./package.nix { /* ... */ };\n\n  However, in this PR, the first `callPackage` argument is the wrong path. See the definition in pkgs/by-name/fo/foo/package.nix:2:\n\n    foo = callPackage ./. { /* ... */ };\n"
    );
}
