use relative_path::RelativePath;
use nixpkgs_check_by_name::nix_path::{
    create_path_expr, path_expr_is_defined, try_create_path_expr,
};
use nixpkgs_check_by_name::text::{indent_definition, repeat_space};

#[test]
fn path_expr_from_all_packages_to_by_name() {
    assert_eq!(
        create_path_expr("pkgs/top-level/all-packages.nix", "pkgs/by-name/fo/foo/package.nix"),
        "./../by-name/fo/foo/package.nix"
    );
}

#[test]
fn path_expr_in_the_same_directory() {
    assert_eq!(create_path_expr("pkgs/a/default.nix", "pkgs/a/other.nix"), "./other.nix");
    assert_eq!(create_path_expr("default.nix", "pkgs/x.nix"), "./pkgs/x.nix");
}

#[test]
fn path_expr_always_starts_with_dot_slash() {
    for (from, to) in [("a/b.nix", "a/b.nix"), ("x/y/z.nix", "q.nix"), ("f.nix", "g/h.nix")] {
        assert!(create_path_expr(from, to).starts_with("./"));
    }
}

#[test]
fn no_path_expr_for_an_empty_file_name() {
    assert!(!path_expr_is_defined("", "a.nix"));
    assert_eq!(try_create_path_expr("", "a.nix"), None);
}

#[test]
fn no_path_expr_for_absolute_paths() {
    assert_eq!(try_create_path_expr("/abs/a.nix", "b.nix"), None);
    assert_eq!(try_create_path_expr("a/a.nix", "/abs/b.nix"), None);
    assert!(path_expr_is_defined("a/a.nix", "b.nix"));
}

#[test]
fn try_path_expr_agrees_with_path_expr() {
    assert_eq!(
        try_create_path_expr("pkgs/top-level/all-packages.nix", "pkgs/by-name/he/hello/package.nix"),
        Some(create_path_expr(
            "pkgs/top-level/all-packages.nix",
            "pkgs/by-name/he/hello/package.nix"
        ))
    );
}

#[test]
fn spaces() {
    assert_eq!(repeat_space(0), "");
    assert_eq!(repeat_space(3), "   ");
}

#[test]
fn definition_is_reindented_by_four_spaces() {
    let definition = "foo = callPackage ./foo {\n    bar = 1;\n  };".to_string();
    assert_eq!(
        indent_definition(3, definition),
        "    foo = callPackage ./foo {\n      bar = 1;\n    };"
    );
}

#[test]
fn definition_at_first_column() {
    assert_eq!(indent_definition(1, "x = 1;".to_string()), "    x = 1;");
    assert_eq!(indent_definition(1, "a\n\nb\n".to_string()), "    a\n\n    b\n");
}

#[test]
fn path_expr_to_the_files_own_directory_is_dot() {
    assert_eq!(
        create_path_expr("pkgs/top-level/all-packages.nix", "pkgs/top-level"),
        "./."
    );
    assert_eq!(create_path_expr("default.nix", ""), "./.");
    assert_eq!(try_create_path_expr("a/b/c.nix", "a/b/."), Some("./.".to_string()));
}

#[test]
fn path_expr_is_never_a_bare_dot_slash() {
    for (from, to) in [
        ("a/b.nix", "a"),
        ("a/b.nix", "a/"),
        ("x.nix", "."),
        ("a/b.nix", "a/c.nix"),
    ] {
        let expr = create_path_expr(from, to);
        assert!(expr.starts_with("./"));
        assert_ne!(expr, "./");
    }
}

#[test]
fn parent_skips_current_directory_components() {
    assert_eq!(create_path_expr("a/b.nix/.", "a/c"), "./c");
    assert_eq!(create_path_expr("a/b.nix/./.", "a/c"), "./c");
    assert_eq!(create_path_expr("./a/b.nix", "a/c"), "./c");
    assert_eq!(create_path_expr("a//b.nix", "a/c.nix"), "./c.nix");
    assert_eq!(create_path_expr("a/b.nix//", "a/c.nix"), "./c.nix");
}

#[test]
fn parent_matches_relative_path_crate() {
    for from in ["a/b/c.nix", "a/b.nix/./.", "x.nix", "a//b//", "../a/b.nix", "./a"] {
        let to = "q/r.nix";
        let dir = RelativePath::new(from).parent().unwrap();
        let rel = dir.relative(RelativePath::new(to));
        let expected = if rel.as_str().is_empty() {
            "./.".to_string()
        } else {
            format!("./{rel}")
        };
        assert_eq!(create_path_expr(from, to), expected);
    }
}

#[test]
fn blank_lines_of_a_definition_stay_empty() {
    assert_eq!(indent_definition(1, "a\n \nb".to_string()), "    a\n\n    b");
    assert_eq!(indent_definition(3, "x {\n\n  };".to_string()), "    x {\n\n    };");
}

#[test]
fn every_line_of_a_definition_is_indented_four_spaces() {
    let out = indent_definition(5, "foo = bar {\n      a = 1;\n\n    };\n".to_string());
    for line in out.lines() {
        assert!(line.trim().is_empty() || line.starts_with("    "));
    }
}

#[test]
fn no_path_expr_for_an_inner_current_directory_component() {
    assert!(!path_expr_is_defined("a/b/./c.nix", "a/x.nix"));
    assert_eq!(try_create_path_expr("a/b/./c.nix", "a/x.nix"), None);
}

/// Reads a path expression in the directory of `file`, component by
/// component: `.` stays, `..` goes up.
fn read_in(file: &str, expr: &str) -> Vec<String> {
    let mut stack: Vec<String> = file.split('/').filter(|c| !c.is_empty()).map(String::from).collect();
    stack.pop();
    for c in expr.split('/').filter(|c| !c.is_empty()) {
        match c {
            "." => {}
            ".." => {
                if stack.last().map_or(true, |last| last == "..") {
                    stack.push("..".to_string());
                } else {
                    stack.pop();
                }
            }
            name => stack.push(name.to_string()),
        }
    }
    stack
}

#[test]
fn path_expr_read_in_the_file_leads_to_the_target() {
    let cases = [
        ("pkgs/top-level/all-packages.nix", "pkgs/by-name/fo/foo/package.nix"),
        ("pkgs/top-level/all-packages.nix", "pkgs/top-level"),
        ("pkgs/top-level/all-packages.nix", "pkgs/top-level/other.nix"),
        ("a/b/c/d.nix", "a/x/y.nix"),
        ("d.nix", "a/b.nix"),
        ("a/b/c.nix", "z.nix"),
        ("a/b.nix", "a"),
    ];
    for (from, to) in cases {
        let expr = create_path_expr(from, to);
        let target: Vec<String> = to.split('/').filter(|c| !c.is_empty()).map(String::from).collect();
        assert_eq!(read_in(from, &expr), target, "{from} -> {to}: {expr}");
    }
}

#[test]
fn shifting_a_definition_right_does_not_change_it() {
    let definition = "foo {\n  a = 1;\n\n};";
    let shifted = "foo {\n     a = 1;\n   \n   };";
    assert_eq!(
        indent_definition(5, shifted.to_string()),
        indent_definition(2, definition.to_string())
    );
    assert_eq!(indent_definition(2, definition.to_string()), "     foo {\n      a = 1;\n\n    };");
}

#[test]
fn some_line_of_a_definition_is_indented_exactly_four_spaces() {
    let out = indent_definition(9, "x = {\n          y = 2;\n        };".to_string());
    assert!(out.lines().any(|line| line.starts_with("    ") && !line[4..].starts_with(' ')));
    assert_eq!(out, "    x = {\n      y = 2;\n    };");
}
