use nixpkgs_check_by_name::number::to_decimal;
use nixpkgs_check_by_name::structure::{
    join_path, relative_dir_for_package, relative_dir_for_shard, relative_file_for_package,
    shard_for_package, BASE_SUBPATH, PACKAGE_NIX_FILENAME,
};

#[test]
fn decimal_of_zero_and_small_numbers() {
    assert_eq!(to_decimal(0), "0");
    assert_eq!(to_decimal(7), "7");
    assert_eq!(to_decimal(10), "10");
    assert_eq!(to_decimal(42), "42");
    assert_eq!(to_decimal(1000), "1000");
}

#[test]
fn decimal_of_the_largest_usize_matches_std() {
    assert_eq!(to_decimal(usize::MAX), usize::MAX.to_string());
    assert_eq!(to_decimal(123_456_789), "123456789");
}

#[test]
fn decimal_reads_back_on_samples() {
    for n in [0usize, 1, 9, 10, 99, 100, 65535, 4_000_000_007] {
        let text = to_decimal(n);
        assert!(text.chars().all(|c| c.is_ascii_digit()));
        assert!(n == 0 || !text.starts_with('0'));
        assert_eq!(text.parse::<usize>().unwrap(), n);
    }
}

#[test]
fn constants() {
    assert_eq!(BASE_SUBPATH, "pkgs/by-name");
    assert_eq!(PACKAGE_NIX_FILENAME, "package.nix");
}

#[test]
fn shard_is_lowercased_and_at_most_two_characters() {
    assert_eq!(shard_for_package("hello"), "he");
    assert_eq!(shard_for_package("Foo"), "fo");
    assert_eq!(shard_for_package("X"), "x");
    assert_eq!(shard_for_package(""), "");
    assert_eq!(shard_for_package("_7zip"), "_7");
    assert_eq!(shard_for_package("ÄBC"), "äb");
}

#[test]
fn shard_directory() {
    assert_eq!(relative_dir_for_shard("he"), "pkgs/by-name/he");
}

#[test]
fn package_directory_and_file() {
    assert_eq!(relative_dir_for_package("hello"), "pkgs/by-name/he/hello");
    assert_eq!(relative_file_for_package("hello"), "pkgs/by-name/he/hello/package.nix");
    assert_eq!(relative_dir_for_package("Foo"), "pkgs/by-name/fo/Foo");
    assert_eq!(relative_file_for_package("a"), "pkgs/by-name/a/a/package.nix");
}

#[test]
fn package_file_is_package_nix_in_package_dir() {
    for name in ["hello", "Foo", "a", "some-package_2"] {
        let dir = relative_dir_for_package(name);
        assert!(dir.starts_with("pkgs/by-name/"));
        assert!(dir.ends_with(&format!("/{name}")));
        assert_eq!(relative_file_for_package(name), format!("{dir}/package.nix"));
    }
}

#[test]
fn join_path_follows_pathbuf_push() {
    for (base, tail) in [
        ("a/b", "c"),
        ("a/b/", "c"),
        ("", "c"),
        ("a", "/abs"),
        ("a", ""),
        ("pkgs/by-name/", ""),
    ] {
        let expected = std::path::Path::new(base).join(tail);
        assert_eq!(join_path(base, tail), expected.display().to_string());
    }
}
