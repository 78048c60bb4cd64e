//! The problems that checking Nixpkgs can find, and their messages.
use vstd::prelude::*;

use crate::nix_path::{
    create_path_expr, path_expr_defined, path_expr_is_defined, spec_create_path_expr,
};
use crate::number::{decimal, to_decimal};
use crate::structure::{
    relative_dir_for_package, relative_file_for_package, spec_relative_dir_for_package,
    spec_relative_file_for_package, PACKAGE_NIX_FILENAME,
};
use crate::dedent::non_white_space;
use crate::text::{
    debug_path, definition_excerpt_keeps_code, indent_definition, path_debug,
    spec_indent_definition,
};

verus! {

/// Any problem that can occur when checking Nixpkgs.
///
/// Paths are held as the text that they display as.
#[derive(Clone)]
pub enum NixpkgsProblem {
    ShardNonDir { relative_shard_path: String },
    InvalidShardName { relative_shard_path: String, shard_name: String },
    PackageNonDir { relative_package_dir: String },
    CaseSensitiveDuplicate { relative_shard_path: String, first: String, second: String },
    InvalidPackageName { relative_package_dir: String, package_name: String },
    IncorrectShard { relative_package_dir: String, correct_relative_package_dir: String },
    PackageNixNonExistent { relative_package_dir: String },
    PackageNixDir { relative_package_dir: String },
    UndefinedAttr { relative_package_file: String, package_name: String },
    EmptyArgument {
        package_name: String,
        file: String,
        line: usize,
        column: usize,
        definition: String,
    },
    NonToplevelCallPackage {
        package_name: String,
        file: String,
        line: usize,
        column: usize,
        definition: String,
    },
    NonPath { package_name: String, file: String, line: usize, column: usize, definition: String },
    WrongCallPackagePath {
        package_name: String,
        file: String,
        line: usize,
        actual_path: String,
        expected_path: String,
    },
    NonSyntacticCallPackage {
        package_name: String,
        file: String,
        line: usize,
        column: usize,
        definition: String,
    },
    NonDerivation { relative_package_file: String, package_name: String },
    OutsideSymlink { relative_package_dir: String, subpath: String },
    UnresolvableSymlink { relative_package_dir: String, subpath: String, io_error: String },
    PathInterpolation { relative_package_dir: String, subpath: String, line: usize, text: String },
    SearchPath { relative_package_dir: String, subpath: String, line: usize, text: String },
    OutsidePathReference {
        relative_package_dir: String,
        subpath: String,
        line: usize,
        text: String,
    },
    UnresolvablePathReference {
        relative_package_dir: String,
        subpath: String,
        line: usize,
        text: String,
        io_error: String,
    },
    MovedOutOfByNameEmptyArg {
        package_name: String,
        call_package_path: Option<String>,
        file: String,
    },
    MovedOutOfByNameNonEmptyArg {
        package_name: String,
        call_package_path: Option<String>,
        file: String,
    },
    NewPackageNotUsingByNameEmptyArg {
        package_name: String,
        call_package_path: Option<String>,
        file: String,
    },
    NewPackageNotUsingByNameNonEmptyArg {
        package_name: String,
        call_package_path: Option<String>,
        file: String,
    },
    InternalCallPackageUsed { attr_name: String },
    CannotDetermineAttributeLocation { attr_name: String },
}

/// The first argument of a manual `callPackage`: `./` and the path, or `...`
/// where the path is not known.
pub open spec fn spec_call_package_arg(call_package_path: Option<String>) -> Seq<char> {
    match call_package_path {
        Some(path) => "./"@ + path@,
        None => "..."@,
    }
}

/// The message shared by the problems with a `callPackage` definition that
/// does not have the expected form: `reason` says what is wrong, `after_line`
/// follows the line number and `excerpt` is the definition as shown.
pub open spec fn spec_call_package_message(
    package_name: Seq<char>,
    file: Seq<char>,
    line: nat,
    reason: Seq<char>,
    after_line: Seq<char>,
    excerpt: Seq<char>,
) -> Seq<char> {
    "- Because "@ + spec_relative_dir_for_package(package_name)
        + " exists, the attribute `pkgs."@ + package_name + "` must be defined like\n\n    "@
        + package_name + " = callPackage ./"@ + spec_relative_file_for_package(package_name)
        + " { /* ... */ };\n\n  However, in this PR, "@ + reason + " See the definition in "@
        + file + ":"@ + decimal(line) + after_line + "\n\n"@ + excerpt + "\n"@
}

/// The message of a package that left `pkgs/by-name` for a manual `callPackage`.
pub open spec fn spec_moved_out_message(
    package_name: Seq<char>,
    call_package_arg: Seq<char>,
    file: Seq<char>,
    braces: Seq<char>,
    advice: Seq<char>,
) -> Seq<char> {
    "- Attribute `pkgs."@ + package_name + "` was previously defined in "@
        + spec_relative_file_for_package(package_name)
        + ", but is now manually defined as `callPackage "@ + call_package_arg + " "@ + braces
        + "` in "@ + file + ".\n  "@ + advice + "\n"@
}

/// The message of a new package that does not use `pkgs/by-name`;
/// `closing_start` and `closing_end` are the last sentence around the file.
pub open spec fn spec_new_package_message(
    package_name: Seq<char>,
    call_package_arg: Seq<char>,
    file: Seq<char>,
    closing_start: Seq<char>,
    closing_end: Seq<char>,
) -> Seq<char> {
    "- Attribute `pkgs."@ + package_name
        + "` is a new top-level package using `pkgs.callPackage "@ + call_package_arg
        + " { /* ... */ }`.\n  Please define it in "@ + spec_relative_file_for_package(package_name)
        + " instead.\n  See `pkgs/by-name/README.md` for more details.\n  Since the second `callPackage` argument is "@
        + closing_start + file + closing_end + "\n"@
}

impl NixpkgsProblem {
    /// Whether the message of this problem can be written: a definition's
    /// column is counted from 1, and the paths of a wrong `callPackage` are
    /// relative paths with a parent directory for the file that holds them.
    pub open spec fn is_displayable(&self) -> bool {
        match self {
            NixpkgsProblem::EmptyArgument { column, .. } => *column >= 1,
            NixpkgsProblem::NonToplevelCallPackage { column, .. } => *column >= 1,
            NixpkgsProblem::NonPath { column, .. } => *column >= 1,
            NixpkgsProblem::NonSyntacticCallPackage { column, .. } => *column >= 1,
            NixpkgsProblem::WrongCallPackagePath { file, actual_path, expected_path, .. } => {
                &&& path_expr_defined(file@, expected_path@)
                &&& path_expr_defined(file@, actual_path@)
            },
            _ => true,
        }
    }

    /// The message that describes this problem.
    pub open spec fn spec_message(&self) -> Seq<char> {
        match self {
            NixpkgsProblem::ShardNonDir { relative_shard_path } => relative_shard_path@
                + ": This is a file, but it should be a directory."@,
            NixpkgsProblem::InvalidShardName { relative_shard_path, shard_name } =>
                relative_shard_path@ + ": Invalid directory name \""@ + shard_name@
                + "\", must be at most 2 ASCII characters consisting of a-z, 0-9, \"-\" or \"_\"."@,
            NixpkgsProblem::PackageNonDir { relative_package_dir } => relative_package_dir@
                + ": This path is a file, but it should be a directory."@,
            NixpkgsProblem::CaseSensitiveDuplicate { relative_shard_path, first, second } =>
                relative_shard_path@ + ": Duplicate case-sensitive package directories "@
                + path_debug(first@) + " and "@ + path_debug(second@) + "."@,
            NixpkgsProblem::InvalidPackageName { relative_package_dir, package_name } =>
                relative_package_dir@ + ": Invalid package directory name \""@ + package_name@
                + "\", must be ASCII characters consisting of a-z, A-Z, 0-9, \"-\" or \"_\"."@,
            NixpkgsProblem::IncorrectShard {
                relative_package_dir,
                correct_relative_package_dir,
            } => relative_package_dir@ + ": Incorrect directory location, should be "@
                + correct_relative_package_dir@ + " instead."@,
            NixpkgsProblem::PackageNixNonExistent { relative_package_dir } => relative_package_dir@
                + ": Missing required \""@ + PACKAGE_NIX_FILENAME@ + "\" file."@,
            NixpkgsProblem::PackageNixDir { relative_package_dir } => relative_package_dir@
                + ": \""@ + PACKAGE_NIX_FILENAME@ + "\" must be a file."@,
            NixpkgsProblem::UndefinedAttr { relative_package_file, package_name } => "pkgs."@
                + package_name@
                + ": This attribute is not defined but it should be defined automatically as "@
                + relative_package_file@,
            NixpkgsProblem::EmptyArgument { package_name, file, line, column, definition } =>
                spec_call_package_message(
                package_name@,
                file@,
                *line as nat,
                "the second argument is empty."@,
                ":"@,
                spec_indent_definition(*column as nat, definition@),
            ),
            NixpkgsProblem::NonToplevelCallPackage {
                package_name,
                file,
                line,
                column,
                definition,
            } => spec_call_package_message(
                package_name@,
                file@,
                *line as nat,
                "a different `callPackage` is used."@,
                ":"@,
                spec_indent_definition(*column as nat, definition@),
            ),
            NixpkgsProblem::NonPath { package_name, file, line, column, definition } =>
                spec_call_package_message(
                package_name@,
                file@,
                *line as nat,
                "the first `callPackage` argument is not a path."@,
                ":"@,
                spec_indent_definition(*column as nat, definition@),
            ),
            NixpkgsProblem::WrongCallPackagePath {
                package_name,
                file,
                line,
                actual_path,
                expected_path,
            } => "- Because "@ + spec_relative_dir_for_package(package_name@)
                + " exists, the attribute `pkgs."@ + package_name@
                + "` must be defined like\n\n    "@ + package_name@ + " = callPackage "@
                + spec_create_path_expr(file@, expected_path@)
                + " { /* ... */ };\n\n  However, in this PR, the first `callPackage` argument is the wrong path. See the definition in "@
                + file@ + ":"@ + decimal(*line as nat) + ":\n\n    "@ + package_name@
                + " = callPackage "@ + spec_create_path_expr(file@, actual_path@)
                + " { /* ... */ };\n"@,
            NixpkgsProblem::NonSyntacticCallPackage {
                package_name,
                file,
                line,
                column,
                definition,
            } => spec_call_package_message(
                package_name@,
                file@,
                *line as nat,
                "it isn't defined that way."@,
                ""@,
                spec_indent_definition(*column as nat, definition@),
            ),
            NixpkgsProblem::NonDerivation { relative_package_file, package_name } => "pkgs."@
                + package_name@ + ": This attribute defined by "@ + relative_package_file@
                + " is not a derivation"@,
            NixpkgsProblem::OutsideSymlink { relative_package_dir, subpath } =>
                relative_package_dir@ + ": Path "@ + subpath@
                + " is a symlink pointing to a path outside the directory of that package."@,
            NixpkgsProblem::UnresolvableSymlink { relative_package_dir, subpath, io_error } =>
                relative_package_dir@ + ": Path "@ + subpath@
                + " is a symlink which cannot be resolved: "@ + io_error@ + "."@,
            NixpkgsProblem::PathInterpolation { relative_package_dir, subpath, line, text } =>
                relative_package_dir@ + ": File "@ + subpath@ + " at line "@ + decimal(
                *line as nat,
            ) + " contains the path expression \""@ + text@
                + "\", which is not yet supported and may point outside the directory of that package."@,
            NixpkgsProblem::SearchPath { relative_package_dir, subpath, line, text } =>
                relative_package_dir@ + ": File "@ + subpath@ + " at line "@ + decimal(
                *line as nat,
            ) + " contains the nix search path expression \""@ + text@
                + "\" which may point outside the directory of that package."@,
            NixpkgsProblem::OutsidePathReference { relative_package_dir, subpath, line, text } =>
                relative_package_dir@ + ": File "@ + subpath@ + " at line "@ + decimal(
                *line as nat,
            ) + " contains the path expression \""@ + text@
                + "\" which may point outside the directory of that package."@,
            NixpkgsProblem::UnresolvablePathReference {
                relative_package_dir,
                subpath,
                line,
                text,
                io_error,
            } => relative_package_dir@ + ": File "@ + subpath@ + " at line "@ + decimal(
                *line as nat,
            ) + " contains the path expression \""@ + text@ + "\" which cannot be resolved: "@
                + io_error@ + "."@,
            NixpkgsProblem::MovedOutOfByNameEmptyArg { package_name, call_package_path, file } =>
                spec_moved_out_message(
                package_name@,
                spec_call_package_arg(*call_package_path),
                file@,
                "{ /* ... */ }"@,
                "Please move the package back and remove the manual `callPackage`."@,
            ),
            NixpkgsProblem::MovedOutOfByNameNonEmptyArg {
                package_name,
                call_package_path,
                file,
            } => spec_moved_out_message(
                package_name@,
                spec_call_package_arg(*call_package_path),
                file@,
                "{ ... }"@,
                "While the manual `callPackage` is still needed, it's not necessary to move the package files."@,
            ),
            NixpkgsProblem::NewPackageNotUsingByNameEmptyArg {
                package_name,
                call_package_path,
                file,
            } => spec_new_package_message(
                package_name@,
                spec_call_package_arg(*call_package_path),
                file@,
                "`{ }`, no manual `callPackage` in "@,
                " is needed anymore."@,
            ),
            NixpkgsProblem::NewPackageNotUsingByNameNonEmptyArg {
                package_name,
                call_package_path,
                file,
            } => spec_new_package_message(
                package_name@,
                spec_call_package_arg(*call_package_path),
                file@,
                "not `{ }`, the manual `callPackage` in "@,
                " is still needed."@,
            ),
            NixpkgsProblem::InternalCallPackageUsed { attr_name } => "pkgs."@ + attr_name@
                + ": This attribute is defined using `_internalCallByNamePackageFile`, which is an internal function not intended for manual use."@,
            NixpkgsProblem::CannotDetermineAttributeLocation { attr_name } => "pkgs."@
                + attr_name@
                + ": Cannot determine the location of this attribute using `builtins.unsafeGetAttrPos`."@,
        }
    }
}

/// The first argument of a manual `callPackage`.
fn call_package_arg(call_package_path: &Option<String>) -> (res: String)
    ensures
        res@ == spec_call_package_arg(*call_package_path),
{
    match call_package_path {
        Some(path) => {
            let mut res = String::from_str("./");
            res.append(path.as_str());
            res
        },
        None => String::from_str("..."),
    }
}

/// See `spec_call_package_message`.
fn call_package_message(
    package_name: &String,
    file: &String,
    line: usize,
    reason: &str,
    after_line: &str,
    excerpt: &String,
) -> (res: String)
    ensures
        res@ == spec_call_package_message(
            package_name@,
            file@,
            line as nat,
            reason@,
            after_line@,
            excerpt@,
        ),
{
    let dir = relative_dir_for_package(package_name.as_str());
    let package_file = relative_file_for_package(package_name.as_str());
    let line_text = to_decimal(line);
    let mut res = String::from_str("- Because ");
    res.append(dir.as_str());
    res.append(" exists, the attribute `pkgs.");
    res.append(package_name.as_str());
    res.append("` must be defined like\n\n    ");
    res.append(package_name.as_str());
    res.append(" = callPackage ./");
    res.append(package_file.as_str());
    res.append(" { /* ... */ };\n\n  However, in this PR, ");
    res.append(reason);
    res.append(" See the definition in ");
    res.append(file.as_str());
    res.append(":");
    res.append(line_text.as_str());
    res.append(after_line);
    res.append("\n\n");
    res.append(excerpt.as_str());
    res.append("\n");
    res
}

/// See `spec_moved_out_message`.
fn moved_out_message(
    package_name: &String,
    call_package_path: &Option<String>,
    file: &String,
    braces: &str,
    advice: &str,
) -> (res: String)
    ensures
        res@ == spec_moved_out_message(
            package_name@,
            spec_call_package_arg(*call_package_path),
            file@,
            braces@,
            advice@,
        ),
{
    let arg = call_package_arg(call_package_path);
    let package_file = relative_file_for_package(package_name.as_str());
    let mut res = String::from_str("- Attribute `pkgs.");
    res.append(package_name.as_str());
    res.append("` was previously defined in ");
    res.append(package_file.as_str());
    res.append(", but is now manually defined as `callPackage ");
    res.append(arg.as_str());
    res.append(" ");
    res.append(braces);
    res.append("` in ");
    res.append(file.as_str());
    res.append(".\n  ");
    res.append(advice);
    res.append("\n");
    res
}

/// See `spec_new_package_message`.
fn new_package_message(
    package_name: &String,
    call_package_path: &Option<String>,
    file: &String,
    closing_start: &str,
    closing_end: &str,
) -> (res: String)
    ensures
        res@ == spec_new_package_message(
            package_name@,
            spec_call_package_arg(*call_package_path),
            file@,
            closing_start@,
            closing_end@,
        ),
{
    let arg = call_package_arg(call_package_path);
    let package_file = relative_file_for_package(package_name.as_str());
    let mut res = String::from_str("- Attribute `pkgs.");
    res.append(package_name.as_str());
    res.append("` is a new top-level package using `pkgs.callPackage ");
    res.append(arg.as_str());
    res.append(" { /* ... */ }`.\n  Please define it in ");
    res.append(package_file.as_str());
    res.append(
        " instead.\n  See `pkgs/by-name/README.md` for more details.\n  Since the second `callPackage` argument is ",
    );
    res.append(closing_start);
    res.append(file.as_str());
    res.append(closing_end);
    res.append("\n");
    res
}

/// The text `prefix` + `middle` + `suffix`.
fn surround(prefix: &str, middle: &str, suffix: &str) -> (res: String)
    ensures
        res@ == prefix@ + middle@ + suffix@,
{
    let mut res = String::from_str(prefix);
    res.append(middle);
    res.append(suffix);
    res
}

impl NixpkgsProblem {
    /// The message that describes this problem.
    pub fn to_string(&self) -> (res: String)
        requires
            self.is_displayable(),
        ensures
            res@ == self.spec_message(),
    {
        proof {
            reveal_strlit("");
        }
        match self {
            NixpkgsProblem::ShardNonDir { relative_shard_path } => surround(
                relative_shard_path.as_str(),
                ": This is a file, but it should be a directory.",
                "",
            ),
            NixpkgsProblem::InvalidShardName { relative_shard_path, shard_name } => {
                let mut res = surround(
                    relative_shard_path.as_str(),
                    ": Invalid directory name \"",
                    shard_name.as_str(),
                );
                res.append(
                    "\", must be at most 2 ASCII characters consisting of a-z, 0-9, \"-\" or \"_\".",
                );
                res
            },
            NixpkgsProblem::PackageNonDir { relative_package_dir } => surround(
                relative_package_dir.as_str(),
                ": This path is a file, but it should be a directory.",
                "",
            ),
            NixpkgsProblem::CaseSensitiveDuplicate { relative_shard_path, first, second } => {
                let first_text = debug_path(first.as_str());
                let second_text = debug_path(second.as_str());
                let mut res = surround(
                    relative_shard_path.as_str(),
                    ": Duplicate case-sensitive package directories ",
                    first_text.as_str(),
                );
                res.append(" and ");
                res.append(second_text.as_str());
                res.append(".");
                res
            },
            NixpkgsProblem::InvalidPackageName { relative_package_dir, package_name } => {
                let mut res = surround(
                    relative_package_dir.as_str(),
                    ": Invalid package directory name \"",
                    package_name.as_str(),
                );
                res.append(
                    "\", must be ASCII characters consisting of a-z, A-Z, 0-9, \"-\" or \"_\".",
                );
                res
            },
            NixpkgsProblem::IncorrectShard {
                relative_package_dir,
                correct_relative_package_dir,
            } => {
                let mut res = surround(
                    relative_package_dir.as_str(),
                    ": Incorrect directory location, should be ",
                    correct_relative_package_dir.as_str(),
                );
                res.append(" instead.");
                res
            },
            NixpkgsProblem::PackageNixNonExistent { relative_package_dir } => {
                let mut res = surround(
                    relative_package_dir.as_str(),
                    ": Missing required \"",
                    PACKAGE_NIX_FILENAME,
                );
                res.append("\" file.");
                res
            },
            NixpkgsProblem::PackageNixDir { relative_package_dir } => {
                let mut res = surround(
                    relative_package_dir.as_str(),
                    ": \"",
                    PACKAGE_NIX_FILENAME,
                );
                res.append("\" must be a file.");
                res
            },
            NixpkgsProblem::UndefinedAttr { relative_package_file, package_name } => {
                let mut res = surround(
                    "pkgs.",
                    package_name.as_str(),
                    ": This attribute is not defined but it should be defined automatically as ",
                );
                res.append(relative_package_file.as_str());
                res
            },
            NixpkgsProblem::EmptyArgument { package_name, file, line, column, definition } => {
                let excerpt = indent_definition(*column, definition.clone());
                call_package_message(
                    package_name,
                    file,
                    *line,
                    "the second argument is empty.",
                    ":",
                    &excerpt,
                )
            },
            NixpkgsProblem::NonToplevelCallPackage {
                package_name,
                file,
                line,
                column,
                definition,
            } => {
                let excerpt = indent_definition(*column, definition.clone());
                call_package_message(
                    package_name,
                    file,
                    *line,
                    "a different `callPackage` is used.",
                    ":",
                    &excerpt,
                )
            },
            NixpkgsProblem::NonPath { package_name, file, line, column, definition } => {
                let excerpt = indent_definition(*column, definition.clone());
                call_package_message(
                    package_name,
                    file,
                    *line,
                    "the first `callPackage` argument is not a path.",
                    ":",
                    &excerpt,
                )
            },
            NixpkgsProblem::WrongCallPackagePath {
                package_name,
                file,
                line,
                actual_path,
                expected_path,
            } => {
                let dir = relative_dir_for_package(package_name.as_str());
                let expected = create_path_expr(file.as_str(), expected_path.as_str());
                let line_text = to_decimal(*line);
                let actual = create_path_expr(file.as_str(), actual_path.as_str());
                let mut res = String::from_str("- Because ");
                res.append(dir.as_str());
                res.append(" exists, the attribute `pkgs.");
                res.append(package_name.as_str());
                res.append("` must be defined like\n\n    ");
                res.append(package_name.as_str());
                res.append(" = callPackage ");
                res.append(expected.as_str());
                res.append(
                    " { /* ... */ };\n\n  However, in this PR, the first `callPackage` argument is the wrong path. See the definition in ",
                );
                res.append(file.as_str());
                res.append(":");
                res.append(line_text.as_str());
                res.append(":\n\n    ");
                res.append(package_name.as_str());
                res.append(" = callPackage ");
                res.append(actual.as_str());
                res.append(" { /* ... */ };\n");
                res
            },
            NixpkgsProblem::NonSyntacticCallPackage {
                package_name,
                file,
                line,
                column,
                definition,
            } => {
                let excerpt = indent_definition(*column, definition.clone());
                call_package_message(
                    package_name,
                    file,
                    *line,
                    "it isn't defined that way.",
                    "",
                    &excerpt,
                )
            },
            NixpkgsProblem::NonDerivation { relative_package_file, package_name } => {
                let mut res = surround(
                    "pkgs.",
                    package_name.as_str(),
                    ": This attribute defined by ",
                );
                res.append(relative_package_file.as_str());
                res.append(" is not a derivation");
                res
            },
            NixpkgsProblem::OutsideSymlink { relative_package_dir, subpath } => {
                let mut res = surround(relative_package_dir.as_str(), ": Path ", subpath.as_str());
                res.append(
                    " is a symlink pointing to a path outside the directory of that package.",
                );
                res
            },
            NixpkgsProblem::UnresolvableSymlink { relative_package_dir, subpath, io_error } => {
                let mut res = surround(relative_package_dir.as_str(), ": Path ", subpath.as_str());
                res.append(" is a symlink which cannot be resolved: ");
                res.append(io_error.as_str());
                res.append(".");
                res
            },
            NixpkgsProblem::PathInterpolation { relative_package_dir, subpath, line, text } => {
                let line_text = to_decimal(*line);
                let mut res = surround(relative_package_dir.as_str(), ": File ", subpath.as_str());
                res.append(" at line ");
                res.append(line_text.as_str());
                res.append(" contains the path expression \"");
                res.append(text.as_str());
                res.append(
                    "\", which is not yet supported and may point outside the directory of that package.",
                );
                res
            },
            NixpkgsProblem::SearchPath { relative_package_dir, subpath, line, text } => {
                let line_text = to_decimal(*line);
                let mut res = surround(relative_package_dir.as_str(), ": File ", subpath.as_str());
                res.append(" at line ");
                res.append(line_text.as_str());
                res.append(" contains the nix search path expression \"");
                res.append(text.as_str());
                res.append("\" which may point outside the directory of that package.");
                res
            },
            NixpkgsProblem::OutsidePathReference { relative_package_dir, subpath, line, text } => {
                let line_text = to_decimal(*line);
                let mut res = surround(relative_package_dir.as_str(), ": File ", subpath.as_str());
                res.append(" at line ");
                res.append(line_text.as_str());
                res.append(" contains the path expression \"");
                res.append(text.as_str());
                res.append("\" which may point outside the directory of that package.");
                res
            },
            NixpkgsProblem::UnresolvablePathReference {
                relative_package_dir,
                subpath,
                line,
                text,
                io_error,
            } => {
                let line_text = to_decimal(*line);
                let mut res = surround(relative_package_dir.as_str(), ": File ", subpath.as_str());
                res.append(" at line ");
                res.append(line_text.as_str());
                res.append(" contains the path expression \"");
                res.append(text.as_str());
                res.append("\" which cannot be resolved: ");
                res.append(io_error.as_str());
                res.append(".");
                res
            },
            NixpkgsProblem::MovedOutOfByNameEmptyArg { package_name, call_package_path, file } =>
                moved_out_message(
                package_name,
                call_package_path,
                file,
                "{ /* ... */ }",
                "Please move the package back and remove the manual `callPackage`.",
            ),
            NixpkgsProblem::MovedOutOfByNameNonEmptyArg {
                package_name,
                call_package_path,
                file,
            } => moved_out_message(
                package_name,
                call_package_path,
                file,
                "{ ... }",
                "While the manual `callPackage` is still needed, it's not necessary to move the package files.",
            ),
            NixpkgsProblem::NewPackageNotUsingByNameEmptyArg {
                package_name,
                call_package_path,
                file,
            } => new_package_message(
                package_name,
                call_package_path,
                file,
                "`{ }`, no manual `callPackage` in ",
                " is needed anymore.",
            ),
            NixpkgsProblem::NewPackageNotUsingByNameNonEmptyArg {
                package_name,
                call_package_path,
                file,
            } => new_package_message(
                package_name,
                call_package_path,
                file,
                "not `{ }`, the manual `callPackage` in ",
                " is still needed.",
            ),
            NixpkgsProblem::InternalCallPackageUsed { attr_name } => surround(
                "pkgs.",
                attr_name.as_str(),
                ": This attribute is defined using `_internalCallByNamePackageFile`, which is an internal function not intended for manual use.",
            ),
            NixpkgsProblem::CannotDetermineAttributeLocation { attr_name } => surround(
                "pkgs.",
                attr_name.as_str(),
                ": Cannot determine the location of this attribute using `builtins.unsafeGetAttrPos`.",
            ),
        }
    }

    /// The message that describes this problem, or `None` where it cannot be
    /// written (see `is_displayable`).
    pub fn try_to_string(&self) -> (res: Option<String>)
        ensures
            res is Some <==> self.is_displayable(),
            res matches Some(message) ==> message@ == self.spec_message(),
    {
        let displayable = match self {
            NixpkgsProblem::EmptyArgument { column, .. } => *column >= 1,
            NixpkgsProblem::NonToplevelCallPackage { column, .. } => *column >= 1,
            NixpkgsProblem::NonPath { column, .. } => *column >= 1,
            NixpkgsProblem::NonSyntacticCallPackage { column, .. } => *column >= 1,
            NixpkgsProblem::WrongCallPackagePath { file, actual_path, expected_path, .. } => {
                path_expr_is_defined(file.as_str(), expected_path.as_str())
                    && path_expr_is_defined(file.as_str(), actual_path.as_str())
            },
            _ => true,
        };
        if displayable {
            Some(self.to_string())
        } else {
            None
        }
    }
}

impl NixpkgsProblem {
    /// What the message of a problem begins with: the path in `pkgs/by-name`
    /// that a problem with the directory structure concerns, the attribute
    /// that a problem with an attribute concerns, or the bullet of a
    /// multi-line explanation.
    pub open spec fn spec_subject(&self) -> Seq<char> {
        match self {
            NixpkgsProblem::ShardNonDir { relative_shard_path } => relative_shard_path@ + ": "@,
            NixpkgsProblem::InvalidShardName { relative_shard_path, .. } => relative_shard_path@
                + ": "@,
            NixpkgsProblem::PackageNonDir { relative_package_dir } => relative_package_dir@
                + ": "@,
            NixpkgsProblem::CaseSensitiveDuplicate { relative_shard_path, .. } =>
                relative_shard_path@ + ": "@,
            NixpkgsProblem::InvalidPackageName { relative_package_dir, .. } =>
                relative_package_dir@ + ": "@,
            NixpkgsProblem::IncorrectShard { relative_package_dir, .. } => relative_package_dir@
                + ": "@,
            NixpkgsProblem::PackageNixNonExistent { relative_package_dir } =>
                relative_package_dir@ + ": "@,
            NixpkgsProblem::PackageNixDir { relative_package_dir } => relative_package_dir@
                + ": "@,
            NixpkgsProblem::OutsideSymlink { relative_package_dir, .. } => relative_package_dir@
                + ": "@,
            NixpkgsProblem::UnresolvableSymlink { relative_package_dir, .. } =>
                relative_package_dir@ + ": "@,
            NixpkgsProblem::PathInterpolation { relative_package_dir, .. } =>
                relative_package_dir@ + ": "@,
            NixpkgsProblem::SearchPath { relative_package_dir, .. } => relative_package_dir@
                + ": "@,
            NixpkgsProblem::OutsidePathReference { relative_package_dir, .. } =>
                relative_package_dir@ + ": "@,
            NixpkgsProblem::UnresolvablePathReference { relative_package_dir, .. } =>
                relative_package_dir@ + ": "@,
            NixpkgsProblem::UndefinedAttr { package_name, .. } => "pkgs."@ + package_name@
                + ": "@,
            NixpkgsProblem::NonDerivation { package_name, .. } => "pkgs."@ + package_name@
                + ": "@,
            NixpkgsProblem::InternalCallPackageUsed { attr_name } => "pkgs."@ + attr_name@
                + ": "@,
            NixpkgsProblem::CannotDetermineAttributeLocation { attr_name } => "pkgs."@
                + attr_name@ + ": "@,
            _ => "- "@,
        }
    }

}

/// Whether `s` begins with `prefix`.
pub open spec fn begins_with(s: Seq<char>, prefix: Seq<char>) -> bool {
    prefix.len() <= s.len() && s.take(prefix.len() as int) == prefix
}

/// What begins a text also begins the text with more appended.
broadcast proof fn begins_with_extend(s: Seq<char>, prefix: Seq<char>, tail: Seq<char>)
    requires
        begins_with(s, prefix),
    ensures
        #[trigger] begins_with(s + tail, prefix),
{
    assert((s + tail).take(prefix.len() as int) =~= s.take(prefix.len() as int));
}

/// `head + text` begins with `head + ": "` when `text` begins with `": "`.
proof fn subject_then_text(head: Seq<char>, text: Seq<char>)
    requires
        text.len() >= 2,
        text[0] == ':',
        text[1] == ' ',
    ensures
        begins_with(head + text, head + ": "@),
{
    reveal_strlit(": ");
    assert((head + text).take((head + ": "@).len() as int) =~= head + ": "@);
}

/// A text that begins with `'-'` and `' '` begins with the bullet `"- "`.
proof fn bullet_text(text: Seq<char>)
    requires
        text.len() >= 2,
        text[0] == '-',
        text[1] == ' ',
    ensures
        begins_with(text, "- "@),
{
    reveal_strlit("- ");
    assert(text.take(2) =~= "- "@);
}

/// Every message begins with its subject: the path or the attribute that the
/// problem concerns, or the bullet of an explanation.
pub proof fn message_begins_with_subject(problem: NixpkgsProblem)
    ensures
        begins_with(problem.spec_message(), problem.spec_subject()),
{
    broadcast use begins_with_extend;

    match problem {
        NixpkgsProblem::ShardNonDir { relative_shard_path: path } => {
            reveal_strlit(": This is a file, but it should be a directory.");
            subject_then_text(path@, ": This is a file, but it should be a directory."@);
        },
        NixpkgsProblem::InvalidShardName { relative_shard_path: path, .. } => {
            reveal_strlit(": Invalid directory name \"");
            subject_then_text(path@, ": Invalid directory name \""@);
        },
        NixpkgsProblem::PackageNonDir { relative_package_dir: path } => {
            reveal_strlit(": This path is a file, but it should be a directory.");
            subject_then_text(path@, ": This path is a file, but it should be a directory."@);
        },
        NixpkgsProblem::CaseSensitiveDuplicate { relative_shard_path: path, .. } => {
            reveal_strlit(": Duplicate case-sensitive package directories ");
            subject_then_text(path@, ": Duplicate case-sensitive package directories "@);
        },
        NixpkgsProblem::InvalidPackageName { relative_package_dir: path, .. } => {
            reveal_strlit(": Invalid package directory name \"");
            subject_then_text(path@, ": Invalid package directory name \""@);
        },
        NixpkgsProblem::IncorrectShard { relative_package_dir: path, .. } => {
            reveal_strlit(": Incorrect directory location, should be ");
            subject_then_text(path@, ": Incorrect directory location, should be "@);
        },
        NixpkgsProblem::PackageNixNonExistent { relative_package_dir: path } => {
            reveal_strlit(": Missing required \"");
            subject_then_text(path@, ": Missing required \""@);
        },
        NixpkgsProblem::PackageNixDir { relative_package_dir: path } => {
            reveal_strlit(": \"");
            subject_then_text(path@, ": \""@);
        },
        NixpkgsProblem::OutsideSymlink { relative_package_dir: path, .. }
        | NixpkgsProblem::UnresolvableSymlink { relative_package_dir: path, .. } => {
            reveal_strlit(": Path ");
            subject_then_text(path@, ": Path "@);
        },
        NixpkgsProblem::PathInterpolation { relative_package_dir: path, .. }
        | NixpkgsProblem::SearchPath { relative_package_dir: path, .. }
        | NixpkgsProblem::OutsidePathReference { relative_package_dir: path, .. }
        | NixpkgsProblem::UnresolvablePathReference { relative_package_dir: path, .. } => {
            reveal_strlit(": File ");
            subject_then_text(path@, ": File "@);
        },
        NixpkgsProblem::UndefinedAttr { package_name: name, .. } => {
            reveal_strlit(
                ": This attribute is not defined but it should be defined automatically as ",
            );
            subject_then_text(
                "pkgs."@ + name@,
                ": This attribute is not defined but it should be defined automatically as "@,
            );
        },
        NixpkgsProblem::NonDerivation { package_name: name, .. } => {
            reveal_strlit(": This attribute defined by ");
            subject_then_text("pkgs."@ + name@, ": This attribute defined by "@);
        },
        NixpkgsProblem::InternalCallPackageUsed { attr_name: name } => {
            reveal_strlit(
                ": This attribute is defined using `_internalCallByNamePackageFile`, which is an internal function not intended for manual use.",
            );
            subject_then_text(
                "pkgs."@ + name@,
                ": This attribute is defined using `_internalCallByNamePackageFile`, which is an internal function not intended for manual use."@,
            );
        },
        NixpkgsProblem::CannotDetermineAttributeLocation { attr_name: name } => {
            reveal_strlit(
                ": Cannot determine the location of this attribute using `builtins.unsafeGetAttrPos`.",
            );
            subject_then_text(
                "pkgs."@ + name@,
                ": Cannot determine the location of this attribute using `builtins.unsafeGetAttrPos`."@,
            );
        },
        NixpkgsProblem::EmptyArgument { .. }
        | NixpkgsProblem::NonToplevelCallPackage { .. }
        | NixpkgsProblem::NonPath { .. }
        | NixpkgsProblem::WrongCallPackagePath { .. }
        | NixpkgsProblem::NonSyntacticCallPackage { .. } => {
            reveal_strlit("- Because ");
            bullet_text("- Because "@);
        },
        NixpkgsProblem::MovedOutOfByNameEmptyArg { .. }
        | NixpkgsProblem::MovedOutOfByNameNonEmptyArg { .. }
        | NixpkgsProblem::NewPackageNotUsingByNameEmptyArg { .. }
        | NixpkgsProblem::NewPackageNotUsingByNameNonEmptyArg { .. } => {
            reveal_strlit("- Attribute `pkgs.");
            bullet_text("- Attribute `pkgs."@);
        },
    }
}

/// Whether `m` starts with `x`.
pub open spec fn has_prefix(m: Seq<char>, x: Seq<char>) -> bool {
    x.len() <= m.len() && m.take(x.len() as int) == x
}

/// Whether `m` ends with `x`.
pub open spec fn has_suffix(m: Seq<char>, x: Seq<char>) -> bool {
    x.len() <= m.len() && m.skip(m.len() - x.len()) == x
}

/// `x + b` starts with `x`.
proof fn prefix_of_concat(x: Seq<char>, b: Seq<char>)
    ensures
        has_prefix(x + b, x),
{
    assert((x + b).take(x.len() as int) =~= x);
}

/// `a + x` ends with `x`.
proof fn suffix_of_concat(a: Seq<char>, x: Seq<char>)
    ensures
        has_suffix(a + x, x),
{
    assert((a + x).skip(a.len() as int) =~= x);
}

/// A message about the directory structure starts with the path that it is
/// about and quotes the offending name, file names or correct location in
/// their place.
pub proof fn message_names_structure_problem(problem: NixpkgsProblem)
    ensures
        (match problem {
            NixpkgsProblem::ShardNonDir { relative_shard_path, .. } => has_prefix(problem.spec_message(), relative_shard_path@) && has_suffix(problem.spec_message(), ": This is a file, but it should be a directory."@),
            NixpkgsProblem::InvalidShardName { relative_shard_path, shard_name, .. } => has_prefix(problem.spec_message(), relative_shard_path@ + ": Invalid directory name \""@ + shard_name@) && has_suffix(problem.spec_message(), "\", must be at most 2 ASCII characters consisting of a-z, 0-9, \"-\" or \"_\"."@),
            NixpkgsProblem::PackageNonDir { relative_package_dir, .. } => has_prefix(problem.spec_message(), relative_package_dir@) && has_suffix(problem.spec_message(), ": This path is a file, but it should be a directory."@),
            NixpkgsProblem::CaseSensitiveDuplicate { relative_shard_path, first, second, .. } => has_prefix(problem.spec_message(), relative_shard_path@ + ": Duplicate case-sensitive package directories "@ + path_debug(first@) + " and "@ + path_debug(second@)) && has_suffix(problem.spec_message(), "."@),
            NixpkgsProblem::InvalidPackageName { relative_package_dir, package_name, .. } => has_prefix(problem.spec_message(), relative_package_dir@ + ": Invalid package directory name \""@ + package_name@) && has_suffix(problem.spec_message(), "\", must be ASCII characters consisting of a-z, A-Z, 0-9, \"-\" or \"_\"."@),
            NixpkgsProblem::IncorrectShard { relative_package_dir, correct_relative_package_dir, .. } => has_prefix(problem.spec_message(), relative_package_dir@) && has_suffix(problem.spec_message(), correct_relative_package_dir@ + " instead."@),
            NixpkgsProblem::PackageNixNonExistent { relative_package_dir, .. } => has_prefix(problem.spec_message(), relative_package_dir@) && has_suffix(problem.spec_message(), PACKAGE_NIX_FILENAME@ + "\" file."@),
            NixpkgsProblem::PackageNixDir { relative_package_dir, .. } => has_prefix(problem.spec_message(), relative_package_dir@) && has_suffix(problem.spec_message(), PACKAGE_NIX_FILENAME@ + "\" must be a file."@),
            _ => true,
        }),
{
    reveal_strlit("");
    let m = problem.spec_message();
    match problem {
        NixpkgsProblem::ShardNonDir { relative_shard_path, .. } => {
            prefix_of_concat(relative_shard_path@, ": This is a file, but it should be a directory."@);
            assert(m =~= relative_shard_path@ + (": This is a file, but it should be a directory."@));
            suffix_of_concat(relative_shard_path@, ": This is a file, but it should be a directory."@);
            assert(m =~= relative_shard_path@ + (": This is a file, but it should be a directory."@));
        },
        NixpkgsProblem::InvalidShardName { relative_shard_path, shard_name, .. } => {
            prefix_of_concat(relative_shard_path@ + ": Invalid directory name \""@ + shard_name@, "\", must be at most 2 ASCII characters consisting of a-z, 0-9, \"-\" or \"_\"."@);
            assert(m =~= relative_shard_path@ + ": Invalid directory name \""@ + shard_name@ + ("\", must be at most 2 ASCII characters consisting of a-z, 0-9, \"-\" or \"_\"."@));
            suffix_of_concat(relative_shard_path@ + ": Invalid directory name \""@ + shard_name@, "\", must be at most 2 ASCII characters consisting of a-z, 0-9, \"-\" or \"_\"."@);
            assert(m =~= relative_shard_path@ + ": Invalid directory name \""@ + shard_name@ + ("\", must be at most 2 ASCII characters consisting of a-z, 0-9, \"-\" or \"_\"."@));
        },
        NixpkgsProblem::PackageNonDir { relative_package_dir, .. } => {
            prefix_of_concat(relative_package_dir@, ": This path is a file, but it should be a directory."@);
            assert(m =~= relative_package_dir@ + (": This path is a file, but it should be a directory."@));
            suffix_of_concat(relative_package_dir@, ": This path is a file, but it should be a directory."@);
            assert(m =~= relative_package_dir@ + (": This path is a file, but it should be a directory."@));
        },
        NixpkgsProblem::CaseSensitiveDuplicate { relative_shard_path, first, second, .. } => {
            prefix_of_concat(relative_shard_path@ + ": Duplicate case-sensitive package directories "@ + path_debug(first@) + " and "@ + path_debug(second@), "."@);
            assert(m =~= relative_shard_path@ + ": Duplicate case-sensitive package directories "@ + path_debug(first@) + " and "@ + path_debug(second@) + ("."@));
            suffix_of_concat(relative_shard_path@ + ": Duplicate case-sensitive package directories "@ + path_debug(first@) + " and "@ + path_debug(second@), "."@);
            assert(m =~= relative_shard_path@ + ": Duplicate case-sensitive package directories "@ + path_debug(first@) + " and "@ + path_debug(second@) + ("."@));
        },
        NixpkgsProblem::InvalidPackageName { relative_package_dir, package_name, .. } => {
            prefix_of_concat(relative_package_dir@ + ": Invalid package directory name \""@ + package_name@, "\", must be ASCII characters consisting of a-z, A-Z, 0-9, \"-\" or \"_\"."@);
            assert(m =~= relative_package_dir@ + ": Invalid package directory name \""@ + package_name@ + ("\", must be ASCII characters consisting of a-z, A-Z, 0-9, \"-\" or \"_\"."@));
            suffix_of_concat(relative_package_dir@ + ": Invalid package directory name \""@ + package_name@, "\", must be ASCII characters consisting of a-z, A-Z, 0-9, \"-\" or \"_\"."@);
            assert(m =~= relative_package_dir@ + ": Invalid package directory name \""@ + package_name@ + ("\", must be ASCII characters consisting of a-z, A-Z, 0-9, \"-\" or \"_\"."@));
        },
        NixpkgsProblem::IncorrectShard { relative_package_dir, correct_relative_package_dir, .. } => {
            prefix_of_concat(relative_package_dir@, ": Incorrect directory location, should be "@ + correct_relative_package_dir@ + " instead."@);
            assert(m =~= relative_package_dir@ + (": Incorrect directory location, should be "@ + correct_relative_package_dir@ + " instead."@));
            suffix_of_concat(relative_package_dir@ + ": Incorrect directory location, should be "@, correct_relative_package_dir@ + " instead."@);
            assert(m =~= relative_package_dir@ + ": Incorrect directory location, should be "@ + (correct_relative_package_dir@ + " instead."@));
        },
        NixpkgsProblem::PackageNixNonExistent { relative_package_dir, .. } => {
            prefix_of_concat(relative_package_dir@, ": Missing required \""@ + PACKAGE_NIX_FILENAME@ + "\" file."@);
            assert(m =~= relative_package_dir@ + (": Missing required \""@ + PACKAGE_NIX_FILENAME@ + "\" file."@));
            suffix_of_concat(relative_package_dir@ + ": Missing required \""@, PACKAGE_NIX_FILENAME@ + "\" file."@);
            assert(m =~= relative_package_dir@ + ": Missing required \""@ + (PACKAGE_NIX_FILENAME@ + "\" file."@));
        },
        NixpkgsProblem::PackageNixDir { relative_package_dir, .. } => {
            prefix_of_concat(relative_package_dir@, ": \""@ + PACKAGE_NIX_FILENAME@ + "\" must be a file."@);
            assert(m =~= relative_package_dir@ + (": \""@ + PACKAGE_NIX_FILENAME@ + "\" must be a file."@));
            suffix_of_concat(relative_package_dir@ + ": \""@, PACKAGE_NIX_FILENAME@ + "\" must be a file."@);
            assert(m =~= relative_package_dir@ + ": \""@ + (PACKAGE_NIX_FILENAME@ + "\" must be a file."@));
        },
        _ => {},
    }
}

/// The parts of a `callPackage` message: how it starts, and how it ends.
proof fn call_package_message_parts(
    package_name: Seq<char>,
    file: Seq<char>,
    line: nat,
    reason: Seq<char>,
    after_line: Seq<char>,
    excerpt: Seq<char>,
)
    ensures
        has_prefix(
            spec_call_package_message(package_name, file, line, reason, after_line, excerpt),
            "- Because "@ + spec_relative_dir_for_package(package_name)
                + " exists, the attribute `pkgs."@ + package_name
                + "` must be defined like\n\n    "@ + package_name + " = callPackage ./"@
                + spec_relative_file_for_package(package_name),
        ),
        has_suffix(
            spec_call_package_message(package_name, file, line, reason, after_line, excerpt),
            reason + " See the definition in "@ + file + ":"@ + decimal(line) + after_line
                + "\n\n"@ + excerpt + "\n"@,
        ),
{
    let m = spec_call_package_message(package_name, file, line, reason, after_line, excerpt);
    let head = "- Because "@ + spec_relative_dir_for_package(package_name)
        + " exists, the attribute `pkgs."@ + package_name + "` must be defined like\n\n    "@
        + package_name + " = callPackage ./"@ + spec_relative_file_for_package(package_name);
    let middle = " { /* ... */ };\n\n  However, in this PR, "@;
    let tail = reason + " See the definition in "@ + file + ":"@ + decimal(line) + after_line
        + "\n\n"@ + excerpt + "\n"@;
    assert(m =~= head + (middle + tail));
    prefix_of_concat(head, middle + tail);
    assert(m =~= (head + middle) + tail);
    suffix_of_concat(head + middle, tail);
}

/// A message about a `callPackage` definition names the package's directory and
/// the `callPackage` line that it should have, and locates the definition by
/// its file and line, followed by the whole definition re-indented.
pub proof fn message_locates_call_package_definition(problem: NixpkgsProblem)
    ensures
        (match problem {
            NixpkgsProblem::EmptyArgument { package_name, file, line, column, definition, .. } => has_prefix(problem.spec_message(), "- Because "@ + spec_relative_dir_for_package(package_name@) + " exists, the attribute `pkgs."@ + package_name@ + "` must be defined like\n\n    "@ + package_name@ + " = callPackage ./"@ + spec_relative_file_for_package(package_name@)) && has_suffix(problem.spec_message(), "the second argument is empty."@ + " See the definition in "@ + file@ + ":"@ + decimal(line as nat) + ":"@ + "\n\n"@ + spec_indent_definition(column as nat, definition@) + "\n"@),
            NixpkgsProblem::NonToplevelCallPackage { package_name, file, line, column, definition, .. } => has_prefix(problem.spec_message(), "- Because "@ + spec_relative_dir_for_package(package_name@) + " exists, the attribute `pkgs."@ + package_name@ + "` must be defined like\n\n    "@ + package_name@ + " = callPackage ./"@ + spec_relative_file_for_package(package_name@)) && has_suffix(problem.spec_message(), "a different `callPackage` is used."@ + " See the definition in "@ + file@ + ":"@ + decimal(line as nat) + ":"@ + "\n\n"@ + spec_indent_definition(column as nat, definition@) + "\n"@),
            NixpkgsProblem::NonPath { package_name, file, line, column, definition, .. } => has_prefix(problem.spec_message(), "- Because "@ + spec_relative_dir_for_package(package_name@) + " exists, the attribute `pkgs."@ + package_name@ + "` must be defined like\n\n    "@ + package_name@ + " = callPackage ./"@ + spec_relative_file_for_package(package_name@)) && has_suffix(problem.spec_message(), "the first `callPackage` argument is not a path."@ + " See the definition in "@ + file@ + ":"@ + decimal(line as nat) + ":"@ + "\n\n"@ + spec_indent_definition(column as nat, definition@) + "\n"@),
            NixpkgsProblem::NonSyntacticCallPackage { package_name, file, line, column, definition, .. } => has_prefix(problem.spec_message(), "- Because "@ + spec_relative_dir_for_package(package_name@) + " exists, the attribute `pkgs."@ + package_name@ + "` must be defined like\n\n    "@ + package_name@ + " = callPackage ./"@ + spec_relative_file_for_package(package_name@)) && has_suffix(problem.spec_message(), "it isn't defined that way."@ + " See the definition in "@ + file@ + ":"@ + decimal(line as nat) + "\n\n"@ + spec_indent_definition(column as nat, definition@) + "\n"@),
            NixpkgsProblem::WrongCallPackagePath { package_name, file, line, actual_path, expected_path, .. } => has_prefix(problem.spec_message(), "- Because "@ + spec_relative_dir_for_package(package_name@) + " exists, the attribute `pkgs."@ + package_name@) && has_suffix(problem.spec_message(), "` must be defined like\n\n    "@ + package_name@ + " = callPackage "@ + spec_create_path_expr(file@, expected_path@) + " { /* ... */ };\n\n  However, in this PR, the first `callPackage` argument is the wrong path. See the definition in "@ + file@ + ":"@ + decimal(line as nat) + ":\n\n    "@ + package_name@ + " = callPackage "@ + spec_create_path_expr(file@, actual_path@) + " { /* ... */ };\n"@),
            _ => true,
        }),
{
    reveal_strlit("");
    let m = problem.spec_message();
    match problem {
        NixpkgsProblem::EmptyArgument { package_name, file, line, column, definition, .. } => {
            call_package_message_parts(
                package_name@,
                file@,
                line as nat,
                "the second argument is empty."@,
                ":"@,
                spec_indent_definition(column as nat, definition@),
            );
        },
        NixpkgsProblem::NonToplevelCallPackage { package_name, file, line, column, definition, .. } => {
            call_package_message_parts(
                package_name@,
                file@,
                line as nat,
                "a different `callPackage` is used."@,
                ":"@,
                spec_indent_definition(column as nat, definition@),
            );
        },
        NixpkgsProblem::NonPath { package_name, file, line, column, definition, .. } => {
            call_package_message_parts(
                package_name@,
                file@,
                line as nat,
                "the first `callPackage` argument is not a path."@,
                ":"@,
                spec_indent_definition(column as nat, definition@),
            );
        },
        NixpkgsProblem::NonSyntacticCallPackage { package_name, file, line, column, definition, .. } => {
            call_package_message_parts(
                package_name@,
                file@,
                line as nat,
                "it isn't defined that way."@,
                ""@,
                spec_indent_definition(column as nat, definition@),
            );
        },
        NixpkgsProblem::WrongCallPackagePath { package_name, file, line, actual_path, expected_path, .. } => {
            prefix_of_concat("- Because "@ + spec_relative_dir_for_package(package_name@) + " exists, the attribute `pkgs."@ + package_name@, "` must be defined like\n\n    "@ + package_name@ + " = callPackage "@ + spec_create_path_expr(file@, expected_path@) + " { /* ... */ };\n\n  However, in this PR, the first `callPackage` argument is the wrong path. See the definition in "@ + file@ + ":"@ + decimal(line as nat) + ":\n\n    "@ + package_name@ + " = callPackage "@ + spec_create_path_expr(file@, actual_path@) + " { /* ... */ };\n"@);
            assert(m =~= "- Because "@ + spec_relative_dir_for_package(package_name@) + " exists, the attribute `pkgs."@ + package_name@ + ("` must be defined like\n\n    "@ + package_name@ + " = callPackage "@ + spec_create_path_expr(file@, expected_path@) + " { /* ... */ };\n\n  However, in this PR, the first `callPackage` argument is the wrong path. See the definition in "@ + file@ + ":"@ + decimal(line as nat) + ":\n\n    "@ + package_name@ + " = callPackage "@ + spec_create_path_expr(file@, actual_path@) + " { /* ... */ };\n"@));
            suffix_of_concat("- Because "@ + spec_relative_dir_for_package(package_name@) + " exists, the attribute `pkgs."@ + package_name@, "` must be defined like\n\n    "@ + package_name@ + " = callPackage "@ + spec_create_path_expr(file@, expected_path@) + " { /* ... */ };\n\n  However, in this PR, the first `callPackage` argument is the wrong path. See the definition in "@ + file@ + ":"@ + decimal(line as nat) + ":\n\n    "@ + package_name@ + " = callPackage "@ + spec_create_path_expr(file@, actual_path@) + " { /* ... */ };\n"@);
            assert(m =~= "- Because "@ + spec_relative_dir_for_package(package_name@) + " exists, the attribute `pkgs."@ + package_name@ + ("` must be defined like\n\n    "@ + package_name@ + " = callPackage "@ + spec_create_path_expr(file@, expected_path@) + " { /* ... */ };\n\n  However, in this PR, the first `callPackage` argument is the wrong path. See the definition in "@ + file@ + ":"@ + decimal(line as nat) + ":\n\n    "@ + package_name@ + " = callPackage "@ + spec_create_path_expr(file@, actual_path@) + " { /* ... */ };\n"@));
        },
        _ => {},
    }
}

/// What ends with `a + x` ends with `x`.
proof fn suffix_of_suffix(m: Seq<char>, a: Seq<char>, x: Seq<char>)
    requires
        has_suffix(m, a + x),
    ensures
        has_suffix(m, x),
{
    let t = m.skip(m.len() - (a + x).len());
    assert(t == a + x);
    assert(m.skip(m.len() - x.len()) =~= t.skip(a.len() as int));
    assert(t.skip(a.len() as int) =~= x);
}

/// Whether `m` ends with a blank line and then an excerpt that holds the code
/// `code` (all of it, in order, whitespace aside) on a line of its own.
pub open spec fn ends_with_excerpt_of(m: Seq<char>, code: Seq<char>) -> bool {
    exists|excerpt: Seq<char>|
        #![trigger non_white_space(excerpt)]
        has_suffix(m, "\n\n"@ + excerpt + "\n"@) && non_white_space(excerpt) == non_white_space(
            code,
        )
}

/// A message that ends with some text, a blank line, an excerpt of the code and
/// a line feed ends with an excerpt of that code.
proof fn excerpt_at_end(m: Seq<char>, front: Seq<char>, excerpt: Seq<char>, code: Seq<char>)
    requires
        has_suffix(m, front + "\n\n"@ + excerpt + "\n"@),
        non_white_space(excerpt) == non_white_space(code),
    ensures
        ends_with_excerpt_of(m, code),
{
    assert(front + "\n\n"@ + excerpt + "\n"@ =~= front + ("\n\n"@ + excerpt + "\n"@));
    suffix_of_suffix(m, front, "\n\n"@ + excerpt + "\n"@);
}

/// A message about a `callPackage` definition ends with the definition quoted
/// whole: every character of its code other than whitespace is there, in
/// order, after a blank line.
pub proof fn call_package_message_quotes_whole_definition(problem: NixpkgsProblem)
    ensures
        (match problem {
            NixpkgsProblem::EmptyArgument { definition, .. } => ends_with_excerpt_of(
                problem.spec_message(),
                definition@,
            ),
            NixpkgsProblem::NonToplevelCallPackage { definition, .. } => ends_with_excerpt_of(
                problem.spec_message(),
                definition@,
            ),
            NixpkgsProblem::NonPath { definition, .. } => ends_with_excerpt_of(
                problem.spec_message(),
                definition@,
            ),
            NixpkgsProblem::NonSyntacticCallPackage { definition, .. } => ends_with_excerpt_of(
                problem.spec_message(),
                definition@,
            ),
            _ => true,
        }),
{
    message_locates_call_package_definition(problem);
    let m = problem.spec_message();
    match problem {
        NixpkgsProblem::EmptyArgument { file, line, column, definition, .. } => {
            definition_excerpt_keeps_code(column as nat, definition@);
            excerpt_at_end(
                m,
                "the second argument is empty."@ + " See the definition in "@ + file@ + ":"@
                    + decimal(line as nat) + ":"@,
                spec_indent_definition(column as nat, definition@),
                definition@,
            );
        },
        NixpkgsProblem::NonToplevelCallPackage { file, line, column, definition, .. } => {
            definition_excerpt_keeps_code(column as nat, definition@);
            excerpt_at_end(
                m,
                "a different `callPackage` is used."@ + " See the definition in "@ + file@ + ":"@
                    + decimal(line as nat) + ":"@,
                spec_indent_definition(column as nat, definition@),
                definition@,
            );
        },
        NixpkgsProblem::NonPath { file, line, column, definition, .. } => {
            definition_excerpt_keeps_code(column as nat, definition@);
            excerpt_at_end(
                m,
                "the first `callPackage` argument is not a path."@ + " See the definition in "@
                    + file@ + ":"@ + decimal(line as nat) + ":"@,
                spec_indent_definition(column as nat, definition@),
                definition@,
            );
        },
        NixpkgsProblem::NonSyntacticCallPackage { file, line, column, definition, .. } => {
            definition_excerpt_keeps_code(column as nat, definition@);
            excerpt_at_end(
                m,
                "it isn't defined that way."@ + " See the definition in "@ + file@ + ":"@
                    + decimal(line as nat),
                spec_indent_definition(column as nat, definition@),
                definition@,
            );
        },
        _ => {},
    }
}

/// A message about a file names the package's directory, the file and the
/// line where the problem is, the expression found there and the error met.
pub proof fn message_names_file_and_place(problem: NixpkgsProblem)
    ensures
        (match problem {
            NixpkgsProblem::NonDerivation { relative_package_file, package_name, .. } => has_prefix(problem.spec_message(), "pkgs."@ + package_name@ + ": This attribute defined by "@ + relative_package_file@) && has_suffix(problem.spec_message(), " is not a derivation"@),
            NixpkgsProblem::UndefinedAttr { relative_package_file, package_name, .. } => has_prefix(problem.spec_message(), "pkgs."@ + package_name@) && has_suffix(problem.spec_message(), ": This attribute is not defined but it should be defined automatically as "@ + relative_package_file@),
            NixpkgsProblem::OutsideSymlink { relative_package_dir, subpath, .. } => has_prefix(problem.spec_message(), relative_package_dir@ + ": Path "@ + subpath@) && has_suffix(problem.spec_message(), " is a symlink pointing to a path outside the directory of that package."@),
            NixpkgsProblem::UnresolvableSymlink { relative_package_dir, subpath, io_error, .. } => has_prefix(problem.spec_message(), relative_package_dir@ + ": Path "@ + subpath@) && has_suffix(problem.spec_message(), " is a symlink which cannot be resolved: "@ + io_error@ + "."@),
            NixpkgsProblem::PathInterpolation { relative_package_dir, subpath, line, text, .. } => has_prefix(problem.spec_message(), relative_package_dir@ + ": File "@ + subpath@ + " at line "@ + decimal(line as nat) + " contains the path expression \""@) && has_suffix(problem.spec_message(), text@ + "\", which is not yet supported and may point outside the directory of that package."@),
            NixpkgsProblem::SearchPath { relative_package_dir, subpath, line, text, .. } => has_prefix(problem.spec_message(), relative_package_dir@ + ": File "@ + subpath@ + " at line "@ + decimal(line as nat) + " contains the nix search path expression \""@) && has_suffix(problem.spec_message(), text@ + "\" which may point outside the directory of that package."@),
            NixpkgsProblem::OutsidePathReference { relative_package_dir, subpath, line, text, .. } => has_prefix(problem.spec_message(), relative_package_dir@ + ": File "@ + subpath@ + " at line "@ + decimal(line as nat) + " contains the path expression \""@) && has_suffix(problem.spec_message(), text@ + "\" which may point outside the directory of that package."@),
            NixpkgsProblem::UnresolvablePathReference { relative_package_dir, subpath, line, text, io_error, .. } => has_prefix(problem.spec_message(), relative_package_dir@ + ": File "@ + subpath@ + " at line "@ + decimal(line as nat) + " contains the path expression \""@) && has_suffix(problem.spec_message(), text@ + "\" which cannot be resolved: "@ + io_error@ + "."@),
            _ => true,
        }),
{
    reveal_strlit("");
    let m = problem.spec_message();
    match problem {
        NixpkgsProblem::NonDerivation { relative_package_file, package_name, .. } => {
            prefix_of_concat("pkgs."@ + package_name@ + ": This attribute defined by "@ + relative_package_file@, " is not a derivation"@);
            assert(m =~= "pkgs."@ + package_name@ + ": This attribute defined by "@ + relative_package_file@ + (" is not a derivation"@));
            suffix_of_concat("pkgs."@ + package_name@ + ": This attribute defined by "@ + relative_package_file@, " is not a derivation"@);
            assert(m =~= "pkgs."@ + package_name@ + ": This attribute defined by "@ + relative_package_file@ + (" is not a derivation"@));
        },
        NixpkgsProblem::UndefinedAttr { relative_package_file, package_name, .. } => {
            prefix_of_concat("pkgs."@ + package_name@, ": This attribute is not defined but it should be defined automatically as "@ + relative_package_file@);
            assert(m =~= "pkgs."@ + package_name@ + (": This attribute is not defined but it should be defined automatically as "@ + relative_package_file@));
            suffix_of_concat("pkgs."@ + package_name@, ": This attribute is not defined but it should be defined automatically as "@ + relative_package_file@);
            assert(m =~= "pkgs."@ + package_name@ + (": This attribute is not defined but it should be defined automatically as "@ + relative_package_file@));
        },
        NixpkgsProblem::OutsideSymlink { relative_package_dir, subpath, .. } => {
            prefix_of_concat(relative_package_dir@ + ": Path "@ + subpath@, " is a symlink pointing to a path outside the directory of that package."@);
            assert(m =~= relative_package_dir@ + ": Path "@ + subpath@ + (" is a symlink pointing to a path outside the directory of that package."@));
            suffix_of_concat(relative_package_dir@ + ": Path "@ + subpath@, " is a symlink pointing to a path outside the directory of that package."@);
            assert(m =~= relative_package_dir@ + ": Path "@ + subpath@ + (" is a symlink pointing to a path outside the directory of that package."@));
        },
        NixpkgsProblem::UnresolvableSymlink { relative_package_dir, subpath, io_error, .. } => {
            prefix_of_concat(relative_package_dir@ + ": Path "@ + subpath@, " is a symlink which cannot be resolved: "@ + io_error@ + "."@);
            assert(m =~= relative_package_dir@ + ": Path "@ + subpath@ + (" is a symlink which cannot be resolved: "@ + io_error@ + "."@));
            suffix_of_concat(relative_package_dir@ + ": Path "@ + subpath@, " is a symlink which cannot be resolved: "@ + io_error@ + "."@);
            assert(m =~= relative_package_dir@ + ": Path "@ + subpath@ + (" is a symlink which cannot be resolved: "@ + io_error@ + "."@));
        },
        NixpkgsProblem::PathInterpolation { relative_package_dir, subpath, line, text, .. } => {
            prefix_of_concat(relative_package_dir@ + ": File "@ + subpath@ + " at line "@ + decimal(line as nat) + " contains the path expression \""@, text@ + "\", which is not yet supported and may point outside the directory of that package."@);
            assert(m =~= relative_package_dir@ + ": File "@ + subpath@ + " at line "@ + decimal(line as nat) + " contains the path expression \""@ + (text@ + "\", which is not yet supported and may point outside the directory of that package."@));
            suffix_of_concat(relative_package_dir@ + ": File "@ + subpath@ + " at line "@ + decimal(line as nat) + " contains the path expression \""@, text@ + "\", which is not yet supported and may point outside the directory of that package."@);
            assert(m =~= relative_package_dir@ + ": File "@ + subpath@ + " at line "@ + decimal(line as nat) + " contains the path expression \""@ + (text@ + "\", which is not yet supported and may point outside the directory of that package."@));
        },
        NixpkgsProblem::SearchPath { relative_package_dir, subpath, line, text, .. } => {
            prefix_of_concat(relative_package_dir@ + ": File "@ + subpath@ + " at line "@ + decimal(line as nat) + " contains the nix search path expression \""@, text@ + "\" which may point outside the directory of that package."@);
            assert(m =~= relative_package_dir@ + ": File "@ + subpath@ + " at line "@ + decimal(line as nat) + " contains the nix search path expression \""@ + (text@ + "\" which may point outside the directory of that package."@));
            suffix_of_concat(relative_package_dir@ + ": File "@ + subpath@ + " at line "@ + decimal(line as nat) + " contains the nix search path expression \""@, text@ + "\" which may point outside the directory of that package."@);
            assert(m =~= relative_package_dir@ + ": File "@ + subpath@ + " at line "@ + decimal(line as nat) + " contains the nix search path expression \""@ + (text@ + "\" which may point outside the directory of that package."@));
        },
        NixpkgsProblem::OutsidePathReference { relative_package_dir, subpath, line, text, .. } => {
            prefix_of_concat(relative_package_dir@ + ": File "@ + subpath@ + " at line "@ + decimal(line as nat) + " contains the path expression \""@, text@ + "\" which may point outside the directory of that package."@);
            assert(m =~= relative_package_dir@ + ": File "@ + subpath@ + " at line "@ + decimal(line as nat) + " contains the path expression \""@ + (text@ + "\" which may point outside the directory of that package."@));
            suffix_of_concat(relative_package_dir@ + ": File "@ + subpath@ + " at line "@ + decimal(line as nat) + " contains the path expression \""@, text@ + "\" which may point outside the directory of that package."@);
            assert(m =~= relative_package_dir@ + ": File "@ + subpath@ + " at line "@ + decimal(line as nat) + " contains the path expression \""@ + (text@ + "\" which may point outside the directory of that package."@));
        },
        NixpkgsProblem::UnresolvablePathReference { relative_package_dir, subpath, line, text, io_error, .. } => {
            prefix_of_concat(relative_package_dir@ + ": File "@ + subpath@ + " at line "@ + decimal(line as nat) + " contains the path expression \""@, text@ + "\" which cannot be resolved: "@ + io_error@ + "."@);
            assert(m =~= relative_package_dir@ + ": File "@ + subpath@ + " at line "@ + decimal(line as nat) + " contains the path expression \""@ + (text@ + "\" which cannot be resolved: "@ + io_error@ + "."@));
            suffix_of_concat(relative_package_dir@ + ": File "@ + subpath@ + " at line "@ + decimal(line as nat) + " contains the path expression \""@, text@ + "\" which cannot be resolved: "@ + io_error@ + "."@);
            assert(m =~= relative_package_dir@ + ": File "@ + subpath@ + " at line "@ + decimal(line as nat) + " contains the path expression \""@ + (text@ + "\" which cannot be resolved: "@ + io_error@ + "."@));
        },
        _ => {},
    }
}

/// A message about a package outside `pkgs/by-name` names the attribute, the
/// file that it belongs in, the first argument of the manual `callPackage`
/// (`./` and its path where it is known, `...` otherwise) and the file that
/// holds it.
pub proof fn message_names_call_package_argument(problem: NixpkgsProblem)
    ensures
        (match problem {
            NixpkgsProblem::MovedOutOfByNameEmptyArg { package_name, call_package_path, file, .. } => has_prefix(problem.spec_message(), "- Attribute `pkgs."@ + package_name@ + "` was previously defined in "@ + spec_relative_file_for_package(package_name@) + ", but is now manually defined as `callPackage "@ + (match call_package_path { Some(p) => "./"@ + p@, None => "..."@ })) && has_suffix(problem.spec_message(), "` in "@ + file@ + ".\n  "@ + "Please move the package back and remove the manual `callPackage`."@ + "\n"@),
            NixpkgsProblem::MovedOutOfByNameNonEmptyArg { package_name, call_package_path, file, .. } => has_prefix(problem.spec_message(), "- Attribute `pkgs."@ + package_name@ + "` was previously defined in "@ + spec_relative_file_for_package(package_name@) + ", but is now manually defined as `callPackage "@ + (match call_package_path { Some(p) => "./"@ + p@, None => "..."@ })) && has_suffix(problem.spec_message(), "` in "@ + file@ + ".\n  "@ + "While the manual `callPackage` is still needed, it's not necessary to move the package files."@ + "\n"@),
            NixpkgsProblem::NewPackageNotUsingByNameEmptyArg { package_name, call_package_path, file, .. } => has_prefix(problem.spec_message(), "- Attribute `pkgs."@ + package_name@ + "` is a new top-level package using `pkgs.callPackage "@ + (match call_package_path { Some(p) => "./"@ + p@, None => "..."@ }) + " { /* ... */ }`.\n  Please define it in "@ + spec_relative_file_for_package(package_name@)) && has_suffix(problem.spec_message(), "`{ }`, no manual `callPackage` in "@ + file@ + " is needed anymore."@ + "\n"@),
            NixpkgsProblem::NewPackageNotUsingByNameNonEmptyArg { package_name, call_package_path, file, .. } => has_prefix(problem.spec_message(), "- Attribute `pkgs."@ + package_name@ + "` is a new top-level package using `pkgs.callPackage "@ + (match call_package_path { Some(p) => "./"@ + p@, None => "..."@ }) + " { /* ... */ }`.\n  Please define it in "@ + spec_relative_file_for_package(package_name@)) && has_suffix(problem.spec_message(), "not `{ }`, the manual `callPackage` in "@ + file@ + " is still needed."@ + "\n"@),
            NixpkgsProblem::InternalCallPackageUsed { attr_name, .. } => has_prefix(problem.spec_message(), "pkgs."@ + attr_name@) && has_suffix(problem.spec_message(), ": This attribute is defined using `_internalCallByNamePackageFile`, which is an internal function not intended for manual use."@),
            NixpkgsProblem::CannotDetermineAttributeLocation { attr_name, .. } => has_prefix(problem.spec_message(), "pkgs."@ + attr_name@) && has_suffix(problem.spec_message(), ": Cannot determine the location of this attribute using `builtins.unsafeGetAttrPos`."@),
            _ => true,
        }),
{
    reveal_strlit("");
    let m = problem.spec_message();
    match problem {
        NixpkgsProblem::MovedOutOfByNameEmptyArg { package_name, call_package_path, file, .. } => {
            prefix_of_concat("- Attribute `pkgs."@ + package_name@ + "` was previously defined in "@ + spec_relative_file_for_package(package_name@) + ", but is now manually defined as `callPackage "@ + (match call_package_path { Some(p) => "./"@ + p@, None => "..."@ }), " "@ + "{ /* ... */ }"@ + "` in "@ + file@ + ".\n  "@ + "Please move the package back and remove the manual `callPackage`."@ + "\n"@);
            assert(m =~= "- Attribute `pkgs."@ + package_name@ + "` was previously defined in "@ + spec_relative_file_for_package(package_name@) + ", but is now manually defined as `callPackage "@ + (match call_package_path { Some(p) => "./"@ + p@, None => "..."@ }) + (" "@ + "{ /* ... */ }"@ + "` in "@ + file@ + ".\n  "@ + "Please move the package back and remove the manual `callPackage`."@ + "\n"@));
            suffix_of_concat("- Attribute `pkgs."@ + package_name@ + "` was previously defined in "@ + spec_relative_file_for_package(package_name@) + ", but is now manually defined as `callPackage "@ + (match call_package_path { Some(p) => "./"@ + p@, None => "..."@ }) + " "@ + "{ /* ... */ }"@, "` in "@ + file@ + ".\n  "@ + "Please move the package back and remove the manual `callPackage`."@ + "\n"@);
            assert(m =~= "- Attribute `pkgs."@ + package_name@ + "` was previously defined in "@ + spec_relative_file_for_package(package_name@) + ", but is now manually defined as `callPackage "@ + (match call_package_path { Some(p) => "./"@ + p@, None => "..."@ }) + " "@ + "{ /* ... */ }"@ + ("` in "@ + file@ + ".\n  "@ + "Please move the package back and remove the manual `callPackage`."@ + "\n"@));
        },
        NixpkgsProblem::MovedOutOfByNameNonEmptyArg { package_name, call_package_path, file, .. } => {
            prefix_of_concat("- Attribute `pkgs."@ + package_name@ + "` was previously defined in "@ + spec_relative_file_for_package(package_name@) + ", but is now manually defined as `callPackage "@ + (match call_package_path { Some(p) => "./"@ + p@, None => "..."@ }), " "@ + "{ ... }"@ + "` in "@ + file@ + ".\n  "@ + "While the manual `callPackage` is still needed, it's not necessary to move the package files."@ + "\n"@);
            assert(m =~= "- Attribute `pkgs."@ + package_name@ + "` was previously defined in "@ + spec_relative_file_for_package(package_name@) + ", but is now manually defined as `callPackage "@ + (match call_package_path { Some(p) => "./"@ + p@, None => "..."@ }) + (" "@ + "{ ... }"@ + "` in "@ + file@ + ".\n  "@ + "While the manual `callPackage` is still needed, it's not necessary to move the package files."@ + "\n"@));
            suffix_of_concat("- Attribute `pkgs."@ + package_name@ + "` was previously defined in "@ + spec_relative_file_for_package(package_name@) + ", but is now manually defined as `callPackage "@ + (match call_package_path { Some(p) => "./"@ + p@, None => "..."@ }) + " "@ + "{ ... }"@, "` in "@ + file@ + ".\n  "@ + "While the manual `callPackage` is still needed, it's not necessary to move the package files."@ + "\n"@);
            assert(m =~= "- Attribute `pkgs."@ + package_name@ + "` was previously defined in "@ + spec_relative_file_for_package(package_name@) + ", but is now manually defined as `callPackage "@ + (match call_package_path { Some(p) => "./"@ + p@, None => "..."@ }) + " "@ + "{ ... }"@ + ("` in "@ + file@ + ".\n  "@ + "While the manual `callPackage` is still needed, it's not necessary to move the package files."@ + "\n"@));
        },
        NixpkgsProblem::NewPackageNotUsingByNameEmptyArg { package_name, call_package_path, file, .. } => {
            prefix_of_concat("- Attribute `pkgs."@ + package_name@ + "` is a new top-level package using `pkgs.callPackage "@ + (match call_package_path { Some(p) => "./"@ + p@, None => "..."@ }) + " { /* ... */ }`.\n  Please define it in "@ + spec_relative_file_for_package(package_name@), " instead.\n  See `pkgs/by-name/README.md` for more details.\n  Since the second `callPackage` argument is "@ + "`{ }`, no manual `callPackage` in "@ + file@ + " is needed anymore."@ + "\n"@);
            assert(m =~= "- Attribute `pkgs."@ + package_name@ + "` is a new top-level package using `pkgs.callPackage "@ + (match call_package_path { Some(p) => "./"@ + p@, None => "..."@ }) + " { /* ... */ }`.\n  Please define it in "@ + spec_relative_file_for_package(package_name@) + (" instead.\n  See `pkgs/by-name/README.md` for more details.\n  Since the second `callPackage` argument is "@ + "`{ }`, no manual `callPackage` in "@ + file@ + " is needed anymore."@ + "\n"@));
            suffix_of_concat("- Attribute `pkgs."@ + package_name@ + "` is a new top-level package using `pkgs.callPackage "@ + (match call_package_path { Some(p) => "./"@ + p@, None => "..."@ }) + " { /* ... */ }`.\n  Please define it in "@ + spec_relative_file_for_package(package_name@) + " instead.\n  See `pkgs/by-name/README.md` for more details.\n  Since the second `callPackage` argument is "@, "`{ }`, no manual `callPackage` in "@ + file@ + " is needed anymore."@ + "\n"@);
            assert(m =~= "- Attribute `pkgs."@ + package_name@ + "` is a new top-level package using `pkgs.callPackage "@ + (match call_package_path { Some(p) => "./"@ + p@, None => "..."@ }) + " { /* ... */ }`.\n  Please define it in "@ + spec_relative_file_for_package(package_name@) + " instead.\n  See `pkgs/by-name/README.md` for more details.\n  Since the second `callPackage` argument is "@ + ("`{ }`, no manual `callPackage` in "@ + file@ + " is needed anymore."@ + "\n"@));
        },
        NixpkgsProblem::NewPackageNotUsingByNameNonEmptyArg { package_name, call_package_path, file, .. } => {
            prefix_of_concat("- Attribute `pkgs."@ + package_name@ + "` is a new top-level package using `pkgs.callPackage "@ + (match call_package_path { Some(p) => "./"@ + p@, None => "..."@ }) + " { /* ... */ }`.\n  Please define it in "@ + spec_relative_file_for_package(package_name@), " instead.\n  See `pkgs/by-name/README.md` for more details.\n  Since the second `callPackage` argument is "@ + "not `{ }`, the manual `callPackage` in "@ + file@ + " is still needed."@ + "\n"@);
            assert(m =~= "- Attribute `pkgs."@ + package_name@ + "` is a new top-level package using `pkgs.callPackage "@ + (match call_package_path { Some(p) => "./"@ + p@, None => "..."@ }) + " { /* ... */ }`.\n  Please define it in "@ + spec_relative_file_for_package(package_name@) + (" instead.\n  See `pkgs/by-name/README.md` for more details.\n  Since the second `callPackage` argument is "@ + "not `{ }`, the manual `callPackage` in "@ + file@ + " is still needed."@ + "\n"@));
            suffix_of_concat("- Attribute `pkgs."@ + package_name@ + "` is a new top-level package using `pkgs.callPackage "@ + (match call_package_path { Some(p) => "./"@ + p@, None => "..."@ }) + " { /* ... */ }`.\n  Please define it in "@ + spec_relative_file_for_package(package_name@) + " instead.\n  See `pkgs/by-name/README.md` for more details.\n  Since the second `callPackage` argument is "@, "not `{ }`, the manual `callPackage` in "@ + file@ + " is still needed."@ + "\n"@);
            assert(m =~= "- Attribute `pkgs."@ + package_name@ + "` is a new top-level package using `pkgs.callPackage "@ + (match call_package_path { Some(p) => "./"@ + p@, None => "..."@ }) + " { /* ... */ }`.\n  Please define it in "@ + spec_relative_file_for_package(package_name@) + " instead.\n  See `pkgs/by-name/README.md` for more details.\n  Since the second `callPackage` argument is "@ + ("not `{ }`, the manual `callPackage` in "@ + file@ + " is still needed."@ + "\n"@));
        },
        NixpkgsProblem::InternalCallPackageUsed { attr_name, .. } => {
            prefix_of_concat("pkgs."@ + attr_name@, ": This attribute is defined using `_internalCallByNamePackageFile`, which is an internal function not intended for manual use."@);
            assert(m =~= "pkgs."@ + attr_name@ + (": This attribute is defined using `_internalCallByNamePackageFile`, which is an internal function not intended for manual use."@));
            suffix_of_concat("pkgs."@ + attr_name@, ": This attribute is defined using `_internalCallByNamePackageFile`, which is an internal function not intended for manual use."@);
            assert(m =~= "pkgs."@ + attr_name@ + (": This attribute is defined using `_internalCallByNamePackageFile`, which is an internal function not intended for manual use."@));
        },
        NixpkgsProblem::CannotDetermineAttributeLocation { attr_name, .. } => {
            prefix_of_concat("pkgs."@ + attr_name@, ": Cannot determine the location of this attribute using `builtins.unsafeGetAttrPos`."@);
            assert(m =~= "pkgs."@ + attr_name@ + (": Cannot determine the location of this attribute using `builtins.unsafeGetAttrPos`."@));
            suffix_of_concat("pkgs."@ + attr_name@, ": Cannot determine the location of this attribute using `builtins.unsafeGetAttrPos`."@);
            assert(m =~= "pkgs."@ + attr_name@ + (": Cannot determine the location of this attribute using `builtins.unsafeGetAttrPos`."@));
        },
        _ => {},
    }
}
} // verus!
