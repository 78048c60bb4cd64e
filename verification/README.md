# nixpkgs_check_by_name

The problems that checking the `pkgs/by-name` structure of Nixpkgs can find,
and the messages that describe them, with their contracts proved.

- `src/problem.rs`: `NixpkgsProblem` and its message (`to_string`, `try_to_string`),
  specified exactly by `spec_message`; every message begins with its subject.
- `src/structure.rs`: where a package lives in `pkgs/by-name` (shard, directory, file).
- `src/nix_path.rs`: Nix path expressions from one file to another (via `relative-path`);
  never `./` alone, `./.` for the file's own directory.
- `src/text.rs`: re-indenting a definition (via `textwrap`), proved to indent every
  non-blank line by four spaces, and quoting file names.
- `src/number.rs`: decimal rendering of line numbers, proved to read back.
- `app/`: the same problem type with `PathBuf`/`OsString` fields and `Display`.
