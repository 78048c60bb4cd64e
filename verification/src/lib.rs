//! Problems found while checking the `pkgs/by-name` structure of Nixpkgs,
//! and the human-readable messages that describe them.

pub mod number;
pub mod structure;
pub mod text;
pub mod dedent;
pub mod path_components;
pub mod nix_path;
pub mod problem;
