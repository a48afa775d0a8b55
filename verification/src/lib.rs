//! Builds the command lines that run Nix tools on untrusted package sets in
//! restricted mode, and reads back what those tools print.
pub mod call_laws;
pub mod command;
pub mod command_laws;
pub mod log_laws;
pub mod machine;
pub mod machine_laws;
pub mod nix;
pub mod nix_laws;
pub mod operation;
pub mod output;
pub mod path;
pub mod run_laws;
pub mod text;
pub mod text_laws;
