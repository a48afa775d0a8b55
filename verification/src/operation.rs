//! The Nix tools that can be run, and the arguments that select what they do.
use vstd::prelude::*;

use crate::command::{Command, CommandView};

verus! {

/// What to do with a package set.
#[derive(Debug)]
pub enum Operation {
    /// Evaluate an expression, and print its value as JSON.
    Evaluate,
    /// Instantiate derivations.
    Instantiate,
    /// Build derivations.
    Build,
    /// List the packages as JSON.
    QueryPackagesJSON,
    /// List the attribute paths and output paths of the packages.
    QueryPackagesOutputs,
    /// Print the arguments that `operation` would get.
    NoOp {
        /// The operation that is not performed.
        operation: Box<Operation>,
    },
    /// Run some other program.
    Unknown {
        /// The program.
        program: String,
    },
}

impl Clone for Operation {
    fn clone(&self) -> (res: Operation)
        ensures
            res == *self,
        decreases self,
    {
        match self {
            Operation::Evaluate => Operation::Evaluate,
            Operation::Instantiate => Operation::Instantiate,
            Operation::Build => Operation::Build,
            Operation::QueryPackagesJSON => Operation::QueryPackagesJSON,
            Operation::QueryPackagesOutputs => Operation::QueryPackagesOutputs,
            Operation::NoOp { operation } => Operation::NoOp {
                operation: Box::new((&**operation).clone()),
            },
            Operation::Unknown { program } => Operation::Unknown { program: program.clone() },
        }
    }
}

impl Operation {
    /// The program that performs the operation.
    pub open spec fn program(self) -> Seq<char> {
        match self {
            Operation::Evaluate => "nix-instantiate"@,
            Operation::Instantiate => "nix-instantiate"@,
            Operation::Build => "nix-build"@,
            Operation::QueryPackagesJSON => "nix-env"@,
            Operation::QueryPackagesOutputs => "nix-env"@,
            Operation::NoOp { operation } => "echo"@,
            Operation::Unknown { program } => program@,
        }
    }

    /// The arguments that select the operation.
    pub open spec fn selection(self) -> Seq<Seq<char>>
        decreases self,
    {
        match self {
            Operation::Build => seq!["--no-out-link"@, "--keep-going"@],
            Operation::QueryPackagesJSON => seq!["--query"@, "--available"@, "--json"@],
            Operation::QueryPackagesOutputs => seq![
                "--query"@,
                "--available"@,
                "--no-name"@,
                "--attr-path"@,
                "--out-path"@,
            ],
            Operation::NoOp { operation } => operation.selection(),
            Operation::Evaluate => seq!["--eval"@, "--strict"@, "--json"@],
            Operation::Instantiate => Seq::empty(),
            Operation::Unknown { program } => Seq::empty(),
        }
    }

    /// The operation as a person reads it.
    pub open spec fn label(self) -> Seq<char>
        decreases self,
    {
        match self {
            Operation::Build => "nix-build"@,
            Operation::Instantiate => "nix-instantiate"@,
            Operation::QueryPackagesJSON => "nix-env -qa --json"@,
            Operation::QueryPackagesOutputs => "nix-env -qaP --no-name --out-path"@,
            Operation::NoOp { operation } => operation.label(),
            Operation::Unknown { program } => program@,
            Operation::Evaluate => "nix-instantiate --strict --json ..."@,
        }
    }

    /// The bare command of the operation: its program, without arguments.
    pub fn command(&self) -> (res: Command)
        ensures
            res@ == CommandView::of_program(self.program()),
    {
        match self {
            Operation::Evaluate => Command::new("nix-instantiate"),
            Operation::Instantiate => Command::new("nix-instantiate"),
            Operation::Build => Command::new("nix-build"),
            Operation::QueryPackagesJSON => Command::new("nix-env"),
            Operation::QueryPackagesOutputs => Command::new("nix-env"),
            Operation::NoOp { operation: _ } => Command::new("echo"),
            Operation::Unknown { program } => Command::new(program.as_str()),
        }
    }

    /// Puts the arguments that select the operation behind those of `command`.
    pub fn args(&self, command: &mut Command)
        ensures
            final(command)@ == old(command)@.with_args(self.selection()),
        decreases self,
    {
        match self {
            Operation::Build => {
                command.args(&["--no-out-link", "--keep-going"]);
            },
            Operation::QueryPackagesJSON => {
                command.args(&["--query", "--available", "--json"]);
            },
            Operation::QueryPackagesOutputs => {
                command.args(
                    &["--query", "--available", "--no-name", "--attr-path", "--out-path"],
                );
            },
            Operation::NoOp { operation } => {
                operation.args(command);
            },
            Operation::Evaluate => {
                command.args(&["--eval", "--strict", "--json"]);
            },
            _ => (),
        }
        assert(command@ =~= old(command)@.with_args(self.selection()));
    }

    /// The operation as a person reads it.
    pub fn to_string(&self) -> (res: String)
        ensures
            res@ == self.label(),
        decreases self,
    {
        match self {
            Operation::Build => "nix-build".to_owned(),
            Operation::Instantiate => "nix-instantiate".to_owned(),
            Operation::QueryPackagesJSON => "nix-env -qa --json".to_owned(),
            Operation::QueryPackagesOutputs => "nix-env -qaP --no-name --out-path".to_owned(),
            Operation::NoOp { operation } => operation.to_string(),
            Operation::Unknown { program } => program.clone(),
            Operation::Evaluate => "nix-instantiate --strict --json ...".to_owned(),
        }
    }
}

} // verus!
