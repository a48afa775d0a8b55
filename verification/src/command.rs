//! A program to run, with its arguments, environment and working directory.
use vstd::prelude::*;

use crate::path::FsPath;
use crate::text::{texts, words};

verus! {

/// What a [`Command`] says: which program runs, and how.
#[verifier::ext_equal]
pub struct CommandView {
    /// The program.
    pub program: Seq<char>,
    /// The arguments, the program's name not among them.
    pub args: Seq<Seq<char>>,
    /// The environment variables that are set for the program.
    pub vars: Map<Seq<char>, Seq<char>>,
    /// Whether the program also gets the variables of the process that runs it.
    pub inherits_env: bool,
    /// The working directory, where it is not that of the process that runs it.
    pub dir: Option<Seq<u8>>,
}

impl CommandView {
    /// `program` alone: no arguments, in the environment and the directory of
    /// the process that runs it.
    pub open spec fn of_program(program: Seq<char>) -> CommandView {
        CommandView {
            program,
            args: Seq::empty(),
            vars: Map::empty(),
            inherits_env: true,
            dir: None,
        }
    }

    /// With `more` behind the arguments.
    pub open spec fn with_args(self, more: Seq<Seq<char>>) -> CommandView {
        CommandView { args: self.args + more, ..self }
    }
}

/// The variables that a list of settings leaves: of two settings of one name,
/// the later counts.
pub open spec fn settings(list: Seq<(String, String)>) -> Map<Seq<char>, Seq<char>>
    decreases list.len(),
{
    if list.len() == 0 {
        Map::empty()
    } else {
        settings(list.drop_last()).insert(list.last().0@, list.last().1@)
    }
}

/// A program to run, with its arguments, environment and working directory.
#[derive(Debug)]
pub struct Command {
    program: String,
    args: Vec<String>,
    vars: Vec<(String, String)>,
    inherits_env: bool,
    dir: Option<FsPath>,
}

impl View for Command {
    type V = CommandView;

    closed spec fn view(&self) -> CommandView {
        CommandView {
            program: self.program@,
            args: texts(self.args@),
            vars: settings(self.vars@),
            inherits_env: self.inherits_env,
            dir: match self.dir {
                Some(dir) => Some(dir@),
                None => None,
            },
        }
    }
}

impl Command {
    /// A command that runs `program` without arguments, in the environment and
    /// the directory of the process that runs it.
    pub fn new(program: &str) -> (res: Command)
        ensures
            res@ == CommandView::of_program(program@),
    {
        let res = Command {
            program: program.to_owned(),
            args: Vec::new(),
            vars: Vec::new(),
            inherits_env: true,
            dir: None,
        };
        assert(res@ =~= CommandView::of_program(program@));
        res
    }

    /// Puts one argument behind the others.
    pub fn arg(&mut self, arg: String)
        ensures
            final(self)@ == old(self)@.with_args(seq![arg@]),
    {
        self.args.push(arg);
        assert(self@ =~= old(self)@.with_args(seq![arg@]));
    }

    /// Puts arguments behind the others.
    pub fn args(&mut self, list: &[&str])
        ensures
            final(self)@ == old(self)@.with_args(words(list@)),
    {
        let mut i: usize = 0;
        assert(self@ =~= old(self)@.with_args(words(list@).take(0)));
        while i < list.len()
            invariant
                i <= list.len(),
                self@ == old(self)@.with_args(words(list@).take(i as int)),
            decreases list.len() - i,
        {
            self.arg(list[i].to_owned());
            i = i + 1;
            assert(self@ =~= old(self)@.with_args(words(list@).take(i as int)));
        }
        assert(words(list@).take(i as int) =~= words(list@));
    }

    /// Puts arguments behind the others.
    pub fn extend(&mut self, list: Vec<String>)
        ensures
            final(self)@ == old(self)@.with_args(texts(list@)),
    {
        let mut more = list;
        self.args.append(&mut more);
        assert(self@ =~= old(self)@.with_args(texts(list@)));
    }

    /// Sets an environment variable, over any earlier value of it.
    pub fn env(&mut self, name: &str, value: &str)
        ensures
            final(self)@ == (CommandView {
                vars: old(self)@.vars.insert(name@, value@),
                ..old(self)@
            }),
    {
        self.vars.push((name.to_owned(), value.to_owned()));
        assert(self.vars@.drop_last() =~= old(self).vars@);
    }

    /// Leaves the program without environment variables: neither those of the
    /// process that runs it, nor those set so far.
    pub fn env_clear(&mut self)
        ensures
            final(self)@ == (CommandView { vars: Map::empty(), inherits_env: false, ..old(self)@ }),
    {
        self.vars.clear();
        self.inherits_env = false;
    }

    /// Sets the working directory.
    pub fn current_dir(&mut self, dir: &FsPath)
        ensures
            final(self)@ == (CommandView { dir: Some(dir@), ..old(self)@ }),
    {
        self.dir = Some(dir.clone());
    }

    /// The program.
    pub fn get_program(&self) -> (res: &String)
        ensures
            res@ == self@.program,
    {
        &self.program
    }

    /// The arguments.
    pub fn get_args(&self) -> (res: &Vec<String>)
        ensures
            texts(res@) == self@.args,
    {
        &self.args
    }

    /// The settings of environment variables, the earliest first.
    pub fn get_envs(&self) -> (res: &Vec<(String, String)>)
        ensures
            settings(res@) == self@.vars,
    {
        &self.vars
    }

    /// Whether the program also gets the variables of the process that runs it.
    pub fn inherits_env(&self) -> (res: bool)
        ensures
            res == self@.inherits_env,
    {
        self.inherits_env
    }

    /// The working directory, where one is set.
    pub fn get_current_dir(&self) -> (res: Option<&FsPath>)
        ensures
            match res {
                Some(dir) => self@.dir == Some(dir@),
                None => self@.dir is None,
            },
    {
        match &self.dir {
            Some(dir) => Some(dir),
            None => None,
        }
    }
}

} // verus!
