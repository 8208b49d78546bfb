//! How the program under test is started.

use std::borrow::Cow;
use std::collections::BTreeMap;
use std::marker::PhantomData;
use std::path::PathBuf;
use vstd::prelude::*;

verus! {

/// `std::path::PathBuf`, of which no value is ever made here.
#[verifier::external_type_specification]
#[verifier::external_body]
pub struct ExPathBuf(std::path::PathBuf);

/// A program and the arguments that it is started with.
#[derive(Debug, PartialEq, Eq)]
pub struct Shell<'a> {
    pub program: Cow<'a, str>,
    pub args: Vec<String>,
}

impl<'a> Shell<'a> {
    /// The program without arguments.
    pub fn new(program: Cow<'a, str>) -> (shell: Shell<'a>)
        ensures
            shell.program == program,
            shell.args@ == Seq::<String>::empty(),
    {
        Shell { program, args: Vec::new() }
    }

    /// The program with the given arguments.
    pub fn new_with_args(program: Cow<'a, str>, args: Vec<String>) -> (shell: Shell<'a>)
        ensures
            shell == (Shell { program, args }),
    {
        Shell { program, args }
    }
}

/// The settings that a terminal is opened with.
pub struct Config<C> {
    pub c: PhantomData<C>,
    /// The program to start; the user's shell if there is none.
    pub shell: Option<Shell<'static>>,
    /// Variables to add to the program's environment.
    pub env: BTreeMap<String, String>,
}

impl<C> Config<C> {
    /// The directory to start the program in: always the one that the test
    /// runs in.
    pub fn working_directory(&self) -> (dir: Option<PathBuf>)
        ensures
            dir is None,
    {
        None
    }
}

impl Config<()> {
    /// Settings that name no program and add nothing to the environment.
    pub fn new() -> (config: Self)
        ensures
            config.shell is None,
            config.env@ == Map::<String, String>::empty(),
    {
        Self { c: PhantomData, shell: None, env: BTreeMap::new() }
    }

    /// The same settings with `shell` as the program to start.
    pub fn set_shell(self, shell: Shell<'static>) -> (config: Self)
        ensures
            config.shell == Some(shell),
            config.env == self.env,
    {
        Self { shell: Some(shell), ..self }
    }

    /// The settings to start `program` with the arguments `args`.
    pub fn for_program(program: Cow<'static, str>, args: Vec<String>) -> (config: Self)
        ensures
            config.shell == Some(Shell { program, args }),
            config.env@ == Map::<String, String>::empty(),
    {
        Config::new().set_shell(Shell::new_with_args(program, args))
    }
}

} // verus!
