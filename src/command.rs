//! A command line handed to the process runner: a program and its arguments.
use vstd::prelude::*;

verus! {

/// A program to run and the arguments to run it with, in order.
#[derive(Debug)]
pub struct Command {
    pub program: String,
    pub args: Vec<String>,
}

/// The characters of a command line.
pub struct CommandLine {
    pub program: Seq<char>,
    pub args: Seq<Seq<char>>,
}

/// The texts of a list of strings.
pub open spec fn texts(v: Seq<String>) -> Seq<Seq<char>> {
    v.map_values(|a: String| a@)
}

impl View for Command {
    type V = CommandLine;

    open spec fn view(&self) -> CommandLine {
        CommandLine { program: self.program@, args: texts(self.args@) }
    }
}

impl Command {
    /// The command that runs `program` with `args`.
    pub fn new(program: &str, args: Vec<String>) -> (r: Command)
        ensures
            r@ == (CommandLine { program: program@, args: texts(args@) }),
    {
        Command { program: String::from_str(program), args }
    }
}

} // verus!
