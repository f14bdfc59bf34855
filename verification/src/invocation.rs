//! How Taskwarrior is started: the program, and the options that precede
//! every argument vector.

use crate::compile::attribute;
use crate::text::joined;
use vstd::prelude::*;
use vstd::string::*;

verus! {

/// The name of the program.
pub const PROGRAM: &'static str = "task";

/// The options that precede every argument vector.
#[derive(Debug, Clone, PartialEq, Eq)]
pub struct GlobalOptions {
    /// Where the tasks are kept, if not in the place Taskwarrior is
    /// configured for.
    pub data_dir: Option<String>,
}

impl View for GlobalOptions {
    type V = Option<Seq<char>>;

    open spec fn view(&self) -> Option<Seq<char>> {
        self.data_dir.deep_view()
    }
}

/// The tokens of the options: confirmations are switched off, and the data
/// location is set where one is given.
pub open spec fn option_tokens(data_dir: Option<Seq<char>>) -> Seq<Seq<char>> {
    seq!["rc.confirmation=no"@] + attribute("rc.data.location="@, data_dir)
}

impl GlobalOptions {
    /// The options that leave the tasks where Taskwarrior keeps them.
    pub fn new() -> (options: Self)
        ensures
            options@ is None,
    {
        GlobalOptions { data_dir: None }
    }

    /// The options that keep the tasks under `dir`.
    pub fn with_data_dir(dir: &str) -> (options: Self)
        ensures
            options@ == Some(dir@),
    {
        GlobalOptions { data_dir: Some(String::from_str(dir)) }
    }

    /// Everything that follows the program's name on the command line: the
    /// options, then `argv`.
    pub fn command_line(&self, argv: Vec<String>) -> (line: Vec<String>)
        ensures
            line.deep_view() == option_tokens(self@) + argv.deep_view(),
    {
        let mut line: Vec<String> = Vec::new();
        line.push(String::from_str("rc.confirmation=no"));
        match &self.data_dir {
            Some(dir) => line.push(joined("rc.data.location=", dir.as_str())),
            None => {},
        }
        let mut argv = argv;
        line.append(&mut argv);
        line
    }
}

} // verus!
