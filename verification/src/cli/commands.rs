//! A command given on the command line, checked against the commands the
//! client knows.

use vstd::prelude::*;

verus! {

/// The commands this check recognises.
pub open spec fn available_command(s: Seq<char>) -> bool {
    s == "GET-SAG"@ || s == "GET-CERTIFICATES"@
}

/// Whether some option names an available command.
pub open spec fn names_available_command(options: Seq<String>) -> bool {
    exists|i: int| 0 <= i < options.len() && available_command(#[trigger] options[i]@)
}

/// A command given on the command line, with its options.
#[derive(Debug, Clone)]
pub struct Command {
    pub options: Vec<String>,
}

impl Command {
    /// A command without options.
    pub fn new() -> (c: Command)
        ensures
            c.options@.len() == 0,
    {
        Command { options: Vec::new() }
    }

    /// A command with one option.
    pub fn from_option(value: String) -> (c: Command)
        ensures
            c.options@.len() == 1,
            c.options@[0] == value,
    {
        let mut options: Vec<String> = Vec::new();
        options.push(value);
        Command { options }
    }

    /// Runs the command: it succeeds exactly when one of its options names an
    /// available command.
    pub fn run(&self) -> (r: bool)
        ensures
            r == names_available_command(self.options@),
    {
        let mut i: usize = 0;
        while i < self.options.len()
            invariant
                i <= self.options.len(),
                forall|j: int| 0 <= j < i ==> !available_command(#[trigger] self.options@[j]@),
            decreases self.options.len() - i,
        {
            if is_available(&self.options[i]) {
                return true;
            }
            i = i + 1;
        }
        false
    }
}

fn is_available(s: &String) -> (r: bool)
    ensures
        r == available_command(s@),
{
    let a = String::from_str("GET-SAG");
    let b = String::from_str("GET-CERTIFICATES");
    *s == a || *s == b
}

} // verus!
