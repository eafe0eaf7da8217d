//! Outside programs: how they are called and what came of a call.

use vstd::prelude::*;

use crate::text::texts;

verus! {

/// A program with its arguments.
#[derive(Debug)]
pub struct CommandLine {
    pub program: String,
    pub args: Vec<String>,
}

/// What `CommandLine` holds.
pub struct CommandLineView {
    pub program: Seq<char>,
    pub args: Seq<Seq<char>>,
}

impl View for CommandLine {
    type V = CommandLineView;

    open spec fn view(&self) -> CommandLineView {
        CommandLineView { program: self.program@, args: texts(self.args@) }
    }
}

/// What came of running a program.
#[derive(Debug)]
pub enum ToolRun {
    /// It could not be run, for the reason given.
    NotStarted(String),
    /// It ran to its end.
    Exited { success: bool, stdout: Vec<u8>, stderr: Vec<u8> },
}

/// What a program wrote to its standard output.
pub open spec fn stdout_of(run: ToolRun) -> Seq<u8> {
    match run {
        ToolRun::NotStarted(_) => Seq::empty(),
        ToolRun::Exited { stdout, .. } => stdout@,
    }
}

/// What a program wrote to its standard error.
pub open spec fn stderr_of(run: ToolRun) -> Seq<u8> {
    match run {
        ToolRun::NotStarted(_) => Seq::empty(),
        ToolRun::Exited { stderr, .. } => stderr@,
    }
}

/// Three texts joined.
pub(crate) fn join3(a: &str, b: &str, c: &str) -> (r: String)
    ensures
        r@ == a@ + b@ + c@,
{
    let mut out = a.to_owned();
    out.append(b);
    out.append(c);
    out
}

/// Two texts joined.
pub(crate) fn join2(a: &str, b: &str) -> (r: String)
    ensures
        r@ == a@ + b@,
{
    let mut out = a.to_owned();
    out.append(b);
    out
}

/// What a program printed is what it wrote to the stream of that name, and a
/// program that was never started printed nothing.
pub proof fn law_streams(run: ToolRun)
    ensures
        match run {
            ToolRun::Exited { stdout, stderr, .. } => stdout_of(run) == stdout@ && stderr_of(run)
                == stderr@,
            ToolRun::NotStarted(_) => stdout_of(run).len() == 0 && stderr_of(run).len() == 0,
        },
{
}

/// The view of a call has its program and its arguments, in order.
pub proof fn law_call_view(c: CommandLine, i: int)
    ensures
        c@.program == c.program@,
        c@.args.len() == c.args@.len(),
        0 <= i < c.args@.len() ==> c@.args[i] == c.args@[i]@,
{
}

} // verus!
