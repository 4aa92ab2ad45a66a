//! External tools as data: what to run, and how a run ended.

use vstd::prelude::*;

verus! {

/// One invocation of an external program.
#[derive(Clone, Debug, PartialEq, Eq)]
pub struct ToolCommand {
    /// The program to start.
    pub program: String,
    /// Its arguments, in order.
    pub args: Vec<String>,
    /// The directory to start it in; `None` leaves the current one.
    pub dir: Option<String>,
    /// Variables added to the child's environment, and to no other.
    pub env: Vec<(String, String)>,
}

/// What a `ToolCommand` says, as plain sequences.
pub struct CommandModel {
    pub program: Seq<char>,
    pub args: Seq<Seq<char>>,
    pub dir: Option<Seq<char>>,
    pub env: Seq<(Seq<char>, Seq<char>)>,
}

impl View for ToolCommand {
    type V = CommandModel;

    open spec fn view(&self) -> CommandModel {
        CommandModel {
            program: self.program@,
            args: self.args.deep_view(),
            dir: self.dir.deep_view(),
            env: self.env.deep_view(),
        }
    }
}

/// How a started program ended.
#[derive(Clone, Debug, PartialEq, Eq)]
pub struct ToolOutcome {
    /// Whether it reported success.
    pub success: bool,
    /// Its exit code, where the platform gave one.
    pub code: Option<i32>,
    /// What it wrote to standard output.
    pub stdout: String,
    /// What it wrote to standard error.
    pub stderr: String,
}

/// What a `ToolOutcome` says, as plain sequences.
pub struct OutcomeModel {
    pub success: bool,
    pub code: Option<i32>,
    pub stdout: Seq<char>,
    pub stderr: Seq<char>,
}

impl View for ToolOutcome {
    type V = OutcomeModel;

    open spec fn view(&self) -> OutcomeModel {
        OutcomeModel {
            success: self.success,
            code: self.code,
            stdout: self.stdout@,
            stderr: self.stderr@,
        }
    }
}

/// A command line without a directory or extra environment.
pub open spec fn plain_command(program: Seq<char>, args: Seq<Seq<char>>) -> CommandModel {
    CommandModel { program, args, dir: None, env: Seq::empty() }
}

/// Appends `arg` to the arguments collected in `args`.
pub fn push_arg(args: &mut Vec<String>, arg: &str)
    ensures
        final(args).deep_view() == old(args).deep_view().push(arg@),
{
    args.push(String::from_str(arg));
    assert(args.deep_view() =~= old(args).deep_view().push(arg@));
}

} // verus!
