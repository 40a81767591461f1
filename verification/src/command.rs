//! External programs: how one is invoked, how the invocation is shown in
//! diagnostics, and what its end means.

use vstd::prelude::*;
use vstd::string::*;
use crate::error::{ErrorKind, KeymapError, KeymapErrorView};
use crate::text::{contains_char, decimal, signed_decimal};

verus! {

/// A program and the arguments it is started with. The arguments are handed
/// over one by one, never through a shell.
#[derive(Clone, Debug, PartialEq, Eq)]
pub struct Invocation {
    pub program: String,
    pub args: Vec<String>,
}

/// The mathematical model of an [`Invocation`].
pub struct InvocationView {
    pub program: Seq<char>,
    pub args: Seq<Seq<char>>,
}

impl View for Invocation {
    type V = InvocationView;

    open spec fn view(&self) -> InvocationView {
        InvocationView { program: self.program@, args: self.args.deep_view() }
    }
}

impl DeepView for Invocation {
    type V = InvocationView;

    open spec fn deep_view(&self) -> InvocationView {
        self@
    }
}

impl InvocationView {
    /// The invocation of `program` without arguments.
    pub open spec fn new(program: Seq<char>) -> InvocationView {
        InvocationView { program, args: Seq::empty() }
    }

    /// This invocation with one more argument at the end.
    pub open spec fn arg(self, value: Seq<char>) -> InvocationView {
        InvocationView { program: self.program, args: self.args.push(value) }
    }
}

/// How a process that was asked for came to its end.
#[derive(Clone, Debug, PartialEq, Eq)]
pub enum ProcessReport {
    /// The program could not be launched; the text says why.
    NotLaunched(String),
    /// The program ran and ended, with its exit code where it left one (a
    /// process ended by a signal leaves none).
    Exited(Option<i32>),
}

/// The mathematical model of a [`ProcessReport`].
pub enum ProcessReportView {
    NotLaunched(Seq<char>),
    Exited(Option<i32>),
}

impl View for ProcessReport {
    type V = ProcessReportView;

    open spec fn view(&self) -> ProcessReportView {
        match self {
            ProcessReport::NotLaunched(reason) => ProcessReportView::NotLaunched(reason@),
            ProcessReport::Exited(code) => ProcessReportView::Exited(*code),
        }
    }
}

/// An argument as it is shown in a rendered command line: wrapped in double
/// quotes if it holds a space, bare otherwise.
pub open spec fn quoted(arg: Seq<char>) -> Seq<char> {
    if arg.contains(' ') {
        seq!['"'] + arg + seq!['"']
    } else {
        arg
    }
}

/// The command line shown in diagnostics: the program, then each argument
/// after a single space, quoted as [`quoted`] says.
pub open spec fn shell_command(invocation: InvocationView) -> Seq<char>
    decreases invocation.args.len(),
{
    if invocation.args.len() == 0 {
        invocation.program
    } else {
        shell_command(
            InvocationView { program: invocation.program, args: invocation.args.drop_last() },
        ) + seq![' '] + quoted(invocation.args.last())
    }
}

/// The exit code written in a diagnostic: the code itself, or -1 where the
/// process left none.
pub open spec fn shown_exit_code(code: Option<i32>) -> int {
    match code {
        Some(code) => code as int,
        None => -1,
    }
}

/// The failure reported when the program could not be launched.
pub open spec fn spawn_failure(invocation: InvocationView, reason: Seq<char>) -> KeymapErrorView {
    KeymapErrorView {
        kind: ErrorKind::SpawnError,
        message: "Failed to execute `"@ + shell_command(invocation) + "`:\n "@ + reason,
    }
}

/// The failure reported when the program ended with anything but exit code 0.
pub open spec fn exit_failure(invocation: InvocationView, code: Option<i32>) -> KeymapErrorView {
    KeymapErrorView {
        kind: ErrorKind::NonZeroExit,
        message: invocation.program + " returned exit code "@ + decimal(shown_exit_code(code)),
    }
}

/// What the end of a process means for the invocation: success exactly when
/// it ran and left exit code 0.
pub open spec fn run_result(invocation: InvocationView, report: ProcessReportView) -> Result<
    (),
    KeymapErrorView,
> {
    match report {
        ProcessReportView::NotLaunched(reason) => Err(spawn_failure(invocation, reason)),
        ProcessReportView::Exited(code) => if code == Some(0i32) {
            Ok(())
        } else {
            Err(exit_failure(invocation, code))
        },
    }
}

/// The invocation with the first `count` of its arguments only.
pub open spec fn with_first_args(invocation: InvocationView, count: int) -> InvocationView {
    InvocationView { program: invocation.program, args: invocation.args.take(count) }
}

/// A program without arguments is shown as its bare name.
pub proof fn lemma_bare_program(program: Seq<char>)
    ensures
        shell_command(InvocationView::new(program)) == program,
{
}

/// The command line of the first arguments is the start of the command line
/// of all of them.
pub proof fn lemma_shell_command_grows(invocation: InvocationView, count: int)
    requires
        0 <= count <= invocation.args.len(),
    ensures
        shell_command(with_first_args(invocation, count)).len() <= shell_command(
            invocation,
        ).len(),
        shell_command(invocation).subrange(
            0,
            shell_command(with_first_args(invocation, count)).len() as int,
        ) == shell_command(with_first_args(invocation, count)),
    decreases invocation.args.len(),
{
    if count == invocation.args.len() {
        assert(invocation.args.take(count) =~= invocation.args);
    } else {
        let shorter = InvocationView {
            program: invocation.program,
            args: invocation.args.drop_last(),
        };
        assert(shorter.args.take(count) =~= invocation.args.take(count));
        lemma_shell_command_grows(shorter, count);
    }
}

/// Every argument is shown in the command line, behind a single space: in
/// double quotes if it holds a space, as it is if it holds none. It stands
/// right behind the command line of the arguments in front of it.
pub proof fn lemma_argument_is_shown(invocation: InvocationView, index: int)
    requires
        0 <= index < invocation.args.len(),
    ensures
        ({
            let before = shell_command(with_first_args(invocation, index)).len() as int;
            let shown = quoted(invocation.args[index]);
            &&& before + 1 + shown.len() <= shell_command(invocation).len()
            &&& shell_command(invocation)[before] == ' '
            &&& shell_command(invocation).subrange(before + 1, before + 1 + shown.len()) == shown
        }),
        invocation.args[index].contains(' ') ==> quoted(invocation.args[index]) == seq!['"']
            + invocation.args[index] + seq!['"'],
        !invocation.args[index].contains(' ') ==> quoted(invocation.args[index])
            == invocation.args[index],
{
    let upto = with_first_args(invocation, index + 1);
    let before = shell_command(with_first_args(invocation, index));
    let shown = quoted(invocation.args[index]);
    assert(upto.args.drop_last() =~= invocation.args.take(index));
    lemma_shell_command_grows(invocation, index + 1);
    let whole = shell_command(invocation);
    let start = shell_command(upto);
    let at: int = before.len() as int;
    assert(whole.subrange(0, start.len() as int)[at] == ' ');
    assert(whole.subrange(at + 1, at + 1 + shown.len()) =~= shown) by {
        assert forall|k: int| 0 <= k < shown.len() implies whole[at + 1 + k] == shown[k] by {
            assert(whole.subrange(0, start.len() as int)[at + 1 + k] == start[at + 1 + k]);
        }
    }
}

impl Invocation {
    /// The invocation of `program` without arguments.
    pub fn new(program: &str) -> (invocation: Invocation)
        ensures
            invocation@ == InvocationView::new(program@),
    {
        let invocation = Invocation { program: String::from_str(program), args: Vec::new() };
        assert(invocation.args.deep_view() =~= Seq::empty());
        invocation
    }

    /// Adds one argument at the end.
    pub fn arg(self, value: &str) -> (invocation: Invocation)
        ensures
            invocation@ == self@.arg(value@),
    {
        let mut args = self.args;
        let ghost before = args.deep_view();
        args.push(String::from_str(value));
        assert(args.deep_view() =~= before.push(value@));
        Invocation { program: self.program, args }
    }

    /// The command line as it is shown in diagnostics. It is never handed to
    /// a shell.
    pub fn as_shell_cmd(&self) -> (rendered: String)
        ensures
            rendered@ == shell_command(self@),
    {
        let mut rendered = self.program.clone();
        let ghost all = self.args.deep_view();
        let mut i: usize = 0;
        while i < self.args.len()
            invariant
                i <= self.args.len(),
                all == self.args.deep_view(),
                rendered@ == shell_command(
                    InvocationView { program: self.program@, args: all.take(i as int) },
                ),
            decreases self.args.len() - i,
        {
            let arg = self.args[i].as_str();
            proof {
                reveal_strlit(" ");
                reveal_strlit("\"");
            }
            rendered.append(" ");
            if contains_char(arg, ' ') {
                rendered.append("\"");
                rendered.append(arg);
                rendered.append("\"");
            } else {
                rendered.append(arg);
            }
            assert(all.take(i + 1).drop_last() =~= all.take(i as int));
            i = i + 1;
        }
        assert(all.take(i as int) =~= all);
        rendered
    }

    /// The failure reported when this program could not be launched, for the
    /// reason given.
    pub fn spawn_failure(&self, reason: &str) -> (error: KeymapError)
        ensures
            error@ == spawn_failure(self@, reason@),
    {
        let mut message = String::from_str("Failed to execute `");
        message.append(self.as_shell_cmd().as_str());
        message.append("`:\n ");
        message.append(reason);
        KeymapError { kind: ErrorKind::SpawnError, message }
    }

    /// Judges the end of the process that was started for this invocation:
    /// success exactly when it ran and left exit code 0, otherwise the
    /// failure with its message.
    pub fn execute_with_err(&self, report: &ProcessReport) -> (result: Result<(), KeymapError>)
        ensures
            crate::error::result_view(result) == run_result(self@, report@),
    {
        match report {
            ProcessReport::NotLaunched(reason) => Err(self.spawn_failure(reason.as_str())),
            ProcessReport::Exited(code) => {
                let shown: i32 = match code {
                    Some(code) => *code,
                    None => -1,
                };
                if shown == 0 && code.is_some() {
                    Ok(())
                } else {
                    let mut message = self.program.clone();
                    message.append(" returned exit code ");
                    message.append(signed_decimal(shown).as_str());
                    Err(KeymapError { kind: ErrorKind::NonZeroExit, message })
                }
            },
        }
    }
}

} // verus!
