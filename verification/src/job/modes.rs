use vstd::prelude::*;

use super::params::{
    clone_strings, CommandParams, CommandParamsView, MockParams, ParallelParams, SequentialParams,
    ShellParams, ShellParamsView, WatchParams,
};
use super::{jobs_view, Job, JobView};

verus! {

/// Runs one program with its arguments.
pub struct Command {
    pub params: CommandParams,
}

/// Runs a script with `sh -c`.
pub struct Shell {
    pub params: ShellParams,
    pub command: Command,
}

/// Runs its jobs at once.
pub struct Parallel {
    pub jobs: Vec<Job>,
}

/// Runs its jobs one after another.
pub struct Sequential {
    pub jobs: Vec<Job>,
}

/// Reruns a job whenever a watched file changes.
pub struct Watch {
    pub job: Box<Job>,
    pub watch_list: Vec<String>,
}

/// Pauses a given number of times; a stand-in job for exercising the runner.
pub struct Mock {
    pub params: MockParams,
}

impl View for Command {
    type V = JobView;

    open spec fn view(&self) -> JobView {
        JobView::Command(self.params@)
    }
}

impl View for Shell {
    type V = JobView;

    open spec fn view(&self) -> JobView {
        JobView::Shell(self.params@, self.command.params@)
    }
}

impl View for Parallel {
    type V = JobView;

    open spec fn view(&self) -> JobView {
        JobView::Parallel(jobs_view(self.jobs@))
    }
}

impl View for Sequential {
    type V = JobView;

    open spec fn view(&self) -> JobView {
        JobView::Sequential(jobs_view(self.jobs@))
    }
}

impl View for Watch {
    type V = JobView;

    open spec fn view(&self) -> JobView {
        JobView::Watch(Box::new((*self.job)@), self.watch_list.deep_view())
    }
}

impl View for Mock {
    type V = JobView;

    open spec fn view(&self) -> JobView {
        JobView::Mock(self.params)
    }
}

/// The arguments that `sh` is given for a shell job: the job's own
/// arguments, then `-c` and the script.
pub open spec fn shell_args(params: ShellParamsView) -> Seq<Seq<char>> {
    let base = match params.args {
        Some(a) => a,
        None => Seq::empty(),
    };
    base + seq!["-c"@, params.script]
}

/// The command that a shell job runs.
pub open spec fn shell_command(params: ShellParamsView) -> CommandParamsView {
    CommandParamsView { command: "sh"@, args: shell_args(params) }
}

impl Command {
    pub fn new(params: CommandParams) -> (res: Self)
        ensures
            res.params == params,
    {
        Command { params }
    }
}

impl Shell {
    pub fn new(params: ShellParams) -> (res: Self)
        ensures
            res.params == params,
            res.command.params@ == shell_command(params@),
    {
        let mut args = match &params.args {
            Some(a) => clone_strings(a),
            None => Vec::new(),
        };
        let ghost base = args.deep_view();
        args.push(String::from_str("-c"));
        args.push(params.script.clone());
        assert(args.deep_view() =~= shell_args(params@)) by {
            assert(base =~= match params@.args {
                Some(a) => a,
                None => Seq::<Seq<char>>::empty(),
            });
        }
        let command = Command::new(CommandParams { command: String::from_str("sh"), args });
        Shell { params, command }
    }
}

impl Mock {
    pub fn new(params: MockParams) -> (res: Self)
        ensures
            res.params == params,
    {
        Mock { params }
    }
}

} // verus!
