use vstd::prelude::*;

verus! {

/// Parameters of `mode = "command"`: a program and its arguments.
pub struct CommandParams {
    pub command: String,
    pub args: Vec<String>,
}

/// Parameters of `mode = "shell"`: a script, and arguments put before `-c`.
pub struct ShellParams {
    pub script: String,
    pub args: Option<Vec<String>>,
}

/// Parameters of `mode = "parallel"`: the names of the jobs to run together.
pub struct ParallelParams {
    pub jobs: Vec<String>,
}

/// Parameters of `mode = "sequential"`: the names of the jobs to run in turn.
pub struct SequentialParams {
    pub jobs: Vec<String>,
}

/// Parameters of `mode = "watch"`: the job to rerun and the glob patterns to watch.
pub struct WatchParams {
    pub job: String,
    pub watch_list: Vec<String>,
}

/// Parameters of the mock mode used to exercise the runner: how long each
/// pause lasts, in milliseconds, and how many pauses it makes.
#[derive(Clone, Copy, Debug, PartialEq, Eq, Structural)]
pub struct MockParams {
    pub each_sleep_time: u64,
    pub sleep_count: u8,
}

pub struct CommandParamsView {
    pub command: Seq<char>,
    pub args: Seq<Seq<char>>,
}

pub struct ShellParamsView {
    pub script: Seq<char>,
    pub args: Option<Seq<Seq<char>>>,
}

impl View for CommandParams {
    type V = CommandParamsView;

    open spec fn view(&self) -> CommandParamsView {
        CommandParamsView { command: self.command@, args: self.args.deep_view() }
    }
}

impl View for ShellParams {
    type V = ShellParamsView;

    open spec fn view(&self) -> ShellParamsView {
        ShellParamsView { script: self.script@, args: self.args.deep_view() }
    }
}

/// A copy of a list of strings.
pub fn clone_strings(v: &Vec<String>) -> (res: Vec<String>)
    ensures
        res.deep_view() == v.deep_view(),
{
    let mut res: Vec<String> = Vec::new();
    let mut i: usize = 0;
    while i < v.len()
        invariant
            0 <= i <= v.len(),
            res@.len() == i,
            forall|k: int| 0 <= k < i ==> #[trigger] res@[k]@ == v@[k]@,
        decreases v.len() - i,
    {
        res.push(v[i].clone());
        i = i + 1;
    }
    assert(res.deep_view() =~= v.deep_view());
    res
}

impl CommandParams {
    pub fn duplicate(&self) -> (res: CommandParams)
        ensures
            res@ == self@,
    {
        CommandParams { command: self.command.clone(), args: clone_strings(&self.args) }
    }
}

impl ShellParams {
    pub fn duplicate(&self) -> (res: ShellParams)
        ensures
            res@ == self@,
    {
        let args = match &self.args {
            Some(a) => Some(clone_strings(a)),
            None => None,
        };
        ShellParams { script: self.script.clone(), args }
    }
}

} // verus!
