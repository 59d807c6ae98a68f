pub mod construct;
pub mod canceller;
pub mod join_status;
pub mod modes;
pub mod params;
pub mod run;

use vstd::prelude::*;

use self::modes::{Command, Mock, Parallel, Sequential, Shell, Watch};
use self::params::{CommandParamsView, ShellParamsView};

pub use canceller::Canceller;
pub use join_status::JoinStatus;
pub use params::{
    CommandParams, MockParams, ParallelParams, SequentialParams, ShellParams,
    WatchParams,
};

verus! {

/// A job ready to run: its mode, and for the modes that run other jobs, those
/// jobs, built from their definitions.
pub enum Job {
    Command(Command),
    Parallel(Parallel),
    Sequential(Sequential),
    Shell(Shell),
    Watch(Watch),
    Mock(Mock),
}

/// The mathematical form of a [`Job`].
pub enum JobView {
    Command(CommandParamsView),
    Parallel(Seq<JobView>),
    Sequential(Seq<JobView>),
    Shell(ShellParamsView, CommandParamsView),
    Watch(Box<JobView>, Seq<Seq<char>>),
    Mock(MockParams),
}

pub open spec fn job_view(j: Job) -> JobView
    decreases j,
{
    match j {
        Job::Command(c) => JobView::Command(c.params@),
        Job::Parallel(p) => JobView::Parallel(jobs_view(p.jobs@)),
        Job::Sequential(s) => JobView::Sequential(jobs_view(s.jobs@)),
        Job::Shell(s) => JobView::Shell(s.params@, s.command.params@),
        Job::Watch(w) => JobView::Watch(Box::new(job_view(*w.job)), w.watch_list.deep_view()),
        Job::Mock(m) => JobView::Mock(m.params),
    }
}

pub open spec fn jobs_view(s: Seq<Job>) -> Seq<JobView>
    decreases s,
{
    if s.len() == 0 {
        Seq::empty()
    } else {
        jobs_view(s.drop_last()).push(job_view(s.last()))
    }
}

impl View for Job {
    type V = JobView;

    open spec fn view(&self) -> JobView {
        job_view(*self)
    }
}

} // verus!
