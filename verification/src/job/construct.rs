//! Building jobs from their definitions.
//!
//! A job of a mode that runs other jobs names them, and each name is looked
//! up in the pool and built in turn. Definitions may refer to each other in a
//! cycle, and then building never ends. The functions here therefore carry a
//! nesting budget: each lookup of a name spends one unit of it, and an
//! exhausted budget gives `None`. The public constructors build with the
//! largest budget a machine word holds, and require that it suffices.
use vstd::prelude::*;

use super::modes::{Command, Mock, Parallel, Sequential, Shell, Watch};
use super::params::{ParallelParams, SequentialParams, WatchParams};
use super::{jobs_view, Job, JobView};
use crate::cfg::JobCfg;
use crate::error::{JfError, JfErrorView, JfResult};
use crate::jobdef::pool::{lookup, JobdefPool};
use crate::jobdef::Jobdef;

verus! {

pub type BuildOutcome = Option<Result<JobView, JfErrorView>>;

/// The largest nesting budget, the one the public constructors use.
pub open spec fn max_depth() -> nat {
    usize::MAX as nat
}

/// The mathematical form of a build result.
pub open spec fn result_view<T: View<V = JobView>>(r: JfResult<T>) -> Result<JobView, JfErrorView> {
    match r {
        Ok(j) => Ok(j@),
        Err(e) => Err(e@),
    }
}

/// The mathematical form of a build result under a budget.
pub open spec fn outcome_view<T: View<V = JobView>>(r: Option<JfResult<T>>) -> BuildOutcome {
    match r {
        None => None,
        Some(r) => Some(result_view(r)),
    }
}

/// The result of building the jobs named `names`, in order, stopping at the
/// first that fails.
pub open spec fn build_names_spec(defs: Seq<Jobdef>, names: Seq<Seq<char>>, fuel: nat) -> Option<
    Result<Seq<JobView>, JfErrorView>,
>
    decreases fuel, 1nat, names.len(),
{
    if names.len() == 0 {
        Some(Ok(Seq::empty()))
    } else {
        match build_name_spec(defs, names[0], fuel) {
            None => None,
            Some(Err(e)) => Some(Err(e)),
            Some(Ok(j)) => match build_names_spec(defs, names.drop_first(), fuel) {
                None => None,
                Some(Err(e)) => Some(Err(e)),
                Some(Ok(js)) => Some(Ok(seq![j] + js)),
            },
        }
    }
}

/// The result of building the job named `name` from within another job.
pub open spec fn build_name_spec(defs: Seq<Jobdef>, name: Seq<char>, fuel: nat) -> BuildOutcome
    decreases fuel, 0nat, 0nat,
{
    if fuel == 0 {
        None
    } else {
        match lookup(defs, name) {
            None => Some(Err(JfErrorView::JobdefNotFound(name))),
            Some(d) => build_cfg_spec(defs, d.cfg(), (fuel - 1) as nat),
        }
    }
}

/// The result of building a job from its configuration.
pub open spec fn build_cfg_spec(defs: Seq<Jobdef>, cfg: JobCfg, fuel: nat) -> BuildOutcome
    decreases fuel, 2nat, 0nat,
{
    match cfg {
        JobCfg::Command(c) => Some(Ok(JobView::Command(c.params@))),
        JobCfg::Shell(c) => Some(
            Ok(JobView::Shell(c.params@, super::modes::shell_command(c.params@))),
        ),
        JobCfg::Mock(c) => Some(Ok(JobView::Mock(c.params))),
        JobCfg::Parallel(c) => match build_names_spec(defs, c.params.jobs.deep_view(), fuel) {
            None => None,
            Some(Err(e)) => Some(Err(e)),
            Some(Ok(js)) => Some(Ok(JobView::Parallel(js))),
        },
        JobCfg::Sequential(c) => if c.params.jobs.len() == 0 {
            Some(Err(JfErrorView::MustHaveAtLeastOneJob("sequential"@)))
        } else {
            match build_names_spec(defs, c.params.jobs.deep_view(), fuel) {
                None => None,
                Some(Err(e)) => Some(Err(e)),
                Some(Ok(js)) => Some(Ok(JobView::Sequential(js))),
            }
        },
        JobCfg::Watch(c) => match build_name_spec(defs, c.params.job@, fuel) {
            None => None,
            Some(Err(e)) => Some(Err(e)),
            Some(Ok(j)) => Some(Ok(JobView::Watch(Box::new(j), c.params.watch_list.deep_view()))),
        },
    }
}

pub open spec fn parallel_spec(defs: Seq<Jobdef>, params: ParallelParams, fuel: nat) -> BuildOutcome {
    build_cfg_spec(
        defs,
        JobCfg::Parallel(crate::cfg::ParallelCfg { common: arbitrary(), params }),
        fuel,
    )
}

pub open spec fn sequential_spec(
    defs: Seq<Jobdef>,
    params: SequentialParams,
    fuel: nat,
) -> BuildOutcome {
    build_cfg_spec(
        defs,
        JobCfg::Sequential(crate::cfg::SequentialCfg { common: arbitrary(), params }),
        fuel,
    )
}

pub open spec fn watch_spec(defs: Seq<Jobdef>, params: WatchParams, fuel: nat) -> BuildOutcome {
    build_cfg_spec(
        defs,
        JobCfg::Watch(crate::cfg::WatchCfg { common: arbitrary(), params }),
        fuel,
    )
}

/// Builds the jobs named `names`, in order, stopping at the first that fails.
fn build_names_within(pool: &JobdefPool, names: &Vec<String>, fuel: usize) -> (res: Option<
    JfResult<Vec<Job>>,
>)
    ensures
        build_names_spec(pool@, names.deep_view(), fuel as nat) == match res {
            None => None,
            Some(Err(e)) => Some(Err(e@)),
            Some(Ok(js)) => Some(Ok(jobs_view(js@))),
        },
    decreases fuel, 1nat,
{
    let ghost defs = pool@;
    let ghost all = names.deep_view();
    let mut jobs: Vec<Job> = Vec::new();
    let mut i: usize = 0;
    proof {
        assert(all.skip(0) =~= all);
        match build_names_spec(defs, all, fuel as nat) {
            Some(Ok(rest)) => {
                assert(jobs_view(jobs@) + rest =~= rest);
            },
            _ => {},
        }
    }
    while i < names.len()
        invariant
            0 <= i <= names@.len(),
            all == names.deep_view(),
            defs == pool@,
            build_names_spec(defs, all, fuel as nat) == match build_names_spec(
                defs,
                all.skip(i as int),
                fuel as nat,
            ) {
                Some(Ok(rest)) => Some(Ok(jobs_view(jobs@) + rest)),
                other => other,
            },
        decreases names@.len() - i,
    {
        proof {
            assert(all.skip(i as int)[0] == names@[i as int]@);
            assert(all.skip(i as int).drop_first() =~= all.skip(i + 1));
        }
        match build_name_within(pool, &names[i], fuel) {
            None => {
                return None;
            },
            Some(Err(e)) => {
                return Some(Err(e));
            },
            Some(Ok(j)) => {
                let ghost before = jobs@;
                jobs.push(j);
                proof {
                    assert(jobs@.drop_last() =~= before);
                    assert(jobs_view(jobs@) == jobs_view(before).push(j@));
                    match build_names_spec(defs, all.skip(i + 1), fuel as nat) {
                        Some(Ok(rest)) => {
                            assert(jobs_view(before) + (seq![j@] + rest) =~= jobs_view(jobs@)
                                + rest);
                        },
                        _ => {},
                    }
                }
            },
        }
        i = i + 1;
    }
    proof {
        assert(all.skip(i as int) =~= Seq::<Seq<char>>::empty());
        assert(jobs_view(jobs@) + Seq::<JobView>::empty() =~= jobs_view(jobs@));
    }
    Some(Ok(jobs))
}

/// Builds the job named `name` on behalf of another job.
fn build_name_within(pool: &JobdefPool, name: &String, fuel: usize) -> (res: Option<JfResult<Job>>)
    ensures
        outcome_view(res) == build_name_spec(pool@, name@, fuel as nat),
    decreases fuel, 0nat,
{
    if fuel == 0 {
        return None;
    }
    match pool.get(name.clone()) {
        Err(e) => Some(Err(e)),
        Ok(d) => Job::new_within(d.job_cfg(), pool, fuel - 1),
    }
}

impl Job {
    /// Builds the job that `job_cfg` describes, within a nesting budget.
    pub fn new_within(job_cfg: &JobCfg, pool: &JobdefPool, fuel: usize) -> (res: Option<
        JfResult<Job>,
    >)
        ensures
            outcome_view(res) == build_cfg_spec(pool@, *job_cfg, fuel as nat),
        decreases fuel, 3nat,
    {
        match job_cfg {
            JobCfg::Command(c) => Some(Ok(Job::Command(Command::new(c.params.duplicate())))),
            JobCfg::Shell(c) => Some(Ok(Job::Shell(Shell::new(c.params.duplicate())))),
            JobCfg::Mock(c) => Some(Ok(Job::Mock(Mock::new(c.params)))),
            JobCfg::Parallel(c) => match Parallel::new_within(&c.params, pool, fuel) {
                None => None,
                Some(Err(e)) => Some(Err(e)),
                Some(Ok(p)) => Some(Ok(Job::Parallel(p))),
            },
            JobCfg::Sequential(c) => match Sequential::new_within(&c.params, pool, fuel) {
                None => None,
                Some(Err(e)) => Some(Err(e)),
                Some(Ok(s)) => Some(Ok(Job::Sequential(s))),
            },
            JobCfg::Watch(c) => match Watch::new_within(&c.params, pool, fuel) {
                None => None,
                Some(Err(e)) => Some(Err(e)),
                Some(Ok(w)) => Some(Ok(Job::Watch(w))),
            },
        }
    }

    /// Builds the job that `job_cfg` describes.
    pub fn new(job_cfg: &JobCfg, pool: &JobdefPool) -> (res: JfResult<Job>)
        requires
            build_cfg_spec(pool@, *job_cfg, max_depth()) is Some,
        ensures
            result_view(res) == build_cfg_spec(pool@, *job_cfg, max_depth())->0,
    {
        match Job::new_within(job_cfg, pool, usize::MAX) {
            Some(r) => r,
            None => {
                assert(false);
                Err(JfError::Custom(String::new()))
            },
        }
    }
}

impl Parallel {
    pub fn new_within(params: &ParallelParams, pool: &JobdefPool, fuel: usize) -> (res: Option<
        JfResult<Parallel>,
    >)
        ensures
            outcome_view(res) == parallel_spec(pool@, *params, fuel as nat),
        decreases fuel, 2nat,
    {
        match build_names_within(pool, &params.jobs, fuel) {
            None => None,
            Some(Err(e)) => Some(Err(e)),
            Some(Ok(jobs)) => Some(Ok(Parallel { jobs })),
        }
    }

    /// Builds each of the named jobs; fails with the first that fails.
    pub fn new(params: ParallelParams, pool: &JobdefPool) -> (res: JfResult<Parallel>)
        requires
            parallel_spec(pool@, params, max_depth()) is Some,
        ensures
            result_view(res) == parallel_spec(pool@, params, max_depth())->0,
    {
        match Parallel::new_within(&params, pool, usize::MAX) {
            Some(r) => r,
            None => {
                assert(false);
                Err(JfError::Custom(String::new()))
            },
        }
    }
}

impl Sequential {
    pub fn new_within(params: &SequentialParams, pool: &JobdefPool, fuel: usize) -> (res: Option<
        JfResult<Sequential>,
    >)
        ensures
            outcome_view(res) == sequential_spec(pool@, *params, fuel as nat),
        decreases fuel, 2nat,
    {
        if params.jobs.len() == 0 {
            return Some(Err(JfError::MustHaveAtLeastOneJob(String::from_str("sequential"))));
        }
        match build_names_within(pool, &params.jobs, fuel) {
            None => None,
            Some(Err(e)) => Some(Err(e)),
            Some(Ok(jobs)) => Some(Ok(Sequential { jobs })),
        }
    }

    /// Builds each of the named jobs; fails when there are none, and
    /// otherwise with the first that fails.
    pub fn new(params: SequentialParams, pool: &JobdefPool) -> (res: JfResult<Sequential>)
        requires
            sequential_spec(pool@, params, max_depth()) is Some,
        ensures
            result_view(res) == sequential_spec(pool@, params, max_depth())->0,
    {
        match Sequential::new_within(&params, pool, usize::MAX) {
            Some(r) => r,
            None => {
                assert(false);
                Err(JfError::Custom(String::new()))
            },
        }
    }
}

impl Watch {
    pub fn new_within(params: &WatchParams, pool: &JobdefPool, fuel: usize) -> (res: Option<
        JfResult<Watch>,
    >)
        ensures
            outcome_view(res) == watch_spec(pool@, *params, fuel as nat),
        decreases fuel, 2nat,
    {
        match build_name_within(pool, &params.job, fuel) {
            None => None,
            Some(Err(e)) => Some(Err(e)),
            Some(Ok(job)) => Some(
                Ok(Watch { job: Box::new(job), watch_list: super::params::clone_strings(&params.watch_list) }),
            ),
        }
    }

    /// Builds the watched job; fails when that fails.
    pub fn new(params: WatchParams, pool: &JobdefPool) -> (res: JfResult<Watch>)
        requires
            watch_spec(pool@, params, max_depth()) is Some,
        ensures
            result_view(res) == watch_spec(pool@, params, max_depth())->0,
    {
        match Watch::new_within(&params, pool, usize::MAX) {
            Some(r) => r,
            None => {
                assert(false);
                Err(JfError::Custom(String::new()))
            },
        }
    }
}

/// A build outcome reached within a nesting budget stays the same under any
/// larger budget.
pub proof fn lemma_build_cfg_budget(defs: Seq<Jobdef>, cfg: JobCfg, f1: nat, f2: nat)
    requires
        f1 <= f2,
        build_cfg_spec(defs, cfg, f1) is Some,
    ensures
        build_cfg_spec(defs, cfg, f2) == build_cfg_spec(defs, cfg, f1),
    decreases f1, 2nat, 0nat,
{
    match cfg {
        JobCfg::Parallel(c) => {
            lemma_build_names_budget(defs, c.params.jobs.deep_view(), f1, f2);
        },
        JobCfg::Sequential(c) => {
            if c.params.jobs.len() != 0 {
                lemma_build_names_budget(defs, c.params.jobs.deep_view(), f1, f2);
            }
        },
        JobCfg::Watch(c) => {
            lemma_build_name_budget(defs, c.params.job@, f1, f2);
        },
        _ => {},
    }
}

/// A list of names that builds within a budget builds the same under any
/// larger budget.
pub proof fn lemma_build_names_budget(defs: Seq<Jobdef>, names: Seq<Seq<char>>, f1: nat, f2: nat)
    requires
        f1 <= f2,
        build_names_spec(defs, names, f1) is Some,
    ensures
        build_names_spec(defs, names, f2) == build_names_spec(defs, names, f1),
    decreases f1, 1nat, names.len(),
{
    if names.len() != 0 {
        lemma_build_name_budget(defs, names[0], f1, f2);
        if build_name_spec(defs, names[0], f1) matches Some(Ok(_)) {
            lemma_build_names_budget(defs, names.drop_first(), f1, f2);
        }
    }
}

/// A name that builds within a budget builds the same under any larger budget.
pub proof fn lemma_build_name_budget(defs: Seq<Jobdef>, name: Seq<char>, f1: nat, f2: nat)
    requires
        f1 <= f2,
        build_name_spec(defs, name, f1) is Some,
    ensures
        build_name_spec(defs, name, f2) == build_name_spec(defs, name, f1),
    decreases f1, 0nat, 0nat,
{
    if let Some(d) = lookup(defs, name) {
        lemma_build_cfg_budget(defs, d.cfg(), (f1 - 1) as nat, (f2 - 1) as nat);
    }
}

/// Building a list of names that succeeds gives one job per name, in order.
pub proof fn lemma_build_names_one_per_name(defs: Seq<Jobdef>, names: Seq<Seq<char>>, fuel: nat)
    requires
        build_names_spec(defs, names, fuel) matches Some(Ok(_)),
    ensures
        build_names_spec(defs, names, fuel) matches Some(Ok(js)) && js.len() == names.len()
            && forall|i: int| 0 <= i < names.len() ==> build_name_spec(defs, #[trigger] names[i], fuel)
            == Some(Ok::<JobView, JfErrorView>(js[i])),
    decreases names.len(),
{
    if names.len() != 0 {
        lemma_build_names_one_per_name(defs, names.drop_first(), fuel);
        let js = build_names_spec(defs, names, fuel)->0->Ok_0;
        let rest = build_names_spec(defs, names.drop_first(), fuel)->0->Ok_0;
        assert forall|i: int| 0 <= i < names.len() implies build_name_spec(
            defs,
            #[trigger] names[i],
            fuel,
        ) == Some(Ok::<JobView, JfErrorView>(js[i])) by {
            if i > 0 {
                assert(names[i] == names.drop_first()[i - 1]);
                assert(js[i] == rest[i - 1]);
            }
        }
    }
}

/// A job named from within another job is built from its definition's
/// configuration, whatever the definition's visibility: a private job may be
/// run from within a public one. Building it so is what the pool does for an
/// agent that is a job.
pub proof fn lemma_nested_build_ignores_visibility(defs: Seq<Jobdef>, name: Seq<char>, fuel: nat)
    requires
        fuel > 0,
        lookup(defs, name) is Some,
    ensures
        build_name_spec(defs, name, fuel) == build_cfg_spec(
            defs,
            lookup(defs, name)->0.cfg(),
            (fuel - 1) as nat,
        ),
        build_name_spec(defs, name, usize::MAX as nat + 1) == crate::jobdef::pool::pool_build_spec(
            defs,
            name,
            crate::jobdef::Agent::Job,
        ),
{
}

/// A command job runs the configured program with the configured arguments,
/// whatever else the pool holds.
pub proof fn lemma_command_keeps_params(defs: Seq<Jobdef>, c: crate::cfg::CommandCfg, fuel: nat)
    ensures
        build_cfg_spec(defs, JobCfg::Command(c), fuel) == Some(
            Ok::<JobView, JfErrorView>(
                JobView::Command(
                    super::params::CommandParamsView {
                        command: c.params.command@,
                        args: c.params.args.deep_view(),
                    },
                ),
            ),
        ),
{
}

/// A shell job keeps its parameters and runs `sh` with the configured
/// arguments, then `-c` and the script.
pub proof fn lemma_shell_runs_sh(defs: Seq<Jobdef>, c: crate::cfg::ShellCfg, fuel: nat)
    ensures
        ({
            let base: Seq<Seq<char>> = match c.params.args {
                Some(a) => a.deep_view(),
                None => Seq::empty(),
            };
            build_cfg_spec(defs, JobCfg::Shell(c), fuel) == Some(
                Ok::<JobView, JfErrorView>(
                    JobView::Shell(
                        super::params::ShellParamsView {
                            script: c.params.script@,
                            args: match c.params.args {
                                Some(a) => Some(a.deep_view()),
                                None => None,
                            },
                        },
                        super::params::CommandParamsView {
                            command: "sh"@,
                            args: base.push("-c"@).push(c.params.script@),
                        },
                    ),
                ),
            )
        }),
{
    let base: Seq<Seq<char>> = match c.params.args {
        Some(a) => a.deep_view(),
        None => Seq::empty(),
    };
    assert(base + seq!["-c"@, c.params.script@] =~= base.push("-c"@).push(c.params.script@));
}

/// A mock job keeps its parameters.
pub proof fn lemma_mock_keeps_params(defs: Seq<Jobdef>, c: crate::cfg::MockCfg, fuel: nat)
    ensures
        build_cfg_spec(defs, JobCfg::Mock(c), fuel) == Some(
            Ok::<JobView, JfErrorView>(JobView::Mock(c.params)),
        ),
{
}

/// A sequential job with no jobs is refused. One that builds has one job per
/// name, in the order of the names: its `i`-th job is the build of the
/// `i`-th name, so its jobs run in the listed order.
pub proof fn lemma_sequential_keeps_order(defs: Seq<Jobdef>, p: SequentialParams, fuel: nat)
    ensures
        p.jobs@.len() == 0 ==> sequential_spec(defs, p, fuel) == Some(
            Err::<JobView, JfErrorView>(JfErrorView::MustHaveAtLeastOneJob("sequential"@)),
        ),
        sequential_spec(defs, p, fuel) matches Some(Ok(v)) ==> v matches JobView::Sequential(js)
            && js.len() == p.jobs@.len() && forall|i: int|
            0 <= i < p.jobs@.len() ==> build_name_spec(defs, #[trigger] p.jobs@[i]@, fuel) == Some(
                Ok::<JobView, JfErrorView>(js[i]),
            ),
{
    if p.jobs@.len() != 0 {
        if let Some(Ok(_)) = build_names_spec(defs, p.jobs.deep_view(), fuel) {
            lemma_build_names_one_per_name(defs, p.jobs.deep_view(), fuel);
            assert forall|i: int| 0 <= i < p.jobs@.len() implies p.jobs.deep_view()[i]
                == #[trigger] p.jobs@[i]@ by {}
        }
    }
}

/// A parallel job that builds has one job per name, in the order of the
/// names: its `i`-th job is the build of the `i`-th name.
pub proof fn lemma_parallel_keeps_order(defs: Seq<Jobdef>, p: ParallelParams, fuel: nat)
    ensures
        parallel_spec(defs, p, fuel) matches Some(Ok(v)) ==> v matches JobView::Parallel(js)
            && js.len() == p.jobs@.len() && forall|i: int|
            0 <= i < p.jobs@.len() ==> build_name_spec(defs, #[trigger] p.jobs@[i]@, fuel) == Some(
                Ok::<JobView, JfErrorView>(js[i]),
            ),
{
    if let Some(Ok(_)) = build_names_spec(defs, p.jobs.deep_view(), fuel) {
        lemma_build_names_one_per_name(defs, p.jobs.deep_view(), fuel);
        assert forall|i: int| 0 <= i < p.jobs@.len() implies p.jobs.deep_view()[i]
            == #[trigger] p.jobs@[i]@ by {}
    }
}

/// A watch that builds watches every configured pattern, in order, and runs
/// the build of the named job.
pub proof fn lemma_watch_keeps_patterns(defs: Seq<Jobdef>, p: WatchParams, fuel: nat)
    ensures
        watch_spec(defs, p, fuel) matches Some(Ok(v)) ==> v matches JobView::Watch(j, wl)
            && wl.len() == p.watch_list@.len() && (forall|i: int|
            0 <= i < p.watch_list@.len() ==> #[trigger] wl[i] == p.watch_list@[i]@)
            && build_name_spec(defs, p.job@, fuel) == Some(Ok::<JobView, JfErrorView>(*j)),
{
}

} // verus!
