pub mod pool;

use vstd::prelude::*;

use crate::cfg::{JobCfg, Visibility};
use crate::error::{JfError, JfResult};
use crate::job::construct::build_cfg_spec;
use crate::job::construct::result_view;
use crate::job::Job;

pub use self::pool::JobdefPool;

verus! {

/// Who asks for a job: a user on the command line, or another job.
#[derive(Clone, Copy, Debug, PartialEq, Eq, Structural)]
pub enum Agent {
    Cli,
    Job,
}

/// Whether `agent` may run a job of the given visibility: everyone may run a
/// public job, and a private one may be run from within other jobs only.
pub open spec fn visible_to(visibility: Visibility, agent: Agent) -> bool {
    visibility == Visibility::Public || agent != Agent::Cli
}

/// A named job definition.
pub struct Jobdef {
    name: String,
    visibility: Visibility,
    description: String,
    job_cfg: JobCfg,
}

impl Jobdef {
    pub closed spec fn name_view(&self) -> Seq<char> {
        self.name@
    }

    pub closed spec fn visibility_view(&self) -> Visibility {
        self.visibility
    }

    pub closed spec fn description_view(&self) -> Seq<char> {
        self.description@
    }

    pub closed spec fn cfg(&self) -> JobCfg {
        self.job_cfg
    }

    /// A definition named `name`, whose visibility and description are those
    /// of `job_cfg`. It never fails.
    pub fn new(name: String, job_cfg: JobCfg) -> (res: JfResult<Self>)
        ensures
            res matches Ok(d) && {
                &&& d.name_view() == name@
                &&& d.visibility_view() == job_cfg.common().visibility
                &&& d.description_view() == job_cfg.common().description@
                &&& d.cfg() == job_cfg
            },
    {
        let visibility = *job_cfg.visibility();
        let description = job_cfg.description();
        Ok(Jobdef { name, visibility, description, job_cfg })
    }

    pub fn visibility(&self) -> (res: &Visibility)
        ensures
            *res == self.visibility_view(),
    {
        &self.visibility
    }

    pub fn is_public(&self) -> (res: bool)
        ensures
            res == (self.visibility_view() == Visibility::Public),
    {
        self.visibility.is_public()
    }

    /// Refuses a private job to the command line.
    pub fn visibility_guard(&self, agent: Agent) -> (res: JfResult<()>)
        ensures
            res is Ok <==> visible_to(self.visibility_view(), agent),
            res matches Err(e) ==> e@ == crate::error::JfErrorView::UnexpectedVisibilityPrivate(
                self.name_view(),
            ),
    {
        if self.visibility.is_public() {
            return Ok(());
        }
        match agent {
            Agent::Cli => Err(JfError::UnexpectedVisibilityPrivate(self.name.clone())),
            Agent::Job => Ok(()),
        }
    }

    /// The job this definition describes, if `agent` may run it.
    pub fn build(&self, pool: &JobdefPool, agent: Agent) -> (res: JfResult<Job>)
        requires
            visible_to(self.visibility_view(), agent) ==> build_cfg_spec(
                pool@,
                self.cfg(),
                usize::MAX as nat,
            ) is Some,
        ensures
            !visible_to(self.visibility_view(), agent) ==> (res matches Err(e)
                && e@ == crate::error::JfErrorView::UnexpectedVisibilityPrivate(self.name_view())),
            visible_to(self.visibility_view(), agent) ==> result_view(res) == build_cfg_spec(
                pool@,
                self.cfg(),
                usize::MAX as nat,
            )->0,
    {
        self.visibility_guard(agent)?;
        Job::new(&self.job_cfg, pool)
    }

    pub fn name(&self) -> (res: &String)
        ensures
            res@ == self.name_view(),
    {
        &self.name
    }

    pub fn description(&self) -> (res: &String)
        ensures
            res@ == self.description_view(),
    {
        &self.description
    }

    pub fn job_cfg(&self) -> (res: &JobCfg)
        ensures
            *res == self.cfg(),
    {
        &self.job_cfg
    }
}

impl TryFrom<(String, JobCfg)> for Jobdef {
    type Error = JfError;

    /// The definition that `Jobdef::new` makes of the name and configuration.
    fn try_from(value: (String, JobCfg)) -> (res: Result<Self, Self::Error>)
        ensures
            res matches Ok(d) && {
                &&& d.name_view() == value.0@
                &&& d.visibility_view() == value.1.common().visibility
                &&& d.description_view() == value.1.common().description@
                &&& d.cfg() == value.1
            },
    {
        let visibility = *value.1.visibility();
        let description = value.1.description();
        Ok(Jobdef { name: value.0, visibility, description, job_cfg: value.1 })
    }
}

impl vstd::std_specs::convert::TryFromSpecImpl<(String, JobCfg)> for Jobdef {
    open spec fn obeys_try_from_spec() -> bool {
        true
    }

    /// The definition that `Jobdef::new` makes of the name and configuration.
    closed spec fn try_from_spec(value: (String, JobCfg)) -> Result<Self, JfError> {
        Ok(
            Jobdef {
                name: value.0,
                visibility: value.1.common().visibility,
                description: value.1.common().description,
                job_cfg: value.1,
            },
        )
    }
}

/// Converting a name and a configuration gives the definition that
/// `Jobdef::new` makes of them.
pub proof fn lemma_try_from_is_new(value: (String, JobCfg))
    ensures
        <Jobdef as vstd::std_specs::convert::TryFromSpec<(String, JobCfg)>>::obeys_try_from_spec(),
        <Jobdef as vstd::std_specs::convert::TryFromSpec<(String, JobCfg)>>::try_from_spec(
            value,
        ) matches Ok(d) && {
            &&& d.name_view() == value.0@
            &&& d.visibility_view() == value.1.common().visibility
            &&& d.description_view() == value.1.common().description@
            &&& d.cfg() == value.1
        },
{
}

} // verus!
