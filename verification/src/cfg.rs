use vstd::prelude::*;

use crate::job::params::{
    CommandParams, MockParams, ParallelParams, SequentialParams, ShellParams, WatchParams,
};

verus! {

/// Who may run a job directly: a public job may be named on the command
/// line, a private one only from within other jobs.
#[derive(Clone, Copy, Debug, PartialEq, Eq, Structural)]
pub enum Visibility {
    Public,
    Private,
}

impl Visibility {
    pub fn is_public(&self) -> (res: bool)
        ensures
            res == (*self == Visibility::Public),
    {
        matches!(self, Visibility::Public)
    }
}

impl Default for Visibility {
    /// Jobs are public unless their definition says otherwise.
    fn default() -> (res: Self)
        ensures
            res == Visibility::Public,
    {
        Visibility::Public
    }
}

/// The settings that every mode shares.
pub struct CommonCfg {
    pub visibility: Visibility,
    pub description: String,
}

impl CommonCfg {
    pub fn new(visibility: Visibility, description: String) -> (res: Self)
        ensures
            res.visibility == visibility,
            res.description == description,
    {
        CommonCfg { visibility, description }
    }
}

impl Default for CommonCfg {
    /// A public job with an empty description.
    fn default() -> (res: Self)
        ensures
            res.visibility == Visibility::Public,
            res.description@ == Seq::<char>::empty(),
    {
        CommonCfg { visibility: Visibility::Public, description: String::new() }
    }
}

pub struct CommandCfg {
    pub common: CommonCfg,
    pub params: CommandParams,
}

pub struct ShellCfg {
    pub common: CommonCfg,
    pub params: ShellParams,
}

pub struct ParallelCfg {
    pub common: CommonCfg,
    pub params: ParallelParams,
}

pub struct SequentialCfg {
    pub common: CommonCfg,
    pub params: SequentialParams,
}

pub struct WatchCfg {
    pub common: CommonCfg,
    pub params: WatchParams,
}

pub struct MockCfg {
    pub common: CommonCfg,
    pub params: MockParams,
}

/// One job as the configuration file defines it.
pub enum JobCfg {
    Command(CommandCfg),
    Parallel(ParallelCfg),
    Sequential(SequentialCfg),
    Shell(ShellCfg),
    Watch(WatchCfg),
    Mock(MockCfg),
}

impl JobCfg {
    /// The settings shared by every mode, whichever mode this is.
    pub open spec fn common(self) -> CommonCfg {
        match self {
            JobCfg::Command(c) => c.common,
            JobCfg::Parallel(c) => c.common,
            JobCfg::Sequential(c) => c.common,
            JobCfg::Shell(c) => c.common,
            JobCfg::Watch(c) => c.common,
            JobCfg::Mock(c) => c.common,
        }
    }

    pub fn common_ref(&self) -> (res: &CommonCfg)
        ensures
            *res == self.common(),
    {
        match self {
            JobCfg::Command(c) => &c.common,
            JobCfg::Parallel(c) => &c.common,
            JobCfg::Sequential(c) => &c.common,
            JobCfg::Shell(c) => &c.common,
            JobCfg::Watch(c) => &c.common,
            JobCfg::Mock(c) => &c.common,
        }
    }

    pub fn visibility(&self) -> (res: &Visibility)
        ensures
            *res == self.common().visibility,
    {
        &self.common_ref().visibility
    }

    pub fn description(&self) -> (res: String)
        ensures
            res == self.common().description,
    {
        self.common_ref().description.clone()
    }
}

} // verus!
