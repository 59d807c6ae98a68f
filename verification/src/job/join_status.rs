use vstd::prelude::*;

verus! {

/// How a finished job ended.
#[derive(Clone, Copy, Debug, PartialEq, Eq, Structural)]
pub enum JoinStatus {
    Succeed,
    Failed,
}

impl JoinStatus {
    pub fn is_succeed(&self) -> (res: bool)
        ensures
            res == (*self == JoinStatus::Succeed),
    {
        matches!(self, JoinStatus::Succeed)
    }

    pub fn is_failed(&self) -> (res: bool)
        ensures
            res == (*self == JoinStatus::Failed),
    {
        matches!(self, JoinStatus::Failed)
    }
}

/// A status is exactly one of succeeded and failed.
pub proof fn lemma_join_status_exclusive(s: JoinStatus)
    ensures
        (s == JoinStatus::Succeed) != (s == JoinStatus::Failed),
{
}

} // verus!
