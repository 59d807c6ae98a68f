use vstd::prelude::*;

verus! {

/// What can go wrong while building, validating and running jobs.
#[derive(Debug)]
pub enum JfError {
    /// No job definition carries the name.
    JobdefNotFound(String),
    /// A private job was asked for by an agent that may not see it.
    UnexpectedVisibilityPrivate(String),
    /// A mode that needs at least one job was given none; holds the mode's name.
    MustHaveAtLeastOneJob(String),
    /// The output of the child process for the command could not be taken.
    FailedToHandleStdout(String),
    /// An error described by its message alone.
    Custom(String),
    /// Several errors, in the order in which they were found.
    Multi(Vec<JfError>),
}

/// The mathematical form of a [`JfError`]: its strings as character sequences.
pub enum JfErrorView {
    JobdefNotFound(Seq<char>),
    UnexpectedVisibilityPrivate(Seq<char>),
    MustHaveAtLeastOneJob(Seq<char>),
    FailedToHandleStdout(Seq<char>),
    Custom(Seq<char>),
    Multi(Seq<JfErrorView>),
}

pub open spec fn error_view(e: JfError) -> JfErrorView
    decreases e,
{
    match e {
        JfError::JobdefNotFound(s) => JfErrorView::JobdefNotFound(s@),
        JfError::UnexpectedVisibilityPrivate(s) => JfErrorView::UnexpectedVisibilityPrivate(s@),
        JfError::MustHaveAtLeastOneJob(s) => JfErrorView::MustHaveAtLeastOneJob(s@),
        JfError::FailedToHandleStdout(s) => JfErrorView::FailedToHandleStdout(s@),
        JfError::Custom(s) => JfErrorView::Custom(s@),
        JfError::Multi(v) => JfErrorView::Multi(errors_view(v@)),
    }
}

pub open spec fn errors_view(s: Seq<JfError>) -> Seq<JfErrorView>
    decreases s,
{
    if s.len() == 0 {
        Seq::empty()
    } else {
        errors_view(s.drop_last()).push(error_view(s.last()))
    }
}

impl View for JfError {
    type V = JfErrorView;

    open spec fn view(&self) -> JfErrorView {
        error_view(*self)
    }
}

pub type JfResult<T> = Result<T, JfError>;

/// The message that tells a user what went wrong.
pub open spec fn message_spec(e: JfErrorView) -> Seq<char>
    decreases e,
{
    match e {
        JfErrorView::JobdefNotFound(name) => "Jobdef(name="@ + name + ") not found"@,
        JfErrorView::UnexpectedVisibilityPrivate(name) => "job "@ + name
            + " is private and cannot be run directly"@,
        JfErrorView::MustHaveAtLeastOneJob(mode) => "mode="@ + mode + " must have at least one job"@,
        JfErrorView::FailedToHandleStdout(command) => "failed to handle the output of "@ + command,
        JfErrorView::Custom(msg) => msg,
        JfErrorView::Multi(es) => messages_spec(es),
    }
}

/// The messages of `es`, one per line.
pub open spec fn messages_spec(es: Seq<JfErrorView>) -> Seq<char>
    decreases es,
{
    if es.len() == 0 {
        Seq::empty()
    } else if es.len() == 1 {
        message_spec(es[0])
    } else {
        messages_spec(es.drop_last()) + "\n"@ + message_spec(es.last())
    }
}

proof fn lemma_errors_view_len(s: Seq<JfError>)
    ensures
        errors_view(s).len() == s.len(),
        forall|i: int| 0 <= i < s.len() ==> #[trigger] errors_view(s)[i] == error_view(s[i]),
    decreases s.len(),
{
    if s.len() > 0 {
        lemma_errors_view_len(s.drop_last());
        assert forall|i: int| 0 <= i < s.len() implies #[trigger] errors_view(s)[i] == error_view(
            s[i],
        ) by {
            if i < s.len() - 1 {
                assert(s.drop_last()[i] == s[i]);
            }
        }
    }
}

impl JfError {
    /// The message that tells a user what went wrong; the messages of
    /// several errors stand one per line.
    pub fn message(&self) -> (res: String)
        ensures
            res@ == message_spec(self@),
        decreases self,
    {
        match self {
            JfError::JobdefNotFound(name) => {
                let res = String::from_str("Jobdef(name=").concat(name.as_str()).concat(
                    ") not found",
                );
                assert(res@ =~= message_spec(self@));
                res
            },
            JfError::UnexpectedVisibilityPrivate(name) => {
                let res = String::from_str("job ").concat(name.as_str()).concat(
                    " is private and cannot be run directly",
                );
                assert(res@ =~= message_spec(self@));
                res
            },
            JfError::MustHaveAtLeastOneJob(mode) => {
                let res = String::from_str("mode=").concat(mode.as_str()).concat(
                    " must have at least one job",
                );
                assert(res@ =~= message_spec(self@));
                res
            },
            JfError::FailedToHandleStdout(command) => {
                let res = String::from_str("failed to handle the output of ").concat(
                    command.as_str(),
                );
                assert(res@ =~= message_spec(self@));
                res
            },
            JfError::Custom(msg) => msg.clone(),
            JfError::Multi(errs) => {
                let mut res = String::new();
                let mut i: usize = 0;
                proof {
                    assert(errs@.take(0) =~= Seq::<JfError>::empty());
                }
                while i < errs.len()
                    invariant
                        0 <= i <= errs@.len(),
                        *self == JfError::Multi(*errs),
                        res@ == messages_spec(errors_view(errs@.take(i as int))),
                    decreases errs@.len() - i,
                {
                    let ghost before = errs@.take(i as int);
                    let ghost after = errs@.take(i + 1);
                    proof {
                        assert(after.drop_last() =~= before);
                        assert(after.last() == errs@[i as int]);
                        lemma_errors_view_len(before);
                        lemma_errors_view_len(after);
                        assert(errors_view(after).drop_last() =~= errors_view(before));
                        assert(decreases_to!(*self => self->Multi_0));
                        assert(decreases_to!(*errs => errs@));
                        assert(decreases_to!(errs@ => errs@[i as int]));
                    }
                    let m = errs[i].message();
                    if i == 0 {
                        res = m;
                    } else {
                        res = res.concat("\n").concat(m.as_str());
                    }
                    proof {
                        assert(res@ =~= messages_spec(errors_view(after)));
                    }
                    i = i + 1;
                }
                proof {
                    assert(errs@.take(i as int) =~= errs@);
                }
                res
            },
        }
    }
}

} // verus!
