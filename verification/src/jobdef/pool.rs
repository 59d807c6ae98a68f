use vstd::prelude::*;

use super::{visible_to, Agent, Jobdef};
use crate::cfg::Visibility;
use crate::error::{errors_view, JfError, JfErrorView, JfResult};
use crate::job::construct::{build_cfg_spec, lemma_build_cfg_budget, result_view};
use crate::job::Job;

verus! {

/// Whether some definition in `defs` is named `name`.
pub open spec fn has_name(defs: Seq<Jobdef>, name: Seq<char>) -> bool {
    exists|i: int| 0 <= i < defs.len() && (#[trigger] defs[i]).name_view() == name
}

/// The definition named `name`, if there is one.
pub open spec fn lookup(defs: Seq<Jobdef>, name: Seq<char>) -> Option<Jobdef> {
    if has_name(defs, name) {
        Some(defs[choose|i: int| 0 <= i < defs.len() && (#[trigger] defs[i]).name_view() == name])
    } else {
        None
    }
}

/// No two definitions share a name.
pub open spec fn names_distinct(defs: Seq<Jobdef>) -> bool {
    forall|i: int, j: int|
        0 <= i < defs.len() && 0 <= j < defs.len() && i != j ==> (#[trigger] defs[i]).name_view()
            != (#[trigger] defs[j]).name_view()
}

/// The last definition in `defs` named `name`, if there is one.
pub open spec fn last_with_name(defs: Seq<Jobdef>, name: Seq<char>) -> Option<Jobdef>
    decreases defs.len(),
{
    if defs.len() == 0 {
        None
    } else if defs.last().name_view() == name {
        Some(defs.last())
    } else {
        last_with_name(defs.drop_last(), name)
    }
}

/// The names of the public definitions, in order.
pub open spec fn public_names(defs: Seq<Jobdef>) -> Seq<Seq<char>>
    decreases defs.len(),
{
    if defs.len() == 0 {
        Seq::empty()
    } else if defs.last().visibility_view() == Visibility::Public {
        public_names(defs.drop_last()).push(defs.last().name_view())
    } else {
        public_names(defs.drop_last())
    }
}

/// Whether every definition in `defs` builds without running out of nesting.
pub open spec fn all_build(defs: Seq<Jobdef>, within: Seq<Jobdef>) -> bool {
    forall|i: int|
        0 <= i < defs.len() ==> build_cfg_spec(within, (#[trigger] defs[i]).cfg(), usize::MAX as nat)
            is Some
}

/// The errors of the definitions in `defs` that fail to build, in order.
pub open spec fn build_errors(defs: Seq<Jobdef>, within: Seq<Jobdef>) -> Seq<JfErrorView>
    decreases defs.len(),
{
    if defs.len() == 0 {
        Seq::empty()
    } else {
        match build_cfg_spec(within, defs.last().cfg(), usize::MAX as nat) {
            Some(Err(e)) => build_errors(defs.drop_last(), within).push(e),
            _ => build_errors(defs.drop_last(), within),
        }
    }
}

/// What building the job named `name` for `agent` gives, with nesting unbounded
/// for practical purposes.
pub open spec fn pool_build_spec(defs: Seq<Jobdef>, name: Seq<char>, agent: Agent) -> Option<
    Result<crate::job::JobView, JfErrorView>,
> {
    match lookup(defs, name) {
        None => Some(Err(JfErrorView::JobdefNotFound(name))),
        Some(d) => if !visible_to(d.visibility_view(), agent) {
            Some(Err(JfErrorView::UnexpectedVisibilityPrivate(d.name_view())))
        } else {
            build_cfg_spec(defs, d.cfg(), usize::MAX as nat)
        },
    }
}

pub proof fn lemma_lookup_at(defs: Seq<Jobdef>, name: Seq<char>, j: int)
    requires
        names_distinct(defs),
        0 <= j < defs.len(),
        defs[j].name_view() == name,
    ensures
        lookup(defs, name) == Some(defs[j]),
{
    assert(has_name(defs, name));
    let i = choose|i: int| 0 <= i < defs.len() && (#[trigger] defs[i]).name_view() == name;
    assert(i == j);
}

/// The public names of distinct definitions are distinct, and are exactly
/// the names of the public definitions.
pub proof fn lemma_public_names(defs: Seq<Jobdef>)
    requires
        names_distinct(defs),
    ensures
        public_names(defs).no_duplicates(),
        forall|name: Seq<char>|
            #![trigger public_names(defs).contains(name)]
            public_names(defs).contains(name) <==> (exists|i: int|
                0 <= i < defs.len() && (#[trigger] defs[i]).name_view() == name
                    && defs[i].visibility_view() == Visibility::Public),
    decreases defs.len(),
{
    if defs.len() > 0 {
        let init = defs.drop_last();
        assert(names_distinct(init)) by {
            assert forall|a: int, b: int|
                0 <= a < init.len() && 0 <= b < init.len() && a != b implies (#[trigger] init[a]).name_view()
                != (#[trigger] init[b]).name_view() by {
                assert(init[a] == defs[a]);
                assert(init[b] == defs[b]);
            }
        }
        lemma_public_names(init);
        let last = defs.last();
        assert forall|name: Seq<char>|
            #![trigger public_names(defs).contains(name)]
            public_names(defs).contains(name) <==> (exists|i: int|
                0 <= i < defs.len() && (#[trigger] defs[i]).name_view() == name
                    && defs[i].visibility_view() == Visibility::Public) by {
            if exists|i: int|
                0 <= i < defs.len() && (#[trigger] defs[i]).name_view() == name
                    && defs[i].visibility_view() == Visibility::Public {
                let i = choose|i: int|
                    0 <= i < defs.len() && (#[trigger] defs[i]).name_view() == name
                        && defs[i].visibility_view() == Visibility::Public;
                if i < init.len() {
                    assert(init[i] == defs[i]);
                    assert(public_names(init).contains(name));
                    if last.visibility_view() == Visibility::Public {
                        assert(public_names(defs) == public_names(init).push(last.name_view()));
                        let k = public_names(init).index_of(name);
                        assert(public_names(defs)[k] == name);
                    }
                } else {
                    assert(public_names(defs) == public_names(init).push(last.name_view()));
                    assert(public_names(defs)[public_names(init).len() as int] == name);
                }
            }
            if public_names(defs).contains(name) {
                if last.visibility_view() == Visibility::Public && name == last.name_view() {
                    assert(defs[defs.len() - 1] == last);
                } else {
                    if last.visibility_view() == Visibility::Public {
                        let k = public_names(defs).index_of(name);
                        assert(k < public_names(init).len());
                        assert(public_names(init)[k] == name);
                    }
                    assert(public_names(init).contains(name));
                    let i = choose|i: int|
                        0 <= i < init.len() && (#[trigger] init[i]).name_view() == name
                            && init[i].visibility_view() == Visibility::Public;
                    assert(defs[i] == init[i]);
                }
            }
        }
        if last.visibility_view() == Visibility::Public {
            assert(!public_names(init).contains(last.name_view())) by {
                if public_names(init).contains(last.name_view()) {
                    let i = choose|i: int|
                        0 <= i < init.len() && (#[trigger] init[i]).name_view() == last.name_view()
                            && init[i].visibility_view() == Visibility::Public;
                    assert(defs[i] == init[i]);
                    assert(defs[defs.len() - 1] == last);
                }
            }
            let ps = public_names(defs);
            assert forall|a: int, b: int|
                0 <= a < ps.len() && 0 <= b < ps.len() && a != b implies ps[a] != ps[b] by {
                if a == ps.len() - 1 {
                    assert(public_names(init)[b] == ps[b]);
                } else if b == ps.len() - 1 {
                    assert(public_names(init)[a] == ps[a]);
                } else {
                    assert(public_names(init)[a] == ps[a]);
                    assert(public_names(init)[b] == ps[b]);
                }
            }
        }
    }
}

/// Validation finds no error exactly when every definition builds.
pub proof fn lemma_build_errors_empty(defs: Seq<Jobdef>, within: Seq<Jobdef>)
    requires
        all_build(defs, within),
    ensures
        build_errors(defs, within).len() == 0 <==> forall|i: int|
            0 <= i < defs.len() ==> build_cfg_spec(within, (#[trigger] defs[i]).cfg(), usize::MAX as nat)
                matches Some(Ok(_)),
    decreases defs.len(),
{
    if defs.len() > 0 {
        let init = defs.drop_last();
        assert(all_build(init, within)) by {
            assert forall|i: int| 0 <= i < init.len() implies build_cfg_spec(
                within,
                (#[trigger] init[i]).cfg(),
                usize::MAX as nat,
            ) is Some by {
                assert(init[i] == defs[i]);
            }
        }
        lemma_build_errors_empty(init, within);
        assert(build_cfg_spec(within, defs[defs.len() - 1].cfg(), usize::MAX as nat) is Some);
        if forall|i: int|
            0 <= i < defs.len() ==> build_cfg_spec(within, (#[trigger] defs[i]).cfg(), usize::MAX as nat)
                matches Some(Ok(_)) {
            assert forall|i: int| 0 <= i < init.len() implies build_cfg_spec(
                within,
                (#[trigger] init[i]).cfg(),
                usize::MAX as nat,
            ) matches Some(Ok(_)) by {
                assert(init[i] == defs[i]);
            }
            assert(build_cfg_spec(within, defs[defs.len() - 1].cfg(), usize::MAX as nat) matches Some(Ok(_)));
        }
        if build_errors(defs, within).len() == 0 {
            assert(build_errors(init, within).len() == 0);
            assert forall|i: int|
                0 <= i < defs.len() implies build_cfg_spec(
                within,
                (#[trigger] defs[i]).cfg(),
                usize::MAX as nat,
            ) matches Some(Ok(_)) by {
                if i < init.len() {
                    assert(init[i] == defs[i]);
                }
            }
        }
    }
}

/// The index of the definition named `name`, if there is one.
fn position_of(defs: &Vec<Jobdef>, name: &String) -> (res: Option<usize>)
    ensures
        match res {
            Some(j) => j < defs@.len() && defs@[j as int].name_view() == name@,
            None => forall|k: int| 0 <= k < defs@.len() ==> (#[trigger] defs@[k]).name_view() != name@,
        },
{
    let mut j: usize = 0;
    while j < defs.len()
        invariant
            0 <= j <= defs@.len(),
            forall|k: int| 0 <= k < j ==> (#[trigger] defs@[k]).name_view() != name@,
        decreases defs.len() - j,
    {
        if *defs[j].name() == *name {
            return Some(j);
        }
        j = j + 1;
    }
    None
}

proof fn lemma_lookup_set(defs: Seq<Jobdef>, j: int, d: Jobdef)
    requires
        names_distinct(defs),
        0 <= j < defs.len(),
        defs[j].name_view() == d.name_view(),
    ensures
        names_distinct(defs.update(j, d)),
        forall|name: Seq<char>| #[trigger]
            lookup(defs.update(j, d), name) == if name == d.name_view() {
                Some(d)
            } else {
                lookup(defs, name)
            },
{
    let nd = defs.update(j, d);
    assert(names_distinct(nd)) by {
        assert forall|a: int, b: int|
            0 <= a < nd.len() && 0 <= b < nd.len() && a != b implies (#[trigger] nd[a]).name_view()
            != (#[trigger] nd[b]).name_view() by {
            assert(nd[a].name_view() == defs[a].name_view());
            assert(nd[b].name_view() == defs[b].name_view());
        }
    }
    assert forall|name: Seq<char>| #[trigger]
        lookup(nd, name) == if name == d.name_view() {
            Some(d)
        } else {
            lookup(defs, name)
        } by {
        if name == d.name_view() {
            lemma_lookup_at(nd, name, j);
        } else if has_name(defs, name) {
            let i = choose|i: int| 0 <= i < defs.len() && (#[trigger] defs[i]).name_view() == name;
            lemma_lookup_at(defs, name, i);
            lemma_lookup_at(nd, name, i);
        } else {
            assert(!has_name(nd, name)) by {
                if has_name(nd, name) {
                    let i = choose|i: int| 0 <= i < nd.len() && (#[trigger] nd[i]).name_view() == name;
                    assert(defs[i].name_view() == name);
                }
            }
        }
    }
}

proof fn lemma_lookup_push(defs: Seq<Jobdef>, d: Jobdef)
    requires
        names_distinct(defs),
        forall|k: int| 0 <= k < defs.len() ==> (#[trigger] defs[k]).name_view() != d.name_view(),
    ensures
        names_distinct(defs.push(d)),
        forall|name: Seq<char>| #[trigger]
            lookup(defs.push(d), name) == if name == d.name_view() {
                Some(d)
            } else {
                lookup(defs, name)
            },
{
    let nd = defs.push(d);
    assert(names_distinct(nd)) by {
        assert forall|a: int, b: int|
            0 <= a < nd.len() && 0 <= b < nd.len() && a != b implies (#[trigger] nd[a]).name_view()
            != (#[trigger] nd[b]).name_view() by {
            if a < defs.len() {
                assert(nd[a] == defs[a]);
            }
            if b < defs.len() {
                assert(nd[b] == defs[b]);
            }
        }
    }
    assert forall|name: Seq<char>| #[trigger]
        lookup(nd, name) == if name == d.name_view() {
            Some(d)
        } else {
            lookup(defs, name)
        } by {
        if name == d.name_view() {
            lemma_lookup_at(nd, name, defs.len() as int);
        } else if has_name(defs, name) {
            let i = choose|i: int| 0 <= i < defs.len() && (#[trigger] defs[i]).name_view() == name;
            lemma_lookup_at(defs, name, i);
            assert(nd[i] == defs[i]);
            lemma_lookup_at(nd, name, i);
        } else {
            assert(!has_name(nd, name)) by {
                if has_name(nd, name) {
                    let i = choose|i: int| 0 <= i < nd.len() && (#[trigger] nd[i]).name_view() == name;
                    assert(i < defs.len());
                    assert(nd[i] == defs[i]);
                }
            }
        }
    }
}

/// The job definitions of a configuration, found by name.
///
/// The definitions are kept in a `Vec` rather than a hash map keyed by name:
/// Verus gives `HashMap` lookups with `String` keys no usable result, so a
/// lookup could not be stated. The map's properties are stated instead as the
/// type invariant that no name occurs twice, and by `new`, under which the
/// later of two definitions with one name wins, as an insertion into a map
/// would have it.
pub struct JobdefPool {
    defs: Vec<Jobdef>,
}

impl View for JobdefPool {
    type V = Seq<Jobdef>;

    closed spec fn view(&self) -> Seq<Jobdef> {
        self.defs@
    }
}

impl JobdefPool {
    #[verifier::type_invariant]
    spec fn names_unique(self) -> bool {
        names_distinct(self.defs@)
    }

    /// A pool of `jobdefs`; where two definitions share a name, the later wins.
    pub fn new(jobdefs: Vec<Jobdef>) -> (res: Self)
        ensures
            forall|name: Seq<char>| #[trigger]
                lookup(res@, name) == last_with_name(jobdefs@, name),
            names_distinct(res@),
    {
        let ghost input = jobdefs@;
        let mut rest = jobdefs;
        let mut defs: Vec<Jobdef> = Vec::new();
        let ghost mut taken: int = 0;
        while rest.len() > 0
            invariant
                0 <= taken <= input.len(),
                rest@ == input.skip(taken),
                names_distinct(defs@),
                forall|name: Seq<char>| #[trigger]
                    lookup(defs@, name) == last_with_name(input.take(taken), name),
            decreases rest.len(),
        {
            let d = rest.remove(0);
            proof {
                assert(d == input[taken]);
                assert(input.take(taken + 1).drop_last() =~= input.take(taken));
                assert(input.take(taken + 1).last() == d);
                assert(rest@ =~= input.skip(taken + 1));
            }
            let ghost old_defs = defs@;
            match position_of(&defs, d.name()) {
                Some(j) => {
                    proof {
                        lemma_lookup_set(old_defs, j as int, d);
                    }
                    defs.set(j, d);
                },
                None => {
                    proof {
                        lemma_lookup_push(old_defs, d);
                    }
                    defs.push(d);
                },
            }
            proof {
                taken = taken + 1;
            }
        }
        assert(input.take(input.len() as int) =~= input);
        JobdefPool { defs }
    }

    /// The definition named `job_name`.
    pub fn get(&self, job_name: String) -> (res: JfResult<&Jobdef>)
        ensures
            match lookup(self@, job_name@) {
                None => res matches Err(e) && e@ == JfErrorView::JobdefNotFound(job_name@),
                Some(d) => res matches Ok(r) && *r == d,
            },
    {
        proof {
            use_type_invariant(self);
        }
        match position_of(&self.defs, &job_name) {
            Some(j) => {
                proof {
                    lemma_lookup_at(self.defs@, job_name@, j as int);
                }
                Ok(&self.defs[j])
            },
            None => Err(JfError::JobdefNotFound(job_name)),
        }
    }

    /// The names of the public definitions.
    pub fn list_public(&self) -> (res: Vec<String>)
        ensures
            res.deep_view() == public_names(self@),
    {
        let mut res: Vec<String> = Vec::new();
        let mut i: usize = 0;
        while i < self.defs.len()
            invariant
                0 <= i <= self@.len(),
                res.deep_view() == public_names(self@.take(i as int)),
            decreases self@.len() - i,
        {
            let d = &self.defs[i];
            proof {
                assert(self@.take(i + 1).drop_last() =~= self@.take(i as int));
                assert(self@.take(i + 1).last() == *d);
            }
            if d.is_public() {
                let ghost before = res.deep_view();
                res.push(d.name().clone());
                assert(res.deep_view() =~= before.push(d.name_view()));
            }
            i = i + 1;
        }
        assert(self@.take(i as int) =~= self@);
        res
    }

    /// Builds every definition on behalf of a job; fails with all the errors
    /// found, in order, when any fails.
    pub fn validate(&self) -> (res: JfResult<()>)
        requires
            all_build(self@, self@),
        ensures
            res is Ok <==> build_errors(self@, self@).len() == 0,
            res matches Err(e) ==> e@ == JfErrorView::Multi(build_errors(self@, self@)),
    {
        let mut errs: Vec<JfError> = Vec::new();
        let mut i: usize = 0;
        while i < self.defs.len()
            invariant
                0 <= i <= self@.len(),
                all_build(self@, self@),
                crate::error::errors_view(errs@) == build_errors(self@.take(i as int), self@),
            decreases self@.len() - i,
        {
            let d = &self.defs[i];
            proof {
                assert(self@.take(i + 1).drop_last() =~= self@.take(i as int));
                assert(self@.take(i + 1).last() == *d);
                assert(build_cfg_spec(self@, self@[i as int].cfg(), usize::MAX as nat) is Some);
            }
            match d.build(self, Agent::Job) {
                Ok(_) => {},
                Err(e) => {
                    let ghost before = errs@;
                    errs.push(e);
                    assert(errs@.drop_last() =~= before);
                },
            }
            i = i + 1;
        }
        assert(self@.take(i as int) =~= self@);
        if errs.len() == 0 {
            Ok(())
        } else {
            Err(JfError::Multi(errs))
        }
    }

    /// Builds the job named `job_name` for `agent`.
    pub fn build(&self, job_name: String, agent: Agent) -> (res: JfResult<Job>)
        requires
            pool_build_spec(self@, job_name@, agent) is Some,
        ensures
            result_view(res) == pool_build_spec(self@, job_name@, agent)->0,
    {
        let d = self.get(job_name)?;
        d.build(self, agent)
    }

    /// The description of the definition named `job_name`.
    pub fn description(&self, job_name: String) -> (res: JfResult<&String>)
        ensures
            match lookup(self@, job_name@) {
                None => res matches Err(e) && e@ == JfErrorView::JobdefNotFound(job_name@),
                Some(d) => res matches Ok(r) && r@ == d.description_view(),
            },
    {
        Ok(self.get(job_name)?.description())
    }

    /// The number of definitions.
    pub fn len(&self) -> (res: usize)
        ensures
            res == self@.len(),
    {
        self.defs.len()
    }

    /// Whether every definition builds within `max_depth` levels of nesting.
    /// When it does, every definition builds, so that `validate` and `build`
    /// may be called. Definitions that refer to each other in a cycle, and are
    /// not stopped by an earlier error, never build within any depth.
    pub fn nesting_within(&self, max_depth: usize) -> (res: bool)
        ensures
            res == forall|k: int|
                0 <= k < self@.len() ==> build_cfg_spec(
                    self@,
                    (#[trigger] self@[k]).cfg(),
                    max_depth as nat,
                ) is Some,
            res ==> all_build(self@, self@),
            res ==> forall|name: Seq<char>, agent: Agent| #[trigger]
                pool_build_spec(self@, name, agent) is Some,
    {
        let mut i: usize = 0;
        while i < self.defs.len()
            invariant
                0 <= i <= self@.len(),
                forall|k: int| 0 <= k < i ==> build_cfg_spec(
                    self@,
                    (#[trigger] self@[k]).cfg(),
                    usize::MAX as nat,
                ) is Some,
                forall|k: int| 0 <= k < i ==> build_cfg_spec(
                    self@,
                    (#[trigger] self@[k]).cfg(),
                    max_depth as nat,
                ) is Some,
            decreases self@.len() - i,
        {
            let within = Job::new_within(self.defs[i].job_cfg(), self, max_depth);
            if within.is_none() {
                assert(build_cfg_spec(self@, self@[i as int].cfg(), max_depth as nat) is None);
                return false;
            }
            proof {
                lemma_build_cfg_budget(
                    self@,
                    self@[i as int].cfg(),
                    max_depth as nat,
                    usize::MAX as nat,
                );
            }
            i = i + 1;
        }
        assert forall|name: Seq<char>, agent: Agent| #[trigger]
            pool_build_spec(self@, name, agent) is Some by {
            if has_name(self@, name) {
                let k = choose|k: int|
                    0 <= k < self@.len() && (#[trigger] self@[k]).name_view() == name;
                assert(build_cfg_spec(self@, self@[k].cfg(), usize::MAX as nat) is Some);
            }
        }
        true
    }
}

} // verus!
