//! The repositories whose indexation is admitted or running.
use vstd::prelude::*;

verus! {

/// A set of names, none stored twice. The names are kept in a vector whose
/// no-duplicates invariant is stated and proved, so what is known of the set
/// rests on its own code.
struct NameSet {
    names: Vec<String>,
}

/// Outcome of a check-and-insert on a set: the new set, and whether the name
/// was absent.
pub open spec fn acquire_spec(held: Set<Seq<char>>, name: Seq<char>) -> (Set<Seq<char>>, bool) {
    (held.insert(name), !held.contains(name))
}

/// At most one indexation job per repository.
///
/// A request to index a repository is admitted when no indexation of it is
/// admitted or running; the job that the request leads to then runs under the
/// name, and a job starts only for a name that no job runs under. The name is
/// released when the job finishes or fails.
///
/// The guard itself is sequential; whoever shares it between tasks holds it
/// behind a lock, so that each operation is atomic.
pub struct IndexationGuard {
    admitted: NameSet,
    running: NameSet,
}

/// Admission of a request for `name`, given the admitted and running names:
/// the new sets, and whether the request was admitted.
pub open spec fn admit_spec(a: Set<Seq<char>>, r: Set<Seq<char>>, name: Seq<char>) -> (Set<Seq<char>>, Set<Seq<char>>, bool) {
    if a.contains(name) || r.contains(name) {
        (a, r, false)
    } else {
        (a.insert(name), r, true)
    }
}

/// Start of a job for `name`: the new sets, and whether the job may run.
pub open spec fn start_spec(a: Set<Seq<char>>, r: Set<Seq<char>>, name: Seq<char>) -> (Set<Seq<char>>, Set<Seq<char>>, bool) {
    if r.contains(name) {
        (a, r, false)
    } else {
        (a.remove(name), r.insert(name), true)
    }
}

/// The sets, and how many attempts succeeded, after `n` starts of jobs for
/// one name, with no release in between (the lock orders concurrent jobs).
pub open spec fn start_run(a: Set<Seq<char>>, r: Set<Seq<char>>, name: Seq<char>, n: nat) -> (Set<Seq<char>>, Set<Seq<char>>, nat)
    decreases n,
{
    if n == 0 {
        (a, r, 0)
    } else {
        let (a1, r1, c) = start_run(a, r, name, (n - 1) as nat);
        let (a2, r2, ok) = start_spec(a1, r1, name);
        (a2, r2, if ok { c + 1 } else { c })
    }
}

/// The same for `n` requests admitted at the boundary.
pub open spec fn admit_run(a: Set<Seq<char>>, r: Set<Seq<char>>, name: Seq<char>, n: nat) -> (Set<Seq<char>>, Set<Seq<char>>, nat)
    decreases n,
{
    if n == 0 {
        (a, r, 0)
    } else {
        let (a1, r1, c) = admit_run(a, r, name, (n - 1) as nat);
        let (a2, r2, ok) = admit_spec(a1, r1, name);
        (a2, r2, if ok { c + 1 } else { c })
    }
}

/// Of any number of jobs for one repository that start while none of them
/// has finished, exactly one runs when no job for it was running, and none
/// when one was; the name is running afterwards.
pub proof fn lemma_one_job_per_repository(a: Set<Seq<char>>, r: Set<Seq<char>>, name: Seq<char>, n: nat)
    requires
        n >= 1,
    ensures
        start_run(a, r, name, n).2 == (if r.contains(name) { 0nat } else { 1nat }),
        start_run(a, r, name, n).1.contains(name),
    decreases n,
{
    assert(start_run(a, r, name, 0) == (a, r, 0nat));
    if n > 1 {
        lemma_one_job_per_repository(a, r, name, (n - 1) as nat);
    }
}

/// Of any number of requests to index one repository that compete while its
/// indexation neither starts nor ends, exactly one is admitted when none was
/// admitted or running, and none otherwise.
pub proof fn lemma_one_admission_per_repository(a: Set<Seq<char>>, r: Set<Seq<char>>, name: Seq<char>, n: nat)
    requires
        n >= 1,
    ensures
        admit_run(a, r, name, n).2 == (if a.contains(name) || r.contains(name) { 0nat } else { 1nat }),
        admit_run(a, r, name, n).0.contains(name) || admit_run(a, r, name, n).1.contains(name),
    decreases n,
{
    assert(admit_run(a, r, name, 0) == (a, r, 0nat));
    if n > 1 {
        lemma_one_admission_per_repository(a, r, name, (n - 1) as nat);
    }
}

impl IndexationGuard {
    /// The names whose indexation request was admitted and whose job has not started.
    pub closed spec fn admitted(&self) -> Set<Seq<char>> {
        self.admitted.view()
    }

    /// The names a job runs under.
    pub closed spec fn running(&self) -> Set<Seq<char>> {
        self.running.view()
    }

    /// The names whose indexation is under way, admitted or running.
    pub open spec fn view(&self) -> Set<Seq<char>> {
        self.admitted().union(self.running())
    }

    /// An empty guard.
    pub fn new() -> (r: Self)
        ensures
            r.admitted() == Set::<Seq<char>>::empty(),
            r.running() == Set::<Seq<char>>::empty(),
    {
        IndexationGuard { admitted: NameSet::new(), running: NameSet::new() }
    }

    /// Whether an indexation of `name` is under way, admitted or running.
    pub fn contains(&self, name: &str) -> (r: bool)
        ensures
            r == self.view().contains(name@),
    {
        self.admitted.contains(name) || self.running.contains(name)
    }

    /// Whether a job runs under `name`.
    pub fn is_running(&self, name: &str) -> (r: bool)
        ensures
            r == self.running().contains(name@),
    {
        self.running.contains(name)
    }

    /// Admits a request for `name` unless an indexation of it is admitted or running.
    pub fn try_admit(&mut self, name: &str) -> (r: bool)
        ensures
            (final(self).admitted(), final(self).running(), r)
                == admit_spec(old(self).admitted(), old(self).running(), name@),
    {
        if self.running.contains(name) {
            return false;
        }
        self.admitted.try_acquire(name)
    }

    /// Starts a job under `name` unless a job runs under it already.
    pub fn try_start(&mut self, name: &str) -> (r: bool)
        ensures
            (final(self).admitted(), final(self).running(), r)
                == start_spec(old(self).admitted(), old(self).running(), name@),
    {
        if self.running.contains(name) {
            return false;
        }
        self.admitted.release(name);
        self.running.try_acquire(name);
        true
    }

    /// Idempotent removal of `name`, admitted or running.
    pub fn release(&mut self, name: &str)
        ensures
            final(self).admitted() == old(self).admitted().remove(name@),
            final(self).running() == old(self).running().remove(name@),
    {
        self.admitted.release(name);
        self.running.release(name);
    }
}

impl NameSet {
    /// The names in the set.
    closed spec fn view(&self) -> Set<Seq<char>> {
        Set::new(|n: Seq<char>| exists|i: int| 0 <= i < self.names@.len() && self.names@[i]@ == n)
    }

    /// No name is stored twice.
    #[verifier::type_invariant]
    closed spec fn wf(&self) -> bool {
        forall|i: int, j: int|
            0 <= i < self.names@.len() && 0 <= j < self.names@.len() && i != j
                ==> self.names@[i]@ != self.names@[j]@
    }

    /// An empty set.
    fn new() -> (r: Self)
        ensures
            r.view() == Set::<Seq<char>>::empty(),
    {
        let r = NameSet { names: Vec::new() };
        assert(r.view() =~= Set::<Seq<char>>::empty());
        r
    }

    fn position(&self, name: &str) -> (r: Option<usize>)
        ensures
            match r {
                Some(i) => i < self.names@.len() && self.names@[i as int]@ == name@,
                None => forall|i: int| 0 <= i < self.names@.len() ==> self.names@[i]@ != name@,
            },
    {
        let target = String::from_str(name);
        let mut i: usize = 0;
        while i < self.names.len()
            invariant
                i <= self.names@.len(),
                target@ == name@,
                forall|k: int| 0 <= k < i ==> self.names@[k]@ != name@,
            decreases self.names.len() - i,
        {
            if self.names[i] == target {
                return Some(i);
            }
            i = i + 1;
        }
        None
    }

    /// Whether `name` is in the set.
    fn contains(&self, name: &str) -> (r: bool)
        ensures
            r == self.view().contains(name@),
    {
        match self.position(name) {
            Some(_) => true,
            None => false,
        }
    }

    /// Check-and-insert: true when `name` was absent and now is in the set;
    /// false (and nothing changes) when it was there already.
    fn try_acquire(&mut self, name: &str) -> (r: bool)
        ensures
            (final(self).view(), r) == acquire_spec(old(self).view(), name@),
    {
        proof {
            use_type_invariant(&*self);
        }
        match self.position(name) {
            Some(_) => {
                assert(self.view().insert(name@) =~= self.view());
                false
            },
            None => {
                let ghost before = self.names@;
                let mut names: Vec<String> = Vec::new();
                std::mem::swap(&mut names, &mut self.names);
                names.push(String::from_str(name));
                assert(names@[before.len() as int]@ == name@);
                assert forall|i: int| 0 <= i < before.len() implies names@[i] == before[i] by {}
                self.names = names;
                assert(self.view() =~= old(self).view().insert(name@)) by {
                    assert forall|n: Seq<char>| #[trigger] self.view().contains(n) == old(self).view().insert(name@).contains(n) by {
                        if self.view().contains(n) {
                            let i = choose|i: int| 0 <= i < self.names@.len() && self.names@[i]@ == n;
                            if i < before.len() {
                                assert(old(self).names@[i]@ == n);
                            }
                        }
                        if old(self).view().contains(n) {
                            let i = choose|i: int| 0 <= i < old(self).names@.len() && old(self).names@[i]@ == n;
                            assert(self.names@[i]@ == n);
                        }
                    }
                }
                true
            },
        }
    }

    /// Idempotent removal of `name`.
    fn release(&mut self, name: &str)
        ensures
            final(self).view() == old(self).view().remove(name@),
    {
        proof {
            use_type_invariant(&*self);
        }
        match self.position(name) {
            None => {
                assert(self.view().remove(name@) =~= self.view());
            },
            Some(p) => {
                let ghost before = self.names@;
                let mut names: Vec<String> = Vec::new();
                std::mem::swap(&mut names, &mut self.names);
                names.remove(p);
                assert forall|i: int| 0 <= i < names@.len() implies names@[i] == (if i < p {
                    before[i]
                } else {
                    before[i + 1]
                }) by {}
                self.names = names;
                assert(self.view() =~= old(self).view().remove(name@)) by {
                    assert forall|n: Seq<char>| #[trigger] self.view().contains(n) == old(self).view().remove(name@).contains(n) by {
                        if self.view().contains(n) {
                            let i = choose|i: int| 0 <= i < self.names@.len() && self.names@[i]@ == n;
                            if i < p {
                                assert(before[i]@ == n);
                            } else {
                                assert(before[i + 1]@ == n);
                            }
                        }
                        if old(self).view().remove(name@).contains(n) {
                            let i = choose|i: int| 0 <= i < before.len() && before[i]@ == n;
                            assert(i != p);
                            if i < p {
                                assert(self.names@[i]@ == n);
                            } else {
                                assert(self.names@[i - 1]@ == n);
                            }
                        }
                    }
                }
            },
        }
    }
}

} // verus!
