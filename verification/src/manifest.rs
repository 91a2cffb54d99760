//! The manifest: the in-memory registry mapping named logs and named derived
//! iterators to their metadata. It enforces the registry invariants: log and
//! iterator names are unique, re-adding a log is a no-op that keeps the first
//! creation stamp, re-adding an iterator succeeds only when every field
//! matches, and deleting a log cascades to the iterators derived from it.

use vstd::prelude::*;

use crate::clock::now_seconds;
use crate::errors::Error;
use crate::name_map::{
    has_key, lemma_map_of_contains, lemma_map_of_index, lemma_map_of_len, lemma_map_of_push,
    lemma_map_of_remove, map_of, unique_keys,
};

verus! {

/// The manifest entry for a log, in mathematical form.
pub struct SpecLogRegistrant {
    pub name: Seq<char>,
    pub created_at: usize,
}

/// The manifest entry for an iterator, in mathematical form.
pub struct SpecItrRegistrant {
    pub log: Seq<char>,
    pub name: Seq<char>,
    pub kind: Seq<char>,
    pub func: Seq<char>,
}

/// The registry as a pair of finite maps from names to entries.
#[verifier::ext_equal]
pub struct SpecManifest {
    pub logs: Map<Seq<char>, SpecLogRegistrant>,
    pub itrs: Map<Seq<char>, SpecItrRegistrant>,
}

/// The manifest entry for a log.
pub struct LogRegistrant {
    pub name: String,
    pub created_at: usize,
}

impl View for LogRegistrant {
    type V = SpecLogRegistrant;

    open spec fn view(&self) -> SpecLogRegistrant {
        SpecLogRegistrant { name: self.name@, created_at: self.created_at }
    }
}

/// The manifest entry for an iterator: a named derived computation over a
/// log. `log` is referential only; the named log need not exist.
pub struct ItrRegistrant {
    pub log: String,
    pub name: String,
    pub kind: String,
    pub func: String,
}

impl View for ItrRegistrant {
    type V = SpecItrRegistrant;

    open spec fn view(&self) -> SpecItrRegistrant {
        SpecItrRegistrant { log: self.log@, name: self.name@, kind: self.kind@, func: self.func@ }
    }
}

/// State after registering a log: a fresh name is inserted with creation
/// stamp `now`; an existing name leaves the manifest untouched.
pub open spec fn spec_add_log(m: SpecManifest, name: Seq<char>, now: usize) -> SpecManifest {
    if m.logs.contains_key(name) {
        m
    } else {
        SpecManifest {
            logs: m.logs.insert(name, SpecLogRegistrant { name, created_at: now }),
            itrs: m.itrs,
        }
    }
}

/// The iterator entries whose source log is not `log`.
pub open spec fn itrs_without_log(
    itrs: Map<Seq<char>, SpecItrRegistrant>,
    log: Seq<char>,
) -> Map<Seq<char>, SpecItrRegistrant> {
    Map::new(|k: Seq<char>| itrs.contains_key(k) && itrs[k].log != log, |k: Seq<char>| itrs[k])
}

/// State after deleting a log: the log entry goes (its absence is not an
/// error), and every iterator derived from it goes with it.
pub open spec fn spec_del_log(m: SpecManifest, name: Seq<char>) -> SpecManifest {
    SpecManifest { logs: m.logs.remove(name), itrs: itrs_without_log(m.itrs, name) }
}

/// Registering an iterator succeeds when its name is free, or already bound
/// to an entry equal in every field.
pub open spec fn spec_add_itr_ok(m: SpecManifest, itr: SpecItrRegistrant) -> bool {
    !m.itrs.contains_key(itr.name) || m.itrs[itr.name] == itr
}

/// State after registering an iterator: inserted when the name is free;
/// otherwise the stored entry is kept, whether the call succeeds or not.
pub open spec fn spec_add_itr(m: SpecManifest, itr: SpecItrRegistrant) -> SpecManifest {
    if m.itrs.contains_key(itr.name) {
        m
    } else {
        SpecManifest { logs: m.logs, itrs: m.itrs.insert(itr.name, itr) }
    }
}

/// Deleting an iterator succeeds only when the name exists and its stored
/// source log equals the caller-supplied one.
pub open spec fn spec_del_itr_ok(m: SpecManifest, log: Seq<char>, name: Seq<char>) -> bool {
    m.itrs.contains_key(name) && m.itrs[name].log == log
}

/// State after deleting an iterator: removed on success, untouched on failure.
pub open spec fn spec_del_itr(m: SpecManifest, log: Seq<char>, name: Seq<char>) -> SpecManifest {
    if spec_del_itr_ok(m, log, name) {
        SpecManifest { logs: m.logs, itrs: m.itrs.remove(name) }
    } else {
        m
    }
}

/// The registry of database constructs. It maps the names of logs and
/// iterators to their metadata; it is held in memory and is transient.
pub struct Manifest {
    logs: Vec<LogRegistrant>,
    itrs: Vec<ItrRegistrant>,
}

impl Manifest {
    /// The log entries as (name, entry) pairs.
    pub closed spec fn log_pairs(&self) -> Seq<(Seq<char>, SpecLogRegistrant)> {
        self.logs@.map_values(|e: LogRegistrant| (e.name@, e@))
    }

    /// The iterator entries as (name, entry) pairs.
    pub closed spec fn itr_pairs(&self) -> Seq<(Seq<char>, SpecItrRegistrant)> {
        self.itrs@.map_values(|e: ItrRegistrant| (e.name@, e@))
    }

    /// Names are unique within the logs and within the iterators.
    pub closed spec fn wf(&self) -> bool {
        unique_keys(self.log_pairs()) && unique_keys(self.itr_pairs())
    }
}

impl View for Manifest {
    type V = SpecManifest;

    closed spec fn view(&self) -> SpecManifest {
        SpecManifest { logs: map_of(self.log_pairs()), itrs: map_of(self.itr_pairs()) }
    }
}

impl Manifest {

    pub fn new() -> (m: Manifest)
        ensures
            m.wf(),
            m@.logs == Map::<Seq<char>, SpecLogRegistrant>::empty(),
            m@.itrs == Map::<Seq<char>, SpecItrRegistrant>::empty(),
    {
        let m = Manifest { logs: Vec::new(), itrs: Vec::new() };
        proof {
            assert(m.log_pairs() =~= Seq::<(Seq<char>, SpecLogRegistrant)>::empty());
            assert(m.itr_pairs() =~= Seq::<(Seq<char>, SpecItrRegistrant)>::empty());
        }
        m
    }

    /// The index of the log entry named `name`, if one exists.
    fn find_log_index(&self, name: &String) -> (r: Option<usize>)
        ensures
            match r {
                Some(i) => i < self.logs@.len() && self.logs@[i as int].name@ == name@,
                None => !has_key(self.log_pairs(), name@),
            },
    {
        let mut i: usize = 0;
        while i < self.logs.len()
            invariant
                i <= self.logs@.len(),
                forall|j: int| 0 <= j < i ==> self.logs@[j].name@ != name@,
            decreases self.logs@.len() - i,
        {
            if self.logs[i].name == *name {
                return Some(i);
            }
            i += 1;
        }
        proof {
            if has_key(self.log_pairs(), name@) {
                let j = choose|j: int|
                    0 <= j < self.log_pairs().len() && self.log_pairs()[j].0 == name@;
                assert(self.log_pairs()[j].0 == self.logs@[j].name@);
            }
        }
        None
    }

    /// The index of the iterator entry named `name`, if one exists.
    fn find_itr_index(&self, name: &String) -> (r: Option<usize>)
        ensures
            match r {
                Some(i) => i < self.itrs@.len() && self.itrs@[i as int].name@ == name@,
                None => !has_key(self.itr_pairs(), name@),
            },
    {
        let mut i: usize = 0;
        while i < self.itrs.len()
            invariant
                i <= self.itrs@.len(),
                forall|j: int| 0 <= j < i ==> self.itrs@[j].name@ != name@,
            decreases self.itrs@.len() - i,
        {
            if self.itrs[i].name == *name {
                return Some(i);
            }
            i += 1;
        }
        proof {
            if has_key(self.itr_pairs(), name@) {
                let j = choose|j: int|
                    0 <= j < self.itr_pairs().len() && self.itr_pairs()[j].0 == name@;
                assert(self.itr_pairs()[j].0 == self.itrs@[j].name@);
            }
        }
        None
    }

    /// Register a log. A fresh name is inserted with the current time as its
    /// creation stamp; re-adding an existing name is a no-op, and the stamp
    /// recorded on the first insertion is kept. Never fails.
    pub fn add_log(&mut self, name: String)
        requires
            old(self).wf(),
        ensures
            final(self).wf(),
            exists|t: usize| final(self)@ == spec_add_log(old(self)@, name@, t),
    {
        let found = self.find_log_index(&name);
        match found {
            Some(i) => {
                proof {
                    lemma_map_of_index(self.log_pairs(), i as int);
                    assert(self.log_pairs()[i as int].0 == name@);
                    assert(self@.logs.contains_key(name@));
                    assert(self@ == spec_add_log(self@, name@, 0));
                }
            },
            None => {
                let ghost n: Seq<char> = name@;
                let ghost pre = *self;
                let t = now_seconds();
                let entry = LogRegistrant { name, created_at: t };
                self.logs.push(entry);
                proof {
                    assert(self.log_pairs() =~= pre.log_pairs().push(
                        (n, SpecLogRegistrant { name: n, created_at: t }),
                    ));
                    lemma_map_of_push(
                        pre.log_pairs(),
                        n,
                        SpecLogRegistrant { name: n, created_at: t },
                    );
                    lemma_map_of_contains(pre.log_pairs(), n);
                    assert(!pre@.logs.contains_key(n));
                    assert(self.itr_pairs() =~= pre.itr_pairs());
                    assert(unique_keys(self.log_pairs())) by {
                        assert forall|a: int, b: int|
                            0 <= a < b < self.log_pairs().len() implies self.log_pairs()[a].0
                            != self.log_pairs()[b].0 by {
                            if b == self.log_pairs().len() - 1 {
                                if self.log_pairs()[a].0 == n {
                                    assert(pre.log_pairs()[a].0 == n);
                                    lemma_map_of_index(pre.log_pairs(), a);
                                }
                            }
                        }
                    }
                    assert(self@ =~= spec_add_log(pre@, n, t));
                }
            },
        }
    }

    /// The index of some iterator entry whose source log is `name`, if any.
    fn find_itr_of_log(&self, name: &String) -> (r: Option<usize>)
        ensures
            match r {
                Some(i) => i < self.itrs@.len() && self.itrs@[i as int].log@ == name@,
                None => forall|j: int| 0 <= j < self.itrs@.len() ==> self.itrs@[j].log@ != name@,
            },
    {
        let mut i: usize = 0;
        while i < self.itrs.len()
            invariant
                i <= self.itrs@.len(),
                forall|j: int| 0 <= j < i ==> self.itrs@[j].log@ != name@,
            decreases self.itrs@.len() - i,
        {
            if self.itrs[i].log == *name {
                return Some(i);
            }
            i += 1;
        }
        None
    }

    /// Delete a log. The log entry is removed if present (absence is not an
    /// error), and every iterator whose source log is the deleted name is
    /// removed with it, one deletion at a time. Never fails.
    pub fn del_log(&mut self, name: String)
        requires
            old(self).wf(),
        ensures
            final(self).wf(),
            final(self)@ == spec_del_log(old(self)@, name@),
    {
        let found = self.find_log_index(&name);
        match found {
            Some(i) => {
                let ghost pre = *self;
                let _ = self.logs.remove(i);
                proof {
                    assert(self.log_pairs() =~= pre.log_pairs().remove(i as int));
                    lemma_map_of_remove(pre.log_pairs(), i as int);
                    assert(pre.log_pairs()[i as int].0 == name@);
                    assert(self.itr_pairs() =~= pre.itr_pairs());
                    assert(self@.logs == old(self)@.logs.remove(name@));
                }
            },
            None => {
                proof {
                    lemma_map_of_contains(self.log_pairs(), name@);
                    assert(self@.logs =~= self@.logs.remove(name@));
                }
            },
        }
        let ghost target = itrs_without_log(old(self)@.itrs, name@);
        let mut more = true;
        while more
            invariant
                self.wf(),
                self@.logs == old(self)@.logs.remove(name@),
                itrs_without_log(self@.itrs, name@) == target,
                !more ==> forall|j: int|
                    0 <= j < self.itrs@.len() ==> self.itrs@[j].log@ != name@,
            decreases self.itrs@.len() + (if more { 1int } else { 0int }),
        {
            let found = self.find_itr_of_log(&name);
            match found {
                Some(i) => {
                    let ghost pre = *self;
                    let ghost k0 = pre.itrs@[i as int].name@;
                    proof {
                        lemma_map_of_index(pre.itr_pairs(), i as int);
                    }
                    let _ = self.itrs.remove(i);
                    proof {
                        assert(self.itr_pairs() =~= pre.itr_pairs().remove(i as int));
                        lemma_map_of_remove(pre.itr_pairs(), i as int);
                        assert(pre.itr_pairs()[i as int].0 == k0);
                        assert(self@.itrs == pre@.itrs.remove(k0));
                        assert(pre@.itrs[k0].log == name@);
                        assert(self.log_pairs() =~= pre.log_pairs());
                        assert(itrs_without_log(self@.itrs, name@) =~= itrs_without_log(
                            pre@.itrs,
                            name@,
                        ));
                    }
                },
                None => {
                    more = false;
                },
            }
        }
        proof {
            assert forall|k: Seq<char>| self@.itrs.contains_key(k) implies self@.itrs[k].log
                != name@ by {
                lemma_map_of_contains(self.itr_pairs(), k);
                let j = choose|j: int|
                    0 <= j < self.itr_pairs().len() && self.itr_pairs()[j].0 == k;
                lemma_map_of_index(self.itr_pairs(), j);
                assert(self.itr_pairs()[j].1 == self.itrs@[j]@);
                assert(self.itrs@[j].log@ != name@);
            }
            assert(self@.itrs =~= itrs_without_log(self@.itrs, name@));
            assert(self@ =~= spec_del_log(old(self)@, name@));
        }
    }

    /// Register an iterator. A fresh name is inserted; a name already bound
    /// to an entry equal in every field is a no-op success; a name bound to
    /// an entry that differs in any field is a conflict, and the stored entry
    /// is left untouched. The named log need not exist.
    pub fn add_itr(&mut self, log: String, name: String, kind: String, func: String) -> (r: Result<
        (),
        Error,
    >)
        requires
            old(self).wf(),
        ensures
            final(self).wf(),
            ({
                let cand = SpecItrRegistrant { log: log@, name: name@, kind: kind@, func: func@ };
                &&& (r is Ok <==> spec_add_itr_ok(old(self)@, cand))
                &&& (r is Ok ==> final(self)@ == spec_add_itr(old(self)@, cand))
                &&& (r is Err ==> r == Err::<(), Error>(Error::ItrExistsWithSameName)
                    && final(self)@ == old(self)@)
            }),
    {
        let ghost cand = SpecItrRegistrant { log: log@, name: name@, kind: kind@, func: func@ };
        let found = self.find_itr_index(&name);
        match found {
            Some(i) => {
                proof {
                    lemma_map_of_index(self.itr_pairs(), i as int);
                    assert(self.itr_pairs()[i as int] == (
                        self.itrs@[i as int].name@,
                        self.itrs@[i as int]@,
                    ));
                    assert(self@.itrs.contains_key(name@));
                    assert(self@.itrs[name@] == self.itrs@[i as int]@);
                }
                let stored = &self.itrs[i];
                if stored.log == log && stored.kind == kind && stored.func == func {
                    proof {
                        assert(self.itrs@[i as int]@ =~= cand);
                    }
                    Ok(())
                } else {
                    proof {
                        assert(self.itrs@[i as int]@ != cand);
                    }
                    Err(Error::ItrExistsWithSameName)
                }
            },
            None => {
                let ghost pre = *self;
                let entry = ItrRegistrant { log, name, kind, func };
                self.itrs.push(entry);
                proof {
                    assert(self.itr_pairs() =~= pre.itr_pairs().push((cand.name, cand)));
                    lemma_map_of_push(pre.itr_pairs(), cand.name, cand);
                    lemma_map_of_contains(pre.itr_pairs(), cand.name);
                    assert(!pre@.itrs.contains_key(cand.name));
                    assert(self.log_pairs() =~= pre.log_pairs());
                    assert(unique_keys(self.itr_pairs())) by {
                        assert forall|a: int, b: int|
                            0 <= a < b < self.itr_pairs().len() implies self.itr_pairs()[a].0
                            != self.itr_pairs()[b].0 by {
                            if b == self.itr_pairs().len() - 1 {
                                if self.itr_pairs()[a].0 == cand.name {
                                    assert(pre.itr_pairs()[a].0 == cand.name);
                                    lemma_map_of_index(pre.itr_pairs(), a);
                                }
                            }
                        }
                    }
                    assert(self@ =~= spec_add_itr(pre@, cand));
                }
                Ok(())
            },
        }
    }

    /// Delete an iterator. Fails when the name is unknown, or known but with
    /// a stored source log other than `log`; the two causes are not
    /// distinguished, and a failed call leaves the manifest untouched.
    pub fn del_itr(&mut self, log: String, name: String) -> (r: Result<(), Error>)
        requires
            old(self).wf(),
        ensures
            final(self).wf(),
            r is Ok <==> spec_del_itr_ok(old(self)@, log@, name@),
            final(self)@ == spec_del_itr(old(self)@, log@, name@),
            r is Err ==> r == Err::<(), Error>(Error::ItrDoesNotExist),
    {
        let found = self.find_itr_index(&name);
        match found {
            Some(i) => {
                proof {
                    lemma_map_of_index(self.itr_pairs(), i as int);
                    assert(self.itr_pairs()[i as int] == (
                        self.itrs@[i as int].name@,
                        self.itrs@[i as int]@,
                    ));
                    assert(self@.itrs.contains_key(name@));
                    assert(self@.itrs[name@] == self.itrs@[i as int]@);
                }
                if self.itrs[i].log == log {
                    let ghost pre = *self;
                    let _ = self.itrs.remove(i);
                    proof {
                        assert(self.itr_pairs() =~= pre.itr_pairs().remove(i as int));
                        lemma_map_of_remove(pre.itr_pairs(), i as int);
                        assert(self.log_pairs() =~= pre.log_pairs());
                        assert(self@ =~= spec_del_itr(pre@, log@, name@));
                    }
                    Ok(())
                } else {
                    Err(Error::ItrDoesNotExist)
                }
            },
            None => {
                proof {
                    lemma_map_of_contains(self.itr_pairs(), name@);
                }
                Err(Error::ItrDoesNotExist)
            },
        }
    }
}

impl Manifest {
    /// Whether a log named `name` is registered.
    pub fn contains_log(&self, name: &str) -> (r: bool)
        ensures
            r == self@.logs.contains_key(name@),
    {
        let key: String = name.to_owned();
        proof {
            lemma_map_of_contains(self.log_pairs(), name@);
        }
        match self.find_log_index(&key) {
            Some(i) => {
                proof {
                    assert(self.log_pairs()[i as int].0 == name@);
                }
                true
            },
            None => false,
        }
    }

    /// Whether an iterator named `name` is registered, under whatever log.
    pub fn contains_itr(&self, name: &str) -> (r: bool)
        ensures
            r == self@.itrs.contains_key(name@),
    {
        let key: String = name.to_owned();
        proof {
            lemma_map_of_contains(self.itr_pairs(), name@);
        }
        match self.find_itr_index(&key) {
            Some(i) => {
                proof {
                    assert(self.itr_pairs()[i as int].0 == name@);
                }
                true
            },
            None => false,
        }
    }

    /// The creation stamp of the log named `name`, if one is registered.
    pub fn log_created_at(&self, name: &str) -> (r: Option<usize>)
        requires
            self.wf(),
        ensures
            match r {
                Some(t) => self@.logs.contains_key(name@) && t == self@.logs[name@].created_at,
                None => !self@.logs.contains_key(name@),
            },
    {
        let key: String = name.to_owned();
        proof {
            lemma_map_of_contains(self.log_pairs(), name@);
        }
        match self.find_log_index(&key) {
            Some(i) => {
                proof {
                    lemma_map_of_index(self.log_pairs(), i as int);
                    assert(self.log_pairs()[i as int] == (
                        self.logs@[i as int].name@,
                        self.logs@[i as int]@,
                    ));
                }
                Some(self.logs[i].created_at)
            },
            None => None,
        }
    }

    /// The iterator entry named `name`, if one is registered.
    pub fn get_itr(&self, name: &str) -> (r: Option<&ItrRegistrant>)
        requires
            self.wf(),
        ensures
            match r {
                Some(it) => self@.itrs.contains_key(name@) && it@ == self@.itrs[name@],
                None => !self@.itrs.contains_key(name@),
            },
    {
        let key: String = name.to_owned();
        proof {
            lemma_map_of_contains(self.itr_pairs(), name@);
        }
        match self.find_itr_index(&key) {
            Some(i) => {
                proof {
                    lemma_map_of_index(self.itr_pairs(), i as int);
                    assert(self.itr_pairs()[i as int] == (
                        self.itrs@[i as int].name@,
                        self.itrs@[i as int]@,
                    ));
                }
                Some(&self.itrs[i])
            },
            None => None,
        }
    }

    /// The number of registered logs.
    pub fn num_logs(&self) -> (r: usize)
        requires
            self.wf(),
        ensures
            r == self@.logs.dom().len(),
    {
        proof {
            lemma_map_of_len(self.log_pairs());
        }
        self.logs.len()
    }

    /// The number of registered iterators.
    pub fn num_itrs(&self) -> (r: usize)
        requires
            self.wf(),
        ensures
            r == self@.itrs.dom().len(),
    {
        proof {
            lemma_map_of_len(self.itr_pairs());
        }
        self.itrs.len()
    }
}

/// Law: registering a log twice yields exactly one entry for the name, whose
/// creation stamp is the one recorded by the first call; re-adding never
/// changes the manifest at all.
pub proof fn lemma_add_log_idempotent(m: SpecManifest, name: Seq<char>, t1: usize, t2: usize)
    ensures
        spec_add_log(spec_add_log(m, name, t1), name, t2) == spec_add_log(m, name, t1),
        !m.logs.contains_key(name) ==> spec_add_log(m, name, t1).logs[name] == (SpecLogRegistrant {
            name,
            created_at: t1,
        }),
        m.logs.contains_key(name) ==> spec_add_log(m, name, t1) == m,
{
}

/// Law: deleting a log removes its entry and exactly the iterators whose
/// source log is the deleted name; every other log and iterator survives
/// untouched.
pub proof fn lemma_del_log_cascade(m: SpecManifest, l: Seq<char>)
    ensures
        !spec_del_log(m, l).logs.contains_key(l),
        forall|k: Seq<char>|
            k != l ==> #[trigger] spec_del_log(m, l).logs.contains_key(k) == m.logs.contains_key(
                k,
            ),
        forall|k: Seq<char>|
            k != l && m.logs.contains_key(k) ==> #[trigger] spec_del_log(m, l).logs[k]
                == m.logs[k],
        forall|k: Seq<char>|
            m.itrs.contains_key(k) && m.itrs[k].log == l ==> !(#[trigger] spec_del_log(
                m,
                l,
            ).itrs.contains_key(k)),
        forall|k: Seq<char>|
            m.itrs.contains_key(k) && m.itrs[k].log != l ==> #[trigger] spec_del_log(
                m,
                l,
            ).itrs.contains_key(k) && spec_del_log(m, l).itrs[k] == m.itrs[k],
        forall|k: Seq<char>|
            !m.itrs.contains_key(k) ==> !(#[trigger] spec_del_log(m, l).itrs.contains_key(k)),
{
}

/// Law: registering the same iterator twice, with every field identical,
/// succeeds both times and leaves exactly one stored entry, equal to it. The
/// first registration must itself be conflict-free: a pre-existing entry
/// under the same name with differing fields already fails the first call.
pub proof fn lemma_add_itr_idempotent(m: SpecManifest, itr: SpecItrRegistrant)
    requires
        spec_add_itr_ok(m, itr),
    ensures
        spec_add_itr_ok(spec_add_itr(m, itr), itr),
        spec_add_itr(spec_add_itr(m, itr), itr) == spec_add_itr(m, itr),
        spec_add_itr(m, itr).itrs.contains_key(itr.name),
        spec_add_itr(m, itr).itrs[itr.name] == itr,
{
}

/// Law: once an iterator is stored, registering its name again with any
/// field differing fails with the duplicate-name conflict, and the stored
/// entry is left exactly as it was.
pub proof fn lemma_add_itr_conflict(
    m: SpecManifest,
    itr: SpecItrRegistrant,
    other: SpecItrRegistrant,
)
    requires
        spec_add_itr_ok(m, itr),
        other.name == itr.name,
        other != itr,
    ensures
        !spec_add_itr_ok(spec_add_itr(m, itr), other),
        spec_add_itr(spec_add_itr(m, itr), other) == spec_add_itr(m, itr),
        spec_add_itr(m, itr).itrs[itr.name] == itr,
{
}

/// Law: deleting an iterator whose name is absent from the registry fails
/// and changes nothing.
pub proof fn lemma_del_itr_absent(m: SpecManifest, log: Seq<char>, name: Seq<char>)
    requires
        !m.itrs.contains_key(name),
    ensures
        !spec_del_itr_ok(m, log, name),
        spec_del_itr(m, log, name) == m,
{
}

/// Law: deleting an iterator that exists, but under a log other than the one
/// supplied, fails exactly like a missing name, and the stored entry
/// survives untouched.
pub proof fn lemma_del_itr_wrong_log(m: SpecManifest, log: Seq<char>, name: Seq<char>)
    requires
        m.itrs.contains_key(name),
        m.itrs[name].log != log,
    ensures
        !spec_del_itr_ok(m, log, name),
        spec_del_itr(m, log, name) == m,
        spec_del_itr(m, log, name).itrs.contains_key(name),
        spec_del_itr(m, log, name).itrs[name] == m.itrs[name],
{
}

} // verus!
