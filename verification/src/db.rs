//! The database: one manifest behind a single command-execution entry point.
//! Every command is applied atomically; a failing command leaves the state
//! untouched.

use vstd::prelude::*;

use crate::commands::{Command, SpecCommand};
use crate::errors::Error;
use crate::manifest::{
    spec_add_itr, spec_add_itr_ok, spec_add_log, spec_del_itr, spec_del_itr_ok, spec_del_log,
    Manifest, SpecItrRegistrant, SpecManifest,
};

verus! {

/// Whether executing `c` on manifest state `m` succeeds. Log commands never
/// fail; iterator commands fail as the manifest rules say.
pub open spec fn spec_exec_ok(m: SpecManifest, c: SpecCommand) -> bool {
    match c {
        SpecCommand::LogAdd { .. } => true,
        SpecCommand::LogDel { .. } => true,
        SpecCommand::ItrAdd { log, name, kind, func } => spec_add_itr_ok(
            m,
            SpecItrRegistrant { log, name, kind, func },
        ),
        SpecCommand::ItrDel { log, name } => spec_del_itr_ok(m, log, name),
    }
}

/// Manifest state after executing `c`; `now` is the clock reading stamped on
/// a fresh log registration. A failing command leaves the state untouched.
pub open spec fn spec_exec_state(m: SpecManifest, c: SpecCommand, now: usize) -> SpecManifest {
    match c {
        SpecCommand::LogAdd { name } => spec_add_log(m, name, now),
        SpecCommand::LogDel { name } => spec_del_log(m, name),
        SpecCommand::ItrAdd { log, name, kind, func } => spec_add_itr(
            m,
            SpecItrRegistrant { log, name, kind, func },
        ),
        SpecCommand::ItrDel { log, name } => spec_del_itr(m, log, name),
    }
}

/// The error a failing command reports. Only iterator commands can fail.
pub open spec fn spec_exec_err(c: SpecCommand) -> Error {
    match c {
        SpecCommand::ItrAdd { .. } => Error::ItrExistsWithSameName,
        _ => Error::ItrDoesNotExist,
    }
}

/// The database: the manifest, plus (beyond this core) the record storage of
/// each log.
pub struct DB {
    manifest: Manifest,
}

impl DB {
    /// The internal registry is well formed.
    pub closed spec fn wf(&self) -> bool {
        self.manifest.wf()
    }

    pub fn new() -> (db: DB)
        ensures
            db.wf(),
            db@.logs == Map::<Seq<char>, crate::manifest::SpecLogRegistrant>::empty(),
            db@.itrs == Map::<Seq<char>, SpecItrRegistrant>::empty(),
    {
        DB { manifest: Manifest::new() }
    }

    /// Execute one command, returning the success payload or the error to
    /// report to the client. The state moves to `spec_exec_state` for some
    /// clock reading; a failing command leaves it untouched.
    pub fn exec(&mut self, cmd: Command) -> (r: Result<Vec<u8>, Error>)
        requires
            old(self).wf(),
        ensures
            final(self).wf(),
            exists|t: usize| final(self)@ == spec_exec_state(old(self)@, cmd@, t),
            match r {
                Ok(payload) => spec_exec_ok(old(self)@, cmd@) && payload@ == Seq::<u8>::empty(),
                Err(e) => !spec_exec_ok(old(self)@, cmd@) && final(self)@ == old(self)@ && e
                    == spec_exec_err(cmd@),
            },
    {
        let ghost c = cmd@;
        let ghost pre = self@;
        match cmd {
            Command::LogAdd { name } => {
                let ghost n = name@;
                self.manifest.add_log(name);
                proof {
                    assert(c == (SpecCommand::LogAdd { name: n }));
                    let t = choose|t: usize| self@ == spec_add_log(pre, n, t);
                    assert(self@ == spec_exec_state(pre, c, t));
                }
                Ok(Vec::new())
            },
            Command::LogDel { name } => {
                let ghost n = name@;
                self.manifest.del_log(name);
                proof {
                    assert(c == (SpecCommand::LogDel { name: n }));
                    assert(self@ == spec_exec_state(pre, c, 0));
                }
                Ok(Vec::new())
            },
            Command::ItrAdd { log, name, kind, func } => {
                let ghost it = SpecItrRegistrant {
                    log: log@,
                    name: name@,
                    kind: kind@,
                    func: func@,
                };
                proof {
                    assert(c == (SpecCommand::ItrAdd {
                        log: it.log,
                        name: it.name,
                        kind: it.kind,
                        func: it.func,
                    }));
                }
                match self.manifest.add_itr(log, name, kind, func) {
                    Ok(_) => {
                        proof {
                            assert(self@ == spec_exec_state(pre, c, 0));
                        }
                        Ok(Vec::new())
                    },
                    Err(e) => {
                        proof {
                            assert(self@ == spec_exec_state(pre, c, 0));
                        }
                        Err(e)
                    },
                }
            },
            Command::ItrDel { log, name } => {
                let ghost lg = log@;
                let ghost n = name@;
                proof {
                    assert(c == (SpecCommand::ItrDel { log: lg, name: n }));
                }
                match self.manifest.del_itr(log, name) {
                    Ok(_) => {
                        proof {
                            assert(self@ == spec_exec_state(pre, c, 0));
                        }
                        Ok(Vec::new())
                    },
                    Err(e) => {
                        proof {
                            assert(self@ == spec_exec_state(pre, c, 0));
                        }
                        Err(e)
                    },
                }
            },
        }
    }
}

impl DB {
    /// Read access to the manifest registry.
    pub fn manifest(&self) -> (r: &Manifest)
        ensures
            r@ == self@,
            self.wf() ==> r.wf(),
    {
        &self.manifest
    }
}

impl View for DB {
    type V = SpecManifest;

    closed spec fn view(&self) -> SpecManifest {
        self.manifest@
    }
}

} // verus!
