//! The service registry: a name-to-configuration table built once at
//! startup and read-only afterwards. Resolving an unknown name is always
//! an error, never a default.

use vstd::prelude::*;

use crate::GatewayError;
use crate::text::str_eq;

verus! {

/// A named backend service: its base URL and its mandatory per-service
/// timeout (strictly positive, in milliseconds).
#[derive(Debug, Clone)]
pub struct ServiceConfig {
    pub name: String,
    pub base_url: String,
    pub timeout_ms: u64,
}

impl ServiceConfig {
    /// Every registered configuration carries a strictly positive timeout.
    pub open spec fn wf(self) -> bool {
        self.timeout_ms > 0
    }
}

/// The name-to-service table. Registration replaces any earlier entry of
/// the same name, so names stay unique.
#[derive(Debug)]
pub struct Registry {
    services: Vec<ServiceConfig>,
}

impl Registry {
    /// The configuration registered under `name`, if any: the first (and,
    /// by well-formedness, only) entry of that name.
    pub open spec fn spec_resolve_in(s: Seq<ServiceConfig>, name: Seq<char>) -> Option<
        ServiceConfig,
    >
        decreases s.len(),
    {
        if s.len() == 0 {
            None
        } else if s[0].name@ == name {
            Some(s[0])
        } else {
            Self::spec_resolve_in(s.drop_first(), name)
        }
    }

    /// The configuration registered under `name`, if any.
    pub closed spec fn spec_resolve(self, name: Seq<char>) -> Option<ServiceConfig> {
        Self::spec_resolve_in(self.services@, name)
    }

    /// Entry names are unique and every entry has a positive timeout.
    pub closed spec fn wf(self) -> bool {
        &&& forall|i: int, j: int|
            0 <= i < j < self.services@.len() ==> self.services@[i].name@ != self.services@[j].name@
        &&& forall|i: int| 0 <= i < self.services@.len() ==> (#[trigger] self.services@[i]).wf()
    }

    /// An empty registry: no name resolves.
    pub fn new() -> (r: Registry)
        ensures
            r.wf(),
            forall|n: Seq<char>| r.spec_resolve(n) is None,
    {
        Registry { services: Vec::new() }
    }

    /// Register `cfg` under its name, replacing any earlier entry of the
    /// same name; every other name resolves exactly as before.
    pub fn register(&mut self, cfg: ServiceConfig)
        requires
            old(self).wf(),
            cfg.wf(),
        ensures
            final(self).wf(),
            final(self).spec_resolve(cfg.name@) == Some(cfg),
            forall|n: Seq<char>|
                n != cfg.name@ ==> final(self).spec_resolve(n) == old(self).spec_resolve(n),
    {
        let mut i: usize = 0;
        let n = self.services.len();
        loop
            invariant
                i <= n,
                n == self.services@.len(),
                old(self).wf(),
                self.services@ == old(self).services@,
                forall|k: int| 0 <= k < i ==> self.services@[k].name@ != cfg.name@,
            ensures
                self.services@ == old(self).services@,
                i <= n,
                n == self.services@.len(),
                forall|k: int| 0 <= k < i ==> self.services@[k].name@ != cfg.name@,
                i < n ==> self.services@[i as int].name@ == cfg.name@,
            decreases n - i,
        {
            if i == n {
                break;
            }
            if str_eq(self.services[i].name.as_str(), cfg.name.as_str()) {
                break;
            }
            i = i + 1;
        }
        if i < n {
            let ghost before = self.services@;
            self.services.set(i, cfg);
            proof {
                Self::lemma_resolve_update(before, self.services@, i as int, cfg);
            }
        } else {
            let ghost before = self.services@;
            self.services.push(cfg);
            proof {
                Self::lemma_resolve_append(before, cfg);
            }
        }
    }

    /// Replacing the entry at `i` (the first of its name) changes what its
    /// name resolves to and nothing else.
    proof fn lemma_resolve_update(
        before: Seq<ServiceConfig>,
        after: Seq<ServiceConfig>,
        i: int,
        cfg: ServiceConfig,
    )
        requires
            0 <= i < before.len(),
            after == before.update(i, cfg),
            forall|k: int| 0 <= k < i ==> before[k].name@ != cfg.name@,
            before[i].name@ == cfg.name@,
        ensures
            Self::spec_resolve_in(after, cfg.name@) == Some(cfg),
            forall|n: Seq<char>|
                n != cfg.name@ ==> Self::spec_resolve_in(after, n) == Self::spec_resolve_in(
                    before,
                    n,
                ),
        decreases before.len(),
    {
        if i == 0 {
            assert(after[0] == cfg);
            assert(after.drop_first() =~= before.drop_first());
            assert forall|n: Seq<char>| n != cfg.name@ implies Self::spec_resolve_in(after, n)
                == Self::spec_resolve_in(before, n) by {
                assert(Self::spec_resolve_in(after, n) == Self::spec_resolve_in(
                    after.drop_first(),
                    n,
                ));
                assert(Self::spec_resolve_in(before, n) == Self::spec_resolve_in(
                    before.drop_first(),
                    n,
                ));
            }
        } else {
            assert(after[0] == before[0]);
            assert(after.drop_first() =~= before.drop_first().update(i - 1, cfg));
            Self::lemma_resolve_update(before.drop_first(), after.drop_first(), i - 1, cfg);
            assert forall|n: Seq<char>| n != cfg.name@ implies Self::spec_resolve_in(after, n)
                == Self::spec_resolve_in(before, n) by {
                if before[0].name@ == n {
                    assert(Self::spec_resolve_in(after, n) == Some(after[0]));
                    assert(Self::spec_resolve_in(before, n) == Some(before[0]));
                } else {
                    assert(Self::spec_resolve_in(after, n) == Self::spec_resolve_in(
                        after.drop_first(),
                        n,
                    ));
                    assert(Self::spec_resolve_in(before, n) == Self::spec_resolve_in(
                        before.drop_first(),
                        n,
                    ));
                }
            }
        }
    }

    /// Appending an entry whose name is new changes what that name
    /// resolves to and nothing else.
    proof fn lemma_resolve_append(before: Seq<ServiceConfig>, cfg: ServiceConfig)
        requires
            forall|k: int| 0 <= k < before.len() ==> before[k].name@ != cfg.name@,
        ensures
            Self::spec_resolve_in(before.push(cfg), cfg.name@) == Some(cfg),
            forall|n: Seq<char>|
                n != cfg.name@ ==> Self::spec_resolve_in(before.push(cfg), n)
                    == Self::spec_resolve_in(before, n),
        decreases before.len(),
    {
        let pushed = before.push(cfg);
        if before.len() == 0 {
            assert(pushed[0] == cfg);
            assert(pushed.drop_first() =~= before);
            assert forall|n: Seq<char>| n != cfg.name@ implies Self::spec_resolve_in(pushed, n)
                == Self::spec_resolve_in(before, n) by {
                assert(Self::spec_resolve_in(pushed, n) == Self::spec_resolve_in(
                    pushed.drop_first(),
                    n,
                ));
            }
        } else {
            assert(pushed[0] == before[0]);
            assert(pushed.drop_first() =~= before.drop_first().push(cfg));
            Self::lemma_resolve_append(before.drop_first(), cfg);
            assert forall|n: Seq<char>| n != cfg.name@ implies Self::spec_resolve_in(pushed, n)
                == Self::spec_resolve_in(before, n) by {
                if before[0].name@ == n {
                    assert(Self::spec_resolve_in(pushed, n) == Some(pushed[0]));
                    assert(Self::spec_resolve_in(before, n) == Some(before[0]));
                } else {
                    assert(Self::spec_resolve_in(pushed, n) == Self::spec_resolve_in(
                        pushed.drop_first(),
                        n,
                    ));
                    assert(Self::spec_resolve_in(before, n) == Self::spec_resolve_in(
                        before.drop_first(),
                        n,
                    ));
                }
            }
        }
    }

    proof fn lemma_resolve_in_member(s: Seq<ServiceConfig>, n: Seq<char>)
        requires
            Self::spec_resolve_in(s, n) is Some,
        ensures
            exists|i: int|
                0 <= i < s.len() && s[i] == Self::spec_resolve_in(s, n).unwrap(),
        decreases s.len(),
    {
        if s[0].name@ == n {
            assert(s[0] == Self::spec_resolve_in(s, n).unwrap());
        } else {
            Self::lemma_resolve_in_member(s.drop_first(), n);
            let i = choose|i: int|
                0 <= i < s.drop_first().len() && s.drop_first()[i] == Self::spec_resolve_in(
                    s.drop_first(),
                    n,
                ).unwrap();
            assert(s[i + 1] == Self::spec_resolve_in(s, n).unwrap());
        }
    }

    /// Law: whatever name resolves in a well-formed registry, the
    /// configuration it yields carries a strictly positive timeout.
    pub proof fn lemma_resolved_timeout_positive(self, n: Seq<char>)
        requires
            self.wf(),
            self.spec_resolve(n) is Some,
        ensures
            self.spec_resolve(n).unwrap().timeout_ms > 0,
    {
        Self::lemma_resolve_in_member(self.services@, n);
    }

    /// Look up a service by exact, case-sensitive name; an unknown name
    /// fails with `UnknownService`, never a default.
    pub fn resolve(&self, name: &str) -> (r: Result<&ServiceConfig, GatewayError>)
        ensures
            match r {
                Ok(cfg) => self.spec_resolve(name@) == Some(*cfg),
                Err(e) => e == GatewayError::UnknownService && self.spec_resolve(name@) is None,
            },
    {
        let mut i: usize = 0;
        let n = self.services.len();
        proof {
            assert(self.services@.subrange(0, n as int) =~= self.services@);
        }
        loop
            invariant
                i <= n,
                n == self.services@.len(),
                Self::spec_resolve_in(self.services@.subrange(i as int, n as int), name@)
                    == self.spec_resolve(name@),
            decreases n - i,
        {
            if i == n {
                proof {
                    assert(self.services@.subrange(i as int, n as int).len() == 0);
                }
                return Err(GatewayError::UnknownService);
            }
            let ghost tail = self.services@.subrange(i as int, n as int);
            proof {
                assert(tail[0] == self.services@[i as int]);
                assert(tail.drop_first() =~= self.services@.subrange(i as int + 1, n as int));
            }
            if str_eq(self.services[i].name.as_str(), name) {
                return Ok(&self.services[i]);
            }
            i = i + 1;
        }
    }
}

} // verus!
