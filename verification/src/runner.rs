//! The orchestrator: an ordered list of registered capabilities and
//! the shared run configuration.
//!
//! Capabilities run strictly in registration order, one at a time.
//! The first error stops the sequence: the failing capability's own
//! record has already been appended, and no later capability runs.

use vstd::prelude::*;

use crate::capability::Capability;
use crate::config::RunConfig;
use crate::ledger::Ledger;
use crate::record::{ActionError, Status};

verus! {

/// Owns the ordered capability list and the shared configuration.
pub struct Runner<C: Capability> {
    /// The registered capabilities, in registration order.
    pub capabilities: Vec<C>,
    /// The shared, read-only run configuration.
    pub config: RunConfig,
}

impl<C: Capability> Runner<C> {
    /// A runner with no capabilities registered yet.
    pub fn new(config: RunConfig) -> (r: Runner<C>)
        ensures
            r.capabilities@ == Seq::<C>::empty(),
            r.config == config,
    {
        Runner { capabilities: Vec::new(), config }
    }

    /// Appends one capability.  Registration order is execution order
    /// and is never reordered.
    pub fn register(&mut self, capability: C)
        ensures
            final(self).capabilities@ == old(self).capabilities@.push(capability),
            final(self).config == old(self).config,
    {
        self.capabilities.push(capability);
    }

    /// Runs every registered capability once, in registration order,
    /// stopping at the first error.
    ///
    /// The ledger only grows, each appended record belongs to this
    /// run, and exactly one record is appended per capability that was
    /// invoked: all of them on success, one per completed capability
    /// plus one for the failing capability on error.  Under dry-run
    /// the whole sequence succeeds and appends only `dry-run` records.
    #[verifier::loop_isolation(false)]
    pub fn run_all(&self, ledger: &mut Ledger) -> (r: Result<(), ActionError>)
        ensures
            final(ledger)@.len() >= old(ledger)@.len(),
            forall|i: int| 0 <= i < old(ledger)@.len() ==> final(ledger)@[i] == old(ledger)@[i],
            forall|i: int|
                old(ledger)@.len() <= i < final(ledger)@.len() ==> final(ledger)@[i].test_id@ == self.config.test_id@,
            r is Ok ==> final(ledger)@.len() == old(ledger)@.len() + self.capabilities@.len(),
            r is Err ==> exists|k: int|
                #![trigger self.capabilities@[k]]
                0 <= k < self.capabilities@.len() && final(ledger)@.len() == old(ledger)@.len() + k
                    + 1,
            r is Err ==> final(ledger)@.last().status == Status::Failed || final(ledger)@.last().status == Status::Partial,
            self.config.dry_run ==> r is Ok,
            self.config.dry_run ==> forall|i: int|
                old(ledger)@.len() <= i < final(ledger)@.len() ==> final(ledger)@[i].status == Status::DryRun,
            !self.config.dry_run ==> forall|i: int|
                old(ledger)@.len() <= i < final(ledger)@.len() ==> final(ledger)@[i].status != Status::DryRun,
    {
        let ghost base = ledger@;
        let n = self.capabilities.len();
        let mut i: usize = 0;
        while i < n
            invariant
                n == self.capabilities@.len(),
                i <= n,
                ledger@.len() == base.len() + i,
                forall|j: int| 0 <= j < base.len() ==> ledger@[j] == base[j],
                forall|j: int|
                    base.len() <= j < ledger@.len() ==> ledger@[j].test_id@
                        == self.config.test_id@,
                self.config.dry_run ==> forall|j: int|
                    base.len() <= j < ledger@.len() ==> ledger@[j].status == Status::DryRun,
                !self.config.dry_run ==> forall|j: int|
                    base.len() <= j < ledger@.len() ==> ledger@[j].status != Status::DryRun,
            decreases n - i,
        {
            let res = self.capabilities[i].run(&self.config, ledger);
            match res {
                Ok(()) => {},
                Err(e) => {
                    return Err(e);
                },
            }
            i = i + 1;
        }
        Ok(())
    }

    /// Runs every registered capability once, in registration order,
    /// continuing past failures and reporting them all at the end.
    ///
    /// This is the alternative sequencing policy: a failing
    /// capability no longer stops its independent successors.  Every
    /// capability still appends exactly one record, so the ledger
    /// grows by exactly the number registered, and the collected
    /// errors stand in the order the failing capabilities ran.
    #[verifier::loop_isolation(false)]
    pub fn run_to_completion(&self, ledger: &mut Ledger) -> (failures: Vec<ActionError>)
        ensures
            final(ledger)@.len() == old(ledger)@.len() + self.capabilities@.len(),
            forall|i: int| 0 <= i < old(ledger)@.len() ==> final(ledger)@[i] == old(ledger)@[i],
            forall|i: int|
                old(ledger)@.len() <= i < final(ledger)@.len() ==> final(ledger)@[i].test_id@ == self.config.test_id@,
            failures@.len() <= self.capabilities@.len(),
            self.config.dry_run ==> failures@.len() == 0,
            self.config.dry_run ==> forall|i: int|
                old(ledger)@.len() <= i < final(ledger)@.len() ==> final(ledger)@[i].status == Status::DryRun,
            !self.config.dry_run ==> forall|i: int|
                old(ledger)@.len() <= i < final(ledger)@.len() ==> final(ledger)@[i].status != Status::DryRun,
    {
        let ghost base = ledger@;
        let mut failures: Vec<ActionError> = Vec::new();
        let n = self.capabilities.len();
        let mut i: usize = 0;
        while i < n
            invariant
                n == self.capabilities@.len(),
                i <= n,
                ledger@.len() == base.len() + i,
                failures@.len() <= i,
                forall|j: int| 0 <= j < base.len() ==> ledger@[j] == base[j],
                forall|j: int|
                    base.len() <= j < ledger@.len() ==> ledger@[j].test_id@
                        == self.config.test_id@,
                self.config.dry_run ==> failures@.len() == 0,
                self.config.dry_run ==> forall|j: int|
                    base.len() <= j < ledger@.len() ==> ledger@[j].status == Status::DryRun,
                !self.config.dry_run ==> forall|j: int|
                    base.len() <= j < ledger@.len() ==> ledger@[j].status != Status::DryRun,
            decreases n - i,
        {
            let res = self.capabilities[i].run(&self.config, ledger);
            match res {
                Ok(()) => {},
                Err(e) => {
                    failures.push(e);
                },
            }
            i = i + 1;
        }
        failures
    }
}

} // verus!
