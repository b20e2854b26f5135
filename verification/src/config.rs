//! Shared run configuration.
//!
//! One `RunConfig` is built per invocation and never changes
//! afterwards: every capability and the ledger read the same test
//! identifier, dry-run flag and output root.

use vstd::prelude::*;

verus! {

/// Shared, read-only run configuration: the opaque per-invocation test
/// identifier, the dry-run switch, and the directory under which every
/// telemetry file of the run is placed.
pub struct RunConfig {
    pub test_id: String,
    pub dry_run: bool,
    pub output_root: String,
}

impl RunConfig {
    /// Builds the configuration for one run.
    pub fn new(test_id: String, dry_run: bool, output_root: String) -> (c: RunConfig)
        ensures
            c.test_id == test_id,
            c.dry_run == dry_run,
            c.output_root == output_root,
    {
        RunConfig { test_id, dry_run, output_root }
    }

    /// A value-equal copy, for callers that hand the configuration to
    /// the orchestrator and keep one themselves.
    pub fn duplicate(&self) -> (c: RunConfig)
        ensures
            c == *self,
    {
        RunConfig {
            test_id: self.test_id.clone(),
            dry_run: self.dry_run,
            output_root: self.output_root.clone(),
        }
    }
}

} // verus!
