//! Requestable running states of a virtual machine, as accepted at the
//! machine-manager boundary.

use vstd::prelude::*;

verus! {

/// Parameters used when a new incarnation initializes itself via live
/// migration.
#[derive(Clone, Debug, PartialEq, Eq)]
pub struct InstanceMigrationTargetParams {
    /// The rendered address of the server that will serve as the migration
    /// source.
    pub src_propolis_addr: String,
}

/// Requestable running state of an instance.
#[derive(Clone, Debug, PartialEq, Eq)]
pub enum VmmStateRequested {
    /// Run this instance by migrating in from a previous running incarnation
    /// of the instance.
    MigrationTarget(InstanceMigrationTargetParams),
    /// Start the instance if it is not already running.
    Running,
    /// Stop the instance.
    Stopped,
    /// Immediately reset the instance, as though it had stopped and
    /// immediately began to run again.
    Reboot,
}

impl VmmStateRequested {
    /// The short name under which the requested state is reported.
    pub open spec fn spec_label(self) -> Seq<char> {
        match self {
            VmmStateRequested::MigrationTarget(_) => "migrating in"@,
            VmmStateRequested::Running => "running"@,
            VmmStateRequested::Stopped => "stopped"@,
            VmmStateRequested::Reboot => "reboot"@,
        }
    }

    /// The short name under which the requested state is reported.
    pub fn label(&self) -> (r: String)
        ensures
            r@ == self.spec_label(),
    {
        match self {
            VmmStateRequested::MigrationTarget(_) => "migrating in".to_owned(),
            VmmStateRequested::Running => "running".to_owned(),
            VmmStateRequested::Stopped => "stopped".to_owned(),
            VmmStateRequested::Reboot => "reboot".to_owned(),
        }
    }

    /// Returns true if the state represents a stopped instance.
    pub fn is_stopped(&self) -> (r: bool)
        ensures
            r == (*self is Stopped),
    {
        match self {
            VmmStateRequested::MigrationTarget(_) => false,
            VmmStateRequested::Running => false,
            VmmStateRequested::Stopped => true,
            VmmStateRequested::Reboot => false,
        }
    }
}

} // verus!
