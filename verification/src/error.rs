//! The failures a reconciliation cycle can end in.

use vstd::prelude::*;

verus! {

/// Why a cycle, or the start of the daemon, failed.
#[derive(Clone, Copy, Debug, PartialEq, Eq)]
pub enum Error {
    /// The configuration cannot be used: a bad path, no usable data directory.
    Config,
    /// The state file is there but does not hold a state.
    StateCorrupt,
    /// The new state could not be written.
    StatePersistFailure,
    /// The public address could not be found out.
    Resolution,
    /// The provider did not accept the update. `status` is the status of its
    /// answer, or `None` where no answer came.
    Provider { status: Option<u16> },
    /// No credentials could be had for the provider.
    Auth,
}

} // verus!
