//! The steps of the host's first-run setup flow. The host's state machine
//! walks these; the core only names them so the two sides agree on the
//! vocabulary.

use vstd::prelude::*;

verus! {

/// One step of the first-run setup flow.
#[derive(Debug, Clone, Copy, PartialEq, Eq, Hash, Structural)]
pub enum OOBEStep {
    SetupPath,
    /// Jump back to the step the host left off at.
    Resume,
    Welcome,
    LicenseAgreement,
    SetupCerts,
    StartProxy,
}

} // verus!
