//! Secrets handed to a task run by the external secret-distribution
//! service. The service itself — key exchange, attestation quote, transport
//! and decryption — lives outside this core; the library only carries the
//! decrypted name/value pairs a run may read.

use vstd::prelude::*;
use std::collections::HashMap;

verus! {

/// A user's whitelisted secrets, by name.
pub struct SwitchboardSecret {
    pub secrets: HashMap<String, String>,
}

impl SwitchboardSecret {
    /// An empty secret set.
    pub fn empty() -> SwitchboardSecret {
        SwitchboardSecret { secrets: HashMap::new() }
    }
}

} // verus!
