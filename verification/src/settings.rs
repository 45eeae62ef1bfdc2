//! Settings consumed by the core services on every host. Fields are added
//! only when a core service reads them; host-specific settings stay in the
//! host's own settings type, which embeds this one.
use vstd::prelude::*;

verus! {

/// Settings consumed by the core services across all hosts. It has no
/// fields yet.
#[derive(Clone, Debug)]
pub struct CoreSettings {}

impl Default for CoreSettings {
    fn default() -> (s: Self)
        ensures
            s == (CoreSettings {}),
    {
        CoreSettings {}
    }
}

impl CoreSettings {
    /// The default settings.
    pub fn defaults() -> (s: Self)
        ensures
            s == (CoreSettings {}),
    {
        Self::default()
    }
}

} // verus!
