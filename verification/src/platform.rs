use vstd::prelude::*;

verus! {

/// Options for bringing up the platform.
pub struct InitOptions {
    pub enable_logger: bool,
}

impl Default for InitOptions {
    /// The logger is enabled by default.
    fn default() -> (r: Self)
        ensures
            r.enable_logger,
    {
        InitOptions { enable_logger: true }
    }
}

} // verus!
