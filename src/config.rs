use vstd::prelude::*;

verus! {

/// Settings shared read-only by every tool handler. It has no fields yet;
/// reading it from disk is the host program's concern.
#[derive(Debug, Clone, Copy)]
pub struct AppConfig {}

impl Default for AppConfig {
    fn default() -> (r: Self)
        ensures
            r == (AppConfig {}),
    {
        AppConfig {}
    }
}

} // verus!
