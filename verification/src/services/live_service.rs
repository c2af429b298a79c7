//! The live champ-select service.
use vstd::prelude::*;

verus! {

/// The live champ-select service; it is not started by the shell.
#[derive(Debug, Clone, Copy, Default)]
pub struct LiveService;

impl LiveService {
    /// The status shown for the service.
    pub fn status_label(&self) -> (r: &'static str)
        ensures
            r@ == "not_started"@,
    {
        "not_started"
    }
}

} // verus!
