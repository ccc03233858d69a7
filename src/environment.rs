use vstd::prelude::*;

verus! {

/// The deployment the service runs in; the trust policy depends on it.
#[derive(Debug, Clone, Copy, PartialEq, Eq, Structural)]
pub enum Environment {
    Production,
    Staging,
    Testing,
}

} // verus!
