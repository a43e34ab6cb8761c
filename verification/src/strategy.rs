//! Positioning strategy.

use vstd::prelude::*;

verus! {

/// How the floating element is positioned by the consumer. The value is
/// opaque to the engine's arithmetic: it is passed through to the platform
/// and returned to the caller.
#[derive(Copy, Clone, Debug, PartialEq, Eq, Structural)]
pub enum Strategy {
    Absolute,
    Fixed,
}

} // verus!
