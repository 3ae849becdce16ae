//! Operating modes of a peripheral driver.
use vstd::prelude::*;

verus! {

trait SealedMode {
}

/// Operating mode for a peripheral.
#[allow(private_bounds)]
pub trait Mode: SealedMode {
}

/// Blocking mode.
pub struct Blocking;

/// Async mode.
pub struct Async;

impl SealedMode for Blocking {
}

impl Mode for Blocking {
}

impl SealedMode for Async {
}

impl Mode for Async {
}

} // verus!
