//! Status handling for the peripheral register library.
//!
//! Every blocking entry point of the register library reports one of four
//! status values; `check` turns such a status into a `Result`, building the
//! peripheral-specific error lazily so that the error detail is only read on
//! the failure path.
use vstd::prelude::*;

use crate::Error;

verus! {

/// Status reported by a register-library entry point.
#[derive(Debug, PartialEq, Eq, Copy, Clone)]
pub enum HalStatus {
    HalOk,
    HalError,
    HalBusy,
    HalTimeout,
}

/// Turns a register-library status into a `Result`. On `HalStatus::Error`
/// the peripheral-specific error is obtained from `gerr`; `Busy` and
/// `Timeout` map to the corresponding library errors.
pub fn check<T, F: FnOnce() -> Error<T>>(status: HalStatus, gerr: F) -> (r: Result<(), Error<T>>)
    requires
        status is HalError ==> gerr.requires(()),
    ensures
        status is HalOk ==> r == Result::<(), Error<T>>::Ok(()),
        status is HalError ==> (r matches Result::Err(e) && gerr.ensures((), e)),
        status is HalBusy ==> r == Result::<(), Error<T>>::Err(Error::<T>::Busy),
        status is HalTimeout ==> r == Result::<(), Error<T>>::Err(Error::<T>::Timeout),
{
    match status {
        HalStatus::HalOk => Ok(()),
        HalStatus::HalError => Err(gerr()),
        HalStatus::HalBusy => Err(Error::Busy),
        HalStatus::HalTimeout => Err(Error::Timeout),
    }
}

} // verus!
