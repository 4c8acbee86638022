//! Reading the status codes that firmware calls return.

use vstd::prelude::*;
use crate::error::BootError;

verus! {

/// The status of a firmware call that succeeded.
pub open spec fn success_status() -> usize {
    0
}

/// The status by which the firmware turns a parameter down: the highest bit
/// of the word, which marks an error, and the number 2.
pub open spec fn invalid_parameter_status() -> usize {
    (usize::MAX - usize::MAX / 2 + 2) as usize
}

/// The status by which the firmware says that something was not found: the
/// error bit and the number 14.
pub open spec fn not_found_status() -> usize {
    (usize::MAX - usize::MAX / 2 + 14) as usize
}

/// Asks `uefi::status::Status::is_success` whether `status` stands for
/// success.
///
/// Trusted: that it says yes for status 0 and for no other.
#[verifier::external_body]
fn is_success(status: usize) -> (yes: bool)
    ensures
        yes == (status == success_status()),
{
    uefi::status::Status(status).is_success()
}

/// The number inside `uefi::status::Status::INVALID_PARAMETER`.
///
/// Trusted: that it is the error bit, the highest of the word, together with
/// the number 2.
#[verifier::external_body]
fn invalid_parameter() -> (status: usize)
    ensures
        status == invalid_parameter_status(),
{
    uefi::status::Status::INVALID_PARAMETER.0
}

/// The number inside `uefi::status::Status::NOT_FOUND`.
///
/// Trusted: that it is the error bit, the highest of the word, together with
/// the number 14.
#[verifier::external_body]
fn not_found() -> (status: usize)
    ensures
        status == not_found_status(),
{
    uefi::status::Status::NOT_FOUND.0
}

/// The error that a failed firmware call stands for: what was looked for is
/// not there, or the firmware failed for a reason of its own.
pub open spec fn failure(status: usize) -> BootError {
    if status == not_found_status() {
        BootError::NotFound
    } else {
        BootError::Firmware(status)
    }
}

/// Names the error behind the status of a firmware call that did not
/// succeed; see [`failure`].
pub fn failure_of(status: usize) -> (error: BootError)
    ensures
        error == failure(status),
{
    if status == not_found() {
        BootError::NotFound
    } else {
        BootError::Firmware(status)
    }
}

/// What came of a request for pages: the address if the firmware reported
/// success, [`BootError::AllocationFailure`] otherwise.
pub fn allocated(status: usize, address: u64) -> (pages: Result<u64, BootError>)
    ensures
        pages == if status == success_status() {
            Ok::<u64, BootError>(address)
        } else {
            Err::<u64, BootError>(BootError::AllocationFailure)
        },
{
    if is_success(status) {
        Ok(address)
    } else {
        Err(BootError::AllocationFailure)
    }
}

/// What came of leaving boot services.
///
/// The firmware turns a key down with the status for an invalid parameter:
/// the memory map has changed since the key was given, and the key is
/// [`BootError::MapKeyStale`]. Any other status but success stands for the
/// error that [`failure`] names.
pub open spec fn exit_outcome(status: usize) -> Result<(), BootError> {
    if status == success_status() {
        Ok(())
    } else if status == invalid_parameter_status() {
        Err(BootError::MapKeyStale)
    } else {
        Err(failure(status))
    }
}

/// Reads the status that the firmware returned from leaving boot services;
/// see [`exit_outcome`].
pub fn exit_result(status: usize) -> (outcome: Result<(), BootError>)
    ensures
        outcome == exit_outcome(status),
{
    if is_success(status) {
        Ok(())
    } else if status == invalid_parameter() {
        Err(BootError::MapKeyStale)
    } else {
        Err(failure_of(status))
    }
}

} // verus!
