//! Driver errors.

use crate::vk;
use vstd::prelude::*;

verus! {

/// Why a driver operation did not succeed.
#[derive(Clone, Copy, Debug, PartialEq, Eq, Hash, Structural)]
pub enum DriverError {
    /// The request or the device state is not valid.
    InvalidData,
    /// Host, device or pool memory ran out.
    OutOfMemory,
    /// The implementation cannot do what was asked.
    Unsupported,
}

/// Whether a result code reports exhausted host or device memory.
pub open spec fn memory_exhausted(result: i32) -> bool {
    result == vk::ERROR_OUT_OF_HOST_MEMORY || result == vk::ERROR_OUT_OF_DEVICE_MEMORY
}

/// The error for a failed call that distinguishes only exhausted memory.
pub open spec fn memory_error_of(result: i32) -> DriverError {
    if memory_exhausted(result) {
        DriverError::OutOfMemory
    } else {
        DriverError::Unsupported
    }
}

/// The error for a failed call that also distinguishes a lost device.
pub open spec fn device_error_of(result: i32) -> DriverError {
    if result == vk::ERROR_DEVICE_LOST {
        DriverError::InvalidData
    } else {
        memory_error_of(result)
    }
}

/// The error for a failed call that distinguishes only exhausted memory.
pub fn memory_error(result: i32) -> (err: DriverError)
    ensures
        err == memory_error_of(result),
{
    if result == vk::ERROR_OUT_OF_HOST_MEMORY || result == vk::ERROR_OUT_OF_DEVICE_MEMORY {
        DriverError::OutOfMemory
    } else {
        DriverError::Unsupported
    }
}

/// The error for a failed call that also distinguishes a lost device.
pub fn device_error(result: i32) -> (err: DriverError)
    ensures
        err == device_error_of(result),
{
    if result == vk::ERROR_DEVICE_LOST {
        DriverError::InvalidData
    } else {
        memory_error(result)
    }
}

/// Memory of the host and of the device have one code each, the two next to zero among the errors.
pub proof fn exhausted_memory_is_an_error(result: i32)
    ensures
        memory_exhausted(result) <==> -2 <= result < 0,
{
}

/// Exhausted memory is always told as such, a lost device where it matters, and all else is
/// unsupported.
pub proof fn errors_follow_codes(result: i32)
    ensures
        memory_error_of(result) == DriverError::OutOfMemory <==> -2 <= result < 0,
        memory_error_of(result) == DriverError::Unsupported <==> result < -2 || result >= 0,
        device_error_of(result) == DriverError::InvalidData <==> result == -4,
        result != -4 ==> device_error_of(result) == memory_error_of(result),
{
}

} // verus!
