//! Fence types.

use crate::device::Device;
use crate::error::DriverError;
use crate::vk;
use vstd::prelude::*;

verus! {

/// What is done with a fence that is dropped.
#[derive(Clone, Copy, Debug, PartialEq, Eq, Structural)]
pub enum FenceDrop {
    /// Nothing, because a panic unwinds.
    Leave,
    /// The fence is waited for, and destroyed where that succeeds.
    WaitAndDestroy,
    /// The fence is destroyed.
    Destroy,
}

/// The state of a fence: whether work is queued against it, and what is released once it signals.
///
/// Payloads are named by numbers.
#[derive(Debug)]
pub struct Fence {
    payloads: Vec<u64>,
    queued: bool,
    timestamps: Option<u64>,
}

impl Fence {
    /// What is released once the fence signals, in order.
    pub closed spec fn payloads(self) -> Seq<u64> {
        self.payloads@
    }

    /// Whether work has been queued against the fence.
    pub closed spec fn spec_is_queued(&self) -> bool {
        self.queued
    }

    /// The timestamp queries of queued work.
    pub closed spec fn spec_timestamps(&self) -> Option<u64> {
        self.timestamps
    }

    /// The state of a new fence. One that begins signaled counts as queued.
    pub fn new(signaled: bool) -> (fence: Self)
        ensures
            fence.is_queued() == signaled,
            fence.payloads() == Seq::<u64>::empty(),
            fence.timestamps() is None,
    {
        Fence { payloads: Vec::new(), queued: signaled, timestamps: None }
    }

    /// Returns `true` if work has been queued against this fence.
    #[verifier::when_used_as_spec(spec_is_queued)]
    pub fn is_queued(&self) -> (queued: bool)
        ensures
            queued == self.spec_is_queued(),
    {
        self.queued
    }

    /// The timestamp queries of queued work, where there are some.
    #[verifier::when_used_as_spec(spec_timestamps)]
    pub fn timestamps(&self) -> (timestamps: Option<u64>)
        ensures
            timestamps == self.spec_timestamps(),
    {
        self.timestamps
    }

    /// Marks this fence as having work queued against it.
    pub fn mark_queued(&mut self)
        ensures
            final(self).is_queued(),
            final(self).payloads() == old(self).payloads(),
            final(self).timestamps() == old(self).timestamps(),
    {
        self.queued = true;
    }

    /// Sets the timestamp queries of queued work.
    pub fn set_timestamps(&mut self, timestamps: u64)
        ensures
            final(self).is_queued() == old(self).is_queued(),
            final(self).payloads() == old(self).payloads(),
            final(self).timestamps() == Some(timestamps),
    {
        self.timestamps = Some(timestamps);
    }

    /// Releases an item after this fence signals.
    pub fn drop_when_signaled(&mut self, payload: u64)
        ensures
            final(self).is_queued() == old(self).is_queued(),
            final(self).payloads() == old(self).payloads().push(payload),
            final(self).timestamps() == old(self).timestamps(),
    {
        self.payloads.push(payload);
    }

    /// Takes what is to be released because the fence has signaled.
    fn drop_signaled(&mut self) -> (released: Vec<u64>)
        ensures
            released@ == old(self).payloads(),
            final(self).payloads() == Seq::<u64>::empty(),
            final(self).is_queued() == old(self).is_queued(),
            final(self).timestamps() == old(self).timestamps(),
    {
        let mut released: Vec<u64> = Vec::new();
        std::mem::swap(&mut released, &mut self.payloads);
        released
    }

    /// Takes the status that was read of the fence: whether it is signaled, and what is released
    /// because it is.
    pub fn status(&mut self, read: Result<bool, i32>) -> (status: Result<
        (bool, Vec<u64>),
        DriverError,
    >)
        ensures
            final(self).is_queued() == old(self).is_queued(),
            final(self).timestamps() == old(self).timestamps(),
            match read {
                Ok(signaled) => {
                    &&& status matches Ok(status)
                    &&& status.0 == signaled
                    &&& status.1@ == (if signaled {
                        old(self).payloads()
                    } else {
                        Seq::<u64>::empty()
                    })
                    &&& final(self).payloads() == (if signaled {
                        Seq::<u64>::empty()
                    } else {
                        old(self).payloads()
                    })
                },
                Err(_) => {
                    &&& status == Err::<(bool, Vec<u64>), DriverError>(DriverError::InvalidData)
                    &&& final(self).payloads() == old(self).payloads()
                },
            },
    {
        match read {
            Ok(signaled) => {
                if signaled {
                    let released = self.drop_signaled();
                    Ok((true, released))
                } else {
                    Ok((false, Vec::new()))
                }
            },
            Err(_) => Err(DriverError::InvalidData),
        }
    }

    /// Whether a fence has to be waited for or reset: not one without queued work where that is
    /// checked.
    pub fn acts(&self, checked: bool) -> (acts: bool)
        ensures
            acts == (!checked || self.is_queued()),
    {
        !(checked && !self.queued)
    }

    /// Takes the result of resetting a fence that was signaled. One that was not signaled needs no
    /// resetting, and succeeds.
    pub fn finish_reset(&mut self, result: i32) -> (reset: Result<(), DriverError>)
        ensures
            final(self).payloads() == old(self).payloads(),
            match reset {
                Ok(_) => {
                    &&& result == vk::SUCCESS
                    &&& !final(self).is_queued()
                    &&& final(self).timestamps() is None
                },
                Err(err) => {
                    &&& result != vk::SUCCESS
                    &&& err == (if result == vk::ERROR_OUT_OF_DEVICE_MEMORY {
                        DriverError::OutOfMemory
                    } else {
                        DriverError::Unsupported
                    })
                    &&& *final(self) == *old(self)
                },
            },
    {
        if result != vk::SUCCESS {
            return Err(Device::reset_fences_error(result));
        }
        self.queued = false;
        self.timestamps = None;
        Ok(())
    }

    /// Takes the outcome of waiting for the fence, and returns what is released.
    pub fn finish_wait(&mut self, waited: Result<(), DriverError>) -> (released: Result<
        Vec<u64>,
        DriverError,
    >)
        ensures
            final(self).is_queued() == old(self).is_queued(),
            final(self).timestamps() == old(self).timestamps(),
            match waited {
                Ok(_) => {
                    &&& released matches Ok(released)
                    &&& released@ == old(self).payloads()
                    &&& final(self).payloads() == Seq::<u64>::empty()
                },
                Err(err) => {
                    &&& released == Err::<Vec<u64>, DriverError>(err)
                    &&& final(self).payloads() == old(self).payloads()
                },
            },
    {
        match waited {
            Ok(_) => Ok(self.drop_signaled()),
            Err(err) => Err(err),
        }
    }

    /// Decides what is done with a fence that is dropped.
    pub fn dropped(&self, panicking: bool) -> (drop: FenceDrop)
        ensures
            drop == (if panicking {
                FenceDrop::Leave
            } else if self.is_queued() {
                FenceDrop::WaitAndDestroy
            } else {
                FenceDrop::Destroy
            }),
    {
        if panicking {
            FenceDrop::Leave
        } else if self.queued {
            FenceDrop::WaitAndDestroy
        } else {
            FenceDrop::Destroy
        }
    }
}

} // verus!
