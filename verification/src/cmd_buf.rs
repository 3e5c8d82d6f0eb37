//! Command buffer types.

use crate::device::Device;
use crate::error::{memory_exhausted, DriverError};
use crate::fence::Fence;
use crate::handles::{first_handle, first_nonzero};
use crate::vk;
use vstd::prelude::*;

verus! {

/// Information used to create a [`CommandBuffer`] instance.
#[derive(Clone, Copy, Debug, PartialEq, Eq, Hash, Structural)]
pub struct CommandBufferInfo {
    /// Designates the queue family used by the command pool that allocates this command buffer.
    pub queue_family_index: u32,
}

/// Builds a [`CommandBufferInfo`]; what is not set takes its default.
#[derive(Clone, Copy, Debug)]
pub struct CommandBufferInfoBuilder {
    /// See [`CommandBufferInfo::queue_family_index`].
    pub queue_family_index: Option<u32>,
}

impl CommandBufferInfo {
    /// The builder in which every field is set to this value's.
    pub open spec fn as_builder(self) -> CommandBufferInfoBuilder {
        CommandBufferInfoBuilder {
            queue_family_index: Some(self.queue_family_index),
        }
    }

    /// Creates a default `CommandBufferInfoBuilder`.
    pub fn builder() -> (builder: CommandBufferInfoBuilder)
        ensures
            builder == CommandBufferInfoBuilder::unset(),
    {
        CommandBufferInfoBuilder::default()
    }

    /// Converts a `CommandBufferInfo` into a `CommandBufferInfoBuilder`.
    pub fn into_builder(self) -> (builder: CommandBufferInfoBuilder)
        ensures
            builder == self.as_builder(),
    {
        CommandBufferInfoBuilder {
            queue_family_index: Some(self.queue_family_index),
        }
    }
}

impl CommandBufferInfoBuilder {
    /// The builder in which nothing is set.
    pub open spec fn unset() -> Self {
        CommandBufferInfoBuilder {
            queue_family_index: None,
        }
    }

    /// The value that the builder describes.
    pub open spec fn built(self) -> CommandBufferInfo {
        CommandBufferInfo {
            queue_family_index: self.queue_family_index.unwrap_or(0u32),
        }
    }

    /// Sets [`CommandBufferInfo::queue_family_index`].
    pub fn queue_family_index(self, queue_family_index: u32) -> (builder: Self)
        ensures
            builder == (CommandBufferInfoBuilder {
                queue_family_index: Some(queue_family_index),
                ..self
            }),
    {
        CommandBufferInfoBuilder { queue_family_index: Some(queue_family_index), ..self }
    }

    /// Builds a new `CommandBufferInfo`.
    pub fn build(self) -> (info: CommandBufferInfo)
        ensures
            info == self.built(),
    {
        CommandBufferInfo {
            queue_family_index: self.queue_family_index.unwrap_or(0u32),
        }
    }
}

impl Default for CommandBufferInfoBuilder {
    fn default() -> (builder: Self)
        ensures
            builder == CommandBufferInfoBuilder::unset(),
    {
        CommandBufferInfoBuilder {
            queue_family_index: None,
        }
    }
}

impl From<CommandBufferInfoBuilder> for CommandBufferInfo {
    fn from(builder: CommandBufferInfoBuilder) -> (info: Self) {
        builder.build()
    }
}

impl vstd::std_specs::convert::FromSpecImpl<CommandBufferInfoBuilder> for CommandBufferInfo {
    open spec fn obeys_from_spec() -> bool {
        true
    }

    open spec fn from_spec(builder: CommandBufferInfoBuilder) -> Self {
        builder.built()
    }
}

impl Default for CommandBufferInfo {
    fn default() -> (info: Self)
        ensures
            info == CommandBufferInfoBuilder::unset().built(),
    {
        CommandBufferInfoBuilder::default().build()
    }
}

/// Building what a value was converted into gives the value back.
pub proof fn command_buffer_info_round_trip(info: CommandBufferInfo)
    ensures
        info.as_builder().built() == info,
{
}

impl CommandBufferInfo {
    /// Creates command buffer allocation info for the given queue family.
    pub fn new(queue_family_index: u32) -> (info: Self)
        ensures
            info == (CommandBufferInfo { queue_family_index }),
    {
        CommandBufferInfo { queue_family_index }
    }
}

/// What is destroyed with a command buffer.
#[derive(Clone, Copy, Debug, PartialEq, Eq, Structural)]
pub enum CommandBufferTeardown {
    /// The semaphore of ownership releases.
    Semaphore(u64),
    /// The command buffer.
    CommandBuffer(u64),
    /// The command pool.
    Pool(u64),
}

/// A command buffer with a command pool of its own.
#[derive(Debug)]
pub struct CommandBuffer {
    handle: u64,
    info: CommandBufferInfo,
    pool: u64,
    release_semaphore: Option<u64>,
}

impl CommandBuffer {
    /// The native handle of this command buffer.
    pub closed spec fn spec_handle(&self) -> u64 {
        self.handle
    }

    /// Information used to create this object.
    pub closed spec fn spec_info(&self) -> CommandBufferInfo {
        self.info
    }

    /// The command pool of this command buffer.
    pub closed spec fn spec_pool(&self) -> u64 {
        self.pool
    }

    /// The semaphore of ownership releases.
    pub closed spec fn spec_release_semaphore(&self) -> Option<u64> {
        self.release_semaphore
    }

    /// The native handle of this command buffer.
    #[verifier::when_used_as_spec(spec_handle)]
    pub fn handle(&self) -> (handle: u64)
        ensures
            handle == self.spec_handle(),
    {
        self.handle
    }

    /// Information used to create this object.
    #[verifier::when_used_as_spec(spec_info)]
    pub fn info(&self) -> (info: CommandBufferInfo)
        ensures
            info == self.spec_info(),
    {
        self.info
    }

    /// The command pool of this command buffer.
    #[verifier::when_used_as_spec(spec_pool)]
    pub fn pool(&self) -> (pool: u64)
        ensures
            pool == self.spec_pool(),
    {
        self.pool
    }

    /// The semaphore used to signal temporary queue-ownership release submissions, where one was
    /// made.
    #[verifier::when_used_as_spec(spec_release_semaphore)]
    pub fn release_semaphore(&self) -> (semaphore: Option<u64>)
        ensures
            semaphore == self.spec_release_semaphore(),
    {
        self.release_semaphore
    }

    /// The flags of the command pool: its command buffers are transient and reset one by one.
    pub fn pool_flags() -> (flags: u32)
        ensures
            flags == vk::COMMAND_POOL_CREATE_TRANSIENT
                | vk::COMMAND_POOL_CREATE_RESET_COMMAND_BUFFER,
    {
        vk::COMMAND_POOL_CREATE_TRANSIENT | vk::COMMAND_POOL_CREATE_RESET_COMMAND_BUFFER
    }

    /// A command buffer, given what was allocated for it.
    pub fn new(info: CommandBufferInfo, pool: u64, allocated: &Vec<u64>) -> (cmd_buf: Result<
        Self,
        DriverError,
    >)
        ensures
            match first_nonzero(allocated@) {
                Some(handle) => {
                    &&& cmd_buf matches Ok(cmd_buf)
                    &&& cmd_buf.handle() == handle
                    &&& cmd_buf.info() == info
                    &&& cmd_buf.pool() == pool
                    &&& cmd_buf.release_semaphore() is None
                },
                None => cmd_buf == Err::<CommandBuffer, DriverError>(DriverError::Unsupported),
            },
    {
        match first_handle(allocated) {
            Some(handle) => Ok(CommandBuffer { handle, info, pool, release_semaphore: None }),
            None => Err(DriverError::Unsupported),
        }
    }

    /// Remembers the semaphore that was made for ownership releases because there was none.
    pub fn set_release_semaphore(&mut self, semaphore: u64)
        requires
            old(self).release_semaphore() is None,
        ensures
            final(self).handle() == old(self).handle(),
            final(self).info() == old(self).info(),
            final(self).pool() == old(self).pool(),
            final(self).release_semaphore() == Some(semaphore),
    {
        self.release_semaphore = Some(semaphore);
    }

    /// Takes the result of submitting command buffers with a fence, which then has work queued
    /// against it.
    pub fn queue_submit(fence: &mut Fence, result: i32) -> (submitted: Result<(), DriverError>)
        ensures
            final(fence).payloads() == old(fence).payloads(),
            final(fence).timestamps() == old(fence).timestamps(),
            final(fence).is_queued() == (old(fence).is_queued() || result == vk::SUCCESS),
            submitted == (if result == vk::SUCCESS {
                Ok::<(), DriverError>(())
            } else if result == vk::ERROR_DEVICE_LOST {
                Err(DriverError::InvalidData)
            } else if memory_exhausted(result) {
                Err(DriverError::OutOfMemory)
            } else {
                Err(DriverError::Unsupported)
            }),
    {
        if result != vk::SUCCESS {
            return Err(Device::queue_submit_error(result));
        }
        fence.mark_queued();
        Ok(())
    }

    /// What is destroyed with the command buffer, in order; nothing while a panic unwinds.
    pub fn teardown(&mut self, panicking: bool) -> (steps: Vec<CommandBufferTeardown>)
        ensures
            panicking ==> steps@ == Seq::<CommandBufferTeardown>::empty() && *final(self)
                == *old(self),
            final(self).handle() == old(self).handle(),
            final(self).info() == old(self).info(),
            final(self).pool() == old(self).pool(),
            !panicking ==> final(self).release_semaphore() is None,
            !panicking ==> steps@ == (match old(self).release_semaphore() {
                Some(semaphore) => seq![CommandBufferTeardown::Semaphore(semaphore)],
                None => seq![],
            }) + seq![
                CommandBufferTeardown::CommandBuffer(old(self).handle()),
                CommandBufferTeardown::Pool(old(self).pool()),
            ],
    {
        let mut steps: Vec<CommandBufferTeardown> = Vec::new();
        if panicking {
            return steps;
        }
        if let Some(semaphore) = self.release_semaphore {
            self.release_semaphore = None;
            steps.push(CommandBufferTeardown::Semaphore(semaphore));
        }
        steps.push(CommandBufferTeardown::CommandBuffer(self.handle));
        steps.push(CommandBufferTeardown::Pool(self.pool));
        assert(steps@ =~= (match old(self).release_semaphore() {
            Some(semaphore) => seq![CommandBufferTeardown::Semaphore(semaphore)],
            None => seq![],
        }) + seq![
            CommandBufferTeardown::CommandBuffer(old(self).handle()),
            CommandBufferTeardown::Pool(old(self).pool()),
        ]);
        steps
    }
}

/// A field that was set is built as it was set, whatever else was, and one that was not set has its
/// default.
pub proof fn command_buffer_info_fields_are_built_apart(builder: CommandBufferInfoBuilder)
    ensures
        ({
            let built = builder.built();
            &&& builder.queue_family_index matches Some(value) ==> built.queue_family_index == value
            &&& builder.queue_family_index is None ==> built.queue_family_index == 0
        }),
{
}

} // verus!
