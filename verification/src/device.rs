//! Logical device rules.

use crate::error::{
    device_error, device_error_of, memory_error, memory_error_of, memory_exhausted, DriverError,
};
use crate::instance::ApiVersion;
use crate::vk;
use vstd::prelude::*;
use vstd::string::*;

verus! {

/// The physical device that is selected.
pub open spec fn selection(count: usize, index: usize) -> Result<usize, DriverError> {
    if count == 0 {
        Err(DriverError::Unsupported)
    } else if index >= count {
        Ok(0)
    } else {
        Ok(index)
    }
}

/// A device that is selected is there. It is the one asked for where that is there too, and the
/// first otherwise. Without devices, none is selected.
pub proof fn selected_devices_are_there(count: usize, index: usize)
    ensures
        match selection(count, index) {
            Ok(selected) => {
                &&& selected < count
                &&& selected == index <==> index < count
                &&& selected != index ==> selected == 0
            },
            Err(err) => count == 0 && err == DriverError::Unsupported,
        },
{
}

/// Selects one of the physical devices that can be used: the one asked for, or the first where
/// there are not so many.
pub fn select_physical_device(count: usize, index: usize) -> (selected: Result<usize, DriverError>)
    ensures
        selected == selection(count, index),
{
    if count == 0 {
        return Err(DriverError::Unsupported);
    }
    if index >= count {
        return Ok(0);
    }
    Ok(index)
}

/// Whether a text holds the character that ends texts in the driver's interface.
pub fn has_nul(text: &str) -> (has: bool)
    ensures
        has == text@.contains('\0'),
{
    let len: usize = text.unicode_len();
    let mut index: usize = 0;
    while index < len
        invariant
            index <= len == text@.len(),
            forall|i: int| 0 <= i < index ==> text@[i] != '\0',
        decreases len - index,
    {
        if text.get_char(index) == '\0' {
            assert(text@[index as int] == '\0');
            return true;
        }
        index += 1;
    }
    false
}

/// Information used to create a device.
#[derive(Clone, Copy, Debug, PartialEq, Eq, Hash, Structural)]
pub struct DeviceInfo {
    /// Enables the Vulkan validation layers.
    ///
    /// This requires a Vulkan SDK installation and will panic when validation errors happen.
    ///
    /// When `stderr` is attached to an interactive terminal, validation errors will park the
    /// callback thread for debugger attach.
    pub debug: bool,
    /// Index of the physical device from the available devices.
    pub physical_device_index: usize,
}

/// Builds a [`DeviceInfo`]; what is not set takes its default.
#[derive(Clone, Copy, Debug)]
pub struct DeviceInfoBuilder {
    /// See [`DeviceInfo::debug`].
    pub debug: Option<bool>,
    /// See [`DeviceInfo::physical_device_index`].
    pub physical_device_index: Option<usize>,
}

impl DeviceInfo {
    /// The builder in which every field is set to this value's.
    pub open spec fn as_builder(self) -> DeviceInfoBuilder {
        DeviceInfoBuilder {
            debug: Some(self.debug),
            physical_device_index: Some(self.physical_device_index),
        }
    }

    /// Creates a default `DeviceInfoBuilder`.
    pub fn builder() -> (builder: DeviceInfoBuilder)
        ensures
            builder == DeviceInfoBuilder::unset(),
    {
        DeviceInfoBuilder::default()
    }

    /// Converts a `DeviceInfo` into a `DeviceInfoBuilder`.
    pub fn into_builder(self) -> (builder: DeviceInfoBuilder)
        ensures
            builder == self.as_builder(),
    {
        DeviceInfoBuilder {
            debug: Some(self.debug),
            physical_device_index: Some(self.physical_device_index),
        }
    }
}

impl DeviceInfoBuilder {
    /// The builder in which nothing is set.
    pub open spec fn unset() -> Self {
        DeviceInfoBuilder {
            debug: None,
            physical_device_index: None,
        }
    }

    /// The value that the builder describes.
    pub open spec fn built(self) -> DeviceInfo {
        DeviceInfo {
            debug: self.debug.unwrap_or(false),
            physical_device_index: self.physical_device_index.unwrap_or(0usize),
        }
    }

    /// Sets [`DeviceInfo::debug`].
    pub fn debug(self, debug: bool) -> (builder: Self)
        ensures
            builder == (DeviceInfoBuilder { debug: Some(debug), ..self }),
    {
        DeviceInfoBuilder { debug: Some(debug), ..self }
    }

    /// Sets [`DeviceInfo::physical_device_index`].
    pub fn physical_device_index(self, physical_device_index: usize) -> (builder: Self)
        ensures
            builder == (DeviceInfoBuilder {
                physical_device_index: Some(physical_device_index),
                ..self
            }),
    {
        DeviceInfoBuilder { physical_device_index: Some(physical_device_index), ..self }
    }

    /// Builds a new `DeviceInfo`.
    pub fn build(self) -> (info: DeviceInfo)
        ensures
            info == self.built(),
    {
        DeviceInfo {
            debug: self.debug.unwrap_or(false),
            physical_device_index: self.physical_device_index.unwrap_or(0usize),
        }
    }
}

impl Default for DeviceInfoBuilder {
    fn default() -> (builder: Self)
        ensures
            builder == DeviceInfoBuilder::unset(),
    {
        DeviceInfoBuilder {
            debug: None,
            physical_device_index: None,
        }
    }
}

impl From<DeviceInfoBuilder> for DeviceInfo {
    fn from(builder: DeviceInfoBuilder) -> (info: Self) {
        builder.build()
    }
}

impl vstd::std_specs::convert::FromSpecImpl<DeviceInfoBuilder> for DeviceInfo {
    open spec fn obeys_from_spec() -> bool {
        true
    }

    open spec fn from_spec(builder: DeviceInfoBuilder) -> Self {
        builder.built()
    }
}

impl Default for DeviceInfo {
    fn default() -> (info: Self)
        ensures
            info == DeviceInfoBuilder::unset().built(),
    {
        DeviceInfoBuilder::default().build()
    }
}

/// Building what a value was converted into gives the value back.
pub proof fn device_info_round_trip(info: DeviceInfo)
    ensures
        info.as_builder().built() == info,
{
}

/// What a physical device supports.
#[derive(Clone, Copy, Debug, PartialEq, Eq, Structural)]
pub struct PhysicalDeviceSupport {
    /// Whether acceleration structures are supported.
    pub acceleration_structure: bool,
    /// Whether waiting for a presentation is supported.
    pub present_wait: bool,
    /// Whether private data is supported.
    pub private_data: bool,
    /// Whether ray tracing pipelines are supported.
    pub ray_tracing_pipeline: bool,
    /// Whether swapchains are supported.
    pub swapchain: bool,
    /// Whether synchronization2 is supported.
    pub synchronization2: bool,
}

/// What a device loads.
#[derive(Clone, Copy, Debug, PartialEq, Eq, Structural)]
pub struct DevicePlan {
    /// Whether functions for acceleration structures are loaded.
    pub acceleration_structure: bool,
    /// Whether functions for waiting for a presentation are loaded.
    pub present_wait: bool,
    /// Whether functions for private data are loaded, and a slot for it is made.
    pub private_data: bool,
    /// Whether functions for ray tracing pipelines are loaded.
    pub ray_tracing_pipeline: bool,
    /// Whether functions for surfaces are loaded.
    pub surface: bool,
    /// Whether functions for swapchains are loaded.
    pub swapchain: bool,
    /// Whether functions for synchronization2 are loaded.
    pub synchronization2: bool,
    /// Whether allocations and leaks are logged.
    pub log_allocations: bool,
}

/// What is done when a device is dropped.
#[derive(Clone, Copy, Debug, PartialEq, Eq, Structural)]
pub enum DeviceTeardown {
    /// The allocator is left as it is, so that it does not complain about leaks.
    ForgetAllocator,
    /// The device is waited for.
    WaitIdle,
    /// The pipeline cache is destroyed.
    DestroyPipelineCache,
    /// The private data slot is destroyed.
    DestroyPrivateDataSlot,
    /// The allocator is dropped.
    DropAllocator,
    /// The device is destroyed.
    DestroyDevice,
}

/// What follows a short wait for fences.
#[derive(Clone, Copy, Debug, PartialEq, Eq, Structural)]
pub enum FencePoll {
    /// The fences are signaled.
    Signaled,
    /// The fences have to be waited for without end.
    Wait,
    /// The wait failed.
    Failed(DriverError),
}

/// The rules of using a device.
#[derive(Debug)]
pub struct Device;

impl Device {
    /// How long fences are polled for before they are waited for without end.
    pub const FENCE_POLL_TIMEOUT: u64 = 100;

    /// The error for a command buffer that could not be begun.
    pub fn begin_command_buffer_error(result: i32) -> (err: DriverError)
        ensures
            err == memory_error_of(result),
    {
        memory_error(result)
    }

    /// The error for a command buffer that could not be ended.
    pub open spec fn end_error_of(result: i32) -> DriverError {
        if result == vk::ERROR_INVALID_VIDEO_STD_PARAMETERS_KHR {
            DriverError::InvalidData
        } else {
            memory_error_of(result)
        }
    }

    /// The error for a command buffer that could not be ended.
    pub fn end_command_buffer_error(result: i32) -> (err: DriverError)
        ensures
            err == Self::end_error_of(result),
    {
        if result == vk::ERROR_INVALID_VIDEO_STD_PARAMETERS_KHR {
            DriverError::InvalidData
        } else {
            memory_error(result)
        }
    }

    /// The error for commands that could not be submitted.
    pub fn queue_submit_error(result: i32) -> (err: DriverError)
        ensures
            err == device_error_of(result),
    {
        device_error(result)
    }

    /// The error for a device or queue that could not be waited for.
    pub open spec fn idle_error_of(result: i32) -> DriverError {
        if memory_exhausted(result) {
            DriverError::OutOfMemory
        } else if result == vk::ERROR_DEVICE_LOST || result == vk::ERROR_VALIDATION_FAILED_EXT {
            DriverError::InvalidData
        } else {
            DriverError::Unsupported
        }
    }

    /// The error for a device or queue that could not be waited for.
    pub fn wait_idle_error(result: i32) -> (err: DriverError)
        ensures
            err == Self::idle_error_of(result),
    {
        match result {
            vk::ERROR_OUT_OF_DEVICE_MEMORY | vk::ERROR_OUT_OF_HOST_MEMORY => {
                DriverError::OutOfMemory
            },
            vk::ERROR_DEVICE_LOST | vk::ERROR_VALIDATION_FAILED_EXT => DriverError::InvalidData,
            _ => DriverError::Unsupported,
        }
    }

    /// The error for fences that could not be reset.
    pub open spec fn reset_error_of(result: i32) -> DriverError {
        if result == vk::ERROR_OUT_OF_DEVICE_MEMORY {
            DriverError::OutOfMemory
        } else {
            DriverError::Unsupported
        }
    }

    /// The error for fences that could not be reset.
    pub fn reset_fences_error(result: i32) -> (err: DriverError)
        ensures
            err == Self::reset_error_of(result),
    {
        match result {
            vk::ERROR_OUT_OF_DEVICE_MEMORY => DriverError::OutOfMemory,
            _ => DriverError::Unsupported,
        }
    }

    /// The error for a name that the driver did not take.
    pub open spec fn name_error_of(result: i32) -> DriverError {
        if memory_exhausted(result) {
            DriverError::OutOfMemory
        } else if result == vk::ERROR_VALIDATION_FAILED_EXT {
            DriverError::InvalidData
        } else {
            DriverError::Unsupported
        }
    }

    /// The error for a name that the driver did not take.
    pub fn debug_name_error(result: i32) -> (err: DriverError)
        ensures
            err == Self::name_error_of(result),
    {
        match result {
            vk::ERROR_OUT_OF_DEVICE_MEMORY | vk::ERROR_OUT_OF_HOST_MEMORY => {
                DriverError::OutOfMemory
            },
            vk::ERROR_VALIDATION_FAILED_EXT => DriverError::InvalidData,
            _ => DriverError::Unsupported,
        }
    }

    /// Whether a label region is begun on a command buffer.
    pub open spec fn label_begins(debug: bool, label_name: Seq<char>, debug_utils: bool) -> Result<
        bool,
        DriverError,
    > {
        if !debug {
            Ok(false)
        } else if label_name.contains('\0') {
            Err(DriverError::InvalidData)
        } else if !debug_utils {
            Err(DriverError::Unsupported)
        } else {
            Ok(true)
        }
    }

    /// Decides whether a label region is begun on a command buffer: not without debugging.
    pub fn begins_debug_label(debug: bool, label_name: &str, debug_utils: bool) -> (begins: Result<
        bool,
        DriverError,
    >)
        ensures
            begins == Self::label_begins(debug, label_name@, debug_utils),
    {
        if !debug {
            return Ok(false);
        }
        if has_nul(label_name) {
            return Err(DriverError::InvalidData);
        }
        if debug_utils {
            Ok(true)
        } else {
            Err(DriverError::Unsupported)
        }
    }

    /// Whether a label region is ended on a command buffer.
    pub open spec fn label_ends(debug: bool, debug_utils: bool) -> Result<bool, DriverError> {
        if !debug {
            Ok(false)
        } else if !debug_utils {
            Err(DriverError::Unsupported)
        } else {
            Ok(true)
        }
    }

    /// Decides whether a label region is ended on a command buffer: not without debugging.
    pub fn ends_debug_label(debug: bool, debug_utils: bool) -> (ends: Result<bool, DriverError>)
        ensures
            ends == Self::label_ends(debug, debug_utils),
    {
        if !debug {
            return Ok(false);
        }
        if debug_utils {
            Ok(true)
        } else {
            Err(DriverError::Unsupported)
        }
    }

    /// Whether an object is named.
    pub open spec fn object_named(
        debug: bool,
        object_handle: u64,
        object_name: Seq<char>,
        debug_utils: bool,
    ) -> Result<bool, DriverError> {
        if !debug {
            Ok(false)
        } else if object_handle == 0 || object_name.contains('\0') {
            Err(DriverError::InvalidData)
        } else if !debug_utils {
            Err(DriverError::Unsupported)
        } else {
            Ok(true)
        }
    }

    /// Decides whether an object is named: not without debugging.
    pub fn names_object(debug: bool, object_handle: u64, object_name: &str, debug_utils: bool) -> (
    names: Result<bool, DriverError>)
        ensures
            names == Self::object_named(debug, object_handle, object_name@, debug_utils),
    {
        if !debug {
            return Ok(false);
        }
        if object_handle == 0 {
            return Err(DriverError::InvalidData);
        }
        Self::begins_debug_label(debug, object_name, debug_utils)
    }

    /// Whether the core functions of synchronization2 are used, rather than those of its extension.
    pub fn uses_core_synchronization2(api_version: ApiVersion) -> (uses: bool)
        ensures
            uses == (api_version == ApiVersion::Vulkan13),
    {
        api_version.at_least(ApiVersion::Vulkan13)
    }

    /// What a device loads.
    pub open spec fn planned(
        debug: bool,
        debug_utils: bool,
        support: PhysicalDeviceSupport,
    ) -> Result<DevicePlan, DriverError> {
        if debug && !(debug_utils && support.private_data) {
            Err(DriverError::Unsupported)
        } else {
            Ok(
                DevicePlan {
                    acceleration_structure: support.acceleration_structure,
                    present_wait: support.present_wait,
                    private_data: support.private_data,
                    ray_tracing_pipeline: support.ray_tracing_pipeline,
                    surface: support.swapchain,
                    swapchain: support.swapchain,
                    synchronization2: support.synchronization2,
                    log_allocations: debug,
                },
            )
        }
    }

    /// Decides what a device loads.
    pub fn plan(debug: bool, debug_utils: bool, support: PhysicalDeviceSupport) -> (plan: Result<
        DevicePlan,
        DriverError,
    >)
        ensures
            plan == Self::planned(debug, debug_utils, support),
    {
        if debug && !debug_utils {
            return Err(DriverError::Unsupported);
        }
        if debug && !support.private_data {
            return Err(DriverError::Unsupported);
        }
        Ok(
            DevicePlan {
                acceleration_structure: support.acceleration_structure,
                present_wait: support.present_wait,
                private_data: support.private_data,
                ray_tracing_pipeline: support.ray_tracing_pipeline,
                surface: support.swapchain,
                swapchain: support.swapchain,
                synchronization2: support.synchronization2,
                log_allocations: debug,
            },
        )
    }

    /// The queues of a family, by their indices.
    fn family_queues(family: u32, count: u32) -> (queues: Vec<(u32, u32)>)
        ensures
            queues@ == Seq::new(count as nat, |index: int| (family, index as u32)),
    {
        let mut queues: Vec<(u32, u32)> = Vec::new();
        let mut index: u32 = 0;
        while index < count
            invariant
                index <= count,
                queues@ == Seq::new(index as nat, |index: int| (family, index as u32)),
            decreases count - index,
        {
            queues.push((family, index));
            index += 1;
            assert(queues@ =~= Seq::new(index as nat, |index: int| (family, index as u32)));
        }
        queues
    }

    /// The queues of a device, by the indices of their family and in it, family by family, given
    /// the number of queues of each family.
    pub fn queues(counts: &Vec<u32>) -> (queues: Vec<Vec<(u32, u32)>>)
        requires
            counts@.len() <= u32::MAX,
        ensures
            queues@.len() == counts@.len(),
            forall|family: int|
                0 <= family < queues@.len() ==> (#[trigger] queues@[family])@ == Seq::new(
                    counts@[family] as nat,
                    |index: int| (family as u32, index as u32),
                ),
    {
        let mut queues: Vec<Vec<(u32, u32)>> = Vec::new();
        let mut family: usize = 0;
        while family < counts.len()
            invariant
                family <= counts@.len() <= u32::MAX,
                queues@.len() == family,
                forall|k: int|
                    0 <= k < family ==> (#[trigger] queues@[k])@ == Seq::new(
                        counts@[k] as nat,
                        |index: int| (k as u32, index as u32),
                    ),
            decreases counts@.len() - family,
        {
            let list = Self::family_queues(family as u32, counts[family]);
            assert(list@ =~= Seq::new(
                counts@[family as int] as nat,
                |index: int| (family as int as u32, index as u32),
            ));
            queues.push(list);
            family += 1;
        }
        queues
    }

    /// Whether a device has a queue, given the number of queues of each family.
    pub fn has_queue(counts: &Vec<u32>, queue_family_index: u32, queue_index: u32) -> (has: bool)
        ensures
            has == (queue_family_index < counts@.len() && queue_index
                < counts@[queue_family_index as int]),
    {
        (queue_family_index as usize) < counts.len() && queue_index
            < counts[queue_family_index as usize]
    }

    /// What follows a short wait for fences, given its result.
    pub open spec fn polled(result: i32) -> FencePoll {
        if result == vk::SUCCESS {
            FencePoll::Signaled
        } else if result == vk::ERROR_DEVICE_LOST {
            FencePoll::Failed(DriverError::InvalidData)
        } else if result == vk::TIMEOUT {
            FencePoll::Wait
        } else {
            FencePoll::Failed(DriverError::OutOfMemory)
        }
    }

    /// What a wait for fences without end gives, given its result.
    pub open spec fn waited(result: i32) -> Result<(), DriverError> {
        if result == vk::SUCCESS {
            Ok(())
        } else if result == vk::ERROR_DEVICE_LOST {
            Err(DriverError::InvalidData)
        } else {
            Err(DriverError::OutOfMemory)
        }
    }

    /// Decides what follows a short wait for fences, given its result.
    pub fn after_fence_poll(result: i32) -> (poll: FencePoll)
        ensures
            poll == Self::polled(result),
    {
        match result {
            vk::SUCCESS => FencePoll::Signaled,
            vk::ERROR_DEVICE_LOST => FencePoll::Failed(DriverError::InvalidData),
            vk::TIMEOUT => FencePoll::Wait,
            _ => FencePoll::Failed(DriverError::OutOfMemory),
        }
    }

    /// Decides what a wait for fences without end gives, given its result.
    pub fn after_fence_wait(result: i32) -> (waited: Result<(), DriverError>)
        ensures
            waited == Self::waited(result),
    {
        match result {
            vk::SUCCESS => Ok(()),
            vk::ERROR_DEVICE_LOST => Err(DriverError::InvalidData),
            _ => Err(DriverError::OutOfMemory),
        }
    }

    /// What is done when a device is dropped, in order.
    pub open spec fn teardown_steps(panicking: bool, private_data: bool) -> Seq<DeviceTeardown> {
        if panicking {
            seq![DeviceTeardown::ForgetAllocator]
        } else if private_data {
            seq![
                DeviceTeardown::WaitIdle,
                DeviceTeardown::DestroyPipelineCache,
                DeviceTeardown::DestroyPrivateDataSlot,
                DeviceTeardown::DropAllocator,
                DeviceTeardown::DestroyDevice,
            ]
        } else {
            seq![
                DeviceTeardown::WaitIdle,
                DeviceTeardown::DestroyPipelineCache,
                DeviceTeardown::DropAllocator,
                DeviceTeardown::DestroyDevice,
            ]
        }
    }

    /// What is done when a device is dropped, in order.
    pub fn teardown(panicking: bool, private_data: bool) -> (steps: Vec<DeviceTeardown>)
        ensures
            steps@ == Self::teardown_steps(panicking, private_data),
    {
        let mut steps: Vec<DeviceTeardown> = Vec::new();
        if panicking {
            steps.push(DeviceTeardown::ForgetAllocator);
            assert(steps@ =~= seq![DeviceTeardown::ForgetAllocator]);
            return steps;
        }
        steps.push(DeviceTeardown::WaitIdle);
        steps.push(DeviceTeardown::DestroyPipelineCache);
        if private_data {
            steps.push(DeviceTeardown::DestroyPrivateDataSlot);
        }
        steps.push(DeviceTeardown::DropAllocator);
        steps.push(DeviceTeardown::DestroyDevice);
        assert(steps@ =~= (if private_data {
            seq![
                DeviceTeardown::WaitIdle,
                DeviceTeardown::DestroyPipelineCache,
                DeviceTeardown::DestroyPrivateDataSlot,
                DeviceTeardown::DropAllocator,
                DeviceTeardown::DestroyDevice,
            ]
        } else {
            seq![
                DeviceTeardown::WaitIdle,
                DeviceTeardown::DestroyPipelineCache,
                DeviceTeardown::DropAllocator,
                DeviceTeardown::DestroyDevice,
            ]
        }));
        steps
    }
}

/// Calls of all kinds tell exhausted memory by the same codes, but for resets of fences, which use
/// memory of the device alone. Data is invalid by the codes that a kind of call has for it.
pub proof fn calls_fail_by_codes(result: i32)
    ensures
        Device::end_error_of(result) == DriverError::OutOfMemory <==> -2 <= result < 0,
        Device::idle_error_of(result) == DriverError::OutOfMemory <==> -2 <= result < 0,
        Device::name_error_of(result) == DriverError::OutOfMemory <==> -2 <= result < 0,
        Device::reset_error_of(result) == DriverError::OutOfMemory <==> result == -2,
        Device::end_error_of(result) == DriverError::InvalidData <==> result == -1000299000,
        Device::idle_error_of(result) == DriverError::InvalidData <==> result == -4 || result
            == -1000011001,
        Device::name_error_of(result) == DriverError::InvalidData <==> result == -1000011001,
        Device::reset_error_of(result) != DriverError::InvalidData,
{
}

/// A short wait ends as a wait without end would, unless its time is over: only then is there more
/// to wait for.
pub proof fn short_waits_end_as_long_ones(result: i32)
    ensures
        Device::polled(result) == FencePoll::Wait <==> result == 2,
        Device::polled(result) == FencePoll::Signaled <==> Device::waited(result) is Ok,
        Device::waited(result) is Ok <==> result == 0,
        Device::waited(result) == Err::<(), DriverError>(DriverError::InvalidData) <==> result
            == -4,
        Device::waited(result) != Err::<(), DriverError>(DriverError::Unsupported),
        Device::polled(result) matches FencePoll::Failed(err) ==> Device::waited(result) == Err::<
            (),
            DriverError,
        >(err),
{
}

/// Without debugging nothing is labeled or named, and nothing of that fails. With it, a region is
/// ended where one with a name that can be taken is begun, and an object that is there is named as
/// a region is.
pub proof fn labels_need_debugging(
    debug: bool,
    handle: u64,
    name: Seq<char>,
    debug_utils: bool,
)
    ensures
        !debug ==> Device::object_named(debug, handle, name, debug_utils) == Ok::<bool, DriverError>(
            false,
        ),
        handle != 0 ==> Device::object_named(debug, handle, name, debug_utils)
            == Device::label_begins(debug, name, debug_utils),
        debug && handle == 0 ==> Device::object_named(debug, handle, name, debug_utils) == Err::<
            bool,
            DriverError,
        >(DriverError::InvalidData),
        !name.contains('\0') ==> Device::label_begins(debug, name, debug_utils)
            == Device::label_ends(debug, debug_utils),
        debug && name.contains('\0') ==> Device::label_begins(debug, name, debug_utils) == Err::<
            bool,
            DriverError,
        >(DriverError::InvalidData),
        Device::label_ends(debug, debug_utils) is Ok <==> debug ==> debug_utils,
        Device::label_ends(debug, debug_utils) matches Ok(ends) ==> ends == debug,
        Device::label_ends(debug, debug_utils) matches Err(err) ==> err == DriverError::Unsupported,
{
}

/// A device loads what its physical device supports, and surfaces with swapchains. Only debugging
/// asks for something: private data, and the utilities of the instance.
pub proof fn devices_load_what_is_supported(
    debug: bool,
    debug_utils: bool,
    support: PhysicalDeviceSupport,
)
    ensures
        match Device::planned(debug, debug_utils, support) {
            Ok(plan) => {
                &&& debug ==> debug_utils && plan.private_data
                &&& plan.log_allocations == debug
                &&& plan.surface == plan.swapchain
                &&& support == (PhysicalDeviceSupport {
                    acceleration_structure: plan.acceleration_structure,
                    present_wait: plan.present_wait,
                    private_data: plan.private_data,
                    ray_tracing_pipeline: plan.ray_tracing_pipeline,
                    swapchain: plan.swapchain,
                    synchronization2: plan.synchronization2,
                })
            },
            Err(err) => {
                &&& err == DriverError::Unsupported
                &&& debug
                &&& debug_utils ==> !support.private_data
            },
        },
{
}

/// A field that was set is built as it was set, whatever else was, and one that was not set has its
/// default.
pub proof fn device_info_fields_are_built_apart(builder: DeviceInfoBuilder)
    ensures
        ({
            let built = builder.built();
            &&& builder.debug matches Some(value) ==> built.debug == value
            &&& builder.physical_device_index matches Some(value) ==> built.physical_device_index
                == value
            &&& builder.debug is None ==> !built.debug
            &&& builder.physical_device_index is None ==> built.physical_device_index == 0
        }),
{
}

/// A device is waited for before anything of it goes, and goes itself last, right behind its
/// allocator. A slot for private data goes just where there is one. While a panic unwinds, nothing
/// is waited for or destroyed.
pub proof fn devices_are_idle_first_and_go_last(private_data: bool, step: DeviceTeardown)
    ensures
        ({
            let steps = Device::teardown_steps(false, private_data);
            &&& steps[0] == DeviceTeardown::WaitIdle
            &&& steps.last() == DeviceTeardown::DestroyDevice
            &&& steps[steps.len() - 2] == DeviceTeardown::DropAllocator
            &&& steps.no_duplicates()
            &&& steps.contains(step) <==> step != DeviceTeardown::ForgetAllocator && (step
                == DeviceTeardown::DestroyPrivateDataSlot ==> private_data)
            &&& Device::teardown_steps(true, private_data).contains(step) <==> step
                == DeviceTeardown::ForgetAllocator
        }),
{
    let steps = Device::teardown_steps(false, private_data);
    let left = Device::teardown_steps(true, private_data);
    assert(left[0] == DeviceTeardown::ForgetAllocator);
    assert(steps[0] == DeviceTeardown::WaitIdle);
    assert(steps[1] == DeviceTeardown::DestroyPipelineCache);
    if private_data {
        assert(steps[2] == DeviceTeardown::DestroyPrivateDataSlot);
        assert(steps[3] == DeviceTeardown::DropAllocator);
        assert(steps[4] == DeviceTeardown::DestroyDevice);
    } else {
        assert(steps[2] == DeviceTeardown::DropAllocator);
        assert(steps[3] == DeviceTeardown::DestroyDevice);
    }
}

} // verus!
