//! Opacity micromap resource types.

use crate::access::{pipeline_stage_access_flags, AccessType};
use crate::accesses::{recorded, swap_access, swap_accesses, told};
use crate::buffer::BufferInfo;
use crate::error::{memory_exhausted, DriverError};
use crate::vk;
use vstd::prelude::*;

verus! {

/// The alignment of serialized micromaps in host memory.
pub const SERIALIZATION_ALIGNMENT: usize = 16;

/// Whether a call that was not deferred succeeded, or why it did not.
pub open spec fn outcome(result: i32) -> Result<(), DriverError> {
    if result == vk::SUCCESS || result == vk::OPERATION_NOT_DEFERRED_KHR {
        Ok(())
    } else if memory_exhausted(result) {
        Err(DriverError::OutOfMemory)
    } else if result == vk::ERROR_DEVICE_LOST || result
        == vk::ERROR_INVALID_OPAQUE_CAPTURE_ADDRESS {
        Err(DriverError::InvalidData)
    } else {
        Err(DriverError::Unsupported)
    }
}

/// Whether a call that was not deferred succeeded, or why it did not.
pub fn map_vk_result(result: i32) -> (mapped: Result<(), DriverError>)
    ensures
        mapped == outcome(result),
{
    match result {
        vk::SUCCESS | vk::OPERATION_NOT_DEFERRED_KHR => Ok(()),
        vk::ERROR_OUT_OF_DEVICE_MEMORY | vk::ERROR_OUT_OF_HOST_MEMORY => Err(
            DriverError::OutOfMemory,
        ),
        vk::ERROR_DEVICE_LOST | vk::ERROR_INVALID_OPAQUE_CAPTURE_ADDRESS => Err(
            DriverError::InvalidData,
        ),
        _ => Err(DriverError::Unsupported),
    }
}

/// The synchronization2 stages and accesses of an access.
pub open spec fn micromap_sync_flags(access: AccessType) -> (u64, u64) {
    match access {
        AccessType::MicromapBuildRead => (
            vk::PIPELINE_STAGE_2_MICROMAP_BUILD_EXT,
            vk::ACCESS_2_MICROMAP_READ_EXT,
        ),
        AccessType::MicromapBuildWrite => (
            vk::PIPELINE_STAGE_2_MICROMAP_BUILD_EXT,
            vk::ACCESS_2_MICROMAP_WRITE_EXT,
        ),
        AccessType::MicromapBuildInputRead => (
            vk::PIPELINE_STAGE_2_MICROMAP_BUILD_EXT,
            vk::ACCESS_2_SHADER_READ,
        ),
        AccessType::MicromapBuildBufferRead => (
            vk::PIPELINE_STAGE_2_MICROMAP_BUILD_EXT,
            vk::ACCESS_2_TRANSFER_READ,
        ),
        AccessType::MicromapBuildBufferWrite => (
            vk::PIPELINE_STAGE_2_MICROMAP_BUILD_EXT,
            vk::ACCESS_2_TRANSFER_WRITE,
        ),
        AccessType::AccelerationStructureBuildMicromapRead => (
            vk::PIPELINE_STAGE_2_ACCELERATION_STRUCTURE_BUILD_KHR,
            vk::ACCESS_2_MICROMAP_READ_EXT,
        ),
        _ => (access.stages() as u64, access.accesses() as u64),
    }
}

/// The synchronization2 stages and accesses of an access.
pub fn micromap_sync_flags_for_access(access: AccessType) -> (flags: (u64, u64))
    ensures
        flags == micromap_sync_flags(access),
{
    match access {
        AccessType::MicromapBuildRead => (
            vk::PIPELINE_STAGE_2_MICROMAP_BUILD_EXT,
            vk::ACCESS_2_MICROMAP_READ_EXT,
        ),
        AccessType::MicromapBuildWrite => (
            vk::PIPELINE_STAGE_2_MICROMAP_BUILD_EXT,
            vk::ACCESS_2_MICROMAP_WRITE_EXT,
        ),
        AccessType::MicromapBuildInputRead => (
            vk::PIPELINE_STAGE_2_MICROMAP_BUILD_EXT,
            vk::ACCESS_2_SHADER_READ,
        ),
        AccessType::MicromapBuildBufferRead => (
            vk::PIPELINE_STAGE_2_MICROMAP_BUILD_EXT,
            vk::ACCESS_2_TRANSFER_READ,
        ),
        AccessType::MicromapBuildBufferWrite => (
            vk::PIPELINE_STAGE_2_MICROMAP_BUILD_EXT,
            vk::ACCESS_2_TRANSFER_WRITE,
        ),
        AccessType::AccelerationStructureBuildMicromapRead => (
            vk::PIPELINE_STAGE_2_ACCELERATION_STRUCTURE_BUILD_KHR,
            vk::ACCESS_2_MICROMAP_READ_EXT,
        ),
        _ => {
            let (stages, accesses) = pipeline_stage_access_flags(access);
            (stages as u64, accesses as u64)
        },
    }
}

/// Typed opacity micromap usage count.
#[derive(Clone, Copy, Debug, PartialEq, Eq, Hash, Structural)]
pub struct OpacityMicromapUsage {
    /// Number of matching micromap triangles.
    pub count: u32,
    /// Opacity format for these triangles.
    pub format: i32,
    /// Subdivision level for these triangles.
    pub subdivision_level: u32,
}

impl OpacityMicromapUsage {
    /// Creates an opacity micromap usage count.
    pub fn new(count: u32, subdivision_level: u32, format: i32) -> (usage: Self)
        ensures
            usage.count == count,
            usage.format == format,
            usage.subdivision_level == subdivision_level,
    {
        OpacityMicromapUsage { count, format, subdivision_level }
    }
}

/// A usage count as a build reads it.
#[derive(Clone, Copy, Debug, PartialEq, Eq, Hash, Structural)]
pub struct MicromapUsage {
    /// Number of matching micromap triangles.
    pub count: u32,
    /// Subdivision level for these triangles.
    pub subdivision_level: u32,
    /// Format for these triangles, of a numbering that depends on the type of micromap.
    pub format: u32,
}

impl From<OpacityMicromapUsage> for MicromapUsage {
    fn from(value: OpacityMicromapUsage) -> (usage: Self) {
        MicromapUsage {
            count: value.count,
            subdivision_level: value.subdivision_level,
            format: value.format as u32,
        }
    }
}

impl vstd::std_specs::convert::FromSpecImpl<OpacityMicromapUsage> for MicromapUsage {
    open spec fn obeys_from_spec() -> bool {
        true
    }

    open spec fn from_spec(value: OpacityMicromapUsage) -> Self {
        MicromapUsage {
            count: value.count,
            subdivision_level: value.subdivision_level,
            format: value.format as u32,
        }
    }
}

/// The usage counts of a list as a build reads them.
pub open spec fn usages(counts: Seq<OpacityMicromapUsage>) -> Seq<MicromapUsage> {
    counts.map_values(
        |usage: OpacityMicromapUsage|
            MicromapUsage {
                count: usage.count,
                subdivision_level: usage.subdivision_level,
                format: usage.format as u32,
            },
    )
}

/// Converts usage counts to what a build reads.
pub fn convert_usages(counts: &[OpacityMicromapUsage]) -> (converted: Vec<MicromapUsage>)
    ensures
        converted@ == usages(counts@),
{
    let mut converted: Vec<MicromapUsage> = Vec::new();
    let mut index: usize = 0;
    while index < counts.len()
        invariant
            index <= counts@.len(),
            converted@ == usages(counts@.take(index as int)),
        decreases counts@.len() - index,
    {
        converted.push(MicromapUsage::from(counts[index]));
        proof {
            assert(counts@.take(index + 1) =~= counts@.take(index as int).push(
                counts@[index as int],
            ));
            assert(converted@ =~= usages(counts@.take(index + 1)));
        }
        index += 1;
    }
    assert(counts@.take(index as int) =~= counts@);
    converted
}

/// Parameters for a synchronous host opacity micromap build. Host addresses are numbers, and zero
/// stands for none.
#[derive(Clone, Copy, Debug)]
pub struct HostMicromapBuildInfo<'a> {
    /// Host address of encoded opacity data.
    pub data: usize,
    /// Additional build behavior.
    pub flags: u32,
    /// Writable host scratch address; may be zero only when the required size is zero.
    pub scratch_data: usize,
    /// Host address of the micromap triangle array.
    pub triangle_array: usize,
    /// Byte stride between triangle entries.
    pub triangle_array_stride: u64,
    /// Triangle counts grouped by opacity format and subdivision level.
    pub usage_counts: &'a [OpacityMicromapUsage],
}

impl HostMicromapBuildInfo<'_> {
    /// Whether all addresses that a build needs are there.
    pub open spec fn addressed(self, allow_null_scratch: bool) -> bool {
        self.data != 0 && self.triangle_array != 0 && (allow_null_scratch || self.scratch_data != 0)
    }

    /// Whether all addresses that a build needs are there.
    pub fn has_host_addresses(&self, allow_null_scratch: bool) -> (has: bool)
        ensures
            has == self.addressed(allow_null_scratch),
    {
        self.data != 0 && self.triangle_array != 0 && (allow_null_scratch || self.scratch_data != 0)
    }
}

/// Size requirements of a micromap build.
#[derive(Clone, Copy, Debug, PartialEq, Eq, Structural)]
pub struct MicromapBuildSizes {
    /// Required build scratch size in bytes.
    pub build_scratch_size: u64,
    /// Whether the micromap may be destroyed after an acceleration-structure build or update.
    ///
    /// When false, the acceleration structure may reference the micromap's storage, so the
    /// micromap must remain alive until ray traversal has concluded.
    pub discardable: bool,
    /// Required micromap storage size in bytes.
    pub micromap_size: u64,
}

/// Synchronization information for a micromap.
#[derive(Clone, Copy, Debug, PartialEq, Eq, Structural)]
pub struct MicromapSyncInfo {
    /// Synchronization2 access mask for `stage_mask`.
    pub access_mask: u64,
    /// Current exclusive queue-family ownership, when known.
    pub queue_family_index: Option<u32>,
    /// Synchronization2 pipeline stages accessing the micromap.
    pub stage_mask: u64,
}

/// The stages of all of some accesses.
pub open spec fn all_stages(accesses: Seq<AccessType>) -> u64
    decreases accesses.len(),
{
    if accesses.len() == 0 {
        0
    } else {
        all_stages(accesses.drop_last()) | micromap_sync_flags(accesses.last()).0
    }
}

/// The memory accesses of all of some accesses.
pub open spec fn all_accesses(accesses: Seq<AccessType>) -> u64
    decreases accesses.len(),
{
    if accesses.len() == 0 {
        0
    } else {
        all_accesses(accesses.drop_last()) | micromap_sync_flags(accesses.last()).1
    }
}

impl MicromapSyncInfo {
    /// The information of all of some accesses.
    pub open spec fn of_accesses(accesses: Seq<AccessType>) -> Self {
        MicromapSyncInfo {
            access_mask: all_accesses(accesses),
            queue_family_index: None,
            stage_mask: all_stages(accesses),
        }
    }

    /// The information of all of some accesses.
    pub fn from_accesses(accesses: &Vec<AccessType>) -> (info: Self)
        ensures
            info == Self::of_accesses(accesses@),
    {
        let mut stage_mask: u64 = 0;
        let mut access_mask: u64 = 0;
        let mut index: usize = 0;
        while index < accesses.len()
            invariant
                index <= accesses@.len(),
                stage_mask == all_stages(accesses@.take(index as int)),
                access_mask == all_accesses(accesses@.take(index as int)),
            decreases accesses@.len() - index,
        {
            let (stages, mask) = micromap_sync_flags_for_access(accesses[index]);
            stage_mask = stage_mask | stages;
            access_mask = access_mask | mask;
            proof {
                assert(accesses@.take(index + 1).drop_last() =~= accesses@.take(index as int));
                assert(accesses@.take(index + 1).last() == accesses@[index as int]);
            }
            index += 1;
        }
        assert(accesses@.take(index as int) =~= accesses@);
        MicromapSyncInfo { access_mask, queue_family_index: None, stage_mask }
    }
}

/// The synchronization information of accesses covers each of them.
pub proof fn sync_info_covers_accesses(accesses: Seq<AccessType>, index: int)
    requires
        0 <= index < accesses.len(),
    ensures
        MicromapSyncInfo::of_accesses(accesses).stage_mask & micromap_sync_flags(accesses[index]).0
            == micromap_sync_flags(accesses[index]).0,
        MicromapSyncInfo::of_accesses(accesses).access_mask & micromap_sync_flags(accesses[index]).1
            == micromap_sync_flags(accesses[index]).1,
    decreases accesses.len(),
{
    let some = accesses.drop_last();
    let (stages, mask) = micromap_sync_flags(accesses[index]);
    let (last_stages, last_mask) = micromap_sync_flags(accesses.last());
    let (a, b) = (all_stages(some), all_accesses(some));
    if index < some.len() {
        sync_info_covers_accesses(some, index);
    }
    assert((a & stages == stages || last_stages == stages) ==> (a | last_stages) & stages == stages)
        by (bit_vector);
    assert((b & mask == mask || last_mask == mask) ==> (b | last_mask) & mask == mask)
        by (bit_vector);
}

/// Information used to create a micromap.
#[derive(Clone, Copy, Debug, PartialEq, Eq, Hash, Structural)]
pub struct MicromapInfo {
    /// Uses a host-visible backing allocation when true.
    pub host_visible: bool,
    /// Type of micromap.
    pub micromap_type: i32,
    /// Size of the backing storage.
    pub size: u64,
}

/// Builds a [`MicromapInfo`]; what is not set takes its default.
#[derive(Clone, Copy, Debug)]
pub struct MicromapInfoBuilder {
    /// See [`MicromapInfo::host_visible`].
    pub host_visible: Option<bool>,
    /// See [`MicromapInfo::micromap_type`].
    pub micromap_type: Option<i32>,
    /// See [`MicromapInfo::size`].
    pub size: Option<u64>,
}

impl MicromapInfo {
    /// The builder in which every field is set to this value's.
    pub open spec fn as_builder(self) -> MicromapInfoBuilder {
        MicromapInfoBuilder {
            host_visible: Some(self.host_visible),
            micromap_type: Some(self.micromap_type),
            size: Some(self.size),
        }
    }

    /// Creates a default `MicromapInfoBuilder`.
    pub fn builder() -> (builder: MicromapInfoBuilder)
        ensures
            builder == MicromapInfoBuilder::unset(),
    {
        MicromapInfoBuilder::default()
    }

    /// Converts a `MicromapInfo` into a `MicromapInfoBuilder`.
    pub fn into_builder(self) -> (builder: MicromapInfoBuilder)
        ensures
            builder == self.as_builder(),
    {
        MicromapInfoBuilder {
            host_visible: Some(self.host_visible),
            micromap_type: Some(self.micromap_type),
            size: Some(self.size),
        }
    }
}

impl MicromapInfoBuilder {
    /// The builder in which nothing is set.
    pub open spec fn unset() -> Self {
        MicromapInfoBuilder {
            host_visible: None,
            micromap_type: None,
            size: None,
        }
    }

    /// The value that the builder describes.
    pub open spec fn built(self) -> MicromapInfo {
        MicromapInfo {
            host_visible: self.host_visible.unwrap_or(false),
            micromap_type: self.micromap_type.unwrap_or(vk::MICROMAP_TYPE_OPACITY_MICROMAP),
            size: self.size.unwrap_or(0u64),
        }
    }

    /// Sets [`MicromapInfo::host_visible`].
    pub fn host_visible(self, host_visible: bool) -> (builder: Self)
        ensures
            builder == (MicromapInfoBuilder { host_visible: Some(host_visible), ..self }),
    {
        MicromapInfoBuilder { host_visible: Some(host_visible), ..self }
    }

    /// Sets [`MicromapInfo::micromap_type`].
    pub fn micromap_type(self, micromap_type: i32) -> (builder: Self)
        ensures
            builder == (MicromapInfoBuilder { micromap_type: Some(micromap_type), ..self }),
    {
        MicromapInfoBuilder { micromap_type: Some(micromap_type), ..self }
    }

    /// Sets [`MicromapInfo::size`].
    pub fn size(self, size: u64) -> (builder: Self)
        ensures
            builder == (MicromapInfoBuilder { size: Some(size), ..self }),
    {
        MicromapInfoBuilder { size: Some(size), ..self }
    }

    /// Builds a new `MicromapInfo`.
    pub fn build(self) -> (info: MicromapInfo)
        ensures
            info == self.built(),
    {
        MicromapInfo {
            host_visible: self.host_visible.unwrap_or(false),
            micromap_type: self.micromap_type.unwrap_or(vk::MICROMAP_TYPE_OPACITY_MICROMAP),
            size: self.size.unwrap_or(0u64),
        }
    }
}

impl Default for MicromapInfoBuilder {
    fn default() -> (builder: Self)
        ensures
            builder == MicromapInfoBuilder::unset(),
    {
        MicromapInfoBuilder {
            host_visible: None,
            micromap_type: None,
            size: None,
        }
    }
}

impl From<MicromapInfoBuilder> for MicromapInfo {
    fn from(builder: MicromapInfoBuilder) -> (info: Self) {
        builder.build()
    }
}

impl vstd::std_specs::convert::FromSpecImpl<MicromapInfoBuilder> for MicromapInfo {
    open spec fn obeys_from_spec() -> bool {
        true
    }

    open spec fn from_spec(builder: MicromapInfoBuilder) -> Self {
        builder.built()
    }
}

/// Building what a value was converted into gives the value back.
pub proof fn micromap_info_round_trip(info: MicromapInfo)
    ensures
        info.as_builder().built() == info,
{
}

impl MicromapInfo {
    /// Creates an opacity micromap backed by device-local memory.
    pub fn device_mem(size: u64) -> (info: Self)
        ensures
            info == (MicromapInfo {
                host_visible: false,
                micromap_type: vk::MICROMAP_TYPE_OPACITY_MICROMAP,
                size,
            }),
    {
        MicromapInfo {
            host_visible: false,
            micromap_type: vk::MICROMAP_TYPE_OPACITY_MICROMAP,
            size,
        }
    }

    /// Creates an opacity micromap backed by host-visible memory.
    pub fn host_mem(size: u64) -> (info: Self)
        ensures
            info == (MicromapInfo {
                host_visible: true,
                micromap_type: vk::MICROMAP_TYPE_OPACITY_MICROMAP,
                size,
            }),
    {
        MicromapInfo {
            host_visible: true,
            micromap_type: vk::MICROMAP_TYPE_OPACITY_MICROMAP,
            size,
        }
    }

    /// The buffer that holds a micromap; only opacity micromaps are supported.
    pub fn storage(self) -> (buffer: Result<BufferInfo, DriverError>)
        ensures
            buffer == (if self.micromap_type != vk::MICROMAP_TYPE_OPACITY_MICROMAP {
                Err::<BufferInfo, DriverError>(DriverError::Unsupported)
            } else {
                Ok(
                    BufferInfo {
                        alignment: 1,
                        alloc_dedicated: false,
                        host_readable: self.host_visible,
                        host_writable: self.host_visible,
                        sharing_mode: vk::SHARING_MODE_EXCLUSIVE,
                        size: self.size,
                        usage: if self.host_visible {
                            vk::BUFFER_USAGE_MICROMAP_STORAGE_EXT | vk::BUFFER_USAGE_TRANSFER_DST
                                | vk::BUFFER_USAGE_TRANSFER_SRC
                        } else {
                            vk::BUFFER_USAGE_MICROMAP_STORAGE_EXT
                        },
                    },
                )
            }),
    {
        if self.micromap_type != vk::MICROMAP_TYPE_OPACITY_MICROMAP {
            return Err(DriverError::Unsupported);
        }
        if self.host_visible {
            Ok(BufferInfo::host_mem(self.size, vk::BUFFER_USAGE_MICROMAP_STORAGE_EXT))
        } else {
            Ok(BufferInfo::device_mem(self.size, vk::BUFFER_USAGE_MICROMAP_STORAGE_EXT))
        }
    }
}

/// The tracked state of a micromap, and what it may be used for.
#[derive(Debug)]
pub struct Micromap {
    accesses: Vec<AccessType>,
    device: u64,
    handle: u64,
    host_commands: bool,
    info: MicromapInfo,
}

impl Micromap {
    /// The accesses that last touched the micromap.
    pub closed spec fn accesses(self) -> Seq<AccessType> {
        self.accesses@
    }

    /// The device of the micromap.
    pub closed spec fn spec_device(&self) -> u64 {
        self.device
    }

    /// The handle of the device of this micromap.
    #[verifier::when_used_as_spec(spec_device)]
    pub fn device(&self) -> (device: u64)
        ensures
            device == self.spec_device(),
    {
        self.device
    }

    /// The native handle of this micromap.
    pub closed spec fn spec_handle(&self) -> u64 {
        self.handle
    }

    /// The native handle of this micromap.
    #[verifier::when_used_as_spec(spec_handle)]
    pub fn handle(&self) -> (handle: u64)
        ensures
            handle == self.spec_handle(),
    {
        self.handle
    }

    /// Information used to create this object.
    pub closed spec fn spec_info(&self) -> MicromapInfo {
        self.info
    }

    /// Information used to create this object.
    #[verifier::when_used_as_spec(spec_info)]
    pub fn info(&self) -> (info: MicromapInfo)
        ensures
            info == self.spec_info(),
    {
        self.info
    }

    /// Whether the device of the micromap supports host commands on micromaps.
    pub closed spec fn has_host_commands(self) -> bool {
        self.host_commands
    }

    /// Whether two values describe one micromap, whatever was recorded of it.
    pub open spec fn same_object(self, other: Self) -> bool {
        &&& self.device() == other.device()
        &&& self.handle() == other.handle()
        &&& self.info() == other.info()
        &&& self.has_host_commands() == other.has_host_commands()
    }

    /// Tracks a new micromap, which has not been accessed yet.
    pub fn new(device: u64, handle: u64, info: MicromapInfo, host_commands: bool) -> (micromap: Self)
        ensures
            micromap.accesses() == seq![AccessType::Nothing],
            micromap.device() == device,
            micromap.handle() == handle,
            micromap.info() == info,
            micromap.has_host_commands() == host_commands,
    {
        let mut accesses: Vec<AccessType> = Vec::new();
        accesses.push(AccessType::Nothing);
        assert(accesses@ =~= seq![AccessType::Nothing]);
        Micromap { accesses, device, handle, host_commands, info }
    }

    /// Whether host commands can use the micromap, or why not.
    pub open spec fn host_usable(self) -> Result<(), DriverError> {
        if !self.info().host_visible {
            Err(DriverError::InvalidData)
        } else if !self.has_host_commands() {
            Err(DriverError::Unsupported)
        } else {
            Ok(())
        }
    }

    /// Checks that host commands can use the micromap.
    pub fn require_host_commands(&self) -> (usable: Result<(), DriverError>)
        ensures
            usable == self.host_usable(),
    {
        if !self.info.host_visible {
            return Err(DriverError::InvalidData);
        }
        if self.host_commands {
            Ok(())
        } else {
            Err(DriverError::Unsupported)
        }
    }

    /// Whether a host build can be asked for, or why not.
    pub open spec fn build_allowed(self, info: HostMicromapBuildInfo, scratch_size: u64) -> Result<
        (),
        DriverError,
    > {
        match self.host_usable() {
            Err(err) => Err(err),
            Ok(_) => if info.usage_counts@.len() > u32::MAX || self.info().micromap_type
                != vk::MICROMAP_TYPE_OPACITY_MICROMAP || !info.addressed(
                info.scratch_data == 0 && scratch_size == 0,
            ) {
                Err(DriverError::InvalidData)
            } else {
                Ok(())
            },
        }
    }

    /// Checks a host build, given the scratch size that the device reports for it.
    pub fn check_build_host(&self, info: &HostMicromapBuildInfo<'_>, scratch_size: u64) -> (allowed:
        Result<(), DriverError>)
        ensures
            allowed == self.build_allowed(*info, scratch_size),
    {
        if let Err(err) = self.require_host_commands() {
            return Err(err);
        }
        if info.usage_counts.len() as u64 > u32::MAX as u64 {
            return Err(DriverError::InvalidData);
        }
        let allow_null_scratch: bool = info.scratch_data == 0 && scratch_size == 0;
        if self.info.micromap_type != vk::MICROMAP_TYPE_OPACITY_MICROMAP
            || !info.has_host_addresses(allow_null_scratch) {
            return Err(DriverError::InvalidData);
        }
        Ok(())
    }

    /// Whether a copy on the host from another micromap into this one can be asked for, or why not.
    pub open spec fn copy_allowed(self, source: Self) -> Result<(), DriverError> {
        match (self.host_usable(), source.host_usable()) {
            (Err(err), _) => Err(err),
            (_, Err(err)) => Err(err),
            (Ok(_), Ok(_)) => if self.device() == source.device() && self.info().micromap_type
                == source.info().micromap_type {
                Ok(())
            } else {
                Err(DriverError::InvalidData)
            },
        }
    }

    /// Checks a copy on the host from another micromap into this one.
    pub fn check_copy_from_host(&self, source: &Self) -> (allowed: Result<(), DriverError>)
        ensures
            allowed == self.copy_allowed(*source),
    {
        if let Err(err) = self.require_host_commands() {
            return Err(err);
        }
        if let Err(err) = source.require_host_commands() {
            return Err(err);
        }
        if self.device != source.device || self.info.micromap_type != source.info.micromap_type {
            return Err(DriverError::InvalidData);
        }
        Ok(())
    }

    /// Records a copy on the host from another micromap into this one, given its result.
    pub fn finish_copy_from_host(&mut self, source: &mut Self, result: i32) -> (finished: Result<
        (),
        DriverError,
    >)
        ensures
            finished == outcome(result),
            final(self).same_object(*old(self)),
            final(source).same_object(*old(source)),
            finished is Ok ==> final(source).accesses() == seq![AccessType::MicromapBuildRead]
                && final(self).accesses() == seq![AccessType::MicromapBuildWrite],
            finished is Err ==> final(source).accesses() == old(source).accesses(),
            finished is Err ==> final(self).accesses() == old(self).accesses(),
    {
        if let Err(err) = map_vk_result(result) {
            return Err(err);
        }
        let _previous = source.swap_access(AccessType::MicromapBuildRead);
        let _previous = self.swap_access(AccessType::MicromapBuildWrite);
        Ok(())
    }

    /// Whether a deserialization from host memory can be asked for, or why not.
    pub open spec fn deserialization_allowed(self, len: usize, address: usize) -> Result<
        (),
        DriverError,
    > {
        match self.host_usable() {
            Err(err) => Err(err),
            Ok(_) => if len == 0 || address % SERIALIZATION_ALIGNMENT != 0 {
                Err(DriverError::InvalidData)
            } else {
                Ok(())
            },
        }
    }

    /// Checks a deserialization from host memory of a length at an address.
    pub fn check_deserialize_host(&self, len: usize, address: usize) -> (allowed: Result<
        (),
        DriverError,
    >)
        ensures
            allowed == self.deserialization_allowed(len, address),
    {
        if let Err(err) = self.require_host_commands() {
            return Err(err);
        }
        if len == 0 || address % SERIALIZATION_ALIGNMENT != 0 {
            return Err(DriverError::InvalidData);
        }
        Ok(())
    }

    /// Records a write on the host, given its result.
    pub fn finish_host_write(&mut self, result: i32) -> (finished: Result<(), DriverError>)
        ensures
            finished == outcome(result),
            final(self).same_object(*old(self)),
            final(self).accesses() == (if finished is Ok {
                seq![AccessType::MicromapBuildWrite]
            } else {
                old(self).accesses()
            }),
    {
        if let Err(err) = map_vk_result(result) {
            return Err(err);
        }
        let _previous = self.swap_access(AccessType::MicromapBuildWrite);
        Ok(())
    }

    /// Records a read on the host, given its result.
    pub fn finish_host_read(&mut self, result: i32) -> (finished: Result<(), DriverError>)
        ensures
            finished == outcome(result),
            final(self).same_object(*old(self)),
            final(self).accesses() == (if finished is Ok {
                seq![AccessType::MicromapBuildRead]
            } else {
                old(self).accesses()
            }),
    {
        if let Err(err) = map_vk_result(result) {
            return Err(err);
        }
        let _previous = self.swap_access(AccessType::MicromapBuildRead);
        Ok(())
    }

    /// Whether a property can be queried on the host, or why not.
    pub open spec fn property_allowed(self, query_type: i32) -> Result<(), DriverError> {
        match self.host_usable() {
            Err(err) => Err(err),
            Ok(_) => if query_type == vk::QUERY_TYPE_MICROMAP_SERIALIZATION_SIZE_EXT || query_type
                == vk::QUERY_TYPE_MICROMAP_COMPACTED_SIZE_EXT {
                Ok(())
            } else {
                Err(DriverError::InvalidData)
            },
        }
    }

    /// Checks a query of a property on the host.
    pub fn check_property(&self, query_type: i32) -> (allowed: Result<(), DriverError>)
        ensures
            allowed == self.property_allowed(query_type),
    {
        if let Err(err) = self.require_host_commands() {
            return Err(err);
        }
        if query_type != vk::QUERY_TYPE_MICROMAP_SERIALIZATION_SIZE_EXT && query_type
            != vk::QUERY_TYPE_MICROMAP_COMPACTED_SIZE_EXT {
            return Err(DriverError::InvalidData);
        }
        Ok(())
    }

    /// Whether a serialization into host memory can be asked for, or why not.
    pub open spec fn serialization_allowed(
        self,
        required: u64,
        len: usize,
        address: usize,
    ) -> Result<(), DriverError> {
        match self.host_usable() {
            Err(err) => Err(err),
            Ok(_) => if required > usize::MAX {
                Err(DriverError::OutOfMemory)
            } else if len < required || address % SERIALIZATION_ALIGNMENT != 0 {
                Err(DriverError::InvalidData)
            } else {
                Ok(())
            },
        }
    }

    /// Checks a serialization into host memory of a length at an address, given the size that the
    /// device reports for it.
    pub fn check_serialize_host(&self, required: u64, len: usize, address: usize) -> (allowed:
        Result<(), DriverError>)
        ensures
            allowed == self.serialization_allowed(required, len, address),
    {
        if let Err(err) = self.require_host_commands() {
            return Err(err);
        }
        if required > usize::MAX as u64 {
            return Err(DriverError::OutOfMemory);
        }
        if (len as u64) < required || address % SERIALIZATION_ALIGNMENT != 0 {
            return Err(DriverError::InvalidData);
        }
        Ok(())
    }

    /// Records an access and returns the accesses that require synchronization before it.
    pub fn swap_access(&mut self, next_access: AccessType) -> (previous: Vec<AccessType>)
        ensures
            final(self).same_object(*old(self)),
            final(self).accesses() == seq![next_access],
            previous@ == old(self).accesses(),
    {
        swap_access(&mut self.accesses, next_access)
    }

    /// Records accesses and returns those that require synchronization before them.
    pub fn swap_accesses(&mut self, next_accesses: &Vec<AccessType>) -> (previous: Vec<AccessType>)
        ensures
            final(self).same_object(*old(self)),
            final(self).accesses() == recorded(old(self).accesses(), next_accesses@),
            previous@ == told(old(self).accesses(), next_accesses@),
    {
        swap_accesses(&mut self.accesses, next_accesses)
    }

    /// Returns synchronization information for current micromap accesses.
    pub fn sync_info(&self) -> (info: MicromapSyncInfo)
        ensures
            info == MicromapSyncInfo::of_accesses(self.accesses()),
    {
        MicromapSyncInfo::from_accesses(&self.accesses)
    }
}

/// Whether an access is one of a micromap command.
pub open spec fn by_micromap_command(access: AccessType) -> bool {
    ||| access == AccessType::MicromapBuildRead
    ||| access == AccessType::MicromapBuildWrite
    ||| access == AccessType::MicromapBuildInputRead
    ||| access == AccessType::MicromapBuildBufferRead
    ||| access == AccessType::MicromapBuildBufferWrite
}

/// The flags of synchronization2 and those without it tell the same: they are equal, except that
/// without it there is no stage for micromap commands, for which all commands stand, and no access
/// to micromaps, for which accesses to any memory stand.
pub proof fn micromap_flags_refine_plain_flags(access: AccessType)
    ensures
        ({
            let (stages, accesses) = micromap_sync_flags(access);
            &&& by_micromap_command(access) <==> stages == vk::PIPELINE_STAGE_2_MICROMAP_BUILD_EXT
            &&& by_micromap_command(access) ==> access.stages() == vk::PIPELINE_STAGE_ALL_COMMANDS
            &&& !by_micromap_command(access) ==> stages == access.stages()
            &&& accesses == vk::ACCESS_2_MICROMAP_READ_EXT <==> access.accesses()
                == vk::ACCESS_MEMORY_READ
            &&& accesses == vk::ACCESS_2_MICROMAP_WRITE_EXT <==> access.accesses()
                == vk::ACCESS_MEMORY_WRITE
            &&& access.accesses() != vk::ACCESS_MEMORY_READ && access.accesses()
                != vk::ACCESS_MEMORY_WRITE ==> accesses == access.accesses()
        }),
{
    crate::access::lemma_masks();
}

/// A result is a success, exhausted memory, invalid data or something unsupported, by its code.
pub proof fn outcomes_follow_codes(result: i32)
    ensures
        outcome(result) is Ok <==> result == 0 || result == 1000268003,
        outcome(result) == Err::<(), DriverError>(DriverError::OutOfMemory) <==> -2 <= result < 0,
        outcome(result) == Err::<(), DriverError>(DriverError::InvalidData) <==> result == -4
            || result == -1000257000,
{
}

/// Usage counts are converted one by one, in order, and nothing about them is lost.
pub proof fn usages_are_converted_one_by_one(
    counts: Seq<OpacityMicromapUsage>,
    usage: OpacityMicromapUsage,
)
    ensures
        usages(counts).len() == counts.len(),
        usages(counts.push(usage)) == usages(counts).push(usages(seq![usage])[0]),
        usages(seq![usage])[0].count == usage.count,
        usages(seq![usage])[0].subdivision_level == usage.subdivision_level,
        usage.format >= 0 ==> usages(seq![usage])[0].format == usage.format,
{
    assert(usages(counts.push(usage)) =~= usages(counts).push(usages(seq![usage])[0]));
}

/// An absent scratch address is the only one that can be allowed.
pub proof fn builds_need_addresses(info: HostMicromapBuildInfo)
    ensures
        info.addressed(false) <==> info.data > 0 && info.triangle_array > 0 && info.scratch_data
            > 0,
        info.addressed(true) <==> info.data > 0 && info.triangle_array > 0,
{
}

/// The host can use micromaps in memory that it sees, on devices that let it. That it does not see
/// the memory is reported first.
pub proof fn hosts_use_visible_micromaps(micromap: Micromap)
    ensures
        micromap.host_usable() is Ok <==> micromap.info().host_visible
            && micromap.has_host_commands(),
        micromap.host_usable() == Err::<(), DriverError>(DriverError::InvalidData)
            <==> !micromap.info().host_visible,
        micromap.host_usable() != Err::<(), DriverError>(DriverError::OutOfMemory),
{
}

/// The host builds opacity micromaps that it can use, from data and triangles that are there, with
/// scratch memory unless none is needed.
pub proof fn hosts_build_from_what_is_there(
    micromap: Micromap,
    info: HostMicromapBuildInfo,
    scratch_size: u64,
)
    ensures
        micromap.build_allowed(info, scratch_size) is Ok <==> {
            &&& micromap.host_usable() is Ok
            &&& micromap.info().micromap_type == 0
            &&& info.usage_counts@.len() < 0x1_0000_0000
            &&& info.data != 0
            &&& info.triangle_array != 0
            &&& scratch_size > 0 ==> info.scratch_data != 0
        },
        micromap.host_usable() is Err ==> micromap.build_allowed(info, scratch_size)
            == micromap.host_usable(),
        micromap.host_usable() is Ok && micromap.build_allowed(info, scratch_size) is Err
            ==> micromap.build_allowed(info, scratch_size) == Err::<(), DriverError>(
            DriverError::InvalidData,
        ),
{
}

/// The synchronization information of accesses has no bit that none of the accesses has.
pub proof fn sync_info_has_bits_of_accesses(accesses: Seq<AccessType>, bit: u64)
    ensures
        MicromapSyncInfo::of_accesses(accesses).stage_mask & bit != 0 ==> exists|i: int|
            0 <= i < accesses.len() && micromap_sync_flags(#[trigger] accesses[i]).0 & bit != 0,
        MicromapSyncInfo::of_accesses(accesses).access_mask & bit != 0 ==> exists|i: int|
            0 <= i < accesses.len() && micromap_sync_flags(#[trigger] accesses[i]).1 & bit != 0,
        MicromapSyncInfo::of_accesses(accesses).queue_family_index is None,
    decreases accesses.len(),
{
    if accesses.len() == 0 {
        lemma_or_has(0, 0, bit);
    } else {
        let some = accesses.drop_last();
        sync_info_has_bits_of_accesses(some, bit);
        let (stages, mask) = micromap_sync_flags(accesses.last());
        lemma_or_has(all_stages(some), stages, bit);
        lemma_or_has(all_accesses(some), mask, bit);
        assert(accesses[accesses.len() - 1] == accesses.last());
        assert(forall|i: int| 0 <= i < some.len() ==> some[i] == #[trigger] accesses[i]);
        if all_stages(some) & bit != 0 {
            let i = choose|i: int|
                0 <= i < some.len() && micromap_sync_flags(#[trigger] some[i]).0 & bit != 0;
            assert(micromap_sync_flags(accesses[i]).0 & bit != 0);
        }
        if all_accesses(some) & bit != 0 {
            let i = choose|i: int|
                0 <= i < some.len() && micromap_sync_flags(#[trigger] some[i]).1 & bit != 0;
            assert(micromap_sync_flags(accesses[i]).1 & bit != 0);
        }
    }
}

/// A bit of a union is a bit of one of its parts, and zero has none.
proof fn lemma_or_has(a: u64, b: u64, bit: u64)
    ensures
        (a | b) & bit != 0 <==> a & bit != 0 || b & bit != 0,
        0u64 & bit == 0,
{
    assert(((a | b) & bit != 0 <==> a & bit != 0 || b & bit != 0) && 0u64 & bit == 0) by (bit_vector);
}

/// Copies are made between micromaps of one type on one device, all of which the host can use. They
/// can be made in both directions or in none.
pub proof fn copies_go_both_ways(micromap: Micromap, source: Micromap)
    ensures
        micromap.copy_allowed(source) is Ok <==> {
            &&& micromap.host_usable() is Ok
            &&& source.host_usable() is Ok
            &&& micromap.device() == source.device()
            &&& micromap.info().micromap_type == source.info().micromap_type
        },
        micromap.copy_allowed(source) is Ok <==> source.copy_allowed(micromap) is Ok,
        micromap.host_usable() is Err ==> micromap.copy_allowed(source) == micromap.host_usable(),
        micromap.host_usable() is Ok && source.host_usable() is Err ==> micromap.copy_allowed(source)
            == source.host_usable(),
        micromap.host_usable() is Ok && source.host_usable() is Ok && micromap.copy_allowed(
            source,
        ) is Err ==> micromap.copy_allowed(source) == Err::<(), DriverError>(
            DriverError::InvalidData,
        ),
{
}

/// What was serialized can be deserialized from where it is. Both need memory in steps of sixteen
/// bytes, and serialization needs as much as the device reports.
pub proof fn serialized_micromaps_are_deserialized(
    micromap: Micromap,
    required: u64,
    len: usize,
    address: usize,
)
    ensures
        micromap.serialization_allowed(required, len, address) is Ok && len > 0
            ==> micromap.deserialization_allowed(len, address) is Ok,
        micromap.deserialization_allowed(len, address) is Ok <==> micromap.host_usable() is Ok && len
            > 0 && address % 16 == 0,
        micromap.serialization_allowed(required, len, address) is Ok <==> micromap.host_usable() is Ok
            && required <= len && address % 16 == 0,
        micromap.serialization_allowed(required, len, address) == Err::<(), DriverError>(
            DriverError::OutOfMemory,
        ) <==> micromap.host_usable() is Ok && required > usize::MAX,
        micromap.host_usable() is Err ==> {
            &&& micromap.serialization_allowed(required, len, address) == micromap.host_usable()
            &&& micromap.deserialization_allowed(len, address) == micromap.host_usable()
        },
        micromap.host_usable() is Ok && micromap.deserialization_allowed(len, address) is Err
            ==> micromap.deserialization_allowed(len, address) == Err::<(), DriverError>(
            DriverError::InvalidData,
        ),
{
}

/// The host queries two properties, the sizes of serialized and of compacted micromaps.
pub proof fn sizes_are_the_only_properties(micromap: Micromap, query_type: i32)
    ensures
        micromap.property_allowed(query_type) is Ok <==> micromap.host_usable() is Ok && (
        query_type == 1000396000 || query_type == 1000396001),
        micromap.host_usable() is Err ==> micromap.property_allowed(query_type)
            == micromap.host_usable(),
        micromap.host_usable() is Ok && micromap.property_allowed(query_type) is Err
            ==> micromap.property_allowed(query_type) == Err::<(), DriverError>(
            DriverError::InvalidData,
        ),
{
}

/// A field that was set is built as it was set, whatever else was, and one that was not set has its
/// default.
pub proof fn micromap_info_fields_are_built_apart(builder: MicromapInfoBuilder)
    ensures
        ({
            let built = builder.built();
            &&& builder.host_visible matches Some(value) ==> built.host_visible == value
            &&& builder.micromap_type matches Some(value) ==> built.micromap_type == value
            &&& builder.size matches Some(value) ==> built.size == value
            &&& builder.host_visible is None ==> !built.host_visible
            &&& builder.micromap_type is None ==> built.micromap_type
                == vk::MICROMAP_TYPE_OPACITY_MICROMAP
            &&& builder.size is None ==> built.size == 0
        }),
{
}

} // verus!
