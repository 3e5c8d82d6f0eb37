//! Buffer resource types.

use crate::access::{
    access_codes_are_distinct, access_type_from_u8, access_type_into_u8, is_write_access,
    lemma_masks, lemma_of_code, write_bits, writes_perform_write_accesses, AccessType,
    ACCESS_TYPE_COUNT,
};
use crate::buffer_sharing::Sharing;
use crate::buffer_sync::{BufferSubresourceSyncInfo, BufferSyncInfo};
use crate::memory::MemoryLocation;
use crate::run_map::{overwrite, RunMap, RunMapCursor, RunMapIter};
use crate::segments::{
    is_first_run, lemma_first_segment, lemma_segments_map, segments, segments_cover_range,
    segments_partition,
};
use crate::sharing::SharingMode;
use crate::vk;
use vstd::arithmetic::power2::{lemma2_to64, lemma_pow2_strictly_increases, lemma_pow2_unfold, pow2};
use vstd::prelude::*;

verus! {

/// Specifies a range of buffer data.
#[derive(Clone, Copy, Debug, PartialEq, Eq, Hash, Structural)]
pub struct BufferSubresourceRange {
    /// The start of range.
    pub start: u64,
    /// The exclusive end of the range.
    pub end: u64,
}

impl BufferSubresourceRange {
    /// Whether an offset lies in the range.
    pub open spec fn has(self, offset: int) -> bool {
        self.start <= offset < self.end
    }

    /// The range with an end of `WHOLE_SIZE` replaced by the end of the buffer.
    pub open spec fn resolved(self, size: u64) -> Self {
        if self.end == vk::WHOLE_SIZE {
            BufferSubresourceRange { start: self.start, end: size }
        } else {
            self
        }
    }

    /// Whether the range is a part of a buffer that is not empty.
    pub open spec fn within(self, size: u64) -> bool {
        self.start < self.end <= size
    }

    /// Whether `other` starts and ends inside of this range.
    pub fn contains(self, other: Self) -> (contains: bool)
        ensures
            contains == (self.start <= other.start && other.end <= self.end),
            contains ==> forall|offset: int| other.has(offset) ==> self.has(offset),
            other.start < other.end && (forall|offset: int| other.has(offset) ==> self.has(offset))
                ==> contains,
    {
        let contains: bool = self.start <= other.start && self.end >= other.end;
        proof {
            if other.start < other.end && (forall|offset: int|
                other.has(offset) ==> self.has(offset)) {
                assert(other.has(other.start as int) && other.has(other.end - 1));
            }
        }
        contains
    }

    /// The offsets that both ranges have, where there are any.
    pub fn intersection(self, other: Self) -> (both: Option<Self>)
        ensures
            match both {
                Some(range) => range.start < range.end && forall|offset: int|
                    range.has(offset) <==> self.has(offset) && other.has(offset),
                None => forall|offset: int| !(self.has(offset) && other.has(offset)),
            },
    {
        let start: u64 = if self.start < other.start {
            other.start
        } else {
            self.start
        };
        let end: u64 = if other.end < self.end {
            other.end
        } else {
            self.end
        };
        if start < end {
            Some(BufferSubresourceRange { start, end })
        } else {
            None
        }
    }

    /// Whether each range starts before the other ends.
    pub fn intersects(self, other: Self) -> (intersects: bool)
        ensures
            intersects == (self.start < other.end && other.start < self.end),
            self.start < self.end && other.start < other.end ==> intersects == exists|offset: int|
                #[trigger] self.has(offset) && other.has(offset),
    {
        let intersects: bool = self.start < other.end && self.end > other.start;
        proof {
            let offset = if self.start < other.start {
                other.start as int
            } else {
                self.start as int
            };
            if intersects && self.start < self.end && other.start < other.end {
                assert(self.has(offset) && other.has(offset));
            }
        }
        intersects
    }

    /// Replaces an end of `WHOLE_SIZE` by the end of a buffer of the given size.
    pub fn resolve_whole(self, size: u64) -> (range: Self)
        ensures
            range == self.resolved(size),
    {
        if self.end == vk::WHOLE_SIZE {
            BufferSubresourceRange { start: self.start, end: size }
        } else {
            self
        }
    }
}

impl From<BufferInfo> for BufferSubresourceRange {
    fn from(info: BufferInfo) -> (range: Self) {
        BufferSubresourceRange { start: 0, end: info.size }
    }
}

impl vstd::std_specs::convert::FromSpecImpl<BufferInfo> for BufferSubresourceRange {
    open spec fn obeys_from_spec() -> bool {
        true
    }

    open spec fn from_spec(info: BufferInfo) -> Self {
        BufferSubresourceRange { start: 0, end: info.size }
    }
}

impl From<std::ops::Range<u64>> for BufferSubresourceRange {
    fn from(range: std::ops::Range<u64>) -> (converted: Self) {
        BufferSubresourceRange { start: range.start, end: range.end }
    }
}

impl vstd::std_specs::convert::FromSpecImpl<std::ops::Range<u64>> for BufferSubresourceRange {
    open spec fn obeys_from_spec() -> bool {
        true
    }

    open spec fn from_spec(range: std::ops::Range<u64>) -> Self {
        BufferSubresourceRange { start: range.start, end: range.end }
    }
}

impl From<BufferSubresourceRange> for std::ops::Range<u64> {
    fn from(range: BufferSubresourceRange) -> (converted: Self) {
        range.start..range.end
    }
}

impl vstd::std_specs::convert::FromSpecImpl<BufferSubresourceRange> for std::ops::Range<u64> {
    open spec fn obeys_from_spec() -> bool {
        true
    }

    open spec fn from_spec(range: BufferSubresourceRange) -> Self {
        range.start..range.end
    }
}

/// Information used to create a [`Buffer`].
#[derive(Clone, Copy, Debug, PartialEq, Eq, Hash, Structural)]
pub struct BufferInfo {
    /// Byte alignment of the base device address of the buffer.
    ///
    /// Must be a power of two.
    pub alignment: u64,
    /// Specifies a dedicated memory allocation managed by the Vulkan driver and not by the
    /// internal memory allocation pool that transient resources share.
    pub alloc_dedicated: bool,
    /// Specifies a buffer whose memory is host-visible and may be mapped for reads.
    pub host_readable: bool,
    /// Specifies a buffer whose memory is host-visible and may be mapped for writes.
    pub host_writable: bool,
    /// Whether the buffer is accessible from a single queue family (`EXCLUSIVE`) or from all
    /// queues (`CONCURRENT`).
    pub sharing_mode: i32,
    /// Size in bytes of the buffer to be created.
    pub size: u64,
    /// A bitmask specifying the allowed usages of the buffer.
    pub usage: u32,
}

/// Builds a [`BufferInfo`]; what is not set takes its default.
#[derive(Clone, Copy, Debug)]
pub struct BufferInfoBuilder {
    /// See [`BufferInfo::alignment`].
    pub alignment: Option<u64>,
    /// See [`BufferInfo::alloc_dedicated`].
    pub alloc_dedicated: Option<bool>,
    /// See [`BufferInfo::host_readable`].
    pub host_readable: Option<bool>,
    /// See [`BufferInfo::host_writable`].
    pub host_writable: Option<bool>,
    /// See [`BufferInfo::sharing_mode`].
    pub sharing_mode: Option<i32>,
    /// See [`BufferInfo::size`].
    pub size: Option<u64>,
    /// See [`BufferInfo::usage`].
    pub usage: Option<u32>,
}

impl BufferInfo {
    /// The builder in which every field is set to this value's.
    pub open spec fn as_builder(self) -> BufferInfoBuilder {
        BufferInfoBuilder {
            alignment: Some(self.alignment),
            alloc_dedicated: Some(self.alloc_dedicated),
            host_readable: Some(self.host_readable),
            host_writable: Some(self.host_writable),
            sharing_mode: Some(self.sharing_mode),
            size: Some(self.size),
            usage: Some(self.usage),
        }
    }

    /// Creates a default `BufferInfoBuilder`.
    pub fn builder() -> (builder: BufferInfoBuilder)
        ensures
            builder == BufferInfoBuilder::unset(),
    {
        BufferInfoBuilder::default()
    }

    /// Converts a `BufferInfo` into a `BufferInfoBuilder`.
    pub fn into_builder(self) -> (builder: BufferInfoBuilder)
        ensures
            builder == self.as_builder(),
    {
        BufferInfoBuilder {
            alignment: Some(self.alignment),
            alloc_dedicated: Some(self.alloc_dedicated),
            host_readable: Some(self.host_readable),
            host_writable: Some(self.host_writable),
            sharing_mode: Some(self.sharing_mode),
            size: Some(self.size),
            usage: Some(self.usage),
        }
    }
}

impl BufferInfoBuilder {
    /// The builder in which nothing is set.
    pub open spec fn unset() -> Self {
        BufferInfoBuilder {
            alignment: None,
            alloc_dedicated: None,
            host_readable: None,
            host_writable: None,
            sharing_mode: None,
            size: None,
            usage: None,
        }
    }

    /// The value that the builder describes.
    pub open spec fn built(self) -> BufferInfo {
        BufferInfo {
            alignment: self.alignment.unwrap_or(1),
            alloc_dedicated: self.alloc_dedicated.unwrap_or(false),
            host_readable: self.host_readable.unwrap_or(false),
            host_writable: self.host_writable.unwrap_or(false),
            sharing_mode: self.sharing_mode.unwrap_or(vk::SHARING_MODE_EXCLUSIVE),
            size: self.size.unwrap_or(0),
            usage: self.usage.unwrap_or(0),
        }
    }

    /// Sets [`BufferInfo::alignment`].
    pub fn alignment(self, alignment: u64) -> (builder: Self)
        ensures
            builder == (BufferInfoBuilder { alignment: Some(alignment), ..self }),
    {
        BufferInfoBuilder { alignment: Some(alignment), ..self }
    }

    /// Sets [`BufferInfo::alloc_dedicated`].
    pub fn alloc_dedicated(self, alloc_dedicated: bool) -> (builder: Self)
        ensures
            builder == (BufferInfoBuilder { alloc_dedicated: Some(alloc_dedicated), ..self }),
    {
        BufferInfoBuilder { alloc_dedicated: Some(alloc_dedicated), ..self }
    }

    /// Sets [`BufferInfo::host_readable`].
    pub fn host_readable(self, host_readable: bool) -> (builder: Self)
        ensures
            builder == (BufferInfoBuilder { host_readable: Some(host_readable), ..self }),
    {
        BufferInfoBuilder { host_readable: Some(host_readable), ..self }
    }

    /// Sets [`BufferInfo::host_writable`].
    pub fn host_writable(self, host_writable: bool) -> (builder: Self)
        ensures
            builder == (BufferInfoBuilder { host_writable: Some(host_writable), ..self }),
    {
        BufferInfoBuilder { host_writable: Some(host_writable), ..self }
    }

    /// Sets [`BufferInfo::sharing_mode`].
    pub fn sharing_mode(self, sharing_mode: i32) -> (builder: Self)
        ensures
            builder == (BufferInfoBuilder { sharing_mode: Some(sharing_mode), ..self }),
    {
        BufferInfoBuilder { sharing_mode: Some(sharing_mode), ..self }
    }

    /// Sets [`BufferInfo::size`].
    pub fn size(self, size: u64) -> (builder: Self)
        ensures
            builder == (BufferInfoBuilder { size: Some(size), ..self }),
    {
        BufferInfoBuilder { size: Some(size), ..self }
    }

    /// Sets [`BufferInfo::usage`].
    pub fn usage(self, usage: u32) -> (builder: Self)
        ensures
            builder == (BufferInfoBuilder { usage: Some(usage), ..self }),
    {
        BufferInfoBuilder { usage: Some(usage), ..self }
    }

    /// Builds a new `BufferInfo`.
    ///
    /// The alignment is not tested: see [`BufferInfoBuilder::build_checked`].
    pub fn build(self) -> (info: BufferInfo)
        ensures
            info == self.built(),
    {
        BufferInfo {
            alignment: self.alignment.unwrap_or(1),
            alloc_dedicated: self.alloc_dedicated.unwrap_or(false),
            host_readable: self.host_readable.unwrap_or(false),
            host_writable: self.host_writable.unwrap_or(false),
            sharing_mode: self.sharing_mode.unwrap_or(vk::SHARING_MODE_EXCLUSIVE),
            size: self.size.unwrap_or(0),
            usage: self.usage.unwrap_or(0),
        }
    }
}

impl BufferInfoBuilder {
    /// Builds a new `BufferInfo`, where the alignment that was set, or the default where none was,
    /// is a power of two.
    pub fn build_checked(self) -> (info: Option<BufferInfo>)
        ensures
            info == (if self.built().aligned() {
                Some(self.built())
            } else {
                None
            }),
    {
        let info = self.build();
        if info.is_alignment_valid() {
            Some(info)
        } else {
            None
        }
    }
}

impl Default for BufferInfoBuilder {
    fn default() -> (builder: Self)
        ensures
            builder == BufferInfoBuilder::unset(),
    {
        BufferInfoBuilder {
            alignment: None,
            alloc_dedicated: None,
            host_readable: None,
            host_writable: None,
            sharing_mode: None,
            size: None,
            usage: None,
        }
    }
}

impl From<BufferInfoBuilder> for BufferInfo {
    fn from(builder: BufferInfoBuilder) -> (info: Self) {
        builder.build()
    }
}

impl vstd::std_specs::convert::FromSpecImpl<BufferInfoBuilder> for BufferInfo {
    open spec fn obeys_from_spec() -> bool {
        true
    }

    open spec fn from_spec(builder: BufferInfoBuilder) -> Self {
        builder.built()
    }
}

/// Building what a value was converted into gives the value back.
pub proof fn buffer_info_round_trip(info: BufferInfo)
    ensures
        info.as_builder().built() == info,
{
}

/// Bytes after data was written over them from an offset on.
pub open spec fn written(bytes: Seq<u8>, offset: int, data: Seq<u8>) -> Seq<u8> {
    Seq::new(
        bytes.len(),
        |i: int|
            if offset <= i < offset + data.len() {
                data[i - offset]
            } else {
                bytes[i]
            },
    )
}

/// What was uploaded to a buffer is what its bytes then hold.
pub proof fn uploads_read_back(bytes: Seq<u8>, offset: int, data: Seq<u8>)
    requires
        0 <= offset,
        offset + data.len() <= bytes.len(),
    ensures
        written(bytes, offset, data).len() == bytes.len(),
        written(bytes, offset, data).subrange(offset, offset + data.len()) == data,
        written(bytes, offset, data).take(offset) == bytes.take(offset),
        written(bytes, offset, data).skip(offset + data.len()) == bytes.skip(offset + data.len()),
        data.len() == bytes.len() ==> written(bytes, offset, data) == data,
{
    let after = written(bytes, offset, data);
    assert(after.subrange(offset, offset + data.len()) =~= data);
    assert(after.take(offset) =~= bytes.take(offset));
    assert(after.skip(offset + data.len()) =~= bytes.skip(offset + data.len()));
    if data.len() == bytes.len() {
        assert(after =~= data);
    }
}

impl BufferInfo {
    /// Specifies a non-mappable buffer with the given `size` and `usage` values.
    ///
    /// Device-local memory (located on the GPU) is used.
    pub fn device_mem(size: u64, usage: u32) -> (info: BufferInfo)
        ensures
            info == (BufferInfoBuilder { size: Some(size), usage: Some(usage), ..BufferInfoBuilder::unset(
            ) }).built(),
    {
        BufferInfo {
            alignment: 1,
            alloc_dedicated: false,
            host_readable: false,
            host_writable: false,
            sharing_mode: vk::SHARING_MODE_EXCLUSIVE,
            size,
            usage,
        }
    }

    /// Specifies a mappable buffer with the given `size` and `usage` values.
    ///
    /// For convenience the given usage value is combined with `TRANSFER_DST | TRANSFER_SRC`.
    pub fn host_mem(size: u64, usage: u32) -> (info: BufferInfo)
        ensures
            info == (BufferInfoBuilder {
                host_readable: Some(true),
                host_writable: Some(true),
                size: Some(size),
                usage: Some(usage | vk::BUFFER_USAGE_TRANSFER_DST | vk::BUFFER_USAGE_TRANSFER_SRC),
                ..BufferInfoBuilder::unset()
            }).built(),
    {
        BufferInfo {
            alignment: 1,
            alloc_dedicated: false,
            host_readable: true,
            host_writable: true,
            sharing_mode: vk::SHARING_MODE_EXCLUSIVE,
            size,
            usage: usage | vk::BUFFER_USAGE_TRANSFER_DST | vk::BUFFER_USAGE_TRANSFER_SRC,
        }
    }

    /// Returns `true` if this information specifies host-visible memory.
    pub fn is_host_visible(&self) -> (visible: bool)
        ensures
            visible == (self.host_readable || self.host_writable),
    {
        self.host_readable || self.host_writable
    }

    /// Whether the alignment is a power of two.
    pub open spec fn aligned(self) -> bool {
        exists|k: nat| self.alignment == #[trigger] pow2(k)
    }

    /// Returns `true` if the alignment is a power of two, as alignments have to be.
    pub fn is_alignment_valid(&self) -> (valid: bool)
        ensures
            valid == self.aligned(),
    {
        let mut power: u64 = 1;
        let ghost mut exponent: nat = 0;
        proof {
            lemma2_to64();
        }
        while power < self.alignment && power <= 0x7fff_ffff_ffff_ffff
            invariant
                1 <= power == pow2(exponent),
                forall|k: nat| k < exponent ==> #[trigger] pow2(k) < self.alignment,
            decreases u64::MAX - power,
        {
            proof {
                lemma_pow2_unfold((exponent + 1) as nat);
                exponent = (exponent + 1) as nat;
            }
            power = power * 2;
        }
        proof {
            lemma_pow2_unfold((exponent + 1) as nat);
            assert forall|k: nat| self.alignment == #[trigger] pow2(k) implies k == exponent by {
                if k > exponent {
                    if k > exponent + 1 {
                        lemma_pow2_strictly_increases((exponent + 1) as nat, k);
                    }
                }
            }
        }
        power == self.alignment
    }

    /// Returns `true` if the buffer has an address on the device.
    pub fn has_device_address(&self) -> (addressable: bool)
        ensures
            addressable == (self.usage & vk::BUFFER_USAGE_SHADER_DEVICE_ADDRESS
                == vk::BUFFER_USAGE_SHADER_DEVICE_ADDRESS),
    {
        self.usage & vk::BUFFER_USAGE_SHADER_DEVICE_ADDRESS
            == vk::BUFFER_USAGE_SHADER_DEVICE_ADDRESS
    }

    /// The bytes that the host can read: all of a buffer that was created with host-readable
    /// memory, and none of another one.
    pub fn readable_range(&self) -> (range: Option<BufferSubresourceRange>)
        ensures
            range == (if self.host_readable {
                Some(BufferSubresourceRange { start: 0, end: self.size })
            } else {
                None
            }),
    {
        if self.host_readable {
            Some(BufferSubresourceRange { start: 0, end: self.size })
        } else {
            None
        }
    }

    /// The bytes that the host can write: all of a buffer that was created with host-writable
    /// memory, and none of another one.
    pub fn writable_range(&self) -> (range: Option<BufferSubresourceRange>)
        ensures
            range == (if self.host_writable {
                Some(BufferSubresourceRange { start: 0, end: self.size })
            } else {
                None
            }),
    {
        if self.host_writable {
            Some(BufferSubresourceRange { start: 0, end: self.size })
        } else {
            None
        }
    }

    /// The bytes that an upload of `len` bytes at `offset` covers.
    ///
    /// There are none where the host cannot write the buffer, or where the upload does not fit
    /// into it.
    pub fn upload_range(&self, offset: u64, len: u64) -> (range: Option<BufferSubresourceRange>)
        ensures
            match range {
                Some(range) => self.host_writable && offset + len <= self.size && range.start
                    == offset && range.end == offset + len,
                None => !self.host_writable || offset + len > self.size,
            },
    {
        if self.host_writable && offset <= self.size && len <= self.size - offset {
            Some(BufferSubresourceRange { start: offset, end: offset + len })
        } else {
            None
        }
    }

    /// Uploads `data` to the mapped bytes of a buffer, from `offset` on, and tells whether it did.
    ///
    /// Nothing is written where the host cannot write the buffer, or where the data does not fit
    /// into it.
    pub fn upload(&self, mapped: &mut [u8], offset: u64, data: &[u8]) -> (uploaded: bool)
        requires
            old(mapped)@.len() == self.size,
        ensures
            uploaded == (self.host_writable && offset + data@.len() <= self.size),
            uploaded ==> final(mapped)@ == written(old(mapped)@, offset as int, data@),
            !uploaded ==> final(mapped)@ == old(mapped)@,
    {
        let range = match self.upload_range(offset, data.len() as u64) {
            Some(range) => range,
            None => {
                return false;
            },
        };
        let size: usize = mapped.len();
        let start: usize = range.start as usize;
        let mut index: usize = 0;
        assert(mapped@ =~= written(old(mapped)@, offset as int, data@.take(0)));
        while index < data.len()
            invariant
                index <= data@.len(),
                start == offset,
                offset + data@.len() <= size == self.size,
                mapped@.len() == self.size,
                old(mapped)@.len() == self.size,
                mapped@ == written(old(mapped)@, offset as int, data@.take(index as int)),
            decreases data@.len() - index,
        {
            mapped[start + index] = data[index];
            index += 1;
            assert(mapped@ =~= written(old(mapped)@, offset as int, data@.take(index as int)));
        }
        assert(data@.take(index as int) =~= data@);
        true
    }

    /// The alignment to allocate with, given the one that the device requires.
    pub fn allocation_alignment(&self, required: u64) -> (alignment: u64)
        ensures
            alignment >= required && alignment >= self.alignment,
            alignment == required || alignment == self.alignment,
    {
        if required < self.alignment {
            self.alignment
        } else {
            required
        }
    }

    /// The memory to allocate.
    ///
    /// Buffers that are both read and written by the host need cached memory too, as the memory
    /// that suits uploads may be very slow to read.
    pub fn memory_location(&self) -> (location: MemoryLocation)
        ensures
            location == MemoryLocation::GpuToCpu <==> self.host_readable,
            location == MemoryLocation::CpuToGpu <==> self.host_writable && !self.host_readable,
    {
        if self.host_readable {
            MemoryLocation::GpuToCpu
        } else if self.host_writable {
            MemoryLocation::CpuToGpu
        } else {
            MemoryLocation::GpuOnly
        }
    }

    /// The queue families to name when the buffer is created, out of all the families of the
    /// device: every one for a concurrent buffer, and none for an exclusive one.
    pub fn queue_family_indices(&self, families: &Vec<u32>) -> (named: Vec<u32>)
        ensures
            named@ == (if self.sharing_mode == vk::SHARING_MODE_CONCURRENT {
                families@
            } else {
                seq![]
            }),
    {
        if self.sharing_mode == vk::SHARING_MODE_CONCURRENT {
            families.clone()
        } else {
            Vec::new()
        }
    }
}

/// The access to remember after `next`, given the one remembered before.
pub open spec fn tracked_after(previous: AccessType, next: AccessType) -> AccessType {
    if previous.writes() && !next.writes() {
        AccessType::General
    } else {
        next
    }
}

/// The access to remember after `next`: a read does not make a pending write forgotten.
pub fn tracked_access_after(previous: AccessType, next: AccessType) -> (kept: AccessType)
    ensures
        kept == tracked_after(previous, next),
{
    if is_write_access(previous) && !is_write_access(next) {
        AccessType::General
    } else {
        next
    }
}

/// A write stays pending until the next write: while only reads follow, what is remembered still
/// counts as a write.
pub proof fn pending_write_outlives_reads(previous: AccessType, next: AccessType)
    ensures
        previous.writes() ==> tracked_after(previous, next).writes(),
        next.writes() ==> tracked_after(previous, next) == next,
        !previous.writes() ==> tracked_after(previous, next) == next,
{
}

/// The accesses of all offsets after one more access to a range.
pub open spec fn track(
    accesses: Seq<AccessType>,
    next: AccessType,
    range: BufferSubresourceRange,
) -> Seq<AccessType> {
    Seq::new(
        accesses.len(),
        |offset: int|
            if range.has(offset) {
                tracked_after(accesses[offset], next)
            } else {
                accesses[offset]
            },
    )
}

/// The accesses of all offsets after a list of accesses to ranges.
pub open spec fn track_all(
    accesses: Seq<AccessType>,
    nexts: Seq<(AccessType, BufferSubresourceRange)>,
) -> Seq<AccessType>
    decreases nexts.len(),
{
    if nexts.len() == 0 {
        accesses
    } else {
        track(track_all(accesses, nexts.drop_last()), nexts.last().0, nexts.last().1)
    }
}

/// Runs of previous accesses, each with the access that followed it.
pub open spec fn transitions(
    runs: Seq<(AccessType, BufferSubresourceRange)>,
    next: AccessType,
) -> Seq<(AccessType, AccessType, BufferSubresourceRange)> {
    runs.map_values(|run: (AccessType, BufferSubresourceRange)| (next, run.0, run.1))
}

/// The transitions of a list of accesses to ranges, in order.
pub open spec fn all_transitions(
    accesses: Seq<AccessType>,
    nexts: Seq<(AccessType, BufferSubresourceRange)>,
) -> Seq<(AccessType, AccessType, BufferSubresourceRange)>
    decreases nexts.len(),
{
    if nexts.len() == 0 {
        seq![]
    } else {
        all_transitions(accesses, nexts.drop_last()) + transitions(
            segments(
                track_all(accesses, nexts.drop_last()),
                nexts.last().1.start as int,
                nexts.last().1.end as int,
            ),
            nexts.last().0,
        )
    }
}

/// The accesses in a list with their ranges resolved.
pub open spec fn resolved_accesses(
    nexts: Seq<(AccessType, BufferSubresourceRange)>,
    size: u64,
) -> Seq<(AccessType, BufferSubresourceRange)> {
    nexts.map_values(|next: (AccessType, BufferSubresourceRange)| (next.0, next.1.resolved(size)))
}

/// The tracked state of a buffer: which access last touched each of its bytes, and which queue
/// owns it.
#[derive(Debug)]
pub struct Buffer {
    access_runs: RunMap,
    info: BufferInfo,
    sharing: Sharing,
}

impl Buffer {
    /// Information used to create this resource.
    pub closed spec fn spec_info(&self) -> BufferInfo {
        self.info
    }

    /// Information used to create this resource.
    #[verifier::when_used_as_spec(spec_info)]
    pub fn info(&self) -> (info: BufferInfo)
        ensures
            info == self.spec_info(),
    {
        self.info
    }

    /// The access that last touched each byte.
    pub closed spec fn accesses(self) -> Seq<AccessType> {
        Seq::new(
            self.info().size as nat,
            |offset: int| AccessType::of_code(self.access_runs@[offset]),
        )
    }

    /// The ownership of each byte.
    pub closed spec fn modes(self) -> Seq<SharingMode> {
        self.sharing.modes(self.info().size)
    }

    /// Whether ownership is held once for the whole buffer.
    pub closed spec fn is_uniform(self) -> bool {
        self.sharing.is_uniform()
    }

    /// The tracked state covers the whole buffer, which is not empty.
    pub closed spec fn wf(self) -> bool {
        &&& self.access_runs.wf()
        &&& self.access_runs.spec_size() == self.info().size
        &&& forall|offset: int|
            0 <= offset < self.info().size ==> (#[trigger] self.access_runs@[offset])
                < ACCESS_TYPE_COUNT
        &&& self.sharing.wf(self.info().size)
        &&& self.sharing.is_concurrent() == (self.info().sharing_mode == vk::SHARING_MODE_CONCURRENT)
    }

    /// A buffer tracks an access and an owner of each of its bytes, and has at least one.
    pub proof fn lemma_wf(self)
        requires
            self.wf(),
        ensures
            0 < self.info().size,
            self.accesses().len() == self.info().size,
            self.modes().len() == self.info().size,
    {
        self.sharing.lemma_modes(self.info().size);
    }

    /// Tracks a new buffer, of which nothing has been accessed yet.
    pub fn new(info: BufferInfo) -> (buffer: Self)
        requires
            info.size > 0,
        ensures
            buffer.wf(),
            buffer.info() == info,
            buffer.accesses() == Seq::new(info.size as nat, |offset: int| AccessType::Nothing),
            buffer.modes() == Seq::new(
                info.size as nat,
                |offset: int|
                    if info.sharing_mode == vk::SHARING_MODE_CONCURRENT {
                        SharingMode::Concurrent
                    } else {
                        SharingMode::Exclusive(None)
                    },
            ),
    {
        proof {
            access_codes_are_distinct(AccessType::Nothing, AccessType::Nothing);
        }
        let code: u64 = access_type_into_u8(AccessType::Nothing) as u64;
        let buffer = Buffer {
            access_runs: RunMap::new(info.size, code),
            info,
            sharing: Sharing::new(info.size, info.sharing_mode),
        };
        assert(buffer.accesses() =~= Seq::new(
            info.size as nat,
            |offset: int| AccessType::Nothing,
        ));
        buffer
    }

    /// Replaces the access of a range, and returns the accesses that it had, run by run, for which
    /// a pipeline barrier should be used.
    pub fn swap_access(&mut self, next_access: AccessType, access_range: BufferSubresourceRange) -> (
    previous: Vec<(AccessType, BufferSubresourceRange)>)
        requires
            old(self).wf(),
            access_range.resolved(old(self).info().size).within(old(self).info().size),
        ensures
            final(self).wf(),
            final(self).info() == old(self).info(),
            final(self).modes() == old(self).modes(),
            ({
                let range = access_range.resolved(old(self).info().size);
                &&& previous@ == segments(
                    old(self).accesses(),
                    range.start as int,
                    range.end as int,
                )
                &&& final(self).accesses() == assign(old(self).accesses(), range, next_access)
            }),
    {
        let range = access_range.resolve_whole(self.info().size);
        let code: u64 = access_type_into_u8(next_access) as u64;
        let ghost codes = self.access_runs@;
        let ghost accesses = self.accesses();
        let mut iter = RunMapIter::new(&self.access_runs, code, range);
        let steps = iter.drain(&mut self.access_runs);
        proof {
            access_codes_are_distinct(next_access, next_access);
            assert(self.access_runs@ =~= overwrite(
                codes,
                range.start as int,
                range.end as int,
                code,
            ));
            assert(self.accesses() =~= assign(accesses, range, next_access));
        }
        decode_runs(&steps, Ghost(codes), Ghost(accesses), Ghost(range))
    }

    /// Records one access to a range, and appends the transitions that it makes.
    fn track_range(
        &mut self,
        next_access: AccessType,
        range: BufferSubresourceRange,
        made: &mut Vec<(AccessType, AccessType, BufferSubresourceRange)>,
    )
        requires
            old(self).wf(),
            range.within(old(self).info().size),
        ensures
            final(self).wf(),
            final(self).info() == old(self).info(),
            final(self).sharing == old(self).sharing,
            final(self).accesses() == track(old(self).accesses(), next_access, range),
            final(made)@ == old(made)@ + transitions(
                segments(old(self).accesses(), range.start as int, range.end as int),
                next_access,
            ),
    {
        let ghost before = self.accesses();
        let ghost size = self.info().size;
        let ghost sharing = self.sharing;
        let ghost info = self.info();
        let mut cursor = RunMapCursor::new(&self.access_runs, range);
        proof {
            assert forall|offset: int| 0 <= offset < size implies (
            #[trigger] cursor.values(self.access_runs)[offset]) == before[offset].code() by {
                lemma_of_code(self.access_runs@[offset] as u8);
            }
        }
        let ghost mut done: Seq<(AccessType, BufferSubresourceRange)> = seq![];
        assert(made@ =~= old(made)@ + transitions(done, next_access));
        loop
            invariant
                cursor.wf(self.access_runs),
                self.access_runs.spec_size() == size,
                self.info() == info,
                self.info().size == size,
                self.sharing == sharing,
                before.len() == size,
                range.within(size),
                range.start <= cursor.remaining().start <= cursor.remaining().end == range.end,
                is_tracking(
                    before,
                    next_access,
                    range.start as int,
                    cursor.remaining().start as int,
                    cursor.values(self.access_runs),
                ),
                done + segments(before, cursor.remaining().start as int, range.end as int)
                    == segments(before, range.start as int, range.end as int),
                made@ == old(made)@ + transitions(done, next_access),
            ensures
                cursor.done(),
            decreases range.end - cursor.remaining().start,
        {
            let ghost rest = cursor.remaining();
            let ghost now = cursor.values(self.access_runs);
            proof {
                if !cursor.done() {
                    assert(now[rest.start as int] == before[rest.start as int].code());
                    access_codes_are_distinct(
                        before[rest.start as int],
                        before[rest.start as int],
                    );
                }
            }
            let track_one = |previous: u64| -> (kept: u64)
                requires
                    previous < ACCESS_TYPE_COUNT,
                ensures
                    kept == tracked_after(AccessType::of_code(previous), next_access).code(),
                {
                    let previous: AccessType = access_type_from_u8(previous as u8);
                    access_type_into_u8(tracked_access_after(previous, next_access)) as u64
                };
            let step = cursor.next_with(&mut self.access_runs, track_one);
            match step {
                None => {
                    break;
                },
                Some((code, run)) => {
                    proof {
                        assert(now[run.start as int] == before[run.start as int].code());
                        access_codes_are_distinct(
                            before[run.start as int],
                            before[run.start as int],
                        );
                    }
                    let previous: AccessType = access_type_from_u8(code as u8);
                    proof {
                        lemma_track_step(
                            before,
                            next_access,
                            range,
                            rest,
                            now,
                            code,
                            run,
                            cursor.values(self.access_runs),
                        );
                        let item = (previous, run);
                        assert(done + (seq![item] + segments(
                            before,
                            run.end as int,
                            range.end as int,
                        )) =~= done.push(item) + segments(
                            before,
                            run.end as int,
                            range.end as int,
                        ));
                        assert(transitions(done.push(item), next_access) =~= transitions(
                            done,
                            next_access,
                        ).push((next_access, previous, run)));
                        assert(made@.push((next_access, previous, run)) =~= old(made)@
                            + transitions(done, next_access).push((next_access, previous, run)));
                        done = done.push(item);
                    }
                    made.push((next_access, previous, run));
                },
            }
        }
        proof {
            cursor.lemma_done(self.access_runs);
            assert(done =~= segments(before, range.start as int, range.end as int));
            assert forall|offset: int| 0 <= offset < size implies (
            #[trigger] self.access_runs@[offset]) < ACCESS_TYPE_COUNT && self.accesses()[offset]
                == track(before, next_access, range)[offset] by {
                let a = tracked_after(before[offset], next_access);
                access_codes_are_distinct(a, a);
                assert(cursor.values(self.access_runs)[offset] == self.access_runs@[offset]);
                access_codes_are_distinct(before[offset], before[offset]);
            }
            assert(self.accesses() =~= track(before, next_access, range));
        }
    }

    /// Records accesses to ranges one after the other, and returns the transitions that each made:
    /// the access, the access that it followed, and the bytes.
    ///
    /// A write stays recorded until the next write, even where reads follow it.
    pub fn swap_accesses(&mut self, accesses: &Vec<(AccessType, BufferSubresourceRange)>) -> (
    made: Vec<(AccessType, AccessType, BufferSubresourceRange)>)
        requires
            old(self).wf(),
            forall|i: int|
                0 <= i < accesses@.len() ==> (#[trigger] accesses@[i]).1.resolved(
                    old(self).info().size,
                ).within(old(self).info().size),
        ensures
            final(self).wf(),
            final(self).info() == old(self).info(),
            final(self).modes() == old(self).modes(),
            final(self).accesses() == track_all(
                old(self).accesses(),
                resolved_accesses(accesses@, old(self).info().size),
            ),
            made@ == all_transitions(
                old(self).accesses(),
                resolved_accesses(accesses@, old(self).info().size),
            ),
    {
        let mut made: Vec<(AccessType, AccessType, BufferSubresourceRange)> = Vec::new();
        let ghost before = self.accesses();
        let ghost all = resolved_accesses(accesses@, self.info().size);
        let size: u64 = self.info().size;
        let mut index: usize = 0;
        while index < accesses.len()
            invariant
                self.wf(),
                self.info() == old(self).info(),
                self.sharing == old(self).sharing,
                size == self.info().size,
                index <= accesses@.len(),
                all == resolved_accesses(accesses@, size),
                forall|i: int|
                    0 <= i < accesses@.len() ==> (#[trigger] accesses@[i]).1.resolved(size).within(
                        size,
                    ),
                self.accesses() == track_all(before, all.take(index as int)),
                made@ == all_transitions(before, all.take(index as int)),
            decreases accesses@.len() - index,
        {
            let (next_access, access_range) = accesses[index];
            let range = access_range.resolve_whole(size);
            self.track_range(next_access, range, &mut made);
            proof {
                let n = index as int;
                assert(all[n] == (next_access, range));
                assert(all.take(n + 1).drop_last() =~= all.take(n));
                assert(all.take(n + 1).last() == all[n]);
            }
            index += 1;
        }
        assert(all.take(accesses@.len() as int) =~= all);
        made
    }

    /// Assigns the owner of ranges of the buffer. A concurrent buffer has no owner to assign.
    pub fn set_sharing_ranges(
        &mut self,
        sharing: SharingMode,
        sharing_ranges: &Vec<BufferSubresourceRange>,
    )
        requires
            old(self).wf(),
            sharing.valid(),
            forall|i: int|
                0 <= i < sharing_ranges@.len() ==> (#[trigger] sharing_ranges@[i]).resolved(
                    old(self).info().size,
                ).within(old(self).info().size),
        ensures
            final(self).wf(),
            final(self).info() == old(self).info(),
            final(self).accesses() == old(self).accesses(),
            final(self).modes() == (if old(self).info().sharing_mode == vk::SHARING_MODE_CONCURRENT {
                old(self).modes()
            } else {
                assign_all(
                    old(self).modes(),
                    resolved_ranges(sharing_ranges@, old(self).info().size),
                    sharing,
                )
            }),
    {
        let size: u64 = self.info().size;
        let mut resolved: Vec<BufferSubresourceRange> = Vec::new();
        let mut index: usize = 0;
        while index < sharing_ranges.len()
            invariant
                index <= sharing_ranges@.len(),
                forall|i: int|
                    0 <= i < sharing_ranges@.len() ==> (#[trigger] sharing_ranges@[i]).resolved(
                        size,
                    ).within(size),
                resolved@ == resolved_ranges(sharing_ranges@, size).take(index as int),
            decreases sharing_ranges@.len() - index,
        {
            resolved.push(sharing_ranges[index].resolve_whole(size));
            proof {
                assert(resolved@ =~= resolved_ranges(sharing_ranges@, size).take(index + 1));
            }
            index += 1;
        }
        proof {
            let all = resolved_ranges(sharing_ranges@, size);
            assert(resolved@ =~= all);
            assert forall|i: int| 0 <= i < resolved@.len() implies (
            #[trigger] resolved@[i]).within(size) by {
                assert(sharing_ranges@[i].resolved(size).within(size));
            }
        }
        self.sharing.set_ranges(size, sharing, &resolved);
    }

    /// What has to be synchronized with before a range of the buffer is used again, run by run,
    /// and who owns each run.
    pub fn sync_info_with_sharing_range(&self, query_range: BufferSubresourceRange) -> (infos: Vec<
        (BufferSubresourceSyncInfo, SharingMode),
    >)
        requires
            self.wf(),
        ensures
            infos@ == sync_infos(
                self.accesses(),
                self.modes(),
                query_range.resolved(self.info().size),
            ),
    {
        let size: u64 = self.info().size;
        let query = query_range.resolve_whole(size);
        let mut infos: Vec<(BufferSubresourceSyncInfo, SharingMode)> = Vec::new();
        let end: u64 = if query.end < size {
            query.end
        } else {
            size
        };
        let ghost pairs = access_modes(self.accesses(), self.modes());
        let ghost mut done: Seq<((AccessType, SharingMode), BufferSubresourceRange)> = seq![];
        assert(infos@ =~= done.map_values(to_sync_info()));
        if query.start >= end {
            return infos;
        }
        let clipped = BufferSubresourceRange { start: query.start, end };
        let shared = self.sharing.ranges_in(size, clipped);
        let shared_count: usize = shared.len();
        let run_count: usize = self.access_runs.run_count();
        let mut access_idx: usize = self.access_runs.run_index_at(query.start);
        let mut shared_idx: usize = 0;
        let mut pos: u64 = query.start;
        proof {
            self.sharing.lemma_modes(size);
            crate::segments::segments_partition(self.modes(), pos as int, end as int);
        }
        while pos < end
            invariant
                self.wf(),
                size == self.info().size,
                query.start <= pos <= end <= size,
                run_count == self.access_runs.runs().len(),
                shared_count == shared@.len(),
                pairs == access_modes(self.accesses(), self.modes()),
                pairs.len() == size,
                self.modes().len() == size,
                shared@ == segments(self.modes(), query.start as int, end as int),
                ({
                    let list = shared@;
                    &&& list.len() > 0 ==> list.last().1.end == end
                    &&& forall|i: int|
                        0 <= i < list.len() ==> (#[trigger] list[i]).1.start < list[i].1.end
                    &&& forall|i: int, offset: int|
                        0 <= i < list.len() && list[i].1.start <= offset < list[i].1.end
                            ==> #[trigger] self.modes()[offset] == (#[trigger] list[i]).0
                    &&& forall|i: int, j: int|
                        0 <= i && j == i + 1 && j < list.len() ==> (#[trigger] list[i]).1.end == (
                        #[trigger] list[j]).1.start && list[i].0 != list[j].0
                }),
                pos < end ==> {
                    &&& crate::run_map::covers(
                        self.access_runs.runs(),
                        access_idx as int,
                        pos as int,
                    )
                    &&& shared_idx < shared@.len()
                    &&& shared@[shared_idx as int].1.start <= pos < shared@[shared_idx as int].1.end
                },
                done + segments(pairs, pos as int, end as int) == segments(
                    pairs,
                    query.start as int,
                    end as int,
                ),
                infos@ == done.map_values(to_sync_info()),
            decreases end - pos,
        {
            let (code, _start) = self.access_runs.run(access_idx);
            let access_end: u64 = if access_idx + 1 < run_count {
                self.access_runs.run(access_idx + 1).1
            } else {
                size
            };
            let (mode, mode_range) = shared[shared_idx];
            let mut stop: u64 = if access_end < end {
                access_end
            } else {
                end
            };
            if mode_range.end < stop {
                stop = mode_range.end;
            }
            let range = BufferSubresourceRange { start: pos, end: stop };
            proof {
                self.lemma_run(access_idx as int, pos as int);
            }
            let access: AccessType = access_type_from_u8(code as u8);
            proof {
                assert(shared_idx + 1 < shared@.len() ==> shared@[shared_idx + 1].1.start
                    == mode_range.end);
                self.lemma_pair_run(access_idx as int, access, mode, range, end, mode_range.end);
                let within = BufferSubresourceRange { start: pos, end };
                lemma_first_segment(pairs, within, (access, mode), range);
                let item = ((access, mode), range);
                assert(done + (seq![item] + segments(pairs, stop as int, end as int)) =~= done.push(
                    item,
                ) + segments(pairs, stop as int, end as int));
                assert(done.push(item).map_values(to_sync_info()) =~= done.map_values(
                    to_sync_info(),
                ).push(to_sync_info()(item)));
                done = done.push(item);
            }
            infos.push((BufferSubresourceSyncInfo::from_access(access, range), mode));
            if access_end == stop {
                access_idx += 1;
            }
            if mode_range.end == stop {
                shared_idx += 1;
            }
            pos = stop;
        }
        assert(done =~= segments(pairs, query.start as int, end as int));
        infos
    }

    /// Like [`Buffer::sync_info_with_sharing_range`], for the whole buffer.
    pub fn sync_info_with_sharing(&self) -> (infos: Vec<(BufferSubresourceSyncInfo, SharingMode)>)
        requires
            self.wf(),
        ensures
            infos@ == sync_infos(
                self.accesses(),
                self.modes(),
                BufferSubresourceRange { start: 0, end: self.info().size },
            ),
    {
        self.sync_info_with_sharing_range(
            BufferSubresourceRange { start: 0, end: self.info().size },
        )
    }

    /// Returns compact synchronization information for the buffer's current access ranges.
    pub fn sync_info(&self) -> (info: BufferSyncInfo)
        requires
            self.wf(),
        ensures
            info.ranges@ == sync_infos(
                self.accesses(),
                self.modes(),
                BufferSubresourceRange { start: 0, end: self.info().size },
            ).map_values(
                |pair: (BufferSubresourceSyncInfo, SharingMode)| pair.0.published(pair.1),
            ),
    {
        let infos = self.sync_info_with_sharing();
        let mut ranges: Vec<BufferSubresourceSyncInfo> = Vec::new();
        let ghost publish = |pair: (BufferSubresourceSyncInfo, SharingMode)|
            pair.0.published(pair.1);
        let mut index: usize = 0;
        while index < infos.len()
            invariant
                index <= infos@.len(),
                publish == (|pair: (BufferSubresourceSyncInfo, SharingMode)|
                    pair.0.published(pair.1)),
                ranges@ == infos@.map_values(publish).take(index as int),
            decreases infos@.len() - index,
        {
            let (range, sharing) = infos[index];
            ranges.push(range.into_public(sharing));
            assert(ranges@ =~= infos@.map_values(publish).take(index + 1));
            index += 1;
        }
        assert(ranges@ =~= infos@.map_values(publish));
        BufferSyncInfo { ranges }
    }

    /// What the run at an index of the access map says about an offset in it.
    proof fn lemma_run(&self, index: int, offset: int)
        requires
            self.wf(),
            crate::run_map::covers(self.access_runs.runs(), index, offset),
            0 <= offset < self.info().size,
        ensures
            self.access_runs.runs()[index].0 == self.access_runs@[offset],
            self.access_runs.runs()[index].0 < ACCESS_TYPE_COUNT,
            self.accesses()[offset] == AccessType::of_code(self.access_runs.runs()[index].0),
    {
        crate::run_map::lemma_value_at(
            self.access_runs.runs(),
            self.info().size,
            index,
            offset,
        );
    }

    /// A range that ends with its access run, its ownership run or the query is a run of pairs.
    proof fn lemma_pair_run(
        &self,
        index: int,
        access: AccessType,
        mode: SharingMode,
        range: BufferSubresourceRange,
        end: u64,
        mode_end: u64,
    )
        requires
            self.wf(),
            range.start < range.end <= end <= self.info().size,
            self.modes().len() == self.info().size,
            crate::run_map::covers(self.access_runs.runs(), index, range.start as int),
            access == AccessType::of_code(self.access_runs.runs()[index].0),
            range.end <= mode_end,
            forall|offset: int| range.start <= offset < mode_end ==> self.modes()[offset] == mode,
            mode_end < end ==> self.modes()[mode_end as int] != mode,
            index + 1 < self.access_runs.runs().len() ==> range.end <= self.access_runs.runs()[index
                + 1].1,
            range.end == end || range.end == mode_end || index + 1 < self.access_runs.runs().len()
                && range.end == self.access_runs.runs()[index + 1].1,
        ensures
            is_first_run(
                access_modes(self.accesses(), self.modes()),
                BufferSubresourceRange { start: range.start, end },
                (access, mode),
                range,
            ),
            range.end < end && index + 1 < self.access_runs.runs().len() && range.end
                == self.access_runs.runs()[index + 1].1 ==> crate::run_map::covers(
                self.access_runs.runs(),
                index + 1,
                range.end as int,
            ),
    {
        let runs = self.access_runs.runs();
        let pairs = access_modes(self.accesses(), self.modes());
        assert forall|offset: int| range.start <= offset < range.end implies pairs[offset] == (
            access,
            mode,
        ) by {
            assert(crate::run_map::covers(runs, index, offset));
            self.lemma_run(index, offset);
        }
        if range.end < end && index + 1 < runs.len() && range.end == runs[index + 1].1 {
            let stop = range.end as int;
            assert(crate::run_map::covers(runs, index + 1, stop)) by {
                assert(index + 2 < runs.len() ==> runs[index + 1].1 < runs[index + 2].1);
            }
            self.lemma_run(index, range.start as int);
            self.lemma_run(index + 1, stop);
            assert(runs[index].0 != runs[index + 1].0);
            if AccessType::of_code(runs[index].0) == AccessType::of_code(runs[index + 1].0) {
                crate::access::lemma_of_code_injective(runs[index].0, runs[index + 1].0);
            }
            assert(pairs[stop].0 != access);
        }
    }
}

/// Whether `codes` are the codes of `before` with the offsets from `start` up to `stop` tracked.
spec fn is_tracking(
    before: Seq<AccessType>,
    next: AccessType,
    start: int,
    stop: int,
    codes: Seq<u64>,
) -> bool {
    &&& codes.len() == before.len()
    &&& forall|offset: int|
        0 <= offset < codes.len() ==> (#[trigger] codes[offset]) == (if start <= offset < stop {
            tracked_after(before[offset], next)
        } else {
            before[offset]
        }).code()
}

proof fn lemma_track_step(
    before: Seq<AccessType>,
    next: AccessType,
    range: BufferSubresourceRange,
    rest: BufferSubresourceRange,
    now: Seq<u64>,
    code: u64,
    run: BufferSubresourceRange,
    after: Seq<u64>,
)
    requires
        range.within(before.len() as u64),
        before.len() <= u64::MAX,
        range.start <= rest.start < rest.end == range.end,
        is_tracking(before, next, range.start as int, rest.start as int, now),
        is_first_run(now, rest, code, run),
        exists|new: u64|
            new == tracked_after(AccessType::of_code(code), next).code() && after
                == #[trigger] overwrite(now, run.start as int, run.end as int, new),
    ensures
        is_tracking(before, next, range.start as int, run.end as int, after),
        segments(before, rest.start as int, range.end as int) == seq![
            (AccessType::of_code(code), run),
        ] + segments(before, run.end as int, range.end as int),
{
    let previous = AccessType::of_code(code);
    assert forall|offset: int| run.start <= offset < run.end implies before[offset] == previous by {
        assert(now[offset] == code);
        assert(now[offset] == before[offset].code());
        access_codes_are_distinct(before[offset], before[offset]);
    }
    if run.end < rest.end {
        assert(now[run.end as int] == before[run.end as int].code());
        assert(now[run.start as int] == before[run.start as int].code());
        assert(before[run.start as int] == previous);
        access_codes_are_distinct(before[run.end as int], before[run.start as int]);
    }
    assert(is_first_run(before, rest, previous, run));
    lemma_first_segment(before, rest, previous, run);
}

/// The accesses that runs of codes stand for.
fn decode_runs(
    steps: &Vec<(u64, BufferSubresourceRange)>,
    Ghost(codes): Ghost<Seq<u64>>,
    Ghost(accesses): Ghost<Seq<AccessType>>,
    Ghost(range): Ghost<BufferSubresourceRange>,
) -> (decoded: Vec<(AccessType, BufferSubresourceRange)>)
    requires
        steps@ == segments(codes, range.start as int, range.end as int),
        codes.len() == accesses.len(),
        range.start <= range.end <= codes.len() <= u64::MAX,
        forall|offset: int|
            0 <= offset < codes.len() ==> (#[trigger] codes[offset]) < ACCESS_TYPE_COUNT
                && accesses[offset] == AccessType::of_code(codes[offset]),
    ensures
        decoded@ == segments(accesses, range.start as int, range.end as int),
{
    let ghost decode = |code: u64| AccessType::of_code(code);
    let ghost decode_run = |run: (u64, BufferSubresourceRange)|
        (AccessType::of_code(run.0), run.1);
    proof {
        assert forall|i: int, j: int|
            range.start <= i < range.end && range.start <= j < range.end && #[trigger] decode(
                codes[i],
            ) == #[trigger] decode(codes[j]) implies codes[i] == codes[j] by {
            crate::access::lemma_of_code_injective(codes[i], codes[j]);
        }
        lemma_segments_map(codes, accesses, decode, range.start as int, range.end as int);
        crate::segments::segments_partition(codes, range.start as int, range.end as int);
        assert forall|i: int| 0 <= i < steps@.len() implies (#[trigger] steps@[i]).0
            < ACCESS_TYPE_COUNT by {
            assert(codes[steps@[i].1.start as int] == steps@[i].0);
        }
        assert(segments(codes, range.start as int, range.end as int).map_values(
            |run: (u64, BufferSubresourceRange)| (decode(run.0), run.1),
        ) =~= steps@.map_values(decode_run));
    }
    let mut decoded: Vec<(AccessType, BufferSubresourceRange)> = Vec::new();
    let mut index: usize = 0;
    while index < steps.len()
        invariant
            index <= steps@.len(),
            decode_run == (|run: (u64, BufferSubresourceRange)|
                (AccessType::of_code(run.0), run.1)),
            forall|i: int| 0 <= i < steps@.len() ==> (#[trigger] steps@[i]).0 < ACCESS_TYPE_COUNT,
            decoded@ == steps@.map_values(decode_run).take(index as int),
        decreases steps@.len() - index,
    {
        let (code, run) = steps[index];
        decoded.push((access_type_from_u8(code as u8), run));
        assert(decoded@ =~= steps@.map_values(decode_run).take(index + 1));
        index += 1;
    }
    assert(decoded@ =~= steps@.map_values(decode_run));
    decoded
}

/// The access and the ownership of each byte.
pub open spec fn access_modes(accesses: Seq<AccessType>, modes: Seq<SharingMode>) -> Seq<
    (AccessType, SharingMode),
> {
    Seq::new(accesses.len(), |offset: int| (accesses[offset], modes[offset]))
}

/// The synchronization information of a run, and who owns it.
pub open spec fn to_sync_info() -> spec_fn(
    ((AccessType, SharingMode), BufferSubresourceRange),
) -> (BufferSubresourceSyncInfo, SharingMode) {
    |run: ((AccessType, SharingMode), BufferSubresourceRange)|
        {
            let (pair, range) = run;
            (BufferSubresourceSyncInfo::of_access(pair.0, range), pair.1)
        }
}

/// The synchronization information of a query: one entry for each run of bytes in the query that
/// have the same access and ownership.
pub open spec fn sync_infos(
    accesses: Seq<AccessType>,
    modes: Seq<SharingMode>,
    query: BufferSubresourceRange,
) -> Seq<(BufferSubresourceSyncInfo, SharingMode)> {
    let end = if query.end < accesses.len() {
        query.end as int
    } else {
        accesses.len() as int
    };
    segments(access_modes(accesses, modes), query.start as int, end).map_values(to_sync_info())
}

/// Values after one more is assigned to a range.
pub open spec fn assign<V>(values: Seq<V>, range: BufferSubresourceRange, value: V) -> Seq<V> {
    Seq::new(
        values.len(),
        |offset: int| if range.has(offset) { value } else { values[offset] },
    )
}

/// Values after one is assigned to several ranges.
pub open spec fn assign_all<V>(
    values: Seq<V>,
    ranges: Seq<BufferSubresourceRange>,
    value: V,
) -> Seq<V> {
    Seq::new(
        values.len(),
        |offset: int|
            if exists|i: int| 0 <= i < ranges.len() && (#[trigger] ranges[i]).has(offset) {
                value
            } else {
                values[offset]
            },
    )
}

/// Ranges of which each is resolved.
pub open spec fn resolved_ranges(ranges: Seq<BufferSubresourceRange>, size: u64) -> Seq<
    BufferSubresourceRange,
> {
    ranges.map_values(|range: BufferSubresourceRange| range.resolved(size))
}

/// What was assigned to a range is what the range is found to hold, as one run: the next access to
/// the range is told of the last one.
pub proof fn assignment_reads_back<V>(values: Seq<V>, range: BufferSubresourceRange, value: V)
    requires
        range.start < range.end <= values.len(),
    ensures
        segments(assign(values, range, value), range.start as int, range.end as int) == seq![
            (value, range),
        ],
{
    lemma_first_segment(assign(values, range, value), range, value, range);
    assert(seq![(value, range)] + Seq::<(V, BufferSubresourceRange)>::empty() =~= seq![
        (value, range),
    ]);
}

/// What is assigned to ranges that share no byte can be assigned in any order.
pub proof fn disjoint_assignments_commute<V>(
    values: Seq<V>,
    first: (V, BufferSubresourceRange),
    second: (V, BufferSubresourceRange),
)
    requires
        forall|offset: int| !(first.1.has(offset) && #[trigger] second.1.has(offset)),
    ensures
        assign(assign(values, first.1, first.0), second.1, second.0) == assign(
            assign(values, second.1, second.0),
            first.1,
            first.0,
        ),
{
    assert(assign(assign(values, first.1, first.0), second.1, second.0) =~= assign(
        assign(values, second.1, second.0),
        first.1,
        first.0,
    ));
}

/// Accesses to ranges that share no byte are tracked in any order with the same result.
pub proof fn disjoint_accesses_commute(
    accesses: Seq<AccessType>,
    first: (AccessType, BufferSubresourceRange),
    second: (AccessType, BufferSubresourceRange),
)
    requires
        forall|offset: int| !(first.1.has(offset) && #[trigger] second.1.has(offset)),
    ensures
        track(track(accesses, first.0, first.1), second.0, second.1) == track(
            track(accesses, second.0, second.1),
            first.0,
            first.1,
        ),
{
    assert(track(track(accesses, first.0, first.1), second.0, second.1) =~= track(
        track(accesses, second.0, second.1),
        first.0,
        first.1,
    ));
}

/// A range that was accessed and given an owner is reported with that access and that owner, as
/// one entry.
pub proof fn last_use_is_reported(
    accesses: Seq<AccessType>,
    modes: Seq<SharingMode>,
    access: AccessType,
    owner: SharingMode,
    range: BufferSubresourceRange,
)
    requires
        range.start < range.end <= accesses.len(),
        modes.len() == accesses.len(),
    ensures
        sync_infos(assign(accesses, range, access), assign(modes, range, owner), range) == seq![
            (BufferSubresourceSyncInfo::of_access(access, range), owner),
        ],
{
    let pairs = access_modes(assign(accesses, range, access), assign(modes, range, owner));
    assignment_reads_back(pairs, range, (access, owner));
    assert(pairs =~= assign(pairs, range, (access, owner)));
    assert(seq![((access, owner), range)].map_values(to_sync_info()) =~= seq![
        (BufferSubresourceSyncInfo::of_access(access, range), owner),
    ]);
}

/// An open end stands for the end of the buffer; any other end stands for itself.
pub proof fn open_ranges_reach_the_end(range: BufferSubresourceRange, size: u64, offset: int)
    ensures
        range.end == 0xffff_ffff_ffff_ffff ==> (range.resolved(size).has(offset) <==> range.start
            <= offset < size),
        range.end < 0xffff_ffff_ffff_ffff ==> (range.resolved(size).has(offset) <==> range.has(
            offset,
        )),
{
}

/// What is remembered is the last access, unless that only reads what an earlier one wrote: the
/// memory masks decide, and all reads and writes of all commands are then remembered.
pub proof fn reads_after_writes_are_remembered_as_both(previous: AccessType, next: AccessType)
    ensures
        ({
            let kept = tracked_after(previous, next);
            if previous.accesses() & write_bits() != 0 && next.accesses() & write_bits() == 0 {
                &&& kept.stages() == vk::PIPELINE_STAGE_ALL_COMMANDS
                &&& kept.accesses() & vk::ACCESS_MEMORY_READ != 0
                &&& kept.accesses() & vk::ACCESS_MEMORY_WRITE != 0
            } else {
                kept == next
            }
        }),
{
    writes_perform_write_accesses(previous);
    writes_perform_write_accesses(next);
    lemma_masks();
    assert(0x18000u32 & vk::ACCESS_MEMORY_READ != 0 && 0x18000u32 & vk::ACCESS_MEMORY_WRITE != 0)
        by (bit_vector);
}

/// A write of a byte is never forgotten: whatever was accessed after it, what is remembered of the
/// byte writes. A byte that none of the accesses touched is remembered as it was.
pub proof fn writes_are_never_forgotten(
    accesses: Seq<AccessType>,
    nexts: Seq<(AccessType, BufferSubresourceRange)>,
    offset: int,
)
    requires
        0 <= offset < accesses.len(),
    ensures
        track_all(accesses, nexts).len() == accesses.len(),
        (exists|k: int|
            0 <= k < nexts.len() && (#[trigger] nexts[k]).1.has(offset) && nexts[k].0.accesses()
                & write_bits() != 0) ==> track_all(accesses, nexts)[offset].accesses()
            & write_bits() != 0,
        accesses[offset].accesses() & write_bits() != 0 ==> track_all(
            accesses,
            nexts,
        )[offset].accesses() & write_bits() != 0,
        (forall|k: int| 0 <= k < nexts.len() ==> !(#[trigger] nexts[k]).1.has(offset))
            ==> track_all(accesses, nexts)[offset] == accesses[offset],
    decreases nexts.len(),
{
    if nexts.len() > 0 {
        let some = nexts.drop_last();
        let last = nexts.last();
        writes_are_never_forgotten(accesses, some, offset);
        let before = track_all(accesses, some)[offset];
        let after = track_all(accesses, nexts)[offset];
        writes_perform_write_accesses(before);
        writes_perform_write_accesses(after);
        writes_perform_write_accesses(last.0);
        assert(forall|k: int| 0 <= k < some.len() ==> some[k] == #[trigger] nexts[k]);
        if exists|k: int|
            0 <= k < nexts.len() && (#[trigger] nexts[k]).1.has(offset) && nexts[k].0.accesses()
                & write_bits() != 0 {
            let k = choose|k: int|
                0 <= k < nexts.len() && (#[trigger] nexts[k]).1.has(offset) && nexts[k].0.accesses()
                    & write_bits() != 0;
            if k < some.len() {
                assert(some[k].1.has(offset));
            }
        }
        if forall|k: int| 0 <= k < nexts.len() ==> !(#[trigger] nexts[k]).1.has(offset) {
            assert(!nexts[nexts.len() - 1].1.has(offset));
            assert forall|k: int| 0 <= k < some.len() implies !(#[trigger] some[k]).1.has(
                offset,
            ) by {
                assert(!nexts[k].1.has(offset));
            }
        }
    }
}

/// Each access of a list is told, of each byte that it touches, what was remembered of the byte
/// when its turn came.
pub proof fn accesses_are_told_of_each_byte(
    accesses: Seq<AccessType>,
    nexts: Seq<(AccessType, BufferSubresourceRange)>,
    turn: int,
    offset: int,
)
    requires
        0 <= turn < nexts.len(),
        nexts[turn].1.has(offset),
    ensures
        exists|i: int|
            {
                let made = #[trigger] all_transitions(accesses, nexts)[i];
                &&& 0 <= i < all_transitions(accesses, nexts).len()
                &&& made.0 == nexts[turn].0
                &&& made.1 == track_all(accesses, nexts.take(turn))[offset]
                &&& made.2.has(offset)
            },
    decreases nexts.len(),
{
    let some = nexts.drop_last();
    let all = all_transitions(accesses, nexts);
    let earlier = all_transitions(accesses, some);
    if turn == nexts.len() - 1 {
        assert(nexts.take(turn) =~= some);
        let values = track_all(accesses, some);
        let start = nexts.last().1.start as int;
        let end = nexts.last().1.end as int;
        segments_cover_range(values, start, end, offset);
        let runs = segments(values, start, end);
        let i = choose|i: int|
            0 <= i < runs.len() && (#[trigger] runs[i]).1.has(offset) && runs[i].0
                == values[offset];
        assert(all[earlier.len() + i] == transitions(runs, nexts.last().0)[i]);
    } else {
        accesses_are_told_of_each_byte(accesses, some, turn, offset);
        assert(some.take(turn) =~= nexts.take(turn));
        let i = choose|i: int|
            {
                let made = #[trigger] earlier[i];
                &&& 0 <= i < earlier.len()
                &&& made.0 == some[turn].0
                &&& made.1 == track_all(accesses, some.take(turn))[offset]
                &&& made.2.has(offset)
            };
        assert(all[i] == earlier[i]);
    }
}

/// Every transition is that of an access of the list, in its range, from what was remembered of
/// all bytes of the transition.
pub proof fn transitions_are_of_listed_accesses(
    accesses: Seq<AccessType>,
    nexts: Seq<(AccessType, BufferSubresourceRange)>,
    index: int,
)
    requires
        0 <= index < all_transitions(accesses, nexts).len(),
    ensures
        exists|turn: int|
            0 <= turn < nexts.len() && {
                let made = all_transitions(accesses, nexts)[index];
                &&& made.0 == (#[trigger] nexts[turn]).0
                &&& nexts[turn].1.start <= made.2.start < made.2.end <= nexts[turn].1.end
                &&& forall|offset: int|
                    made.2.has(offset) ==> #[trigger] track_all(
                        accesses,
                        nexts.take(turn),
                    )[offset] == made.1
            },
    decreases nexts.len(),
{
    let some = nexts.drop_last();
    let all = all_transitions(accesses, nexts);
    let earlier = all_transitions(accesses, some);
    let made = all[index];
    if index < earlier.len() {
        transitions_are_of_listed_accesses(accesses, some, index);
        assert(made == earlier[index]);
        let turn = choose|turn: int|
            0 <= turn < some.len() && {
                &&& made.0 == (#[trigger] some[turn]).0
                &&& some[turn].1.start <= made.2.start < made.2.end <= some[turn].1.end
                &&& forall|offset: int|
                    made.2.has(offset) ==> #[trigger] track_all(
                        accesses,
                        some.take(turn),
                    )[offset] == made.1
            };
        assert(some.take(turn) =~= nexts.take(turn));
        assert(nexts[turn] == some[turn]);
    } else {
        let turn = nexts.len() - 1;
        assert(nexts.take(turn) =~= some);
        let values = track_all(accesses, some);
        let range = nexts.last().1;
        let runs = segments(values, range.start as int, range.end as int);
        let i = index - earlier.len();
        assert(made == transitions(runs, nexts.last().0)[i]);
        segments_partition(values, range.start as int, range.end as int);
        assert(made.1 == runs[i].0 && made.2 == runs[i].1);
        assert(nexts[turn].1.start <= made.2.start);
    }
}

/// The information of a query tells of each byte of the buffer that the query holds, and of no
/// other, what its last access was and who owns it.
pub proof fn sync_infos_tell_of_each_byte(
    accesses: Seq<AccessType>,
    modes: Seq<SharingMode>,
    query: BufferSubresourceRange,
    offset: int,
)
    requires
        modes.len() == accesses.len() <= u64::MAX,
    ensures
        ({
            let infos = sync_infos(accesses, modes, query);
            &&& (query.has(offset) && offset < accesses.len()) <==> exists|i: int|
                0 <= i < infos.len() && (#[trigger] infos[i]).0.range.has(offset)
            &&& forall|i: int|
                0 <= i < infos.len() && (#[trigger] infos[i]).0.range.has(offset) ==> {
                    let told = infos[i].0.published(infos[i].1);
                    &&& told.stage_mask == accesses[offset].stages()
                    &&& told.access_mask == accesses[offset].accesses()
                    &&& told.queue_family_index == modes[offset].owner()
                    &&& told.range == infos[i].0.range
                    &&& infos[i].0.queue_family_index is None
                    &&& infos[i].1 == modes[offset]
                }
        }),
{
    let pairs = access_modes(accesses, modes);
    let start = query.start as int;
    let end = if query.end < accesses.len() {
        query.end as int
    } else {
        accesses.len() as int
    };
    let runs = segments(pairs, start, end);
    let infos = sync_infos(accesses, modes, query);
    if start < end {
        segments_partition(pairs, start, end);
        assert forall|i: int| 0 <= i < infos.len() implies (#[trigger] infos[i]).0.range
            == runs[i].1 && infos[i] == to_sync_info()(runs[i]) by {}
        assert forall|i: int|
            0 <= i < infos.len() && (#[trigger] infos[i]).0.range.has(offset) implies runs[i].0 == (
        accesses[offset], modes[offset]) by {
            assert(infos[i].0.range == runs[i].1);
            assert(pairs[offset] == runs[i].0);
        }
        if query.has(offset) && offset < accesses.len() {
            segments_cover_range(pairs, start, end, offset);
            let i = choose|i: int|
                0 <= i < runs.len() && (#[trigger] runs[i]).1.has(offset) && runs[i].0
                    == pairs[offset];
            assert(infos[i].0.range.has(offset));
        }
    } else {
        assert(infos.len() == 0);
    }
}

/// A field that was set is built as it was set, whatever else was, and one that was not set has its
/// default.
pub proof fn buffer_info_fields_are_built_apart(builder: BufferInfoBuilder)
    ensures
        ({
            let built = builder.built();
            &&& builder.alignment matches Some(value) ==> built.alignment == value
            &&& builder.alloc_dedicated matches Some(value) ==> built.alloc_dedicated == value
            &&& builder.host_readable matches Some(value) ==> built.host_readable == value
            &&& builder.host_writable matches Some(value) ==> built.host_writable == value
            &&& builder.sharing_mode matches Some(value) ==> built.sharing_mode == value
            &&& builder.size matches Some(value) ==> built.size == value
            &&& builder.usage matches Some(value) ==> built.usage == value
            &&& builder.alignment is None ==> built.alignment == 1
            &&& builder.alloc_dedicated is None ==> !built.alloc_dedicated
            &&& builder.host_readable is None ==> !built.host_readable
            &&& builder.host_writable is None ==> !built.host_writable
            &&& builder.sharing_mode is None ==> built.sharing_mode == vk::SHARING_MODE_EXCLUSIVE
            &&& builder.size is None ==> built.size == 0
            &&& builder.usage is None ==> built.usage == 0
        }),
{
}

} // verus!
