//! Acceleration structure resource types.

use crate::access::{
    lemma_masks, pipeline_stage_access_flags, write_bits, writes_perform_write_accesses, AccessType,
};
use crate::accesses::{recorded, swap_access, swap_accesses, told, AccessCodes, AccessStore};
use crate::buffer::BufferInfo;
use crate::error::DriverError;
use crate::micromap::{convert_usages, usages, MicromapUsage, OpacityMicromapUsage};
use crate::vk;
use vstd::prelude::*;

verus! {

/// The stages and accesses of an access to an acceleration structure: a shader that reads something
/// other than an image or buffer reads an acceleration structure.
pub open spec fn accel_struct_sync_flags(access: AccessType) -> (u32, u32) {
    match access {
        AccessType::VertexShaderReadOther => (
            vk::PIPELINE_STAGE_VERTEX_SHADER,
            vk::ACCESS_ACCELERATION_STRUCTURE_READ_KHR,
        ),
        AccessType::TessellationControlShaderReadOther => (
            vk::PIPELINE_STAGE_TESSELLATION_CONTROL_SHADER,
            vk::ACCESS_ACCELERATION_STRUCTURE_READ_KHR,
        ),
        AccessType::TessellationEvaluationShaderReadOther => (
            vk::PIPELINE_STAGE_TESSELLATION_EVALUATION_SHADER,
            vk::ACCESS_ACCELERATION_STRUCTURE_READ_KHR,
        ),
        AccessType::GeometryShaderReadOther => (
            vk::PIPELINE_STAGE_GEOMETRY_SHADER,
            vk::ACCESS_ACCELERATION_STRUCTURE_READ_KHR,
        ),
        AccessType::FragmentShaderReadOther => (
            vk::PIPELINE_STAGE_FRAGMENT_SHADER,
            vk::ACCESS_ACCELERATION_STRUCTURE_READ_KHR,
        ),
        AccessType::ComputeShaderReadOther => (
            vk::PIPELINE_STAGE_COMPUTE_SHADER,
            vk::ACCESS_ACCELERATION_STRUCTURE_READ_KHR,
        ),
        AccessType::AnyShaderReadOther => (
            vk::PIPELINE_STAGE_ALL_COMMANDS,
            vk::ACCESS_ACCELERATION_STRUCTURE_READ_KHR,
        ),
        AccessType::RayTracingShaderReadOther => (
            vk::PIPELINE_STAGE_RAY_TRACING_SHADER_KHR,
            vk::ACCESS_ACCELERATION_STRUCTURE_READ_KHR,
        ),
        AccessType::MeshShaderReadOther => (
            vk::PIPELINE_STAGE_MESH_SHADER_EXT,
            vk::ACCESS_ACCELERATION_STRUCTURE_READ_KHR,
        ),
        AccessType::TaskShaderReadOther => (
            vk::PIPELINE_STAGE_TASK_SHADER_EXT,
            vk::ACCESS_ACCELERATION_STRUCTURE_READ_KHR,
        ),
        _ => (access.stages(), access.accesses()),
    }
}

/// The stages and accesses of an access to an acceleration structure.
pub fn accel_struct_sync_flags_for_access(access: AccessType) -> (flags: (u32, u32))
    ensures
        flags == accel_struct_sync_flags(access),
{
    match access {
        AccessType::VertexShaderReadOther => (
            vk::PIPELINE_STAGE_VERTEX_SHADER,
            vk::ACCESS_ACCELERATION_STRUCTURE_READ_KHR,
        ),
        AccessType::TessellationControlShaderReadOther => (
            vk::PIPELINE_STAGE_TESSELLATION_CONTROL_SHADER,
            vk::ACCESS_ACCELERATION_STRUCTURE_READ_KHR,
        ),
        AccessType::TessellationEvaluationShaderReadOther => (
            vk::PIPELINE_STAGE_TESSELLATION_EVALUATION_SHADER,
            vk::ACCESS_ACCELERATION_STRUCTURE_READ_KHR,
        ),
        AccessType::GeometryShaderReadOther => (
            vk::PIPELINE_STAGE_GEOMETRY_SHADER,
            vk::ACCESS_ACCELERATION_STRUCTURE_READ_KHR,
        ),
        AccessType::FragmentShaderReadOther => (
            vk::PIPELINE_STAGE_FRAGMENT_SHADER,
            vk::ACCESS_ACCELERATION_STRUCTURE_READ_KHR,
        ),
        AccessType::ComputeShaderReadOther => (
            vk::PIPELINE_STAGE_COMPUTE_SHADER,
            vk::ACCESS_ACCELERATION_STRUCTURE_READ_KHR,
        ),
        AccessType::AnyShaderReadOther => (
            vk::PIPELINE_STAGE_ALL_COMMANDS,
            vk::ACCESS_ACCELERATION_STRUCTURE_READ_KHR,
        ),
        AccessType::RayTracingShaderReadOther => (
            vk::PIPELINE_STAGE_RAY_TRACING_SHADER_KHR,
            vk::ACCESS_ACCELERATION_STRUCTURE_READ_KHR,
        ),
        AccessType::MeshShaderReadOther => (
            vk::PIPELINE_STAGE_MESH_SHADER_EXT,
            vk::ACCESS_ACCELERATION_STRUCTURE_READ_KHR,
        ),
        AccessType::TaskShaderReadOther => (
            vk::PIPELINE_STAGE_TASK_SHADER_EXT,
            vk::ACCESS_ACCELERATION_STRUCTURE_READ_KHR,
        ),
        _ => pipeline_stage_access_flags(access),
    }
}

/// Whether there is one maximum primitive count per geometry, and no more geometries than a build
/// can count.
pub fn validate_build_size_counts(geometry_count: usize, primitive_count_len: usize) -> (valid: bool)
    ensures
        valid == (geometry_count == primitive_count_len && geometry_count <= u32::MAX),
{
    geometry_count == primitive_count_len && geometry_count as u64 <= u32::MAX as u64
}

/// The error for an acceleration structure that could not be created.
pub open spec fn creation_error(result: i32) -> DriverError {
    if result == vk::ERROR_INVALID_OPAQUE_CAPTURE_ADDRESS {
        DriverError::InvalidData
    } else if result == vk::ERROR_OUT_OF_HOST_MEMORY {
        DriverError::OutOfMemory
    } else {
        DriverError::Unsupported
    }
}

/// The error for an acceleration structure that could not be created.
pub fn create_error(result: i32) -> (err: DriverError)
    ensures
        err == creation_error(result),
{
    match result {
        vk::ERROR_INVALID_OPAQUE_CAPTURE_ADDRESS => DriverError::InvalidData,
        vk::ERROR_OUT_OF_HOST_MEMORY => DriverError::OutOfMemory,
        _ => DriverError::Unsupported,
    }
}

/// Size requirements of an acceleration structure build.
#[derive(Clone, Copy, Debug, PartialEq, Eq, Structural)]
pub struct AccelerationStructureBuildSizes {
    /// Required storage size in bytes.
    pub acceleration_structure_size: u64,
    /// Required scratch size in bytes for a build.
    pub build_scratch_size: u64,
    /// Required scratch size in bytes for an update.
    pub update_scratch_size: u64,
}

/// Opacity micromap data attached to acceleration-structure triangles.
#[derive(Clone, Copy, Debug)]
pub struct AccelerationStructureOpacityMicromap<'a> {
    /// Offset added to non-special micromap indices. With `index_type` set to `NONE_KHR`,
    /// triangle `i` uses micromap triangle `base_triangle + i`.
    pub base_triangle: u32,
    /// Device address of micromap indices for the triangles.
    pub index_buffer: u64,
    /// Byte stride between micromap indices.
    pub index_stride: u64,
    /// Type of each micromap index.
    pub index_type: i32,
    /// Native opacity micromap handle.
    pub micromap: u64,
    /// Borrowed usage counts for the micromap triangles referenced by this geometry after
    /// index indirection and `base_triangle` are applied, excluding special micromap indices.
    pub usage_counts: &'a [OpacityMicromapUsage],
}

impl<'a> AccelerationStructureOpacityMicromap<'a> {
    /// Creates an opacity micromap attachment borrowing its usage counts.
    pub fn new(micromap: u64, usage_counts: &'a [OpacityMicromapUsage]) -> (attachment: Self)
        ensures
            attachment == (AccelerationStructureOpacityMicromap {
                base_triangle: 0,
                index_buffer: 0,
                index_stride: 0,
                index_type: vk::INDEX_TYPE_NONE_KHR,
                micromap,
                usage_counts,
            }),
    {
        AccelerationStructureOpacityMicromap {
            base_triangle: 0,
            index_buffer: 0,
            index_stride: 0,
            index_type: vk::INDEX_TYPE_NONE_KHR,
            micromap,
            usage_counts,
        }
    }

    /// Sets the offset added to non-special micromap indices (or the implicit triangle index
    /// when `index_type` is `NONE_KHR`).
    pub fn base_triangle(self, base_triangle: u32) -> (attachment: Self)
        ensures
            attachment == (AccelerationStructureOpacityMicromap { base_triangle, ..self }),
    {
        AccelerationStructureOpacityMicromap { base_triangle, ..self }
    }

    /// Sets the micromap-index buffer address.
    pub fn index_buffer(self, index_buffer: u64) -> (attachment: Self)
        ensures
            attachment == (AccelerationStructureOpacityMicromap { index_buffer, ..self }),
    {
        AccelerationStructureOpacityMicromap { index_buffer, ..self }
    }

    /// Sets the byte stride between micromap-index elements.
    pub fn index_stride(self, index_stride: u64) -> (attachment: Self)
        ensures
            attachment == (AccelerationStructureOpacityMicromap { index_stride, ..self }),
    {
        AccelerationStructureOpacityMicromap { index_stride, ..self }
    }

    /// Sets the micromap-index element type.
    pub fn index_type(self, index_type: i32) -> (attachment: Self)
        ensures
            attachment == (AccelerationStructureOpacityMicromap { index_type, ..self }),
    {
        AccelerationStructureOpacityMicromap { index_type, ..self }
    }
}

/// Triangle geometry and its optional opacity micromap attachment.
#[derive(Clone, Copy, Debug)]
pub struct AccelerationStructureTriangles<'a> {
    /// Device address of index data, or zero for non-indexed geometry.
    pub index_data: u64,
    /// The type of each index element.
    pub index_type: i32,
    /// Highest vertex index addressed by a build command using this geometry.
    pub max_vertex: u32,
    /// Optional opacity micromap attachment.
    pub opacity_micromap: Option<AccelerationStructureOpacityMicromap<'a>>,
    /// Device address of a matrix transforming vertices from geometry space to acceleration
    /// structure space, or zero when absent.
    pub transform_data: u64,
    /// Device address of vertex data for this geometry.
    pub vertex_data: u64,
    /// The format of each vertex element.
    pub vertex_format: i32,
    /// Stride in bytes between vertices.
    pub vertex_stride: u64,
}

impl<'a> AccelerationStructureTriangles<'a> {
    /// Creates triangle geometry without an opacity micromap attachment.
    pub fn new(
        index_data: u64,
        index_type: i32,
        max_vertex: u32,
        transform_data: u64,
        vertex_data: u64,
        vertex_format: i32,
        vertex_stride: u64,
    ) -> (triangles: Self)
        ensures
            triangles == (AccelerationStructureTriangles {
                index_data,
                index_type,
                max_vertex,
                opacity_micromap: None,
                transform_data,
                vertex_data,
                vertex_format,
                vertex_stride,
            }),
    {
        AccelerationStructureTriangles {
            index_data,
            index_type,
            max_vertex,
            opacity_micromap: None,
            transform_data,
            vertex_data,
            vertex_format,
            vertex_stride,
        }
    }

    /// Attaches an opacity micromap to this triangle geometry.
    pub fn opacity_micromap(
        self,
        opacity_micromap: AccelerationStructureOpacityMicromap<'a>,
    ) -> (triangles: Self)
        ensures
            triangles == (AccelerationStructureTriangles {
                opacity_micromap: Some(opacity_micromap),
                ..self
            }),
    {
        AccelerationStructureTriangles { opacity_micromap: Some(opacity_micromap), ..self }
    }
}

/// Specifies acceleration structure geometry data.
#[derive(Clone, Copy, Debug)]
pub enum AccelerationStructureGeometryData<'a> {
    /// Axis-aligned bounding box geometry in a bottom-level acceleration structure.
    AABBs {
        /// Device address of the positions of each axis-aligned bounding box in the geometry.
        data: u64,
        /// Stride in bytes between each entry in data.
        ///
        /// The stride must be a multiple of `8`.
        stride: u64,
    },
    /// Geometry consisting of instances of other acceleration structures.
    Instances {
        /// Whether `data` contains device addresses of instances rather than instance values.
        array_of_pointers: bool,
        /// Either the address of an array of device addresses referencing individual instances if
        /// `array_of_pointers` is `true`, or the address of an array of instances.
        data: u64,
    },
    /// A triangle geometry in a bottom-level acceleration structure.
    Triangles(AccelerationStructureTriangles<'a>),
}

impl<'a> AccelerationStructureGeometryData<'a> {
    /// Specifies acceleration structure geometry data as AABBs.
    pub fn aabbs(data: u64, stride: u64) -> (geometry: Self)
        ensures
            geometry == (AccelerationStructureGeometryData::AABBs { data, stride }),
    {
        AccelerationStructureGeometryData::AABBs { data, stride }
    }

    /// Creates instance geometry from an array of device addresses of instances.
    pub fn instance_pointers(data: u64) -> (geometry: Self)
        ensures
            geometry == (AccelerationStructureGeometryData::Instances {
                array_of_pointers: true,
                data,
            }),
    {
        AccelerationStructureGeometryData::Instances { array_of_pointers: true, data }
    }

    /// Creates instance geometry from an array of instance values.
    pub fn instances(data: u64) -> (geometry: Self)
        ensures
            geometry == (AccelerationStructureGeometryData::Instances {
                array_of_pointers: false,
                data,
            }),
    {
        AccelerationStructureGeometryData::Instances { array_of_pointers: false, data }
    }

    /// Specifies acceleration structure geometry data as triangles.
    pub fn triangles(
        index_data: u64,
        index_type: i32,
        max_vertex: u32,
        transform_data: u64,
        vertex_data: u64,
        vertex_format: i32,
        vertex_stride: u64,
    ) -> (geometry: Self)
        ensures
            geometry == AccelerationStructureGeometryData::Triangles(
                AccelerationStructureTriangles {
                    index_data,
                    index_type,
                    max_vertex,
                    opacity_micromap: None,
                    transform_data,
                    vertex_data,
                    vertex_format,
                    vertex_stride,
                },
            ),
    {
        AccelerationStructureGeometryData::Triangles(
            AccelerationStructureTriangles::new(
                index_data,
                index_type,
                max_vertex,
                transform_data,
                vertex_data,
                vertex_format,
                vertex_stride,
            ),
        )
    }

    /// The opacity micromap that is attached to the geometry, where there is one.
    pub open spec fn attachment(self) -> Option<AccelerationStructureOpacityMicromap<'a>> {
        match self {
            AccelerationStructureGeometryData::Triangles(triangles) => triangles.opacity_micromap,
            _ => None,
        }
    }
}

impl<'a> From<AccelerationStructureTriangles<'a>> for AccelerationStructureGeometryData<'a> {
    fn from(value: AccelerationStructureTriangles<'a>) -> (geometry: Self) {
        AccelerationStructureGeometryData::Triangles(value)
    }
}

impl<'a> vstd::std_specs::convert::FromSpecImpl<AccelerationStructureTriangles<'a>> for AccelerationStructureGeometryData<'a> {
    open spec fn obeys_from_spec() -> bool {
        true
    }

    open spec fn from_spec(value: AccelerationStructureTriangles<'a>) -> Self {
        AccelerationStructureGeometryData::Triangles(value)
    }
}

/// Geometry to be built into an acceleration structure.
///
/// Metadata is borrowed; primitive counts are supplied separately for each query or build.
#[derive(Clone, Copy, Debug)]
pub struct AccelerationStructureGeometry<'a> {
    /// Describes additional properties of how the geometry should be built.
    pub flags: u32,
    /// Specifies acceleration structure geometry data.
    pub geometry: AccelerationStructureGeometryData<'a>,
}

impl<'a> AccelerationStructureGeometry<'a> {
    /// Creates a new acceleration structure geometry instance.
    pub fn new(geometry: AccelerationStructureGeometryData<'a>) -> (created: Self)
        ensures
            created == (AccelerationStructureGeometry { flags: 0, geometry }),
    {
        AccelerationStructureGeometry { flags: 0, geometry }
    }

    /// Creates a new acceleration structure geometry instance with the opaque flag set.
    pub fn opaque(geometry: AccelerationStructureGeometryData<'a>) -> (created: Self)
        ensures
            created == (AccelerationStructureGeometry { flags: vk::GEOMETRY_OPAQUE, geometry }),
    {
        Self::new(geometry).flags(vk::GEOMETRY_OPAQUE)
    }

    /// Sets the instance flags.
    pub fn flags(self, flags: u32) -> (changed: Self)
        ensures
            changed == (AccelerationStructureGeometry { flags, ..self }),
    {
        AccelerationStructureGeometry { flags, ..self }
    }
}

/// A geometry as a build reads it.
#[derive(Clone, Copy, Debug, PartialEq, Eq, Structural)]
pub struct GeometryRecord {
    /// Additional properties of how the geometry should be built.
    pub flags: u32,
    /// The data of the geometry.
    pub data: GeometryRecordData,
}

/// The data of a geometry as a build reads it.
#[derive(Clone, Copy, Debug, PartialEq, Eq, Structural)]
pub enum GeometryRecordData {
    /// Axis-aligned bounding boxes.
    Aabbs {
        /// Device address of the boxes.
        data: u64,
        /// Stride in bytes between boxes.
        stride: u64,
    },
    /// Instances of other acceleration structures.
    Instances {
        /// Device address of the instances.
        data: u64,
        /// Whether `data` contains device addresses of instances.
        array_of_pointers: bool,
    },
    /// Triangles.
    Triangles {
        /// Device address of index data.
        index_data: u64,
        /// The type of each index element.
        index_type: i32,
        /// Highest vertex index.
        max_vertex: u32,
        /// Device address of the transform, or zero.
        transform_data: u64,
        /// Device address of vertex data.
        vertex_data: u64,
        /// The format of each vertex element.
        vertex_format: i32,
        /// Stride in bytes between vertices.
        vertex_stride: u64,
        /// Which of the extension records belongs to the triangles, where one does.
        extension: Option<usize>,
    },
}

impl GeometryRecord {
    /// The type of the geometry.
    pub open spec fn spec_geometry_type(&self) -> i32 {
        match self.data {
            GeometryRecordData::Aabbs { .. } => vk::GEOMETRY_TYPE_AABBS,
            GeometryRecordData::Instances { .. } => vk::GEOMETRY_TYPE_INSTANCES,
            GeometryRecordData::Triangles { .. } => vk::GEOMETRY_TYPE_TRIANGLES,
        }
    }

    /// The type of the geometry.
    #[verifier::when_used_as_spec(spec_geometry_type)]
    pub fn geometry_type(&self) -> (geometry_type: i32)
        ensures
            geometry_type == self.spec_geometry_type(),
    {
        match self.data {
            GeometryRecordData::Aabbs { .. } => vk::GEOMETRY_TYPE_AABBS,
            GeometryRecordData::Instances { .. } => vk::GEOMETRY_TYPE_INSTANCES,
            GeometryRecordData::Triangles { .. } => vk::GEOMETRY_TYPE_TRIANGLES,
        }
    }
}

/// An opacity micromap attachment as a build reads it. Its usage counts are in a list of their own.
#[derive(Clone, Copy, Debug, PartialEq, Eq, Structural)]
pub struct OpacityMicromapRecord {
    /// Offset added to micromap indices.
    pub base_triangle: u32,
    /// Device address of micromap indices.
    pub index_buffer: u64,
    /// Byte stride between micromap indices.
    pub index_stride: u64,
    /// Type of each micromap index.
    pub index_type: i32,
    /// Native opacity micromap handle.
    pub micromap: u64,
    /// The number of usage counts; without any, no list of them is given to the build.
    pub usage_counts_count: u32,
}

/// The extension record of an attachment.
pub open spec fn record_of(attachment: AccelerationStructureOpacityMicromap) -> OpacityMicromapRecord {
    OpacityMicromapRecord {
        base_triangle: attachment.base_triangle,
        index_buffer: attachment.index_buffer,
        index_stride: attachment.index_stride,
        index_type: attachment.index_type,
        micromap: attachment.micromap,
        usage_counts_count: attachment.usage_counts@.len() as u32,
    }
}

/// The attachments of some geometries, in order.
pub open spec fn attachments<'a>(geometries: Seq<AccelerationStructureGeometry<'a>>) -> Seq<
    AccelerationStructureOpacityMicromap<'a>,
>
    decreases geometries.len(),
{
    if geometries.len() == 0 {
        seq![]
    } else {
        match geometries.last().geometry.attachment() {
            Some(attachment) => attachments(geometries.drop_last()).push(attachment),
            None => attachments(geometries.drop_last()),
        }
    }
}

/// The record of a geometry whose attachment, where it has one, has the given place among the
/// extension records.
pub open spec fn geometry_record(
    geometry: AccelerationStructureGeometry,
    place: int,
) -> GeometryRecord {
    GeometryRecord {
        flags: geometry.flags,
        data: match geometry.geometry {
            AccelerationStructureGeometryData::AABBs { data, stride } => GeometryRecordData::Aabbs {
                data,
                stride,
            },
            AccelerationStructureGeometryData::Instances {
                array_of_pointers,
                data,
            } => GeometryRecordData::Instances { data, array_of_pointers },
            AccelerationStructureGeometryData::Triangles(triangles) => {
                GeometryRecordData::Triangles {
                    index_data: triangles.index_data,
                    index_type: triangles.index_type,
                    max_vertex: triangles.max_vertex,
                    transform_data: triangles.transform_data,
                    vertex_data: triangles.vertex_data,
                    vertex_format: triangles.vertex_format,
                    vertex_stride: triangles.vertex_stride,
                    extension: if triangles.opacity_micromap is Some {
                        Some(place as usize)
                    } else {
                        None
                    },
                }
            },
        },
    }
}

/// Geometry and extension records for one build.
#[derive(Debug)]
pub struct AccelerationStructureGeometryMarshaler {
    /// The extension records.
    pub opacity_micromaps: Vec<OpacityMicromapRecord>,
    /// The usage counts of each extension record.
    pub usage_counts: Vec<Vec<MicromapUsage>>,
    /// The geometry records.
    pub geometries: Vec<GeometryRecord>,
}

impl AccelerationStructureGeometryMarshaler {
    /// Whether the usage counts of all attachments can be counted by a build.
    pub open spec fn countable(geometries: Seq<AccelerationStructureGeometry>) -> bool {
        forall|i: int|
            0 <= i < geometries.len() ==> ((#[trigger] geometries[i]).geometry.attachment() matches Some(
                attachment,
            ) ==> attachment.usage_counts@.len() <= u32::MAX)
    }

    /// Makes the records of geometries.
    pub fn new(geometries: &[AccelerationStructureGeometry<'_>]) -> (marshaled: Self)
        requires
            Self::countable(geometries@),
        ensures
            ({
                let all = attachments(geometries@);
                &&& marshaled.opacity_micromaps@.len() == all.len()
                &&& marshaled.usage_counts@.len() == all.len()
                &&& forall|k: int|
                    0 <= k < all.len() ==> #[trigger] marshaled.opacity_micromaps@[k] == record_of(
                        all[k],
                    )
                &&& forall|k: int|
                    0 <= k < all.len() ==> (#[trigger] marshaled.usage_counts@[k])@ == usages(
                        all[k].usage_counts@,
                    )
                &&& marshaled.geometries@.len() == geometries@.len()
                &&& forall|i: int|
                    0 <= i < geometries@.len() ==> #[trigger] marshaled.geometries@[i]
                        == geometry_record(
                        geometries@[i],
                        attachments(geometries@.take(i)).len() as int,
                    )
            }),
    {
        let mut opacity_micromaps: Vec<OpacityMicromapRecord> = Vec::new();
        let mut usage_counts: Vec<Vec<MicromapUsage>> = Vec::new();
        let mut records: Vec<GeometryRecord> = Vec::new();
        let mut index: usize = 0;
        while index < geometries.len()
            invariant
                index <= geometries@.len(),
                Self::countable(geometries@),
                ({
                    let all = attachments(geometries@.take(index as int));
                    &&& opacity_micromaps@.len() == all.len()
                    &&& usage_counts@.len() == all.len()
                    &&& forall|k: int|
                        0 <= k < all.len() ==> #[trigger] opacity_micromaps@[k] == record_of(all[k])
                    &&& forall|k: int|
                        0 <= k < all.len() ==> (#[trigger] usage_counts@[k])@ == usages(
                            all[k].usage_counts@,
                        )
                }),
                records@.len() == index,
                forall|i: int|
                    0 <= i < index ==> #[trigger] records@[i] == geometry_record(
                        geometries@[i],
                        attachments(geometries@.take(i)).len() as int,
                    ),
            decreases geometries@.len() - index,
        {
            let geometry = &geometries[index];
            let ghost some = attachments(geometries@.take(index as int));
            proof {
                assert(geometries@.take(index + 1).drop_last() =~= geometries@.take(index as int));
                assert(geometries@.take(index + 1).last() == geometries@[index as int]);
            }
            let data = match &geometry.geometry {
                AccelerationStructureGeometryData::AABBs { data, stride } => {
                    GeometryRecordData::Aabbs { data: *data, stride: *stride }
                },
                AccelerationStructureGeometryData::Instances { array_of_pointers, data } => {
                    GeometryRecordData::Instances {
                        data: *data,
                        array_of_pointers: *array_of_pointers,
                    }
                },
                AccelerationStructureGeometryData::Triangles(triangles) => {
                    let mut extension: Option<usize> = None;
                    if let Some(attachment) = &triangles.opacity_micromap {
                        extension = Some(opacity_micromaps.len());
                        opacity_micromaps.push(
                            OpacityMicromapRecord {
                                base_triangle: attachment.base_triangle,
                                index_buffer: attachment.index_buffer,
                                index_stride: attachment.index_stride,
                                index_type: attachment.index_type,
                                micromap: attachment.micromap,
                                usage_counts_count: attachment.usage_counts.len() as u32,
                            },
                        );
                        usage_counts.push(convert_usages(attachment.usage_counts));
                    }
                    GeometryRecordData::Triangles {
                        index_data: triangles.index_data,
                        index_type: triangles.index_type,
                        max_vertex: triangles.max_vertex,
                        transform_data: triangles.transform_data,
                        vertex_data: triangles.vertex_data,
                        vertex_format: triangles.vertex_format,
                        vertex_stride: triangles.vertex_stride,
                        extension,
                    }
                },
            };
            records.push(GeometryRecord { flags: geometry.flags, data });
            index += 1;
        }
        assert(geometries@.take(index as int) =~= geometries@);
        AccelerationStructureGeometryMarshaler {
            opacity_micromaps,
            usage_counts,
            geometries: records,
        }
    }
}

/// Where a geometry has an attachment, the extension record at its place is that attachment's.
pub proof fn extension_is_own_attachment<'a>(
    geometries: Seq<AccelerationStructureGeometry<'a>>,
    index: int,
)
    requires
        0 <= index < geometries.len(),
        geometries[index].geometry.attachment() is Some,
    ensures
        attachments(geometries.take(index)).len() < attachments(geometries).len(),
        attachments(geometries)[attachments(geometries.take(index)).len() as int]
            == geometries[index].geometry.attachment()->0,
    decreases geometries.len(),
{
    let some = geometries.drop_last();
    if index < some.len() {
        assert(some.take(index) =~= geometries.take(index));
        assert(some[index] == geometries[index]);
        extension_is_own_attachment(some, index);
    } else {
        assert(geometries.take(index) =~= some);
    }
}

/// Information used to create an acceleration structure.
#[derive(Clone, Copy, Debug, PartialEq, Eq, Hash, Structural)]
pub struct AccelerationStructureInfo {
    /// Type of acceleration structure.
    pub acceleration_structure_type: i32,
    /// The size of the backing buffer that will store the acceleration structure.
    pub size: u64,
}

/// Builds a [`AccelerationStructureInfo`]; what is not set takes its default.
#[derive(Clone, Copy, Debug)]
pub struct AccelerationStructureInfoBuilder {
    /// See [`AccelerationStructureInfo::acceleration_structure_type`].
    pub acceleration_structure_type: Option<i32>,
    /// See [`AccelerationStructureInfo::size`].
    pub size: Option<u64>,
}

impl AccelerationStructureInfo {
    /// The builder in which every field is set to this value's.
    pub open spec fn as_builder(self) -> AccelerationStructureInfoBuilder {
        AccelerationStructureInfoBuilder {
            acceleration_structure_type: Some(self.acceleration_structure_type),
            size: Some(self.size),
        }
    }

    /// Creates a default `AccelerationStructureInfoBuilder`.
    pub fn builder() -> (builder: AccelerationStructureInfoBuilder)
        ensures
            builder == AccelerationStructureInfoBuilder::unset(),
    {
        AccelerationStructureInfoBuilder::default()
    }

    /// Converts a `AccelerationStructureInfo` into a `AccelerationStructureInfoBuilder`.
    pub fn into_builder(self) -> (builder: AccelerationStructureInfoBuilder)
        ensures
            builder == self.as_builder(),
    {
        AccelerationStructureInfoBuilder {
            acceleration_structure_type: Some(self.acceleration_structure_type),
            size: Some(self.size),
        }
    }
}

impl AccelerationStructureInfoBuilder {
    /// The builder in which nothing is set.
    pub open spec fn unset() -> Self {
        AccelerationStructureInfoBuilder {
            acceleration_structure_type: None,
            size: None,
        }
    }

    /// The value that the builder describes.
    pub open spec fn built(self) -> AccelerationStructureInfo {
        AccelerationStructureInfo {
            acceleration_structure_type: self.acceleration_structure_type.unwrap_or(
                vk::ACCELERATION_STRUCTURE_TYPE_GENERIC,
            ),
            size: self.size.unwrap_or(0u64),
        }
    }

    /// Sets [`AccelerationStructureInfo::acceleration_structure_type`].
    pub fn acceleration_structure_type(self, acceleration_structure_type: i32) -> (builder: Self)
        ensures
            builder == (AccelerationStructureInfoBuilder {
                acceleration_structure_type: Some(acceleration_structure_type),
                ..self
            }),
    {
        AccelerationStructureInfoBuilder {
            acceleration_structure_type: Some(acceleration_structure_type),
            ..self
        }
    }

    /// Sets [`AccelerationStructureInfo::size`].
    pub fn size(self, size: u64) -> (builder: Self)
        ensures
            builder == (AccelerationStructureInfoBuilder { size: Some(size), ..self }),
    {
        AccelerationStructureInfoBuilder { size: Some(size), ..self }
    }

    /// Builds a new `AccelerationStructureInfo`.
    pub fn build(self) -> (info: AccelerationStructureInfo)
        ensures
            info == self.built(),
    {
        AccelerationStructureInfo {
            acceleration_structure_type: self.acceleration_structure_type.unwrap_or(
                vk::ACCELERATION_STRUCTURE_TYPE_GENERIC,
            ),
            size: self.size.unwrap_or(0u64),
        }
    }
}

impl Default for AccelerationStructureInfoBuilder {
    fn default() -> (builder: Self)
        ensures
            builder == AccelerationStructureInfoBuilder::unset(),
    {
        AccelerationStructureInfoBuilder {
            acceleration_structure_type: None,
            size: None,
        }
    }
}

impl From<AccelerationStructureInfoBuilder> for AccelerationStructureInfo {
    fn from(builder: AccelerationStructureInfoBuilder) -> (info: Self) {
        builder.build()
    }
}

impl vstd::std_specs::convert::FromSpecImpl<AccelerationStructureInfoBuilder> for AccelerationStructureInfo {
    open spec fn obeys_from_spec() -> bool {
        true
    }

    open spec fn from_spec(builder: AccelerationStructureInfoBuilder) -> Self {
        builder.built()
    }
}

/// Building what a value was converted into gives the value back.
pub proof fn accel_struct_info_round_trip(info: AccelerationStructureInfo)
    ensures
        info.as_builder().built() == info,
{
}

impl AccelerationStructureInfo {
    /// Specifies a bottom-level acceleration structure of the given size.
    pub fn blas(size: u64) -> (info: Self)
        ensures
            info == (AccelerationStructureInfo {
                acceleration_structure_type: vk::ACCELERATION_STRUCTURE_TYPE_BOTTOM_LEVEL,
                size,
            }),
    {
        AccelerationStructureInfo {
            acceleration_structure_type: vk::ACCELERATION_STRUCTURE_TYPE_BOTTOM_LEVEL,
            size,
        }
    }

    /// Specifies a top-level acceleration structure of the given size.
    pub fn tlas(size: u64) -> (info: Self)
        ensures
            info == (AccelerationStructureInfo {
                acceleration_structure_type: vk::ACCELERATION_STRUCTURE_TYPE_TOP_LEVEL,
                size,
            }),
    {
        AccelerationStructureInfo {
            acceleration_structure_type: vk::ACCELERATION_STRUCTURE_TYPE_TOP_LEVEL,
            size,
        }
    }

    /// The buffer that holds an acceleration structure.
    pub fn storage(self) -> (buffer: BufferInfo)
        ensures
            buffer == (BufferInfo {
                alignment: 1,
                alloc_dedicated: false,
                host_readable: false,
                host_writable: false,
                sharing_mode: vk::SHARING_MODE_EXCLUSIVE,
                size: self.size,
                usage: vk::BUFFER_USAGE_ACCELERATION_STRUCTURE_STORAGE_KHR
                    | vk::BUFFER_USAGE_SHADER_DEVICE_ADDRESS,
            }),
    {
        BufferInfo::device_mem(
            self.size,
            vk::BUFFER_USAGE_ACCELERATION_STRUCTURE_STORAGE_KHR
                | vk::BUFFER_USAGE_SHADER_DEVICE_ADDRESS,
        )
    }
}

/// Synchronization information for an acceleration structure.
#[derive(Clone, Copy, Debug, PartialEq, Eq, Structural)]
pub struct AccelerationStructureSyncInfo {
    /// Access types performed by those stages.
    pub access_mask: u32,
    /// Current exclusive queue-family ownership, when relevant.
    pub queue_family_index: Option<u32>,
    /// Pipeline stages that access the acceleration structure.
    pub stage_mask: u32,
}

/// The stages of all of some accesses.
pub open spec fn all_stages(accesses: Seq<AccessType>) -> u32
    decreases accesses.len(),
{
    if accesses.len() == 0 {
        0
    } else {
        all_stages(accesses.drop_last()) | accel_struct_sync_flags(accesses.last()).0
    }
}

/// The memory accesses of all of some accesses.
pub open spec fn all_accesses(accesses: Seq<AccessType>) -> u32
    decreases accesses.len(),
{
    if accesses.len() == 0 {
        0
    } else {
        all_accesses(accesses.drop_last()) | accel_struct_sync_flags(accesses.last()).1
    }
}

impl AccelerationStructureSyncInfo {
    /// The information of all of some accesses.
    pub open spec fn of_accesses(accesses: Seq<AccessType>) -> Self {
        AccelerationStructureSyncInfo {
            access_mask: all_accesses(accesses),
            queue_family_index: None,
            stage_mask: all_stages(accesses),
        }
    }

    /// The information of all of some accesses.
    pub fn from_accesses<S: AccessStore>(accesses: &S) -> (info: Self)
        requires
            accesses.valid(),
        ensures
            info == Self::of_accesses(accesses.list()),
    {
        let mut stage_mask: u32 = 0;
        let mut access_mask: u32 = 0;
        let mut index: usize = 0;
        while index < accesses.access_count()
            invariant
                accesses.valid(),
                index <= accesses.list().len(),
                stage_mask == all_stages(accesses.list().take(index as int)),
                access_mask == all_accesses(accesses.list().take(index as int)),
            decreases accesses.list().len() - index,
        {
            let _len: usize = accesses.access_count();
            let (stages, mask) = accel_struct_sync_flags_for_access(accesses.access_at(index));
            stage_mask = stage_mask | stages;
            access_mask = access_mask | mask;
            proof {
                let list = accesses.list();
                assert(list.take(index + 1).drop_last() =~= list.take(index as int));
                assert(list.take(index + 1).last() == list[index as int]);
            }
            index += 1;
        }
        assert(accesses.list().take(index as int) =~= accesses.list());
        AccelerationStructureSyncInfo { access_mask, queue_family_index: None, stage_mask }
    }
}

/// The synchronization information of accesses covers each of them.
pub proof fn sync_info_covers_accesses(accesses: Seq<AccessType>, index: int)
    requires
        0 <= index < accesses.len(),
    ensures
        ({
            let info = AccelerationStructureSyncInfo::of_accesses(accesses);
            let (stages, mask) = accel_struct_sync_flags(accesses[index]);
            info.stage_mask & stages == stages && info.access_mask & mask == mask
        }),
    decreases accesses.len(),
{
    let some = accesses.drop_last();
    let (stages, mask) = accel_struct_sync_flags(accesses[index]);
    let (last_stages, last_mask) = accel_struct_sync_flags(accesses.last());
    let (a, b) = (all_stages(some), all_accesses(some));
    if index < some.len() {
        sync_info_covers_accesses(some, index);
    }
    assert((a & stages == stages || last_stages == stages) ==> (a | last_stages) & stages == stages)
        by (bit_vector);
    assert((b & mask == mask || last_mask == mask) ==> (b | last_mask) & mask == mask)
        by (bit_vector);
}

/// The tracked state of an acceleration structure.
#[derive(Debug)]
pub struct AccelerationStructure {
    accesses: AccessCodes,
    handle: u64,
    info: AccelerationStructureInfo,
}

impl AccelerationStructure {
    /// The accesses that last touched the acceleration structure.
    pub closed spec fn accesses(self) -> Seq<AccessType> {
        self.accesses.list()
    }

    /// The list holds accesses.
    pub closed spec fn wf(self) -> bool {
        self.accesses.valid()
    }

    /// The native handle of this acceleration structure.
    pub closed spec fn spec_handle(&self) -> u64 {
        self.handle
    }

    /// The native handle of this acceleration structure.
    #[verifier::when_used_as_spec(spec_handle)]
    pub fn handle(&self) -> (handle: u64)
        ensures
            handle == self.spec_handle(),
    {
        self.handle
    }

    /// Information used to create this object.
    pub closed spec fn spec_info(&self) -> AccelerationStructureInfo {
        self.info
    }

    /// Information used to create this object.
    #[verifier::when_used_as_spec(spec_info)]
    pub fn info(&self) -> (info: AccelerationStructureInfo)
        ensures
            info == self.spec_info(),
    {
        self.info
    }

    /// Tracks a new acceleration structure, which has not been accessed yet.
    pub fn new(handle: u64, info: AccelerationStructureInfo) -> (accel_struct: Self)
        ensures
            accel_struct.wf(),
            accel_struct.accesses() == seq![AccessType::Nothing],
            accel_struct.handle() == handle,
            accel_struct.info() == info,
    {
        AccelerationStructure { accesses: AccessCodes::new(AccessType::Nothing), handle, info }
    }

    /// Keeps track of a `next_access` which affects this object.
    ///
    /// Returns previous accesses for which a pipeline barrier should be used to prevent data
    /// corruption.
    pub fn swap_access(&mut self, next_access: AccessType) -> (previous: Vec<AccessType>)
        requires
            old(self).wf(),
        ensures
            final(self).wf(),
            final(self).handle() == old(self).handle(),
            final(self).info() == old(self).info(),
            final(self).accesses() == seq![next_access],
            previous@ == old(self).accesses(),
    {
        swap_access(&mut self.accesses, next_access)
    }

    /// Keeps track of accesses which affect this object together.
    ///
    /// Returns previous accesses for which a pipeline barrier should be used to prevent data
    /// corruption.
    pub fn swap_accesses(&mut self, next_accesses: &Vec<AccessType>) -> (previous: Vec<AccessType>)
        requires
            old(self).wf(),
        ensures
            final(self).wf(),
            final(self).handle() == old(self).handle(),
            final(self).info() == old(self).info(),
            final(self).accesses() == recorded(old(self).accesses(), next_accesses@),
            previous@ == told(old(self).accesses(), next_accesses@),
    {
        swap_accesses(&mut self.accesses, next_accesses)
    }

    /// Returns synchronization information for the acceleration structure's current accesses.
    pub fn sync_info(&self) -> (info: AccelerationStructureSyncInfo)
        requires
            self.wf(),
        ensures
            info == AccelerationStructureSyncInfo::of_accesses(self.accesses()),
    {
        AccelerationStructureSyncInfo::from_accesses(&self.accesses)
    }
}

/// An acceleration structure is accessed in the stages that any resource would be, and with the same
/// memory accesses, except where a shader reads it: that is a read of an acceleration structure, and
/// not one of a buffer or an image.
pub proof fn accel_structs_are_read_as_such(access: AccessType)
    ensures
        accel_struct_sync_flags(access).0 == access.stages(),
        access.reads_other() ==> accel_struct_sync_flags(access).1
            == vk::ACCESS_ACCELERATION_STRUCTURE_READ_KHR,
        !access.reads_other() ==> accel_struct_sync_flags(access).1 == access.accesses(),
        (accel_struct_sync_flags(access).1 & write_bits() != 0) == access.writes(),
{
    writes_perform_write_accesses(access);
    lemma_masks();
    assert(0x200000u32 & 0x455540u32 == 0) by (bit_vector);
}

/// The synchronization information of accesses has no bit that none of the accesses has.
pub proof fn sync_info_has_bits_of_accesses(accesses: Seq<AccessType>, bit: u32)
    ensures
        AccelerationStructureSyncInfo::of_accesses(accesses).stage_mask & bit != 0 ==> exists|i: int|
            0 <= i < accesses.len() && accel_struct_sync_flags(#[trigger] accesses[i]).0 & bit != 0,
        AccelerationStructureSyncInfo::of_accesses(accesses).access_mask & bit != 0 ==> exists|
            i: int,
        |
            0 <= i < accesses.len() && accel_struct_sync_flags(#[trigger] accesses[i]).1 & bit != 0,
        AccelerationStructureSyncInfo::of_accesses(accesses).queue_family_index is None,
    decreases accesses.len(),
{
    if accesses.len() == 0 {
        lemma_or_has(0, 0, bit);
    } else {
        let some = accesses.drop_last();
        sync_info_has_bits_of_accesses(some, bit);
        let (stages, mask) = accel_struct_sync_flags(accesses.last());
        lemma_or_has(all_stages(some), stages, bit);
        lemma_or_has(all_accesses(some), mask, bit);
        assert(accesses[accesses.len() - 1] == accesses.last());
        assert(forall|i: int| 0 <= i < some.len() ==> some[i] == #[trigger] accesses[i]);
        if all_stages(some) & bit != 0 {
            let i = choose|i: int|
                0 <= i < some.len() && accel_struct_sync_flags(#[trigger] some[i]).0 & bit != 0;
            assert(accel_struct_sync_flags(accesses[i]).0 & bit != 0);
        }
        if all_accesses(some) & bit != 0 {
            let i = choose|i: int|
                0 <= i < some.len() && accel_struct_sync_flags(#[trigger] some[i]).1 & bit != 0;
            assert(accel_struct_sync_flags(accesses[i]).1 & bit != 0);
        }
    }
}

/// A bit of a union is a bit of one of its parts, and zero has none.
proof fn lemma_or_has(a: u32, b: u32, bit: u32)
    ensures
        (a | b) & bit != 0 <==> a & bit != 0 || b & bit != 0,
        0u32 & bit == 0,
{
    assert(((a | b) & bit != 0 <==> a & bit != 0 || b & bit != 0) && 0u32 & bit == 0) by (bit_vector);
}

/// A geometry is recorded as what it is: triangles, boxes and instances are numbered in this order.
pub proof fn geometries_keep_their_type(geometry: AccelerationStructureGeometry, place: int)
    ensures
        geometry.geometry is Triangles <==> geometry_record(geometry, place).geometry_type() == 0,
        geometry.geometry is AABBs <==> geometry_record(geometry, place).geometry_type() == 1,
        geometry.geometry is Instances <==> geometry_record(geometry, place).geometry_type() == 2,
{
}

/// Records of two geometries are the same just where the geometries are, apart from their
/// attachments. Of these, only whether there are any can be seen.
pub proof fn geometries_are_told_apart(
    a: AccelerationStructureGeometry,
    b: AccelerationStructureGeometry,
    place: usize,
)
    ensures
        geometry_record(a, place as int) == geometry_record(b, place as int) <==> {
            &&& a.flags == b.flags
            &&& a.geometry.attachment() is Some == b.geometry.attachment() is Some
            &&& match (a.geometry, b.geometry) {
                (
                    AccelerationStructureGeometryData::Triangles(a),
                    AccelerationStructureGeometryData::Triangles(b),
                ) => a == (AccelerationStructureTriangles {
                    opacity_micromap: a.opacity_micromap,
                    ..b
                }),
                (a, b) => a == b,
            }
        },
{
}

/// A record of triangles holds all of them: they can be put together again from it, but for their
/// attachment, of which it tells the place.
pub proof fn triangles_are_recorded_whole(
    flags: u32,
    triangles: AccelerationStructureTriangles,
    place: usize,
)
    ensures
        ({
            let all = AccelerationStructureGeometry {
                flags,
                geometry: AccelerationStructureGeometryData::Triangles(triangles),
            };
            geometry_record(all, place as int) matches GeometryRecord {
                flags: recorded_flags,
                data: GeometryRecordData::Triangles {
                    index_data,
                    index_type,
                    max_vertex,
                    transform_data,
                    vertex_data,
                    vertex_format,
                    vertex_stride,
                    extension,
                },
            } && recorded_flags == flags && (extension == Some(place)
                <==> triangles.opacity_micromap is Some) && (extension is None
                <==> triangles.opacity_micromap is None) && triangles == (
            AccelerationStructureTriangles {
                index_data,
                index_type,
                max_vertex,
                transform_data,
                vertex_data,
                vertex_format,
                vertex_stride,
                ..triangles
            })
        }),
{
}

/// What is changed of an attachment is changed of its record, and nothing else.
pub proof fn changes_of_attachments_are_recorded(
    attachment: AccelerationStructureOpacityMicromap,
    base_triangle: u32,
    number: u64,
    index_type: i32,
)
    ensures
        record_of(AccelerationStructureOpacityMicromap { base_triangle, ..attachment }) == (
        OpacityMicromapRecord { base_triangle, ..record_of(attachment) }),
        record_of(AccelerationStructureOpacityMicromap { index_buffer: number, ..attachment }) == (
        OpacityMicromapRecord { index_buffer: number, ..record_of(attachment) }),
        record_of(AccelerationStructureOpacityMicromap { index_stride: number, ..attachment }) == (
        OpacityMicromapRecord { index_stride: number, ..record_of(attachment) }),
        record_of(AccelerationStructureOpacityMicromap { index_type, ..attachment }) == (
        OpacityMicromapRecord { index_type, ..record_of(attachment) }),
        record_of(AccelerationStructureOpacityMicromap { micromap: number, ..attachment }) == (
        OpacityMicromapRecord { micromap: number, ..record_of(attachment) }),
        attachment.usage_counts@.len() <= u32::MAX ==> record_of(attachment).usage_counts_count
            == attachment.usage_counts@.len(),
{
}

/// Every extension record is of one geometry's attachment, and they come in the order of the
/// geometries.
pub proof fn attachments_are_of_geometries<'a>(
    geometries: Seq<AccelerationStructureGeometry<'a>>,
    place: int,
)
    requires
        0 <= place < attachments(geometries).len(),
    ensures
        exists|i: int|
            {
                &&& 0 <= i < geometries.len()
                &&& (#[trigger] geometries[i]).geometry.attachment() == Some(
                    attachments(geometries)[place],
                )
                &&& attachments(geometries.take(i)).len() == place
            },
    decreases geometries.len(),
{
    let some = geometries.drop_last();
    if place < attachments(some).len() {
        attachments_are_of_geometries(some, place);
        let i = choose|i: int|
            {
                &&& 0 <= i < some.len()
                &&& (#[trigger] some[i]).geometry.attachment() == Some(attachments(some)[place])
                &&& attachments(some.take(i)).len() == place
            };
        assert(some.take(i) =~= geometries.take(i));
        assert(geometries[i] == some[i]);
    } else {
        assert(geometries.take(geometries.len() - 1) =~= some);
        assert(geometries[geometries.len() - 1] == geometries.last());
    }
}

/// Creation fails for want of memory of the host, by an address that cannot be had, or else because
/// it is not supported.
pub proof fn creation_fails_by_codes(result: i32)
    ensures
        creation_error(result) == DriverError::OutOfMemory <==> result == -1,
        creation_error(result) == DriverError::InvalidData <==> result == -1000257000,
{
}

/// A field that was set is built as it was set, whatever else was, and one that was not set has its
/// default.
pub proof fn acceleration_structure_info_fields_are_built_apart(builder: AccelerationStructureInfoBuilder)
    ensures
        ({
            let built = builder.built();
            &&& builder.acceleration_structure_type matches Some(value)
                ==> built.acceleration_structure_type == value
            &&& builder.size matches Some(value) ==> built.size == value
            &&& builder.acceleration_structure_type is None ==> built.acceleration_structure_type
                == vk::ACCELERATION_STRUCTURE_TYPE_GENERIC
            &&& builder.size is None ==> built.size == 0
        }),
{
}

} // verus!
