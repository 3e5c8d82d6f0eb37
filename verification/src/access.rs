//! Access types: the distinct ways in which a command may use a resource.

use crate::vk;
use vstd::prelude::*;

verus! {

/// One way of using a buffer, image, acceleration structure or micromap.
#[derive(Clone, Copy, Debug, PartialEq, Eq, Hash, Structural)]
pub enum AccessType {
    /// No access; the state of a freshly created resource.
    Nothing,
    /// Read by device-generated command preprocessing.
    CommandBufferReadNVX,
    /// Read as indirect draw or dispatch arguments.
    IndirectBuffer,
    /// Read as an index buffer.
    IndexBuffer,
    /// Read as a vertex buffer.
    VertexBuffer,
    /// Read as a uniform buffer by a vertex shader.
    VertexShaderReadUniformBuffer,
    /// Sampled or read as a uniform texel buffer by a vertex shader.
    VertexShaderReadSampledImageOrUniformTexelBuffer,
    /// Read as any other resource by a vertex shader.
    VertexShaderReadOther,
    /// Read as a uniform buffer by a mesh shader.
    MeshShaderReadUniformBuffer,
    /// Sampled or read as a uniform texel buffer by a mesh shader.
    MeshShaderReadSampledImageOrUniformTexelBuffer,
    /// Read as any other resource by a mesh shader.
    MeshShaderReadOther,
    /// Read as a uniform buffer by a task shader.
    TaskShaderReadUniformBuffer,
    /// Sampled or read as a uniform texel buffer by a task shader.
    TaskShaderReadSampledImageOrUniformTexelBuffer,
    /// Read as any other resource by a task shader.
    TaskShaderReadOther,
    /// Read as a uniform buffer by a tessellation control shader.
    TessellationControlShaderReadUniformBuffer,
    /// Sampled or read as a uniform texel buffer by a tessellation control shader.
    TessellationControlShaderReadSampledImageOrUniformTexelBuffer,
    /// Read as any other resource by a tessellation control shader.
    TessellationControlShaderReadOther,
    /// Read as a uniform buffer by a tessellation evaluation shader.
    TessellationEvaluationShaderReadUniformBuffer,
    /// Sampled or read as a uniform texel buffer by a tessellation evaluation shader.
    TessellationEvaluationShaderReadSampledImageOrUniformTexelBuffer,
    /// Read as any other resource by a tessellation evaluation shader.
    TessellationEvaluationShaderReadOther,
    /// Read as a uniform buffer by a geometry shader.
    GeometryShaderReadUniformBuffer,
    /// Sampled or read as a uniform texel buffer by a geometry shader.
    GeometryShaderReadSampledImageOrUniformTexelBuffer,
    /// Read as any other resource by a geometry shader.
    GeometryShaderReadOther,
    /// Read as a uniform buffer by a fragment shader.
    FragmentShaderReadUniformBuffer,
    /// Sampled or read as a uniform texel buffer by a fragment shader.
    FragmentShaderReadSampledImageOrUniformTexelBuffer,
    /// Read as a color input attachment by a fragment shader.
    FragmentShaderReadColorInputAttachment,
    /// Read as a depth/stencil input attachment by a fragment shader.
    FragmentShaderReadDepthStencilInputAttachment,
    /// Read as any other resource by a fragment shader.
    FragmentShaderReadOther,
    /// Read as a color attachment by blending or load operations.
    ColorAttachmentRead,
    /// Read by depth/stencil tests or load operations.
    DepthStencilAttachmentRead,
    /// Read and written as a depth/stencil attachment.
    DepthStencilAttachmentReadWrite,
    /// Read as a uniform buffer by a compute shader.
    ComputeShaderReadUniformBuffer,
    /// Sampled or read as a uniform texel buffer by a compute shader.
    ComputeShaderReadSampledImageOrUniformTexelBuffer,
    /// Read as any other resource by a compute shader.
    ComputeShaderReadOther,
    /// Read and written by a compute shader.
    ComputeShaderReadWrite,
    /// Read as a uniform buffer by any shader.
    AnyShaderReadUniformBuffer,
    /// Read as a uniform buffer by any shader, or as a vertex buffer.
    AnyShaderReadUniformBufferOrVertexBuffer,
    /// Sampled or read as a uniform texel buffer by any shader.
    AnyShaderReadSampledImageOrUniformTexelBuffer,
    /// Read as any other resource by any shader.
    AnyShaderReadOther,
    /// Source of a transfer.
    TransferRead,
    /// Read on the host.
    HostRead,
    /// Read by the presentation engine.
    Present,
    /// Written by device-generated command preprocessing.
    CommandBufferWriteNVX,
    /// Written by a vertex shader.
    VertexShaderWrite,
    /// Written by a mesh shader.
    MeshShaderWrite,
    /// Written by a task shader.
    TaskShaderWrite,
    /// Written by a tessellation control shader.
    TessellationControlShaderWrite,
    /// Written by a tessellation evaluation shader.
    TessellationEvaluationShaderWrite,
    /// Written by a geometry shader.
    GeometryShaderWrite,
    /// Written by a fragment shader.
    FragmentShaderWrite,
    /// Written as a color attachment.
    ColorAttachmentWrite,
    /// Written as a depth/stencil attachment.
    DepthStencilAttachmentWrite,
    /// Written as a depth attachment while the stencil aspect is read-only.
    DepthAttachmentWriteStencilReadOnly,
    /// Written as a stencil attachment while the depth aspect is read-only.
    StencilAttachmentWriteDepthReadOnly,
    /// Written by a compute shader.
    ComputeShaderWrite,
    /// Written by any shader.
    AnyShaderWrite,
    /// Destination of a transfer.
    TransferWrite,
    /// Written on the host.
    HostWrite,
    /// Read and written as a color attachment.
    ColorAttachmentReadWrite,
    /// Any access at all.
    General,
    /// Sampled or read as a uniform texel buffer by a ray tracing shader.
    RayTracingShaderReadSampledImageOrUniformTexelBuffer,
    /// Read as a color input attachment by a ray tracing shader.
    RayTracingShaderReadColorInputAttachment,
    /// Read as a depth/stencil input attachment by a ray tracing shader.
    RayTracingShaderReadDepthStencilInputAttachment,
    /// Traversed as an acceleration structure by a ray tracing shader.
    RayTracingShaderReadAccelerationStructure,
    /// Read as any other resource by a ray tracing shader.
    RayTracingShaderReadOther,
    /// Written as the destination of an acceleration structure build.
    AccelerationStructureBuildWrite,
    /// Read as an acceleration structure while building another one.
    AccelerationStructureBuildRead,
    /// Written as a buffer during an acceleration structure build.
    AccelerationStructureBufferWrite,
    /// Read as a micromap during an acceleration structure build.
    AccelerationStructureBuildMicromapRead,
    /// Read as a micromap by a micromap command.
    MicromapBuildRead,
    /// Written as the destination of a micromap build.
    MicromapBuildWrite,
    /// Read as a build input by a micromap build.
    MicromapBuildInputRead,
    /// Read as a buffer by a micromap command.
    MicromapBuildBufferRead,
    /// Written as a buffer by a micromap command.
    MicromapBuildBufferWrite,
}

/// The number of access types; the codes of [`access_type_into_u8`] are those below it.
pub const ACCESS_TYPE_COUNT: u8 = 74;

impl AccessType {
    /// Whether the access may modify the resource.
    pub open spec fn writes(self) -> bool {
        match self {
            AccessType::DepthStencilAttachmentReadWrite
            | AccessType::ComputeShaderReadWrite
            | AccessType::CommandBufferWriteNVX
            | AccessType::VertexShaderWrite
            | AccessType::MeshShaderWrite
            | AccessType::TaskShaderWrite
            | AccessType::TessellationControlShaderWrite
            | AccessType::TessellationEvaluationShaderWrite
            | AccessType::GeometryShaderWrite
            | AccessType::FragmentShaderWrite
            | AccessType::ColorAttachmentWrite
            | AccessType::DepthStencilAttachmentWrite
            | AccessType::DepthAttachmentWriteStencilReadOnly
            | AccessType::StencilAttachmentWriteDepthReadOnly
            | AccessType::ComputeShaderWrite
            | AccessType::AnyShaderWrite
            | AccessType::TransferWrite
            | AccessType::HostWrite
            | AccessType::ColorAttachmentReadWrite
            | AccessType::General
            | AccessType::AccelerationStructureBuildWrite
            | AccessType::AccelerationStructureBufferWrite
            | AccessType::MicromapBuildWrite
            | AccessType::MicromapBuildBufferWrite => true,
            _ => false,
        }
    }

    /// The pipeline stages that perform the access.
    pub open spec fn stages(self) -> u32 {
        match self {
            AccessType::Nothing
            | AccessType::Present => 0,
            AccessType::CommandBufferReadNVX
            | AccessType::CommandBufferWriteNVX => vk::PIPELINE_STAGE_COMMAND_PREPROCESS_NV,
            AccessType::IndirectBuffer => vk::PIPELINE_STAGE_DRAW_INDIRECT,
            AccessType::IndexBuffer
            | AccessType::VertexBuffer => vk::PIPELINE_STAGE_VERTEX_INPUT,
            AccessType::VertexShaderReadUniformBuffer
            | AccessType::VertexShaderReadSampledImageOrUniformTexelBuffer
            | AccessType::VertexShaderReadOther
            | AccessType::VertexShaderWrite => vk::PIPELINE_STAGE_VERTEX_SHADER,
            AccessType::MeshShaderReadUniformBuffer
            | AccessType::MeshShaderReadSampledImageOrUniformTexelBuffer
            | AccessType::MeshShaderReadOther
            | AccessType::MeshShaderWrite => vk::PIPELINE_STAGE_MESH_SHADER_EXT,
            AccessType::TaskShaderReadUniformBuffer
            | AccessType::TaskShaderReadSampledImageOrUniformTexelBuffer
            | AccessType::TaskShaderReadOther
            | AccessType::TaskShaderWrite => vk::PIPELINE_STAGE_TASK_SHADER_EXT,
            AccessType::TessellationControlShaderReadUniformBuffer
            | AccessType::TessellationControlShaderReadSampledImageOrUniformTexelBuffer
            | AccessType::TessellationControlShaderReadOther
            | AccessType::TessellationControlShaderWrite => {
                vk::PIPELINE_STAGE_TESSELLATION_CONTROL_SHADER
            },
            AccessType::TessellationEvaluationShaderReadUniformBuffer
            | AccessType::TessellationEvaluationShaderReadSampledImageOrUniformTexelBuffer
            | AccessType::TessellationEvaluationShaderReadOther
            | AccessType::TessellationEvaluationShaderWrite => {
                vk::PIPELINE_STAGE_TESSELLATION_EVALUATION_SHADER
            },
            AccessType::GeometryShaderReadUniformBuffer
            | AccessType::GeometryShaderReadSampledImageOrUniformTexelBuffer
            | AccessType::GeometryShaderReadOther
            | AccessType::GeometryShaderWrite => vk::PIPELINE_STAGE_GEOMETRY_SHADER,
            AccessType::FragmentShaderReadUniformBuffer
            | AccessType::FragmentShaderReadSampledImageOrUniformTexelBuffer
            | AccessType::FragmentShaderReadColorInputAttachment
            | AccessType::FragmentShaderReadDepthStencilInputAttachment
            | AccessType::FragmentShaderReadOther
            | AccessType::FragmentShaderWrite => vk::PIPELINE_STAGE_FRAGMENT_SHADER,
            AccessType::ColorAttachmentRead
            | AccessType::ColorAttachmentWrite
            | AccessType::ColorAttachmentReadWrite => vk::PIPELINE_STAGE_COLOR_ATTACHMENT_OUTPUT,
            AccessType::DepthStencilAttachmentRead
            | AccessType::DepthStencilAttachmentReadWrite
            | AccessType::DepthStencilAttachmentWrite
            | AccessType::DepthAttachmentWriteStencilReadOnly
            | AccessType::StencilAttachmentWriteDepthReadOnly => {
                vk::PIPELINE_STAGE_EARLY_FRAGMENT_TESTS | vk::PIPELINE_STAGE_LATE_FRAGMENT_TESTS
            },
            AccessType::ComputeShaderReadUniformBuffer
            | AccessType::ComputeShaderReadSampledImageOrUniformTexelBuffer
            | AccessType::ComputeShaderReadOther
            | AccessType::ComputeShaderReadWrite
            | AccessType::ComputeShaderWrite => vk::PIPELINE_STAGE_COMPUTE_SHADER,
            AccessType::AnyShaderReadUniformBuffer
            | AccessType::AnyShaderReadUniformBufferOrVertexBuffer
            | AccessType::AnyShaderReadSampledImageOrUniformTexelBuffer
            | AccessType::AnyShaderReadOther
            | AccessType::AnyShaderWrite
            | AccessType::General
            | AccessType::MicromapBuildRead
            | AccessType::MicromapBuildWrite
            | AccessType::MicromapBuildInputRead
            | AccessType::MicromapBuildBufferRead
            | AccessType::MicromapBuildBufferWrite => vk::PIPELINE_STAGE_ALL_COMMANDS,
            AccessType::TransferRead
            | AccessType::TransferWrite => vk::PIPELINE_STAGE_TRANSFER,
            AccessType::HostRead
            | AccessType::HostWrite => vk::PIPELINE_STAGE_HOST,
            AccessType::RayTracingShaderReadSampledImageOrUniformTexelBuffer
            | AccessType::RayTracingShaderReadColorInputAttachment
            | AccessType::RayTracingShaderReadDepthStencilInputAttachment
            | AccessType::RayTracingShaderReadAccelerationStructure
            | AccessType::RayTracingShaderReadOther => vk::PIPELINE_STAGE_RAY_TRACING_SHADER_KHR,
            AccessType::AccelerationStructureBuildWrite
            | AccessType::AccelerationStructureBuildRead
            | AccessType::AccelerationStructureBufferWrite
            | AccessType::AccelerationStructureBuildMicromapRead => {
                vk::PIPELINE_STAGE_ACCELERATION_STRUCTURE_BUILD_KHR
            },
        }
    }

    /// The kinds of memory access that it performs.
    pub open spec fn accesses(self) -> u32 {
        match self {
            AccessType::Nothing
            | AccessType::Present => 0,
            AccessType::CommandBufferReadNVX => vk::ACCESS_COMMAND_PREPROCESS_READ_NV,
            AccessType::IndirectBuffer => vk::ACCESS_INDIRECT_COMMAND_READ,
            AccessType::IndexBuffer => vk::ACCESS_INDEX_READ,
            AccessType::VertexBuffer => vk::ACCESS_VERTEX_ATTRIBUTE_READ,
            AccessType::VertexShaderReadUniformBuffer
            | AccessType::VertexShaderReadSampledImageOrUniformTexelBuffer
            | AccessType::VertexShaderReadOther
            | AccessType::MeshShaderReadUniformBuffer
            | AccessType::MeshShaderReadSampledImageOrUniformTexelBuffer
            | AccessType::MeshShaderReadOther
            | AccessType::TaskShaderReadUniformBuffer
            | AccessType::TaskShaderReadSampledImageOrUniformTexelBuffer
            | AccessType::TaskShaderReadOther
            | AccessType::TessellationControlShaderReadSampledImageOrUniformTexelBuffer
            | AccessType::TessellationControlShaderReadOther
            | AccessType::TessellationEvaluationShaderReadSampledImageOrUniformTexelBuffer
            | AccessType::TessellationEvaluationShaderReadOther
            | AccessType::GeometryShaderReadSampledImageOrUniformTexelBuffer
            | AccessType::GeometryShaderReadOther
            | AccessType::FragmentShaderReadSampledImageOrUniformTexelBuffer
            | AccessType::FragmentShaderReadOther
            | AccessType::ComputeShaderReadSampledImageOrUniformTexelBuffer
            | AccessType::ComputeShaderReadOther
            | AccessType::AnyShaderReadSampledImageOrUniformTexelBuffer
            | AccessType::AnyShaderReadOther
            | AccessType::RayTracingShaderReadSampledImageOrUniformTexelBuffer
            | AccessType::RayTracingShaderReadOther
            | AccessType::MicromapBuildInputRead => vk::ACCESS_SHADER_READ,
            AccessType::TessellationControlShaderReadUniformBuffer
            | AccessType::TessellationEvaluationShaderReadUniformBuffer
            | AccessType::GeometryShaderReadUniformBuffer
            | AccessType::FragmentShaderReadUniformBuffer
            | AccessType::ComputeShaderReadUniformBuffer
            | AccessType::AnyShaderReadUniformBuffer => vk::ACCESS_UNIFORM_READ,
            AccessType::FragmentShaderReadColorInputAttachment
            | AccessType::FragmentShaderReadDepthStencilInputAttachment
            | AccessType::RayTracingShaderReadColorInputAttachment
            | AccessType::RayTracingShaderReadDepthStencilInputAttachment => {
                vk::ACCESS_INPUT_ATTACHMENT_READ
            },
            AccessType::ColorAttachmentRead => vk::ACCESS_COLOR_ATTACHMENT_READ,
            AccessType::DepthStencilAttachmentRead => vk::ACCESS_DEPTH_STENCIL_ATTACHMENT_READ,
            AccessType::DepthStencilAttachmentReadWrite
            | AccessType::DepthAttachmentWriteStencilReadOnly
            | AccessType::StencilAttachmentWriteDepthReadOnly => {
                vk::ACCESS_DEPTH_STENCIL_ATTACHMENT_READ | vk::ACCESS_DEPTH_STENCIL_ATTACHMENT_WRITE
            },
            AccessType::ComputeShaderReadWrite => vk::ACCESS_SHADER_READ | vk::ACCESS_SHADER_WRITE,
            AccessType::AnyShaderReadUniformBufferOrVertexBuffer => {
                vk::ACCESS_UNIFORM_READ | vk::ACCESS_VERTEX_ATTRIBUTE_READ
            },
            AccessType::TransferRead
            | AccessType::MicromapBuildBufferRead => vk::ACCESS_TRANSFER_READ,
            AccessType::HostRead => vk::ACCESS_HOST_READ,
            AccessType::CommandBufferWriteNVX => vk::ACCESS_COMMAND_PREPROCESS_WRITE_NV,
            AccessType::VertexShaderWrite
            | AccessType::MeshShaderWrite
            | AccessType::TaskShaderWrite
            | AccessType::TessellationControlShaderWrite
            | AccessType::TessellationEvaluationShaderWrite
            | AccessType::GeometryShaderWrite
            | AccessType::FragmentShaderWrite
            | AccessType::ComputeShaderWrite
            | AccessType::AnyShaderWrite => vk::ACCESS_SHADER_WRITE,
            AccessType::ColorAttachmentWrite => vk::ACCESS_COLOR_ATTACHMENT_WRITE,
            AccessType::DepthStencilAttachmentWrite => vk::ACCESS_DEPTH_STENCIL_ATTACHMENT_WRITE,
            AccessType::TransferWrite
            | AccessType::AccelerationStructureBufferWrite
            | AccessType::MicromapBuildBufferWrite => vk::ACCESS_TRANSFER_WRITE,
            AccessType::HostWrite => vk::ACCESS_HOST_WRITE,
            AccessType::ColorAttachmentReadWrite => {
                vk::ACCESS_COLOR_ATTACHMENT_READ | vk::ACCESS_COLOR_ATTACHMENT_WRITE
            },
            AccessType::General => vk::ACCESS_MEMORY_READ | vk::ACCESS_MEMORY_WRITE,
            AccessType::RayTracingShaderReadAccelerationStructure
            | AccessType::AccelerationStructureBuildRead => {
                vk::ACCESS_ACCELERATION_STRUCTURE_READ_KHR
            },
            AccessType::AccelerationStructureBuildWrite => {
                vk::ACCESS_ACCELERATION_STRUCTURE_WRITE_KHR
            },
            AccessType::AccelerationStructureBuildMicromapRead
            | AccessType::MicromapBuildRead => vk::ACCESS_MEMORY_READ,
            AccessType::MicromapBuildWrite => vk::ACCESS_MEMORY_WRITE,
        }
    }

    /// The number that stands for the access in packed state.
    pub open spec fn code(self) -> u8 {
        match self {
            AccessType::Nothing => 0,
            AccessType::CommandBufferReadNVX => 1,
            AccessType::IndirectBuffer => 2,
            AccessType::IndexBuffer => 3,
            AccessType::VertexBuffer => 4,
            AccessType::VertexShaderReadUniformBuffer => 5,
            AccessType::VertexShaderReadSampledImageOrUniformTexelBuffer => 6,
            AccessType::VertexShaderReadOther => 7,
            AccessType::MeshShaderReadUniformBuffer => 8,
            AccessType::MeshShaderReadSampledImageOrUniformTexelBuffer => 9,
            AccessType::MeshShaderReadOther => 10,
            AccessType::TaskShaderReadUniformBuffer => 11,
            AccessType::TaskShaderReadSampledImageOrUniformTexelBuffer => 12,
            AccessType::TaskShaderReadOther => 13,
            AccessType::TessellationControlShaderReadUniformBuffer => 14,
            AccessType::TessellationControlShaderReadSampledImageOrUniformTexelBuffer => 15,
            AccessType::TessellationControlShaderReadOther => 16,
            AccessType::TessellationEvaluationShaderReadUniformBuffer => 17,
            AccessType::TessellationEvaluationShaderReadSampledImageOrUniformTexelBuffer => 18,
            AccessType::TessellationEvaluationShaderReadOther => 19,
            AccessType::GeometryShaderReadUniformBuffer => 20,
            AccessType::GeometryShaderReadSampledImageOrUniformTexelBuffer => 21,
            AccessType::GeometryShaderReadOther => 22,
            AccessType::FragmentShaderReadUniformBuffer => 23,
            AccessType::FragmentShaderReadSampledImageOrUniformTexelBuffer => 24,
            AccessType::FragmentShaderReadColorInputAttachment => 25,
            AccessType::FragmentShaderReadDepthStencilInputAttachment => 26,
            AccessType::FragmentShaderReadOther => 27,
            AccessType::ColorAttachmentRead => 28,
            AccessType::DepthStencilAttachmentRead => 29,
            AccessType::DepthStencilAttachmentReadWrite => 30,
            AccessType::ComputeShaderReadUniformBuffer => 31,
            AccessType::ComputeShaderReadSampledImageOrUniformTexelBuffer => 32,
            AccessType::ComputeShaderReadOther => 33,
            AccessType::ComputeShaderReadWrite => 34,
            AccessType::AnyShaderReadUniformBuffer => 35,
            AccessType::AnyShaderReadUniformBufferOrVertexBuffer => 36,
            AccessType::AnyShaderReadSampledImageOrUniformTexelBuffer => 37,
            AccessType::AnyShaderReadOther => 38,
            AccessType::TransferRead => 39,
            AccessType::HostRead => 40,
            AccessType::Present => 41,
            AccessType::CommandBufferWriteNVX => 42,
            AccessType::VertexShaderWrite => 43,
            AccessType::MeshShaderWrite => 44,
            AccessType::TaskShaderWrite => 45,
            AccessType::TessellationControlShaderWrite => 46,
            AccessType::TessellationEvaluationShaderWrite => 47,
            AccessType::GeometryShaderWrite => 48,
            AccessType::FragmentShaderWrite => 49,
            AccessType::ColorAttachmentWrite => 50,
            AccessType::DepthStencilAttachmentWrite => 51,
            AccessType::DepthAttachmentWriteStencilReadOnly => 52,
            AccessType::StencilAttachmentWriteDepthReadOnly => 53,
            AccessType::ComputeShaderWrite => 54,
            AccessType::AnyShaderWrite => 55,
            AccessType::TransferWrite => 56,
            AccessType::HostWrite => 57,
            AccessType::ColorAttachmentReadWrite => 58,
            AccessType::General => 59,
            AccessType::RayTracingShaderReadSampledImageOrUniformTexelBuffer => 60,
            AccessType::RayTracingShaderReadColorInputAttachment => 61,
            AccessType::RayTracingShaderReadDepthStencilInputAttachment => 62,
            AccessType::RayTracingShaderReadAccelerationStructure => 63,
            AccessType::RayTracingShaderReadOther => 64,
            AccessType::AccelerationStructureBuildWrite => 65,
            AccessType::AccelerationStructureBuildRead => 66,
            AccessType::AccelerationStructureBufferWrite => 67,
            AccessType::AccelerationStructureBuildMicromapRead => 68,
            AccessType::MicromapBuildRead => 69,
            AccessType::MicromapBuildWrite => 70,
            AccessType::MicromapBuildInputRead => 71,
            AccessType::MicromapBuildBufferRead => 72,
            AccessType::MicromapBuildBufferWrite => 73,
        }
    }

    /// The access that a code stands for.
    pub open spec fn of_code(code: u64) -> AccessType {
        choose|access: AccessType| access.code() == code
    }
}

/// Whether an access may modify the resource.
pub fn is_write_access(access: AccessType) -> (write: bool)
    ensures
        write == access.writes(),
{
    matches!(access, AccessType::DepthStencilAttachmentReadWrite
        | AccessType::ComputeShaderReadWrite
        | AccessType::CommandBufferWriteNVX
        | AccessType::VertexShaderWrite
        | AccessType::MeshShaderWrite
        | AccessType::TaskShaderWrite
        | AccessType::TessellationControlShaderWrite
        | AccessType::TessellationEvaluationShaderWrite
        | AccessType::GeometryShaderWrite
        | AccessType::FragmentShaderWrite
        | AccessType::ColorAttachmentWrite
        | AccessType::DepthStencilAttachmentWrite
        | AccessType::DepthAttachmentWriteStencilReadOnly
        | AccessType::StencilAttachmentWriteDepthReadOnly
        | AccessType::ComputeShaderWrite
        | AccessType::AnyShaderWrite
        | AccessType::TransferWrite
        | AccessType::HostWrite
        | AccessType::ColorAttachmentReadWrite
        | AccessType::General
        | AccessType::AccelerationStructureBuildWrite
        | AccessType::AccelerationStructureBufferWrite
        | AccessType::MicromapBuildWrite
        | AccessType::MicromapBuildBufferWrite)
}

/// The pipeline stages and access flags of an access.
pub fn pipeline_stage_access_flags(access: AccessType) -> (flags: (u32, u32))
    ensures
        flags == (access.stages(), access.accesses()),
{
    match access {
        AccessType::Nothing
        | AccessType::Present => (
            0,
            0,
        ),
        AccessType::CommandBufferReadNVX => (
            vk::PIPELINE_STAGE_COMMAND_PREPROCESS_NV,
            vk::ACCESS_COMMAND_PREPROCESS_READ_NV,
        ),
        AccessType::IndirectBuffer => (
            vk::PIPELINE_STAGE_DRAW_INDIRECT,
            vk::ACCESS_INDIRECT_COMMAND_READ,
        ),
        AccessType::IndexBuffer => (
            vk::PIPELINE_STAGE_VERTEX_INPUT,
            vk::ACCESS_INDEX_READ,
        ),
        AccessType::VertexBuffer => (
            vk::PIPELINE_STAGE_VERTEX_INPUT,
            vk::ACCESS_VERTEX_ATTRIBUTE_READ,
        ),
        AccessType::VertexShaderReadUniformBuffer
        | AccessType::VertexShaderReadSampledImageOrUniformTexelBuffer
        | AccessType::VertexShaderReadOther => (
            vk::PIPELINE_STAGE_VERTEX_SHADER,
            vk::ACCESS_SHADER_READ,
        ),
        AccessType::MeshShaderReadUniformBuffer
        | AccessType::MeshShaderReadSampledImageOrUniformTexelBuffer
        | AccessType::MeshShaderReadOther => (
            vk::PIPELINE_STAGE_MESH_SHADER_EXT,
            vk::ACCESS_SHADER_READ,
        ),
        AccessType::TaskShaderReadUniformBuffer
        | AccessType::TaskShaderReadSampledImageOrUniformTexelBuffer
        | AccessType::TaskShaderReadOther => (
            vk::PIPELINE_STAGE_TASK_SHADER_EXT,
            vk::ACCESS_SHADER_READ,
        ),
        AccessType::TessellationControlShaderReadUniformBuffer => (
            vk::PIPELINE_STAGE_TESSELLATION_CONTROL_SHADER,
            vk::ACCESS_UNIFORM_READ,
        ),
        AccessType::TessellationControlShaderReadSampledImageOrUniformTexelBuffer
        | AccessType::TessellationControlShaderReadOther => (
            vk::PIPELINE_STAGE_TESSELLATION_CONTROL_SHADER,
            vk::ACCESS_SHADER_READ,
        ),
        AccessType::TessellationEvaluationShaderReadUniformBuffer => (
            vk::PIPELINE_STAGE_TESSELLATION_EVALUATION_SHADER,
            vk::ACCESS_UNIFORM_READ,
        ),
        AccessType::TessellationEvaluationShaderReadSampledImageOrUniformTexelBuffer
        | AccessType::TessellationEvaluationShaderReadOther => (
            vk::PIPELINE_STAGE_TESSELLATION_EVALUATION_SHADER,
            vk::ACCESS_SHADER_READ,
        ),
        AccessType::GeometryShaderReadUniformBuffer => (
            vk::PIPELINE_STAGE_GEOMETRY_SHADER,
            vk::ACCESS_UNIFORM_READ,
        ),
        AccessType::GeometryShaderReadSampledImageOrUniformTexelBuffer
        | AccessType::GeometryShaderReadOther => (
            vk::PIPELINE_STAGE_GEOMETRY_SHADER,
            vk::ACCESS_SHADER_READ,
        ),
        AccessType::FragmentShaderReadUniformBuffer => (
            vk::PIPELINE_STAGE_FRAGMENT_SHADER,
            vk::ACCESS_UNIFORM_READ,
        ),
        AccessType::FragmentShaderReadSampledImageOrUniformTexelBuffer
        | AccessType::FragmentShaderReadOther => (
            vk::PIPELINE_STAGE_FRAGMENT_SHADER,
            vk::ACCESS_SHADER_READ,
        ),
        AccessType::FragmentShaderReadColorInputAttachment
        | AccessType::FragmentShaderReadDepthStencilInputAttachment => (
            vk::PIPELINE_STAGE_FRAGMENT_SHADER,
            vk::ACCESS_INPUT_ATTACHMENT_READ,
        ),
        AccessType::ColorAttachmentRead => (
            vk::PIPELINE_STAGE_COLOR_ATTACHMENT_OUTPUT,
            vk::ACCESS_COLOR_ATTACHMENT_READ,
        ),
        AccessType::DepthStencilAttachmentRead => (
            vk::PIPELINE_STAGE_EARLY_FRAGMENT_TESTS | vk::PIPELINE_STAGE_LATE_FRAGMENT_TESTS,
            vk::ACCESS_DEPTH_STENCIL_ATTACHMENT_READ,
        ),
        AccessType::DepthStencilAttachmentReadWrite
        | AccessType::DepthAttachmentWriteStencilReadOnly
        | AccessType::StencilAttachmentWriteDepthReadOnly => (
            vk::PIPELINE_STAGE_EARLY_FRAGMENT_TESTS | vk::PIPELINE_STAGE_LATE_FRAGMENT_TESTS,
            vk::ACCESS_DEPTH_STENCIL_ATTACHMENT_READ | vk::ACCESS_DEPTH_STENCIL_ATTACHMENT_WRITE,
        ),
        AccessType::ComputeShaderReadUniformBuffer => (
            vk::PIPELINE_STAGE_COMPUTE_SHADER,
            vk::ACCESS_UNIFORM_READ,
        ),
        AccessType::ComputeShaderReadSampledImageOrUniformTexelBuffer
        | AccessType::ComputeShaderReadOther => (
            vk::PIPELINE_STAGE_COMPUTE_SHADER,
            vk::ACCESS_SHADER_READ,
        ),
        AccessType::ComputeShaderReadWrite => (
            vk::PIPELINE_STAGE_COMPUTE_SHADER,
            vk::ACCESS_SHADER_READ | vk::ACCESS_SHADER_WRITE,
        ),
        AccessType::AnyShaderReadUniformBuffer => (
            vk::PIPELINE_STAGE_ALL_COMMANDS,
            vk::ACCESS_UNIFORM_READ,
        ),
        AccessType::AnyShaderReadUniformBufferOrVertexBuffer => (
            vk::PIPELINE_STAGE_ALL_COMMANDS,
            vk::ACCESS_UNIFORM_READ | vk::ACCESS_VERTEX_ATTRIBUTE_READ,
        ),
        AccessType::AnyShaderReadSampledImageOrUniformTexelBuffer
        | AccessType::AnyShaderReadOther
        | AccessType::MicromapBuildInputRead => (
            vk::PIPELINE_STAGE_ALL_COMMANDS,
            vk::ACCESS_SHADER_READ,
        ),
        AccessType::TransferRead => (
            vk::PIPELINE_STAGE_TRANSFER,
            vk::ACCESS_TRANSFER_READ,
        ),
        AccessType::HostRead => (
            vk::PIPELINE_STAGE_HOST,
            vk::ACCESS_HOST_READ,
        ),
        AccessType::CommandBufferWriteNVX => (
            vk::PIPELINE_STAGE_COMMAND_PREPROCESS_NV,
            vk::ACCESS_COMMAND_PREPROCESS_WRITE_NV,
        ),
        AccessType::VertexShaderWrite => (
            vk::PIPELINE_STAGE_VERTEX_SHADER,
            vk::ACCESS_SHADER_WRITE,
        ),
        AccessType::MeshShaderWrite => (
            vk::PIPELINE_STAGE_MESH_SHADER_EXT,
            vk::ACCESS_SHADER_WRITE,
        ),
        AccessType::TaskShaderWrite => (
            vk::PIPELINE_STAGE_TASK_SHADER_EXT,
            vk::ACCESS_SHADER_WRITE,
        ),
        AccessType::TessellationControlShaderWrite => (
            vk::PIPELINE_STAGE_TESSELLATION_CONTROL_SHADER,
            vk::ACCESS_SHADER_WRITE,
        ),
        AccessType::TessellationEvaluationShaderWrite => (
            vk::PIPELINE_STAGE_TESSELLATION_EVALUATION_SHADER,
            vk::ACCESS_SHADER_WRITE,
        ),
        AccessType::GeometryShaderWrite => (
            vk::PIPELINE_STAGE_GEOMETRY_SHADER,
            vk::ACCESS_SHADER_WRITE,
        ),
        AccessType::FragmentShaderWrite => (
            vk::PIPELINE_STAGE_FRAGMENT_SHADER,
            vk::ACCESS_SHADER_WRITE,
        ),
        AccessType::ColorAttachmentWrite => (
            vk::PIPELINE_STAGE_COLOR_ATTACHMENT_OUTPUT,
            vk::ACCESS_COLOR_ATTACHMENT_WRITE,
        ),
        AccessType::DepthStencilAttachmentWrite => (
            vk::PIPELINE_STAGE_EARLY_FRAGMENT_TESTS | vk::PIPELINE_STAGE_LATE_FRAGMENT_TESTS,
            vk::ACCESS_DEPTH_STENCIL_ATTACHMENT_WRITE,
        ),
        AccessType::ComputeShaderWrite => (
            vk::PIPELINE_STAGE_COMPUTE_SHADER,
            vk::ACCESS_SHADER_WRITE,
        ),
        AccessType::AnyShaderWrite => (
            vk::PIPELINE_STAGE_ALL_COMMANDS,
            vk::ACCESS_SHADER_WRITE,
        ),
        AccessType::TransferWrite => (
            vk::PIPELINE_STAGE_TRANSFER,
            vk::ACCESS_TRANSFER_WRITE,
        ),
        AccessType::HostWrite => (
            vk::PIPELINE_STAGE_HOST,
            vk::ACCESS_HOST_WRITE,
        ),
        AccessType::ColorAttachmentReadWrite => (
            vk::PIPELINE_STAGE_COLOR_ATTACHMENT_OUTPUT,
            vk::ACCESS_COLOR_ATTACHMENT_READ | vk::ACCESS_COLOR_ATTACHMENT_WRITE,
        ),
        AccessType::General => (
            vk::PIPELINE_STAGE_ALL_COMMANDS,
            vk::ACCESS_MEMORY_READ | vk::ACCESS_MEMORY_WRITE,
        ),
        AccessType::RayTracingShaderReadSampledImageOrUniformTexelBuffer
        | AccessType::RayTracingShaderReadOther => (
            vk::PIPELINE_STAGE_RAY_TRACING_SHADER_KHR,
            vk::ACCESS_SHADER_READ,
        ),
        AccessType::RayTracingShaderReadColorInputAttachment
        | AccessType::RayTracingShaderReadDepthStencilInputAttachment => (
            vk::PIPELINE_STAGE_RAY_TRACING_SHADER_KHR,
            vk::ACCESS_INPUT_ATTACHMENT_READ,
        ),
        AccessType::RayTracingShaderReadAccelerationStructure => (
            vk::PIPELINE_STAGE_RAY_TRACING_SHADER_KHR,
            vk::ACCESS_ACCELERATION_STRUCTURE_READ_KHR,
        ),
        AccessType::AccelerationStructureBuildWrite => (
            vk::PIPELINE_STAGE_ACCELERATION_STRUCTURE_BUILD_KHR,
            vk::ACCESS_ACCELERATION_STRUCTURE_WRITE_KHR,
        ),
        AccessType::AccelerationStructureBuildRead => (
            vk::PIPELINE_STAGE_ACCELERATION_STRUCTURE_BUILD_KHR,
            vk::ACCESS_ACCELERATION_STRUCTURE_READ_KHR,
        ),
        AccessType::AccelerationStructureBufferWrite => (
            vk::PIPELINE_STAGE_ACCELERATION_STRUCTURE_BUILD_KHR,
            vk::ACCESS_TRANSFER_WRITE,
        ),
        AccessType::AccelerationStructureBuildMicromapRead => (
            vk::PIPELINE_STAGE_ACCELERATION_STRUCTURE_BUILD_KHR,
            vk::ACCESS_MEMORY_READ,
        ),
        AccessType::MicromapBuildRead => (
            vk::PIPELINE_STAGE_ALL_COMMANDS,
            vk::ACCESS_MEMORY_READ,
        ),
        AccessType::MicromapBuildWrite => (
            vk::PIPELINE_STAGE_ALL_COMMANDS,
            vk::ACCESS_MEMORY_WRITE,
        ),
        AccessType::MicromapBuildBufferRead => (
            vk::PIPELINE_STAGE_ALL_COMMANDS,
            vk::ACCESS_TRANSFER_READ,
        ),
        AccessType::MicromapBuildBufferWrite => (
            vk::PIPELINE_STAGE_ALL_COMMANDS,
            vk::ACCESS_TRANSFER_WRITE,
        ),
    }
}

/// The code of an access.
pub fn access_type_into_u8(access: AccessType) -> (code: u8)
    ensures
        code == access.code(),
        code < ACCESS_TYPE_COUNT,
{
    match access {
        AccessType::Nothing => 0,
        AccessType::CommandBufferReadNVX => 1,
        AccessType::IndirectBuffer => 2,
        AccessType::IndexBuffer => 3,
        AccessType::VertexBuffer => 4,
        AccessType::VertexShaderReadUniformBuffer => 5,
        AccessType::VertexShaderReadSampledImageOrUniformTexelBuffer => 6,
        AccessType::VertexShaderReadOther => 7,
        AccessType::MeshShaderReadUniformBuffer => 8,
        AccessType::MeshShaderReadSampledImageOrUniformTexelBuffer => 9,
        AccessType::MeshShaderReadOther => 10,
        AccessType::TaskShaderReadUniformBuffer => 11,
        AccessType::TaskShaderReadSampledImageOrUniformTexelBuffer => 12,
        AccessType::TaskShaderReadOther => 13,
        AccessType::TessellationControlShaderReadUniformBuffer => 14,
        AccessType::TessellationControlShaderReadSampledImageOrUniformTexelBuffer => 15,
        AccessType::TessellationControlShaderReadOther => 16,
        AccessType::TessellationEvaluationShaderReadUniformBuffer => 17,
        AccessType::TessellationEvaluationShaderReadSampledImageOrUniformTexelBuffer => 18,
        AccessType::TessellationEvaluationShaderReadOther => 19,
        AccessType::GeometryShaderReadUniformBuffer => 20,
        AccessType::GeometryShaderReadSampledImageOrUniformTexelBuffer => 21,
        AccessType::GeometryShaderReadOther => 22,
        AccessType::FragmentShaderReadUniformBuffer => 23,
        AccessType::FragmentShaderReadSampledImageOrUniformTexelBuffer => 24,
        AccessType::FragmentShaderReadColorInputAttachment => 25,
        AccessType::FragmentShaderReadDepthStencilInputAttachment => 26,
        AccessType::FragmentShaderReadOther => 27,
        AccessType::ColorAttachmentRead => 28,
        AccessType::DepthStencilAttachmentRead => 29,
        AccessType::DepthStencilAttachmentReadWrite => 30,
        AccessType::ComputeShaderReadUniformBuffer => 31,
        AccessType::ComputeShaderReadSampledImageOrUniformTexelBuffer => 32,
        AccessType::ComputeShaderReadOther => 33,
        AccessType::ComputeShaderReadWrite => 34,
        AccessType::AnyShaderReadUniformBuffer => 35,
        AccessType::AnyShaderReadUniformBufferOrVertexBuffer => 36,
        AccessType::AnyShaderReadSampledImageOrUniformTexelBuffer => 37,
        AccessType::AnyShaderReadOther => 38,
        AccessType::TransferRead => 39,
        AccessType::HostRead => 40,
        AccessType::Present => 41,
        AccessType::CommandBufferWriteNVX => 42,
        AccessType::VertexShaderWrite => 43,
        AccessType::MeshShaderWrite => 44,
        AccessType::TaskShaderWrite => 45,
        AccessType::TessellationControlShaderWrite => 46,
        AccessType::TessellationEvaluationShaderWrite => 47,
        AccessType::GeometryShaderWrite => 48,
        AccessType::FragmentShaderWrite => 49,
        AccessType::ColorAttachmentWrite => 50,
        AccessType::DepthStencilAttachmentWrite => 51,
        AccessType::DepthAttachmentWriteStencilReadOnly => 52,
        AccessType::StencilAttachmentWriteDepthReadOnly => 53,
        AccessType::ComputeShaderWrite => 54,
        AccessType::AnyShaderWrite => 55,
        AccessType::TransferWrite => 56,
        AccessType::HostWrite => 57,
        AccessType::ColorAttachmentReadWrite => 58,
        AccessType::General => 59,
        AccessType::RayTracingShaderReadSampledImageOrUniformTexelBuffer => 60,
        AccessType::RayTracingShaderReadColorInputAttachment => 61,
        AccessType::RayTracingShaderReadDepthStencilInputAttachment => 62,
        AccessType::RayTracingShaderReadAccelerationStructure => 63,
        AccessType::RayTracingShaderReadOther => 64,
        AccessType::AccelerationStructureBuildWrite => 65,
        AccessType::AccelerationStructureBuildRead => 66,
        AccessType::AccelerationStructureBufferWrite => 67,
        AccessType::AccelerationStructureBuildMicromapRead => 68,
        AccessType::MicromapBuildRead => 69,
        AccessType::MicromapBuildWrite => 70,
        AccessType::MicromapBuildInputRead => 71,
        AccessType::MicromapBuildBufferRead => 72,
        AccessType::MicromapBuildBufferWrite => 73,
    }
}

/// The access with the given code.
pub fn access_type_from_u8(code: u8) -> (access: AccessType)
    requires
        code < ACCESS_TYPE_COUNT,
    ensures
        access.code() == code,
        access == AccessType::of_code(code as u64),
{
    let access: AccessType = match code {
        0 => AccessType::Nothing,
        1 => AccessType::CommandBufferReadNVX,
        2 => AccessType::IndirectBuffer,
        3 => AccessType::IndexBuffer,
        4 => AccessType::VertexBuffer,
        5 => AccessType::VertexShaderReadUniformBuffer,
        6 => AccessType::VertexShaderReadSampledImageOrUniformTexelBuffer,
        7 => AccessType::VertexShaderReadOther,
        8 => AccessType::MeshShaderReadUniformBuffer,
        9 => AccessType::MeshShaderReadSampledImageOrUniformTexelBuffer,
        10 => AccessType::MeshShaderReadOther,
        11 => AccessType::TaskShaderReadUniformBuffer,
        12 => AccessType::TaskShaderReadSampledImageOrUniformTexelBuffer,
        13 => AccessType::TaskShaderReadOther,
        14 => AccessType::TessellationControlShaderReadUniformBuffer,
        15 => AccessType::TessellationControlShaderReadSampledImageOrUniformTexelBuffer,
        16 => AccessType::TessellationControlShaderReadOther,
        17 => AccessType::TessellationEvaluationShaderReadUniformBuffer,
        18 => AccessType::TessellationEvaluationShaderReadSampledImageOrUniformTexelBuffer,
        19 => AccessType::TessellationEvaluationShaderReadOther,
        20 => AccessType::GeometryShaderReadUniformBuffer,
        21 => AccessType::GeometryShaderReadSampledImageOrUniformTexelBuffer,
        22 => AccessType::GeometryShaderReadOther,
        23 => AccessType::FragmentShaderReadUniformBuffer,
        24 => AccessType::FragmentShaderReadSampledImageOrUniformTexelBuffer,
        25 => AccessType::FragmentShaderReadColorInputAttachment,
        26 => AccessType::FragmentShaderReadDepthStencilInputAttachment,
        27 => AccessType::FragmentShaderReadOther,
        28 => AccessType::ColorAttachmentRead,
        29 => AccessType::DepthStencilAttachmentRead,
        30 => AccessType::DepthStencilAttachmentReadWrite,
        31 => AccessType::ComputeShaderReadUniformBuffer,
        32 => AccessType::ComputeShaderReadSampledImageOrUniformTexelBuffer,
        33 => AccessType::ComputeShaderReadOther,
        34 => AccessType::ComputeShaderReadWrite,
        35 => AccessType::AnyShaderReadUniformBuffer,
        36 => AccessType::AnyShaderReadUniformBufferOrVertexBuffer,
        37 => AccessType::AnyShaderReadSampledImageOrUniformTexelBuffer,
        38 => AccessType::AnyShaderReadOther,
        39 => AccessType::TransferRead,
        40 => AccessType::HostRead,
        41 => AccessType::Present,
        42 => AccessType::CommandBufferWriteNVX,
        43 => AccessType::VertexShaderWrite,
        44 => AccessType::MeshShaderWrite,
        45 => AccessType::TaskShaderWrite,
        46 => AccessType::TessellationControlShaderWrite,
        47 => AccessType::TessellationEvaluationShaderWrite,
        48 => AccessType::GeometryShaderWrite,
        49 => AccessType::FragmentShaderWrite,
        50 => AccessType::ColorAttachmentWrite,
        51 => AccessType::DepthStencilAttachmentWrite,
        52 => AccessType::DepthAttachmentWriteStencilReadOnly,
        53 => AccessType::StencilAttachmentWriteDepthReadOnly,
        54 => AccessType::ComputeShaderWrite,
        55 => AccessType::AnyShaderWrite,
        56 => AccessType::TransferWrite,
        57 => AccessType::HostWrite,
        58 => AccessType::ColorAttachmentReadWrite,
        59 => AccessType::General,
        60 => AccessType::RayTracingShaderReadSampledImageOrUniformTexelBuffer,
        61 => AccessType::RayTracingShaderReadColorInputAttachment,
        62 => AccessType::RayTracingShaderReadDepthStencilInputAttachment,
        63 => AccessType::RayTracingShaderReadAccelerationStructure,
        64 => AccessType::RayTracingShaderReadOther,
        65 => AccessType::AccelerationStructureBuildWrite,
        66 => AccessType::AccelerationStructureBuildRead,
        67 => AccessType::AccelerationStructureBufferWrite,
        68 => AccessType::AccelerationStructureBuildMicromapRead,
        69 => AccessType::MicromapBuildRead,
        70 => AccessType::MicromapBuildWrite,
        71 => AccessType::MicromapBuildInputRead,
        72 => AccessType::MicromapBuildBufferRead,
        _ => AccessType::MicromapBuildBufferWrite,
    };
    proof {
        access_codes_are_distinct(access, access);
    }
    access
}

/// Codes identify accesses: they are in range, and no two accesses share one.
pub proof fn access_codes_are_distinct(a: AccessType, b: AccessType)
    ensures
        a.code() < ACCESS_TYPE_COUNT,
        a.code() == b.code() <==> a == b,
        AccessType::of_code(a.code() as u64) == a,
{
    let chosen = AccessType::of_code(a.code() as u64);
    assert(chosen.code() == a.code());
}

/// Codes that stand for the same access are the same.
pub proof fn lemma_of_code_injective(a: u64, b: u64)
    requires
        a < ACCESS_TYPE_COUNT,
        b < ACCESS_TYPE_COUNT,
        AccessType::of_code(a) == AccessType::of_code(b),
    ensures
        a == b,
{
    lemma_of_code(a as u8);
    lemma_of_code(b as u8);
}

/// Every code in range stands for an access.
pub proof fn lemma_of_code(code: u8)
    requires
        code < ACCESS_TYPE_COUNT,
    ensures
        AccessType::of_code(code as u64).code() == code,
{
    let witness: AccessType = match code {
        0 => AccessType::Nothing,
        1 => AccessType::CommandBufferReadNVX,
        2 => AccessType::IndirectBuffer,
        3 => AccessType::IndexBuffer,
        4 => AccessType::VertexBuffer,
        5 => AccessType::VertexShaderReadUniformBuffer,
        6 => AccessType::VertexShaderReadSampledImageOrUniformTexelBuffer,
        7 => AccessType::VertexShaderReadOther,
        8 => AccessType::MeshShaderReadUniformBuffer,
        9 => AccessType::MeshShaderReadSampledImageOrUniformTexelBuffer,
        10 => AccessType::MeshShaderReadOther,
        11 => AccessType::TaskShaderReadUniformBuffer,
        12 => AccessType::TaskShaderReadSampledImageOrUniformTexelBuffer,
        13 => AccessType::TaskShaderReadOther,
        14 => AccessType::TessellationControlShaderReadUniformBuffer,
        15 => AccessType::TessellationControlShaderReadSampledImageOrUniformTexelBuffer,
        16 => AccessType::TessellationControlShaderReadOther,
        17 => AccessType::TessellationEvaluationShaderReadUniformBuffer,
        18 => AccessType::TessellationEvaluationShaderReadSampledImageOrUniformTexelBuffer,
        19 => AccessType::TessellationEvaluationShaderReadOther,
        20 => AccessType::GeometryShaderReadUniformBuffer,
        21 => AccessType::GeometryShaderReadSampledImageOrUniformTexelBuffer,
        22 => AccessType::GeometryShaderReadOther,
        23 => AccessType::FragmentShaderReadUniformBuffer,
        24 => AccessType::FragmentShaderReadSampledImageOrUniformTexelBuffer,
        25 => AccessType::FragmentShaderReadColorInputAttachment,
        26 => AccessType::FragmentShaderReadDepthStencilInputAttachment,
        27 => AccessType::FragmentShaderReadOther,
        28 => AccessType::ColorAttachmentRead,
        29 => AccessType::DepthStencilAttachmentRead,
        30 => AccessType::DepthStencilAttachmentReadWrite,
        31 => AccessType::ComputeShaderReadUniformBuffer,
        32 => AccessType::ComputeShaderReadSampledImageOrUniformTexelBuffer,
        33 => AccessType::ComputeShaderReadOther,
        34 => AccessType::ComputeShaderReadWrite,
        35 => AccessType::AnyShaderReadUniformBuffer,
        36 => AccessType::AnyShaderReadUniformBufferOrVertexBuffer,
        37 => AccessType::AnyShaderReadSampledImageOrUniformTexelBuffer,
        38 => AccessType::AnyShaderReadOther,
        39 => AccessType::TransferRead,
        40 => AccessType::HostRead,
        41 => AccessType::Present,
        42 => AccessType::CommandBufferWriteNVX,
        43 => AccessType::VertexShaderWrite,
        44 => AccessType::MeshShaderWrite,
        45 => AccessType::TaskShaderWrite,
        46 => AccessType::TessellationControlShaderWrite,
        47 => AccessType::TessellationEvaluationShaderWrite,
        48 => AccessType::GeometryShaderWrite,
        49 => AccessType::FragmentShaderWrite,
        50 => AccessType::ColorAttachmentWrite,
        51 => AccessType::DepthStencilAttachmentWrite,
        52 => AccessType::DepthAttachmentWriteStencilReadOnly,
        53 => AccessType::StencilAttachmentWriteDepthReadOnly,
        54 => AccessType::ComputeShaderWrite,
        55 => AccessType::AnyShaderWrite,
        56 => AccessType::TransferWrite,
        57 => AccessType::HostWrite,
        58 => AccessType::ColorAttachmentReadWrite,
        59 => AccessType::General,
        60 => AccessType::RayTracingShaderReadSampledImageOrUniformTexelBuffer,
        61 => AccessType::RayTracingShaderReadColorInputAttachment,
        62 => AccessType::RayTracingShaderReadDepthStencilInputAttachment,
        63 => AccessType::RayTracingShaderReadAccelerationStructure,
        64 => AccessType::RayTracingShaderReadOther,
        65 => AccessType::AccelerationStructureBuildWrite,
        66 => AccessType::AccelerationStructureBuildRead,
        67 => AccessType::AccelerationStructureBufferWrite,
        68 => AccessType::AccelerationStructureBuildMicromapRead,
        69 => AccessType::MicromapBuildRead,
        70 => AccessType::MicromapBuildWrite,
        71 => AccessType::MicromapBuildInputRead,
        72 => AccessType::MicromapBuildBufferRead,
        _ => AccessType::MicromapBuildBufferWrite,
    };
    assert(witness.code() == code);
}

/// All memory accesses that modify memory.
pub open spec fn write_bits() -> u32 {
    vk::ACCESS_SHADER_WRITE | vk::ACCESS_COLOR_ATTACHMENT_WRITE
        | vk::ACCESS_DEPTH_STENCIL_ATTACHMENT_WRITE | vk::ACCESS_TRANSFER_WRITE
        | vk::ACCESS_HOST_WRITE | vk::ACCESS_MEMORY_WRITE | vk::ACCESS_COMMAND_PREPROCESS_WRITE_NV
        | vk::ACCESS_ACCELERATION_STRUCTURE_WRITE_KHR
}

/// An access counts as a write exactly where one of the memory accesses that it performs modifies
/// memory.
pub proof fn writes_perform_write_accesses(access: AccessType)
    ensures
        access.writes() <==> access.accesses() & write_bits() != 0,
{
    assert(0u32 & write_bits() == 0 && vk::ACCESS_INDIRECT_COMMAND_READ & write_bits() == 0
        && vk::ACCESS_INDEX_READ & write_bits() == 0 && vk::ACCESS_VERTEX_ATTRIBUTE_READ
        & write_bits() == 0 && vk::ACCESS_UNIFORM_READ & write_bits() == 0
        && vk::ACCESS_INPUT_ATTACHMENT_READ & write_bits() == 0 && vk::ACCESS_SHADER_READ
        & write_bits() == 0 && vk::ACCESS_COLOR_ATTACHMENT_READ & write_bits() == 0
        && vk::ACCESS_DEPTH_STENCIL_ATTACHMENT_READ & write_bits() == 0 && vk::ACCESS_TRANSFER_READ
        & write_bits() == 0 && vk::ACCESS_HOST_READ & write_bits() == 0 && vk::ACCESS_MEMORY_READ
        & write_bits() == 0 && vk::ACCESS_COMMAND_PREPROCESS_READ_NV & write_bits() == 0
        && vk::ACCESS_ACCELERATION_STRUCTURE_READ_KHR & write_bits() == 0 && (
    vk::ACCESS_UNIFORM_READ | vk::ACCESS_VERTEX_ATTRIBUTE_READ) & write_bits() == 0)
        by (bit_vector);
    assert(vk::ACCESS_SHADER_WRITE & write_bits() != 0 && vk::ACCESS_COLOR_ATTACHMENT_WRITE
        & write_bits() != 0 && vk::ACCESS_DEPTH_STENCIL_ATTACHMENT_WRITE & write_bits() != 0
        && vk::ACCESS_TRANSFER_WRITE & write_bits() != 0 && vk::ACCESS_HOST_WRITE & write_bits()
        != 0 && vk::ACCESS_MEMORY_WRITE & write_bits() != 0
        && vk::ACCESS_COMMAND_PREPROCESS_WRITE_NV & write_bits() != 0
        && vk::ACCESS_ACCELERATION_STRUCTURE_WRITE_KHR & write_bits() != 0 && (
    vk::ACCESS_DEPTH_STENCIL_ATTACHMENT_READ | vk::ACCESS_DEPTH_STENCIL_ATTACHMENT_WRITE)
        & write_bits() != 0 && (vk::ACCESS_SHADER_READ | vk::ACCESS_SHADER_WRITE) & write_bits()
        != 0 && (vk::ACCESS_COLOR_ATTACHMENT_READ | vk::ACCESS_COLOR_ATTACHMENT_WRITE)
        & write_bits() != 0 && (vk::ACCESS_MEMORY_READ | vk::ACCESS_MEMORY_WRITE) & write_bits()
        != 0) by (bit_vector);
}

impl AccessType {
    /// Whether a shader samples images, or reads uniform texel buffers.
    pub open spec fn samples(self) -> bool {
        match self {
            AccessType::VertexShaderReadSampledImageOrUniformTexelBuffer
            | AccessType::MeshShaderReadSampledImageOrUniformTexelBuffer
            | AccessType::TaskShaderReadSampledImageOrUniformTexelBuffer
            | AccessType::TessellationControlShaderReadSampledImageOrUniformTexelBuffer
            | AccessType::TessellationEvaluationShaderReadSampledImageOrUniformTexelBuffer
            | AccessType::GeometryShaderReadSampledImageOrUniformTexelBuffer
            | AccessType::FragmentShaderReadSampledImageOrUniformTexelBuffer
            | AccessType::ComputeShaderReadSampledImageOrUniformTexelBuffer
            | AccessType::AnyShaderReadSampledImageOrUniformTexelBuffer
            | AccessType::RayTracingShaderReadSampledImageOrUniformTexelBuffer => true,
            _ => false,
        }
    }

    /// Whether a shader reads uniform buffers.
    pub open spec fn reads_uniforms(self) -> bool {
        match self {
            AccessType::VertexShaderReadUniformBuffer
            | AccessType::MeshShaderReadUniformBuffer
            | AccessType::TaskShaderReadUniformBuffer
            | AccessType::TessellationControlShaderReadUniformBuffer
            | AccessType::TessellationEvaluationShaderReadUniformBuffer
            | AccessType::GeometryShaderReadUniformBuffer
            | AccessType::FragmentShaderReadUniformBuffer
            | AccessType::ComputeShaderReadUniformBuffer
            | AccessType::AnyShaderReadUniformBuffer
            | AccessType::AnyShaderReadUniformBufferOrVertexBuffer => true,
            _ => false,
        }
    }

    /// Whether a shader reads resources that are neither sampled, nor uniforms, nor attachments.
    pub open spec fn reads_other(self) -> bool {
        match self {
            AccessType::VertexShaderReadOther
            | AccessType::MeshShaderReadOther
            | AccessType::TaskShaderReadOther
            | AccessType::TessellationControlShaderReadOther
            | AccessType::TessellationEvaluationShaderReadOther
            | AccessType::GeometryShaderReadOther
            | AccessType::FragmentShaderReadOther
            | AccessType::ComputeShaderReadOther
            | AccessType::AnyShaderReadOther
            | AccessType::RayTracingShaderReadOther => true,
            _ => false,
        }
    }
}

/// The stages that run shaders of one kind each.
pub open spec fn runs_shaders(stages: u32) -> bool {
    ||| stages == vk::PIPELINE_STAGE_VERTEX_SHADER
    ||| stages == vk::PIPELINE_STAGE_TESSELLATION_CONTROL_SHADER
    ||| stages == vk::PIPELINE_STAGE_TESSELLATION_EVALUATION_SHADER
    ||| stages == vk::PIPELINE_STAGE_GEOMETRY_SHADER
    ||| stages == vk::PIPELINE_STAGE_FRAGMENT_SHADER
    ||| stages == vk::PIPELINE_STAGE_COMPUTE_SHADER
    ||| stages == vk::PIPELINE_STAGE_TASK_SHADER_EXT
    ||| stages == vk::PIPELINE_STAGE_MESH_SHADER_EXT
    ||| stages == vk::PIPELINE_STAGE_RAY_TRACING_SHADER_KHR
}

/// The memory accesses that stages can perform.
pub open spec fn performable(stages: u32) -> u32 {
    if stages == 0 {
        0
    } else if stages == vk::PIPELINE_STAGE_ALL_COMMANDS {
        0xffff_ffff
    } else if stages == vk::PIPELINE_STAGE_DRAW_INDIRECT {
        vk::ACCESS_INDIRECT_COMMAND_READ
    } else if stages == vk::PIPELINE_STAGE_VERTEX_INPUT {
        vk::ACCESS_INDEX_READ | vk::ACCESS_VERTEX_ATTRIBUTE_READ
    } else if stages == vk::PIPELINE_STAGE_EARLY_FRAGMENT_TESTS
        | vk::PIPELINE_STAGE_LATE_FRAGMENT_TESTS {
        vk::ACCESS_DEPTH_STENCIL_ATTACHMENT_READ | vk::ACCESS_DEPTH_STENCIL_ATTACHMENT_WRITE
    } else if stages == vk::PIPELINE_STAGE_COLOR_ATTACHMENT_OUTPUT {
        vk::ACCESS_COLOR_ATTACHMENT_READ | vk::ACCESS_COLOR_ATTACHMENT_WRITE
    } else if stages == vk::PIPELINE_STAGE_TRANSFER {
        vk::ACCESS_TRANSFER_READ | vk::ACCESS_TRANSFER_WRITE
    } else if stages == vk::PIPELINE_STAGE_HOST {
        vk::ACCESS_HOST_READ | vk::ACCESS_HOST_WRITE
    } else if stages == vk::PIPELINE_STAGE_COMMAND_PREPROCESS_NV {
        vk::ACCESS_COMMAND_PREPROCESS_READ_NV | vk::ACCESS_COMMAND_PREPROCESS_WRITE_NV
    } else if stages == vk::PIPELINE_STAGE_ACCELERATION_STRUCTURE_BUILD_KHR {
        vk::ACCESS_ACCELERATION_STRUCTURE_READ_KHR | vk::ACCESS_ACCELERATION_STRUCTURE_WRITE_KHR
            | vk::ACCESS_TRANSFER_WRITE | vk::ACCESS_MEMORY_READ
    } else {
        vk::ACCESS_UNIFORM_READ | vk::ACCESS_SHADER_READ | vk::ACCESS_SHADER_WRITE
            | vk::ACCESS_INPUT_ATTACHMENT_READ | vk::ACCESS_ACCELERATION_STRUCTURE_READ_KHR
    }
}

/// The combined masks that accesses have, by their numbers.
pub proof fn lemma_masks()
    ensures
        vk::PIPELINE_STAGE_EARLY_FRAGMENT_TESTS | vk::PIPELINE_STAGE_LATE_FRAGMENT_TESTS == 0x300,
        vk::ACCESS_DEPTH_STENCIL_ATTACHMENT_READ | vk::ACCESS_DEPTH_STENCIL_ATTACHMENT_WRITE
            == 0x600,
        vk::ACCESS_COLOR_ATTACHMENT_READ | vk::ACCESS_COLOR_ATTACHMENT_WRITE == 0x180,
        vk::ACCESS_SHADER_READ | vk::ACCESS_SHADER_WRITE == 0x60,
        vk::ACCESS_MEMORY_READ | vk::ACCESS_MEMORY_WRITE == 0x18000,
        vk::ACCESS_UNIFORM_READ | vk::ACCESS_VERTEX_ATTRIBUTE_READ == 0xc,
        vk::ACCESS_INDEX_READ | vk::ACCESS_VERTEX_ATTRIBUTE_READ == 0x6,
        vk::ACCESS_TRANSFER_READ | vk::ACCESS_TRANSFER_WRITE == 0x1800,
        vk::ACCESS_HOST_READ | vk::ACCESS_HOST_WRITE == 0x6000,
        vk::ACCESS_COMMAND_PREPROCESS_READ_NV | vk::ACCESS_COMMAND_PREPROCESS_WRITE_NV == 0x60000,
        vk::ACCESS_ACCELERATION_STRUCTURE_READ_KHR | vk::ACCESS_ACCELERATION_STRUCTURE_WRITE_KHR
            | vk::ACCESS_TRANSFER_WRITE | vk::ACCESS_MEMORY_READ == 0x609000,
        vk::ACCESS_UNIFORM_READ | vk::ACCESS_SHADER_READ | vk::ACCESS_SHADER_WRITE
            | vk::ACCESS_INPUT_ATTACHMENT_READ | vk::ACCESS_ACCELERATION_STRUCTURE_READ_KHR
            == 0x200078,
        write_bits() == 0x455540,
{
    assert(0x100u32 | 0x200u32 == 0x300 && 0x200u32 | 0x400u32 == 0x600 && 0x80u32 | 0x100u32
        == 0x180 && 0x20u32 | 0x40u32 == 0x60 && 0x8000u32 | 0x10000u32 == 0x18000 && 0x8u32
        | 0x4u32 == 0xc && 0x2u32 | 0x4u32 == 0x6 && 0x800u32 | 0x1000u32 == 0x1800 && 0x2000u32
        | 0x4000u32 == 0x6000 && 0x20000u32 | 0x40000u32 == 0x60000 && 0x200000u32 | 0x400000u32
        | 0x1000u32 | 0x8000u32 == 0x609000 && 0x8u32 | 0x20u32 | 0x40u32 | 0x10u32 | 0x200000u32
        == 0x200078 && 0x40u32 | 0x100u32 | 0x400u32 | 0x1000u32 | 0x4000u32 | 0x10000u32
        | 0x40000u32 | 0x400000u32 == 0x455540) by (bit_vector);
}

/// The stages of an access can perform all of its memory accesses, and there are some of both, or
/// none of either.
pub proof fn stages_perform_accesses(access: AccessType)
    ensures
        access.accesses() & performable(access.stages()) == access.accesses(),
        access.stages() == 0 <==> access.accesses() == 0,
        access.stages() == 0 <==> access == AccessType::Nothing || access == AccessType::Present,
{
    let performed = access.accesses();
    lemma_masks();
    assert(performed & 0xffff_ffffu32 == performed) by (bit_vector);
    assert(0u32 & 0u32 == 0 && vk::ACCESS_INDIRECT_COMMAND_READ & 0x1u32 == vk::ACCESS_INDIRECT_COMMAND_READ && vk::ACCESS_INDEX_READ & 0x6u32 == vk::ACCESS_INDEX_READ && vk::ACCESS_VERTEX_ATTRIBUTE_READ & 0x6u32 == vk::ACCESS_VERTEX_ATTRIBUTE_READ && vk::ACCESS_DEPTH_STENCIL_ATTACHMENT_READ & 0x600u32 == vk::ACCESS_DEPTH_STENCIL_ATTACHMENT_READ && vk::ACCESS_DEPTH_STENCIL_ATTACHMENT_WRITE & 0x600u32 == vk::ACCESS_DEPTH_STENCIL_ATTACHMENT_WRITE && 0x600u32 & 0x600u32 == 0x600u32 && vk::ACCESS_COLOR_ATTACHMENT_READ & 0x180u32 == vk::ACCESS_COLOR_ATTACHMENT_READ && vk::ACCESS_COLOR_ATTACHMENT_WRITE & 0x180u32 == vk::ACCESS_COLOR_ATTACHMENT_WRITE && 0x180u32 & 0x180u32 == 0x180u32 && vk::ACCESS_TRANSFER_READ & 0x1800u32 == vk::ACCESS_TRANSFER_READ && vk::ACCESS_TRANSFER_WRITE & 0x1800u32 == vk::ACCESS_TRANSFER_WRITE && vk::ACCESS_HOST_READ & 0x6000u32 == vk::ACCESS_HOST_READ && vk::ACCESS_HOST_WRITE & 0x6000u32 == vk::ACCESS_HOST_WRITE && vk::ACCESS_COMMAND_PREPROCESS_READ_NV & 0x60000u32 == vk::ACCESS_COMMAND_PREPROCESS_READ_NV && vk::ACCESS_COMMAND_PREPROCESS_WRITE_NV & 0x60000u32 == vk::ACCESS_COMMAND_PREPROCESS_WRITE_NV && vk::ACCESS_ACCELERATION_STRUCTURE_READ_KHR & 0x609000u32 == vk::ACCESS_ACCELERATION_STRUCTURE_READ_KHR && vk::ACCESS_ACCELERATION_STRUCTURE_WRITE_KHR & 0x609000u32 == vk::ACCESS_ACCELERATION_STRUCTURE_WRITE_KHR && vk::ACCESS_TRANSFER_WRITE & 0x609000u32 == vk::ACCESS_TRANSFER_WRITE && vk::ACCESS_MEMORY_READ & 0x609000u32 == vk::ACCESS_MEMORY_READ && vk::ACCESS_UNIFORM_READ & 0x200078u32 == vk::ACCESS_UNIFORM_READ && vk::ACCESS_SHADER_READ & 0x200078u32 == vk::ACCESS_SHADER_READ && vk::ACCESS_SHADER_WRITE & 0x200078u32 == vk::ACCESS_SHADER_WRITE && 0x60u32 & 0x200078u32 == 0x60u32 && vk::ACCESS_INPUT_ATTACHMENT_READ & 0x200078u32 == vk::ACCESS_INPUT_ATTACHMENT_READ && vk::ACCESS_ACCELERATION_STRUCTURE_READ_KHR & 0x200078u32 == vk::ACCESS_ACCELERATION_STRUCTURE_READ_KHR) by (bit_vector);
}

/// What a shader reads is sampled, or a uniform, or something else, and never two of these; and it
/// is performed by a stage that runs shaders, or by any stage.
pub proof fn shader_reads_are_apart(access: AccessType)
    ensures
        !(access.samples() && access.reads_uniforms()),
        !(access.samples() && access.reads_other()),
        !(access.reads_uniforms() && access.reads_other()),
        access.samples() || access.reads_other() ==> access.accesses() == vk::ACCESS_SHADER_READ,
        access.samples() || access.reads_uniforms() || access.reads_other() ==> !access.writes()
            && (runs_shaders(access.stages()) || access.stages()
            == vk::PIPELINE_STAGE_ALL_COMMANDS),
        access.accesses() == vk::ACCESS_SHADER_READ && access.stages()
            != vk::PIPELINE_STAGE_ALL_COMMANDS ==> access.samples() || access.reads_uniforms()
            || access.reads_other(),
        access.accesses() == vk::ACCESS_UNIFORM_READ ==> access.reads_uniforms(),
{
    lemma_masks();
}

/// Whether two accesses are performed by the same stages.
pub open spec fn same_stages(a: AccessType, b: AccessType) -> bool {
    a.stages() == b.stages()
}

/// What shaders of one kind read and write, they read and write in one stage, which is that of no
/// other kind of shader.
pub proof fn shaders_have_stages_of_their_own(a: AccessType, b: AccessType)
    ensures
        a.samples() && b.samples() && same_stages(a, b) ==> a == b,
        a.reads_other() && b.reads_other() && same_stages(a, b) ==> a == b,
        a.samples() ==> exists|c: AccessType| #[trigger] c.reads_other() && same_stages(a, c),
        a.reads_other() ==> exists|c: AccessType| #[trigger] c.samples() && same_stages(a, c),
        a.reads_uniforms() ==> exists|c: AccessType| #[trigger] c.samples() && same_stages(a, c),
{
    let other = match a {
        AccessType::VertexShaderReadSampledImageOrUniformTexelBuffer => {
            AccessType::VertexShaderReadOther
        },
        AccessType::MeshShaderReadSampledImageOrUniformTexelBuffer => {
            AccessType::MeshShaderReadOther
        },
        AccessType::TaskShaderReadSampledImageOrUniformTexelBuffer => {
            AccessType::TaskShaderReadOther
        },
        AccessType::TessellationControlShaderReadSampledImageOrUniformTexelBuffer => {
            AccessType::TessellationControlShaderReadOther
        },
        AccessType::TessellationEvaluationShaderReadSampledImageOrUniformTexelBuffer => {
            AccessType::TessellationEvaluationShaderReadOther
        },
        AccessType::GeometryShaderReadSampledImageOrUniformTexelBuffer => {
            AccessType::GeometryShaderReadOther
        },
        AccessType::FragmentShaderReadSampledImageOrUniformTexelBuffer => {
            AccessType::FragmentShaderReadOther
        },
        AccessType::ComputeShaderReadSampledImageOrUniformTexelBuffer => {
            AccessType::ComputeShaderReadOther
        },
        AccessType::RayTracingShaderReadSampledImageOrUniformTexelBuffer => {
            AccessType::RayTracingShaderReadOther
        },
        _ => AccessType::AnyShaderReadOther,
    };
    assert(other.reads_other());
    let sampled = match a {
        AccessType::VertexShaderReadOther | AccessType::VertexShaderReadUniformBuffer => {
            AccessType::VertexShaderReadSampledImageOrUniformTexelBuffer
        },
        AccessType::MeshShaderReadOther | AccessType::MeshShaderReadUniformBuffer => {
            AccessType::MeshShaderReadSampledImageOrUniformTexelBuffer
        },
        AccessType::TaskShaderReadOther | AccessType::TaskShaderReadUniformBuffer => {
            AccessType::TaskShaderReadSampledImageOrUniformTexelBuffer
        },
        AccessType::TessellationControlShaderReadOther
        | AccessType::TessellationControlShaderReadUniformBuffer => {
            AccessType::TessellationControlShaderReadSampledImageOrUniformTexelBuffer
        },
        AccessType::TessellationEvaluationShaderReadOther
        | AccessType::TessellationEvaluationShaderReadUniformBuffer => {
            AccessType::TessellationEvaluationShaderReadSampledImageOrUniformTexelBuffer
        },
        AccessType::GeometryShaderReadOther | AccessType::GeometryShaderReadUniformBuffer => {
            AccessType::GeometryShaderReadSampledImageOrUniformTexelBuffer
        },
        AccessType::FragmentShaderReadOther | AccessType::FragmentShaderReadUniformBuffer => {
            AccessType::FragmentShaderReadSampledImageOrUniformTexelBuffer
        },
        AccessType::ComputeShaderReadOther | AccessType::ComputeShaderReadUniformBuffer => {
            AccessType::ComputeShaderReadSampledImageOrUniformTexelBuffer
        },
        AccessType::RayTracingShaderReadOther => {
            AccessType::RayTracingShaderReadSampledImageOrUniformTexelBuffer
        },
        _ => AccessType::AnyShaderReadSampledImageOrUniformTexelBuffer,
    };
    assert(sampled.samples());
}

/// Accesses that combine two others perform what both perform, and in the same stages.
pub proof fn combined_accesses_perform_both()
    ensures
        AccessType::ColorAttachmentReadWrite.accesses()
            == AccessType::ColorAttachmentRead.accesses()
            | AccessType::ColorAttachmentWrite.accesses(),
        AccessType::DepthStencilAttachmentReadWrite.accesses()
            == AccessType::DepthStencilAttachmentRead.accesses()
            | AccessType::DepthStencilAttachmentWrite.accesses(),
        AccessType::ComputeShaderReadWrite.accesses()
            == AccessType::ComputeShaderReadOther.accesses()
            | AccessType::ComputeShaderWrite.accesses(),
        AccessType::AnyShaderReadUniformBufferOrVertexBuffer.accesses()
            == AccessType::AnyShaderReadUniformBuffer.accesses()
            | AccessType::VertexBuffer.accesses(),
        same_stages(AccessType::ColorAttachmentReadWrite, AccessType::ColorAttachmentRead),
        same_stages(AccessType::ColorAttachmentReadWrite, AccessType::ColorAttachmentWrite),
        same_stages(
            AccessType::DepthStencilAttachmentReadWrite,
            AccessType::DepthStencilAttachmentRead,
        ),
        same_stages(
            AccessType::DepthStencilAttachmentReadWrite,
            AccessType::DepthStencilAttachmentWrite,
        ),
        same_stages(AccessType::ComputeShaderReadWrite, AccessType::ComputeShaderReadOther),
        same_stages(AccessType::ComputeShaderReadWrite, AccessType::ComputeShaderWrite),
{
}

} // verus!
