//! The Vulkan numbers that the driver's rules refer to.
//!
//! Bit masks and enumerants are held as the plain integers that the Vulkan API assigns to them.

use vstd::prelude::*;

verus! {

// Pipeline stages
pub const PIPELINE_STAGE_TOP_OF_PIPE: u32 = 0x1;
pub const PIPELINE_STAGE_DRAW_INDIRECT: u32 = 0x2;
pub const PIPELINE_STAGE_VERTEX_INPUT: u32 = 0x4;
pub const PIPELINE_STAGE_VERTEX_SHADER: u32 = 0x8;
pub const PIPELINE_STAGE_TESSELLATION_CONTROL_SHADER: u32 = 0x10;
pub const PIPELINE_STAGE_TESSELLATION_EVALUATION_SHADER: u32 = 0x20;
pub const PIPELINE_STAGE_GEOMETRY_SHADER: u32 = 0x40;
pub const PIPELINE_STAGE_FRAGMENT_SHADER: u32 = 0x80;
pub const PIPELINE_STAGE_EARLY_FRAGMENT_TESTS: u32 = 0x100;
pub const PIPELINE_STAGE_LATE_FRAGMENT_TESTS: u32 = 0x200;
pub const PIPELINE_STAGE_COLOR_ATTACHMENT_OUTPUT: u32 = 0x400;
pub const PIPELINE_STAGE_COMPUTE_SHADER: u32 = 0x800;
pub const PIPELINE_STAGE_TRANSFER: u32 = 0x1000;
pub const PIPELINE_STAGE_HOST: u32 = 0x4000;
pub const PIPELINE_STAGE_ALL_COMMANDS: u32 = 0x10000;
pub const PIPELINE_STAGE_COMMAND_PREPROCESS_NV: u32 = 0x20000;
pub const PIPELINE_STAGE_TASK_SHADER_EXT: u32 = 0x80000;
pub const PIPELINE_STAGE_MESH_SHADER_EXT: u32 = 0x100000;
pub const PIPELINE_STAGE_RAY_TRACING_SHADER_KHR: u32 = 0x200000;
pub const PIPELINE_STAGE_ACCELERATION_STRUCTURE_BUILD_KHR: u32 = 0x2000000;

// Memory accesses
pub const ACCESS_INDIRECT_COMMAND_READ: u32 = 0x1;
pub const ACCESS_INDEX_READ: u32 = 0x2;
pub const ACCESS_VERTEX_ATTRIBUTE_READ: u32 = 0x4;
pub const ACCESS_UNIFORM_READ: u32 = 0x8;
pub const ACCESS_INPUT_ATTACHMENT_READ: u32 = 0x10;
pub const ACCESS_SHADER_READ: u32 = 0x20;
pub const ACCESS_SHADER_WRITE: u32 = 0x40;
pub const ACCESS_COLOR_ATTACHMENT_READ: u32 = 0x80;
pub const ACCESS_COLOR_ATTACHMENT_WRITE: u32 = 0x100;
pub const ACCESS_DEPTH_STENCIL_ATTACHMENT_READ: u32 = 0x200;
pub const ACCESS_DEPTH_STENCIL_ATTACHMENT_WRITE: u32 = 0x400;
pub const ACCESS_TRANSFER_READ: u32 = 0x800;
pub const ACCESS_TRANSFER_WRITE: u32 = 0x1000;
pub const ACCESS_HOST_READ: u32 = 0x2000;
pub const ACCESS_HOST_WRITE: u32 = 0x4000;
pub const ACCESS_MEMORY_READ: u32 = 0x8000;
pub const ACCESS_MEMORY_WRITE: u32 = 0x10000;
pub const ACCESS_COMMAND_PREPROCESS_READ_NV: u32 = 0x20000;
pub const ACCESS_COMMAND_PREPROCESS_WRITE_NV: u32 = 0x40000;
pub const ACCESS_ACCELERATION_STRUCTURE_READ_KHR: u32 = 0x200000;
pub const ACCESS_ACCELERATION_STRUCTURE_WRITE_KHR: u32 = 0x400000;

// Synchronization2 stages
pub const PIPELINE_STAGE_2_ACCELERATION_STRUCTURE_BUILD_KHR: u64 = 0x2000000;
pub const PIPELINE_STAGE_2_MICROMAP_BUILD_EXT: u64 = 0x40000000;

// Synchronization2 accesses
pub const ACCESS_2_SHADER_READ: u64 = 0x20;
pub const ACCESS_2_TRANSFER_READ: u64 = 0x800;
pub const ACCESS_2_TRANSFER_WRITE: u64 = 0x1000;
pub const ACCESS_2_MICROMAP_READ_EXT: u64 = 0x100000000000;
pub const ACCESS_2_MICROMAP_WRITE_EXT: u64 = 0x200000000000;

// Results
pub const SUCCESS: i32 = 0;
pub const NOT_READY: i32 = 1;
pub const TIMEOUT: i32 = 2;
pub const INCOMPLETE: i32 = 5;
pub const OPERATION_NOT_DEFERRED_KHR: i32 = 1000268003;
pub const ERROR_OUT_OF_HOST_MEMORY: i32 = -1;
pub const ERROR_OUT_OF_DEVICE_MEMORY: i32 = -2;
pub const ERROR_INITIALIZATION_FAILED: i32 = -3;
pub const ERROR_DEVICE_LOST: i32 = -4;
pub const ERROR_LAYER_NOT_PRESENT: i32 = -6;
pub const ERROR_EXTENSION_NOT_PRESENT: i32 = -7;
pub const ERROR_FEATURE_NOT_PRESENT: i32 = -8;
pub const ERROR_INCOMPATIBLE_DRIVER: i32 = -9;
pub const ERROR_FORMAT_NOT_SUPPORTED: i32 = -11;
pub const ERROR_FRAGMENTED_POOL: i32 = -12;
pub const ERROR_OUT_OF_POOL_MEMORY: i32 = -1000069000;
pub const ERROR_VALIDATION_FAILED_EXT: i32 = -1000011001;
pub const ERROR_INVALID_OPAQUE_CAPTURE_ADDRESS: i32 = -1000257000;
pub const ERROR_INVALID_VIDEO_STD_PARAMETERS_KHR: i32 = -1000299000;

// Buffer usages
pub const BUFFER_USAGE_TRANSFER_SRC: u32 = 0x1;
pub const BUFFER_USAGE_TRANSFER_DST: u32 = 0x2;
pub const BUFFER_USAGE_UNIFORM_BUFFER: u32 = 0x10;
pub const BUFFER_USAGE_STORAGE_BUFFER: u32 = 0x20;
pub const BUFFER_USAGE_SHADER_DEVICE_ADDRESS: u32 = 0x20000;
pub const BUFFER_USAGE_ACCELERATION_STRUCTURE_STORAGE_KHR: u32 = 0x100000;
pub const BUFFER_USAGE_MICROMAP_STORAGE_EXT: u32 = 0x1000000;

// Sharing modes
pub const SHARING_MODE_EXCLUSIVE: i32 = 0;
pub const SHARING_MODE_CONCURRENT: i32 = 1;

// Image aspects
pub const IMAGE_ASPECT_COLOR: u32 = 0x1;
pub const IMAGE_ASPECT_DEPTH: u32 = 0x2;
pub const IMAGE_ASPECT_STENCIL: u32 = 0x4;

// Image layouts
pub const IMAGE_LAYOUT_UNDEFINED: i32 = 0;
pub const IMAGE_LAYOUT_GENERAL: i32 = 1;
pub const IMAGE_LAYOUT_COLOR_ATTACHMENT_OPTIMAL: i32 = 2;
pub const IMAGE_LAYOUT_DEPTH_STENCIL_ATTACHMENT_OPTIMAL: i32 = 3;
pub const IMAGE_LAYOUT_DEPTH_STENCIL_READ_ONLY_OPTIMAL: i32 = 4;
pub const IMAGE_LAYOUT_SHADER_READ_ONLY_OPTIMAL: i32 = 5;
pub const IMAGE_LAYOUT_TRANSFER_SRC_OPTIMAL: i32 = 6;
pub const IMAGE_LAYOUT_TRANSFER_DST_OPTIMAL: i32 = 7;
pub const IMAGE_LAYOUT_PRESENT_SRC_KHR: i32 = 1000001002;
pub const IMAGE_LAYOUT_DEPTH_READ_ONLY_STENCIL_ATTACHMENT_OPTIMAL: i32 = 1000117000;
pub const IMAGE_LAYOUT_DEPTH_ATTACHMENT_STENCIL_READ_ONLY_OPTIMAL: i32 = 1000117001;
pub const IMAGE_LAYOUT_DEPTH_READ_ONLY_OPTIMAL: i32 = 1000241001;
pub const IMAGE_LAYOUT_STENCIL_READ_ONLY_OPTIMAL: i32 = 1000241003;
pub const IMAGE_LAYOUT_DEPTH_ATTACHMENT_OPTIMAL: i32 = 1000241000;
pub const IMAGE_LAYOUT_STENCIL_ATTACHMENT_OPTIMAL: i32 = 1000241002;

// Image types
pub const IMAGE_TYPE_1D: i32 = 0;
pub const IMAGE_TYPE_2D: i32 = 1;
pub const IMAGE_TYPE_3D: i32 = 2;

// Image view types
pub const IMAGE_VIEW_TYPE_1D: i32 = 0;
pub const IMAGE_VIEW_TYPE_2D: i32 = 1;
pub const IMAGE_VIEW_TYPE_3D: i32 = 2;
pub const IMAGE_VIEW_TYPE_CUBE: i32 = 3;
pub const IMAGE_VIEW_TYPE_1D_ARRAY: i32 = 4;
pub const IMAGE_VIEW_TYPE_2D_ARRAY: i32 = 5;
pub const IMAGE_VIEW_TYPE_CUBE_ARRAY: i32 = 6;

// Image creation flags
pub const IMAGE_CREATE_MUTABLE_FORMAT: u32 = 0x8;
pub const IMAGE_CREATE_CUBE_COMPATIBLE: u32 = 0x10;

// Image tilings
pub const IMAGE_TILING_OPTIMAL: i32 = 0;
pub const IMAGE_TILING_LINEAR: i32 = 1;

// Image usages
pub const IMAGE_USAGE_TRANSFER_SRC: u32 = 0x1;
pub const IMAGE_USAGE_TRANSFER_DST: u32 = 0x2;
pub const IMAGE_USAGE_SAMPLED: u32 = 0x4;
pub const IMAGE_USAGE_STORAGE: u32 = 0x8;
pub const IMAGE_USAGE_COLOR_ATTACHMENT: u32 = 0x10;
pub const IMAGE_USAGE_DEPTH_STENCIL_ATTACHMENT: u32 = 0x20;

// Formats
pub const FORMAT_UNDEFINED: i32 = 0;
pub const FORMAT_R8_UINT: i32 = 13;
pub const FORMAT_R8G8B8A8_UNORM: i32 = 37;
pub const FORMAT_R32_SFLOAT: i32 = 100;
pub const FORMAT_R32G32B32_SFLOAT: i32 = 106;
pub const FORMAT_D16_UNORM: i32 = 124;
pub const FORMAT_X8_D24_UNORM_PACK32: i32 = 125;
pub const FORMAT_D32_SFLOAT: i32 = 126;
pub const FORMAT_S8_UINT: i32 = 127;
pub const FORMAT_D16_UNORM_S8_UINT: i32 = 128;
pub const FORMAT_D24_UNORM_S8_UINT: i32 = 129;
pub const FORMAT_D32_SFLOAT_S8_UINT: i32 = 130;

// Sample counts
pub const SAMPLE_COUNT_1: u32 = 0x1;
pub const SAMPLE_COUNT_2: u32 = 0x2;
pub const SAMPLE_COUNT_4: u32 = 0x4;
pub const SAMPLE_COUNT_8: u32 = 0x8;
pub const SAMPLE_COUNT_16: u32 = 0x10;
pub const SAMPLE_COUNT_32: u32 = 0x20;
pub const SAMPLE_COUNT_64: u32 = 0x40;

// Acceleration structure types
pub const ACCELERATION_STRUCTURE_TYPE_TOP_LEVEL: i32 = 0;
pub const ACCELERATION_STRUCTURE_TYPE_BOTTOM_LEVEL: i32 = 1;
pub const ACCELERATION_STRUCTURE_TYPE_GENERIC: i32 = 2;

// Geometry types
pub const GEOMETRY_TYPE_TRIANGLES: i32 = 0;
pub const GEOMETRY_TYPE_AABBS: i32 = 1;
pub const GEOMETRY_TYPE_INSTANCES: i32 = 2;

// Geometry flags
pub const GEOMETRY_OPAQUE: u32 = 0x1;

// Index types
pub const INDEX_TYPE_UINT16: i32 = 0;
pub const INDEX_TYPE_UINT32: i32 = 1;
pub const INDEX_TYPE_NONE_KHR: i32 = 1000165000;

// Micromap types
pub const MICROMAP_TYPE_OPACITY_MICROMAP: i32 = 0;

// Opacity micromap formats
pub const OPACITY_MICROMAP_FORMAT_2_STATE: i32 = 1;
pub const OPACITY_MICROMAP_FORMAT_4_STATE: i32 = 2;

// Query types
pub const QUERY_TYPE_OCCLUSION: i32 = 0;
pub const QUERY_TYPE_PIPELINE_STATISTICS: i32 = 1;
pub const QUERY_TYPE_TIMESTAMP: i32 = 2;
pub const QUERY_TYPE_MICROMAP_SERIALIZATION_SIZE_EXT: i32 = 1000396000;
pub const QUERY_TYPE_MICROMAP_COMPACTED_SIZE_EXT: i32 = 1000396001;

// Descriptor types
pub const DESCRIPTOR_TYPE_SAMPLER: i32 = 0;
pub const DESCRIPTOR_TYPE_COMBINED_IMAGE_SAMPLER: i32 = 1;
pub const DESCRIPTOR_TYPE_SAMPLED_IMAGE: i32 = 2;
pub const DESCRIPTOR_TYPE_STORAGE_IMAGE: i32 = 3;
pub const DESCRIPTOR_TYPE_UNIFORM_TEXEL_BUFFER: i32 = 4;
pub const DESCRIPTOR_TYPE_STORAGE_TEXEL_BUFFER: i32 = 5;
pub const DESCRIPTOR_TYPE_UNIFORM_BUFFER: i32 = 6;
pub const DESCRIPTOR_TYPE_STORAGE_BUFFER: i32 = 7;
pub const DESCRIPTOR_TYPE_UNIFORM_BUFFER_DYNAMIC: i32 = 8;
pub const DESCRIPTOR_TYPE_STORAGE_BUFFER_DYNAMIC: i32 = 9;
pub const DESCRIPTOR_TYPE_INPUT_ATTACHMENT: i32 = 10;
pub const DESCRIPTOR_TYPE_INLINE_UNIFORM_BLOCK: i32 = 1000138000;
pub const DESCRIPTOR_TYPE_ACCELERATION_STRUCTURE_KHR: i32 = 1000150000;

// Debug message severities
pub const DEBUG_UTILS_MESSAGE_SEVERITY_VERBOSE: u32 = 0x1;
pub const DEBUG_UTILS_MESSAGE_SEVERITY_INFO: u32 = 0x10;
pub const DEBUG_UTILS_MESSAGE_SEVERITY_WARNING: u32 = 0x100;
pub const DEBUG_UTILS_MESSAGE_SEVERITY_ERROR: u32 = 0x1000;

// Command pool flags
pub const COMMAND_POOL_CREATE_TRANSIENT: u32 = 0x1;
pub const COMMAND_POOL_CREATE_RESET_COMMAND_BUFFER: u32 = 0x2;

// Query result flags
pub const QUERY_RESULT_64: u32 = 0x1;
pub const QUERY_RESULT_WAIT: u32 = 0x2;
pub const QUERY_RESULT_WITH_AVAILABILITY: u32 = 0x4;
pub const QUERY_RESULT_PARTIAL: u32 = 0x8;

// Shader stages
pub const SHADER_STAGE_VERTEX: u32 = 0x1;
pub const SHADER_STAGE_TESSELLATION_CONTROL: u32 = 0x2;
pub const SHADER_STAGE_TESSELLATION_EVALUATION: u32 = 0x4;
pub const SHADER_STAGE_GEOMETRY: u32 = 0x8;
pub const SHADER_STAGE_FRAGMENT: u32 = 0x10;
pub const SHADER_STAGE_COMPUTE: u32 = 0x20;

// Blend factors
pub const BLEND_FACTOR_ZERO: i32 = 0;
pub const BLEND_FACTOR_ONE: i32 = 1;
pub const BLEND_FACTOR_SRC_COLOR: i32 = 2;
pub const BLEND_FACTOR_ONE_MINUS_DST_COLOR: i32 = 5;
pub const BLEND_FACTOR_SRC_ALPHA: i32 = 6;
pub const BLEND_FACTOR_ONE_MINUS_SRC_ALPHA: i32 = 7;

// Blend operations
pub const BLEND_OP_ADD: i32 = 0;
pub const BLEND_OP_SUBTRACT: i32 = 1;

// Color components
pub const COLOR_COMPONENT_R: u32 = 0x1;
pub const COLOR_COMPONENT_G: u32 = 0x2;
pub const COLOR_COMPONENT_B: u32 = 0x4;
pub const COLOR_COMPONENT_A: u32 = 0x8;

// Comparisons
pub const COMPARE_OP_NEVER: i32 = 0;
pub const COMPARE_OP_LESS: i32 = 1;

// Stencil operations
pub const STENCIL_OP_KEEP: i32 = 0;
pub const STENCIL_OP_ZERO: i32 = 1;

// Cull modes
pub const CULL_MODE_NONE: u32 = 0x0;
pub const CULL_MODE_FRONT: u32 = 0x1;
pub const CULL_MODE_BACK: u32 = 0x2;

// Front faces
pub const FRONT_FACE_COUNTER_CLOCKWISE: i32 = 0;
pub const FRONT_FACE_CLOCKWISE: i32 = 1;

// Polygon modes
pub const POLYGON_MODE_FILL: i32 = 0;
pub const POLYGON_MODE_LINE: i32 = 1;

// Primitive topologies
pub const PRIMITIVE_TOPOLOGY_POINT_LIST: i32 = 0;
pub const PRIMITIVE_TOPOLOGY_TRIANGLE_LIST: i32 = 3;

// Attachment flags
pub const ATTACHMENT_DESCRIPTION_MAY_ALIAS: u32 = 0x1;

// Attachment load operations
pub const ATTACHMENT_LOAD_OP_LOAD: i32 = 0;
pub const ATTACHMENT_LOAD_OP_CLEAR: i32 = 1;
pub const ATTACHMENT_LOAD_OP_DONT_CARE: i32 = 2;

// Attachment store operations
pub const ATTACHMENT_STORE_OP_STORE: i32 = 0;
pub const ATTACHMENT_STORE_OP_DONT_CARE: i32 = 1;

// Resolve modes
pub const RESOLVE_MODE_NONE: u32 = 0x0;
pub const RESOLVE_MODE_SAMPLE_ZERO: u32 = 0x1;
pub const RESOLVE_MODE_AVERAGE: u32 = 0x2;
pub const RESOLVE_MODE_MIN: u32 = 0x4;
pub const RESOLVE_MODE_MAX: u32 = 0x8;

// Dynamic states
pub const DYNAMIC_STATE_VIEWPORT: i32 = 0;
pub const DYNAMIC_STATE_SCISSOR: i32 = 1;
pub const DYNAMIC_STATE_RAY_TRACING_PIPELINE_STACK_SIZE_KHR: i32 = 1000347000;

// Ray tracing shader group types
pub const RAY_TRACING_SHADER_GROUP_TYPE_GENERAL: i32 = 0;
pub const RAY_TRACING_SHADER_GROUP_TYPE_TRIANGLES_HIT_GROUP: i32 = 1;
pub const RAY_TRACING_SHADER_GROUP_TYPE_PROCEDURAL_HIT_GROUP: i32 = 2;

// Special sizes and counts
pub const WHOLE_SIZE: u64 = 0xffff_ffff_ffff_ffff;
pub const REMAINING_ARRAY_LAYERS: u32 = 0xffff_ffff;
pub const REMAINING_MIP_LEVELS: u32 = 0xffff_ffff;

// Shader groups
pub const SHADER_UNUSED_KHR: u32 = 0xffff_ffff;

} // verus!
