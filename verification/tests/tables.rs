use ash::vk as ash_vk;
use vk_driver::access::{
    access_type_from_u8, access_type_into_u8, is_write_access, pipeline_stage_access_flags, AccessType,
};
use vk_driver::image_sync::access_type_to_layout;
use vk_driver::vk;
use vk_sync_fork::{get_memory_barrier, GlobalBarrier};

#[test]
fn pipeline_stages_have_their_numbers() {
    assert_eq!(vk::PIPELINE_STAGE_TOP_OF_PIPE, ash_vk::PipelineStageFlags::TOP_OF_PIPE.as_raw());
    assert_eq!(vk::PIPELINE_STAGE_DRAW_INDIRECT, ash_vk::PipelineStageFlags::DRAW_INDIRECT.as_raw());
    assert_eq!(vk::PIPELINE_STAGE_VERTEX_INPUT, ash_vk::PipelineStageFlags::VERTEX_INPUT.as_raw());
    assert_eq!(vk::PIPELINE_STAGE_VERTEX_SHADER, ash_vk::PipelineStageFlags::VERTEX_SHADER.as_raw());
    assert_eq!(vk::PIPELINE_STAGE_TESSELLATION_CONTROL_SHADER, ash_vk::PipelineStageFlags::TESSELLATION_CONTROL_SHADER.as_raw());
    assert_eq!(vk::PIPELINE_STAGE_TESSELLATION_EVALUATION_SHADER, ash_vk::PipelineStageFlags::TESSELLATION_EVALUATION_SHADER.as_raw());
    assert_eq!(vk::PIPELINE_STAGE_GEOMETRY_SHADER, ash_vk::PipelineStageFlags::GEOMETRY_SHADER.as_raw());
    assert_eq!(vk::PIPELINE_STAGE_FRAGMENT_SHADER, ash_vk::PipelineStageFlags::FRAGMENT_SHADER.as_raw());
    assert_eq!(vk::PIPELINE_STAGE_EARLY_FRAGMENT_TESTS, ash_vk::PipelineStageFlags::EARLY_FRAGMENT_TESTS.as_raw());
    assert_eq!(vk::PIPELINE_STAGE_LATE_FRAGMENT_TESTS, ash_vk::PipelineStageFlags::LATE_FRAGMENT_TESTS.as_raw());
    assert_eq!(vk::PIPELINE_STAGE_COLOR_ATTACHMENT_OUTPUT, ash_vk::PipelineStageFlags::COLOR_ATTACHMENT_OUTPUT.as_raw());
    assert_eq!(vk::PIPELINE_STAGE_COMPUTE_SHADER, ash_vk::PipelineStageFlags::COMPUTE_SHADER.as_raw());
    assert_eq!(vk::PIPELINE_STAGE_TRANSFER, ash_vk::PipelineStageFlags::TRANSFER.as_raw());
    assert_eq!(vk::PIPELINE_STAGE_HOST, ash_vk::PipelineStageFlags::HOST.as_raw());
    assert_eq!(vk::PIPELINE_STAGE_ALL_COMMANDS, ash_vk::PipelineStageFlags::ALL_COMMANDS.as_raw());
    assert_eq!(vk::PIPELINE_STAGE_COMMAND_PREPROCESS_NV, ash_vk::PipelineStageFlags::COMMAND_PREPROCESS_NV.as_raw());
    assert_eq!(vk::PIPELINE_STAGE_TASK_SHADER_EXT, ash_vk::PipelineStageFlags::TASK_SHADER_EXT.as_raw());
    assert_eq!(vk::PIPELINE_STAGE_MESH_SHADER_EXT, ash_vk::PipelineStageFlags::MESH_SHADER_EXT.as_raw());
    assert_eq!(vk::PIPELINE_STAGE_RAY_TRACING_SHADER_KHR, ash_vk::PipelineStageFlags::RAY_TRACING_SHADER_KHR.as_raw());
    assert_eq!(vk::PIPELINE_STAGE_ACCELERATION_STRUCTURE_BUILD_KHR, ash_vk::PipelineStageFlags::ACCELERATION_STRUCTURE_BUILD_KHR.as_raw());
}

#[test]
fn memory_accesses_have_their_numbers() {
    assert_eq!(vk::ACCESS_INDIRECT_COMMAND_READ, ash_vk::AccessFlags::INDIRECT_COMMAND_READ.as_raw());
    assert_eq!(vk::ACCESS_INDEX_READ, ash_vk::AccessFlags::INDEX_READ.as_raw());
    assert_eq!(vk::ACCESS_VERTEX_ATTRIBUTE_READ, ash_vk::AccessFlags::VERTEX_ATTRIBUTE_READ.as_raw());
    assert_eq!(vk::ACCESS_UNIFORM_READ, ash_vk::AccessFlags::UNIFORM_READ.as_raw());
    assert_eq!(vk::ACCESS_INPUT_ATTACHMENT_READ, ash_vk::AccessFlags::INPUT_ATTACHMENT_READ.as_raw());
    assert_eq!(vk::ACCESS_SHADER_READ, ash_vk::AccessFlags::SHADER_READ.as_raw());
    assert_eq!(vk::ACCESS_SHADER_WRITE, ash_vk::AccessFlags::SHADER_WRITE.as_raw());
    assert_eq!(vk::ACCESS_COLOR_ATTACHMENT_READ, ash_vk::AccessFlags::COLOR_ATTACHMENT_READ.as_raw());
    assert_eq!(vk::ACCESS_COLOR_ATTACHMENT_WRITE, ash_vk::AccessFlags::COLOR_ATTACHMENT_WRITE.as_raw());
    assert_eq!(vk::ACCESS_DEPTH_STENCIL_ATTACHMENT_READ, ash_vk::AccessFlags::DEPTH_STENCIL_ATTACHMENT_READ.as_raw());
    assert_eq!(vk::ACCESS_DEPTH_STENCIL_ATTACHMENT_WRITE, ash_vk::AccessFlags::DEPTH_STENCIL_ATTACHMENT_WRITE.as_raw());
    assert_eq!(vk::ACCESS_TRANSFER_READ, ash_vk::AccessFlags::TRANSFER_READ.as_raw());
    assert_eq!(vk::ACCESS_TRANSFER_WRITE, ash_vk::AccessFlags::TRANSFER_WRITE.as_raw());
    assert_eq!(vk::ACCESS_HOST_READ, ash_vk::AccessFlags::HOST_READ.as_raw());
    assert_eq!(vk::ACCESS_HOST_WRITE, ash_vk::AccessFlags::HOST_WRITE.as_raw());
    assert_eq!(vk::ACCESS_MEMORY_READ, ash_vk::AccessFlags::MEMORY_READ.as_raw());
    assert_eq!(vk::ACCESS_MEMORY_WRITE, ash_vk::AccessFlags::MEMORY_WRITE.as_raw());
    assert_eq!(vk::ACCESS_COMMAND_PREPROCESS_READ_NV, ash_vk::AccessFlags::COMMAND_PREPROCESS_READ_NV.as_raw());
    assert_eq!(vk::ACCESS_COMMAND_PREPROCESS_WRITE_NV, ash_vk::AccessFlags::COMMAND_PREPROCESS_WRITE_NV.as_raw());
    assert_eq!(vk::ACCESS_ACCELERATION_STRUCTURE_READ_KHR, ash_vk::AccessFlags::ACCELERATION_STRUCTURE_READ_KHR.as_raw());
    assert_eq!(vk::ACCESS_ACCELERATION_STRUCTURE_WRITE_KHR, ash_vk::AccessFlags::ACCELERATION_STRUCTURE_WRITE_KHR.as_raw());
}

#[test]
fn synchronization2_stages_have_their_numbers() {
    assert_eq!(vk::PIPELINE_STAGE_2_ACCELERATION_STRUCTURE_BUILD_KHR, ash_vk::PipelineStageFlags2::ACCELERATION_STRUCTURE_BUILD_KHR.as_raw());
    assert_eq!(vk::PIPELINE_STAGE_2_MICROMAP_BUILD_EXT, ash_vk::PipelineStageFlags2::MICROMAP_BUILD_EXT.as_raw());
}

#[test]
fn synchronization2_accesses_have_their_numbers() {
    assert_eq!(vk::ACCESS_2_SHADER_READ, ash_vk::AccessFlags2::SHADER_READ.as_raw());
    assert_eq!(vk::ACCESS_2_TRANSFER_READ, ash_vk::AccessFlags2::TRANSFER_READ.as_raw());
    assert_eq!(vk::ACCESS_2_TRANSFER_WRITE, ash_vk::AccessFlags2::TRANSFER_WRITE.as_raw());
    assert_eq!(vk::ACCESS_2_MICROMAP_READ_EXT, ash_vk::AccessFlags2::MICROMAP_READ_EXT.as_raw());
    assert_eq!(vk::ACCESS_2_MICROMAP_WRITE_EXT, ash_vk::AccessFlags2::MICROMAP_WRITE_EXT.as_raw());
}

#[test]
fn results_have_their_numbers() {
    assert_eq!(vk::SUCCESS, ash_vk::Result::SUCCESS.as_raw());
    assert_eq!(vk::NOT_READY, ash_vk::Result::NOT_READY.as_raw());
    assert_eq!(vk::TIMEOUT, ash_vk::Result::TIMEOUT.as_raw());
    assert_eq!(vk::INCOMPLETE, ash_vk::Result::INCOMPLETE.as_raw());
    assert_eq!(vk::OPERATION_NOT_DEFERRED_KHR, ash_vk::Result::OPERATION_NOT_DEFERRED_KHR.as_raw());
    assert_eq!(vk::ERROR_OUT_OF_HOST_MEMORY, ash_vk::Result::ERROR_OUT_OF_HOST_MEMORY.as_raw());
    assert_eq!(vk::ERROR_OUT_OF_DEVICE_MEMORY, ash_vk::Result::ERROR_OUT_OF_DEVICE_MEMORY.as_raw());
    assert_eq!(vk::ERROR_INITIALIZATION_FAILED, ash_vk::Result::ERROR_INITIALIZATION_FAILED.as_raw());
    assert_eq!(vk::ERROR_DEVICE_LOST, ash_vk::Result::ERROR_DEVICE_LOST.as_raw());
    assert_eq!(vk::ERROR_LAYER_NOT_PRESENT, ash_vk::Result::ERROR_LAYER_NOT_PRESENT.as_raw());
    assert_eq!(vk::ERROR_EXTENSION_NOT_PRESENT, ash_vk::Result::ERROR_EXTENSION_NOT_PRESENT.as_raw());
    assert_eq!(vk::ERROR_FEATURE_NOT_PRESENT, ash_vk::Result::ERROR_FEATURE_NOT_PRESENT.as_raw());
    assert_eq!(vk::ERROR_INCOMPATIBLE_DRIVER, ash_vk::Result::ERROR_INCOMPATIBLE_DRIVER.as_raw());
    assert_eq!(vk::ERROR_FORMAT_NOT_SUPPORTED, ash_vk::Result::ERROR_FORMAT_NOT_SUPPORTED.as_raw());
    assert_eq!(vk::ERROR_FRAGMENTED_POOL, ash_vk::Result::ERROR_FRAGMENTED_POOL.as_raw());
    assert_eq!(vk::ERROR_OUT_OF_POOL_MEMORY, ash_vk::Result::ERROR_OUT_OF_POOL_MEMORY.as_raw());
    assert_eq!(vk::ERROR_VALIDATION_FAILED_EXT, ash_vk::Result::ERROR_VALIDATION_FAILED_EXT.as_raw());
    assert_eq!(vk::ERROR_INVALID_OPAQUE_CAPTURE_ADDRESS, ash_vk::Result::ERROR_INVALID_OPAQUE_CAPTURE_ADDRESS.as_raw());
    assert_eq!(vk::ERROR_INVALID_VIDEO_STD_PARAMETERS_KHR, ash_vk::Result::ERROR_INVALID_VIDEO_STD_PARAMETERS_KHR.as_raw());
}

#[test]
fn buffer_usages_have_their_numbers() {
    assert_eq!(vk::BUFFER_USAGE_TRANSFER_SRC, ash_vk::BufferUsageFlags::TRANSFER_SRC.as_raw());
    assert_eq!(vk::BUFFER_USAGE_TRANSFER_DST, ash_vk::BufferUsageFlags::TRANSFER_DST.as_raw());
    assert_eq!(vk::BUFFER_USAGE_UNIFORM_BUFFER, ash_vk::BufferUsageFlags::UNIFORM_BUFFER.as_raw());
    assert_eq!(vk::BUFFER_USAGE_STORAGE_BUFFER, ash_vk::BufferUsageFlags::STORAGE_BUFFER.as_raw());
    assert_eq!(vk::BUFFER_USAGE_SHADER_DEVICE_ADDRESS, ash_vk::BufferUsageFlags::SHADER_DEVICE_ADDRESS.as_raw());
    assert_eq!(vk::BUFFER_USAGE_ACCELERATION_STRUCTURE_STORAGE_KHR, ash_vk::BufferUsageFlags::ACCELERATION_STRUCTURE_STORAGE_KHR.as_raw());
    assert_eq!(vk::BUFFER_USAGE_MICROMAP_STORAGE_EXT, ash_vk::BufferUsageFlags::MICROMAP_STORAGE_EXT.as_raw());
}

#[test]
fn sharing_modes_have_their_numbers() {
    assert_eq!(vk::SHARING_MODE_EXCLUSIVE, ash_vk::SharingMode::EXCLUSIVE.as_raw());
    assert_eq!(vk::SHARING_MODE_CONCURRENT, ash_vk::SharingMode::CONCURRENT.as_raw());
}

#[test]
fn image_aspects_have_their_numbers() {
    assert_eq!(vk::IMAGE_ASPECT_COLOR, ash_vk::ImageAspectFlags::COLOR.as_raw());
    assert_eq!(vk::IMAGE_ASPECT_DEPTH, ash_vk::ImageAspectFlags::DEPTH.as_raw());
    assert_eq!(vk::IMAGE_ASPECT_STENCIL, ash_vk::ImageAspectFlags::STENCIL.as_raw());
}

#[test]
fn image_layouts_have_their_numbers() {
    assert_eq!(vk::IMAGE_LAYOUT_UNDEFINED, ash_vk::ImageLayout::UNDEFINED.as_raw());
    assert_eq!(vk::IMAGE_LAYOUT_GENERAL, ash_vk::ImageLayout::GENERAL.as_raw());
    assert_eq!(vk::IMAGE_LAYOUT_COLOR_ATTACHMENT_OPTIMAL, ash_vk::ImageLayout::COLOR_ATTACHMENT_OPTIMAL.as_raw());
    assert_eq!(vk::IMAGE_LAYOUT_DEPTH_STENCIL_ATTACHMENT_OPTIMAL, ash_vk::ImageLayout::DEPTH_STENCIL_ATTACHMENT_OPTIMAL.as_raw());
    assert_eq!(vk::IMAGE_LAYOUT_DEPTH_STENCIL_READ_ONLY_OPTIMAL, ash_vk::ImageLayout::DEPTH_STENCIL_READ_ONLY_OPTIMAL.as_raw());
    assert_eq!(vk::IMAGE_LAYOUT_SHADER_READ_ONLY_OPTIMAL, ash_vk::ImageLayout::SHADER_READ_ONLY_OPTIMAL.as_raw());
    assert_eq!(vk::IMAGE_LAYOUT_TRANSFER_SRC_OPTIMAL, ash_vk::ImageLayout::TRANSFER_SRC_OPTIMAL.as_raw());
    assert_eq!(vk::IMAGE_LAYOUT_TRANSFER_DST_OPTIMAL, ash_vk::ImageLayout::TRANSFER_DST_OPTIMAL.as_raw());
    assert_eq!(vk::IMAGE_LAYOUT_PRESENT_SRC_KHR, ash_vk::ImageLayout::PRESENT_SRC_KHR.as_raw());
    assert_eq!(vk::IMAGE_LAYOUT_DEPTH_READ_ONLY_STENCIL_ATTACHMENT_OPTIMAL, ash_vk::ImageLayout::DEPTH_READ_ONLY_STENCIL_ATTACHMENT_OPTIMAL.as_raw());
    assert_eq!(vk::IMAGE_LAYOUT_DEPTH_ATTACHMENT_STENCIL_READ_ONLY_OPTIMAL, ash_vk::ImageLayout::DEPTH_ATTACHMENT_STENCIL_READ_ONLY_OPTIMAL.as_raw());
    assert_eq!(vk::IMAGE_LAYOUT_DEPTH_READ_ONLY_OPTIMAL, ash_vk::ImageLayout::DEPTH_READ_ONLY_OPTIMAL.as_raw());
    assert_eq!(vk::IMAGE_LAYOUT_STENCIL_READ_ONLY_OPTIMAL, ash_vk::ImageLayout::STENCIL_READ_ONLY_OPTIMAL.as_raw());
    assert_eq!(vk::IMAGE_LAYOUT_DEPTH_ATTACHMENT_OPTIMAL, ash_vk::ImageLayout::DEPTH_ATTACHMENT_OPTIMAL.as_raw());
    assert_eq!(vk::IMAGE_LAYOUT_STENCIL_ATTACHMENT_OPTIMAL, ash_vk::ImageLayout::STENCIL_ATTACHMENT_OPTIMAL.as_raw());
}

#[test]
fn image_types_have_their_numbers() {
    assert_eq!(vk::IMAGE_TYPE_1D, ash_vk::ImageType::TYPE_1D.as_raw());
    assert_eq!(vk::IMAGE_TYPE_2D, ash_vk::ImageType::TYPE_2D.as_raw());
    assert_eq!(vk::IMAGE_TYPE_3D, ash_vk::ImageType::TYPE_3D.as_raw());
}

#[test]
fn image_view_types_have_their_numbers() {
    assert_eq!(vk::IMAGE_VIEW_TYPE_1D, ash_vk::ImageViewType::TYPE_1D.as_raw());
    assert_eq!(vk::IMAGE_VIEW_TYPE_2D, ash_vk::ImageViewType::TYPE_2D.as_raw());
    assert_eq!(vk::IMAGE_VIEW_TYPE_3D, ash_vk::ImageViewType::TYPE_3D.as_raw());
    assert_eq!(vk::IMAGE_VIEW_TYPE_CUBE, ash_vk::ImageViewType::CUBE.as_raw());
    assert_eq!(vk::IMAGE_VIEW_TYPE_1D_ARRAY, ash_vk::ImageViewType::TYPE_1D_ARRAY.as_raw());
    assert_eq!(vk::IMAGE_VIEW_TYPE_2D_ARRAY, ash_vk::ImageViewType::TYPE_2D_ARRAY.as_raw());
    assert_eq!(vk::IMAGE_VIEW_TYPE_CUBE_ARRAY, ash_vk::ImageViewType::CUBE_ARRAY.as_raw());
}

#[test]
fn image_creation_flags_have_their_numbers() {
    assert_eq!(vk::IMAGE_CREATE_MUTABLE_FORMAT, ash_vk::ImageCreateFlags::MUTABLE_FORMAT.as_raw());
    assert_eq!(vk::IMAGE_CREATE_CUBE_COMPATIBLE, ash_vk::ImageCreateFlags::CUBE_COMPATIBLE.as_raw());
}

#[test]
fn image_tilings_have_their_numbers() {
    assert_eq!(vk::IMAGE_TILING_OPTIMAL, ash_vk::ImageTiling::OPTIMAL.as_raw());
    assert_eq!(vk::IMAGE_TILING_LINEAR, ash_vk::ImageTiling::LINEAR.as_raw());
}

#[test]
fn image_usages_have_their_numbers() {
    assert_eq!(vk::IMAGE_USAGE_TRANSFER_SRC, ash_vk::ImageUsageFlags::TRANSFER_SRC.as_raw());
    assert_eq!(vk::IMAGE_USAGE_TRANSFER_DST, ash_vk::ImageUsageFlags::TRANSFER_DST.as_raw());
    assert_eq!(vk::IMAGE_USAGE_SAMPLED, ash_vk::ImageUsageFlags::SAMPLED.as_raw());
    assert_eq!(vk::IMAGE_USAGE_STORAGE, ash_vk::ImageUsageFlags::STORAGE.as_raw());
    assert_eq!(vk::IMAGE_USAGE_COLOR_ATTACHMENT, ash_vk::ImageUsageFlags::COLOR_ATTACHMENT.as_raw());
    assert_eq!(vk::IMAGE_USAGE_DEPTH_STENCIL_ATTACHMENT, ash_vk::ImageUsageFlags::DEPTH_STENCIL_ATTACHMENT.as_raw());
}

#[test]
fn formats_have_their_numbers() {
    assert_eq!(vk::FORMAT_UNDEFINED, ash_vk::Format::UNDEFINED.as_raw());
    assert_eq!(vk::FORMAT_R8_UINT, ash_vk::Format::R8_UINT.as_raw());
    assert_eq!(vk::FORMAT_R8G8B8A8_UNORM, ash_vk::Format::R8G8B8A8_UNORM.as_raw());
    assert_eq!(vk::FORMAT_R32_SFLOAT, ash_vk::Format::R32_SFLOAT.as_raw());
    assert_eq!(vk::FORMAT_R32G32B32_SFLOAT, ash_vk::Format::R32G32B32_SFLOAT.as_raw());
    assert_eq!(vk::FORMAT_D16_UNORM, ash_vk::Format::D16_UNORM.as_raw());
    assert_eq!(vk::FORMAT_X8_D24_UNORM_PACK32, ash_vk::Format::X8_D24_UNORM_PACK32.as_raw());
    assert_eq!(vk::FORMAT_D32_SFLOAT, ash_vk::Format::D32_SFLOAT.as_raw());
    assert_eq!(vk::FORMAT_S8_UINT, ash_vk::Format::S8_UINT.as_raw());
    assert_eq!(vk::FORMAT_D16_UNORM_S8_UINT, ash_vk::Format::D16_UNORM_S8_UINT.as_raw());
    assert_eq!(vk::FORMAT_D24_UNORM_S8_UINT, ash_vk::Format::D24_UNORM_S8_UINT.as_raw());
    assert_eq!(vk::FORMAT_D32_SFLOAT_S8_UINT, ash_vk::Format::D32_SFLOAT_S8_UINT.as_raw());
}

#[test]
fn sample_counts_have_their_numbers() {
    assert_eq!(vk::SAMPLE_COUNT_1, ash_vk::SampleCountFlags::TYPE_1.as_raw());
    assert_eq!(vk::SAMPLE_COUNT_2, ash_vk::SampleCountFlags::TYPE_2.as_raw());
    assert_eq!(vk::SAMPLE_COUNT_4, ash_vk::SampleCountFlags::TYPE_4.as_raw());
    assert_eq!(vk::SAMPLE_COUNT_8, ash_vk::SampleCountFlags::TYPE_8.as_raw());
    assert_eq!(vk::SAMPLE_COUNT_16, ash_vk::SampleCountFlags::TYPE_16.as_raw());
    assert_eq!(vk::SAMPLE_COUNT_32, ash_vk::SampleCountFlags::TYPE_32.as_raw());
    assert_eq!(vk::SAMPLE_COUNT_64, ash_vk::SampleCountFlags::TYPE_64.as_raw());
}

#[test]
fn acceleration_structure_types_have_their_numbers() {
    assert_eq!(vk::ACCELERATION_STRUCTURE_TYPE_TOP_LEVEL, ash_vk::AccelerationStructureTypeKHR::TOP_LEVEL.as_raw());
    assert_eq!(vk::ACCELERATION_STRUCTURE_TYPE_BOTTOM_LEVEL, ash_vk::AccelerationStructureTypeKHR::BOTTOM_LEVEL.as_raw());
    assert_eq!(vk::ACCELERATION_STRUCTURE_TYPE_GENERIC, ash_vk::AccelerationStructureTypeKHR::GENERIC.as_raw());
}

#[test]
fn geometry_types_have_their_numbers() {
    assert_eq!(vk::GEOMETRY_TYPE_TRIANGLES, ash_vk::GeometryTypeKHR::TRIANGLES.as_raw());
    assert_eq!(vk::GEOMETRY_TYPE_AABBS, ash_vk::GeometryTypeKHR::AABBS.as_raw());
    assert_eq!(vk::GEOMETRY_TYPE_INSTANCES, ash_vk::GeometryTypeKHR::INSTANCES.as_raw());
}

#[test]
fn geometry_flags_have_their_numbers() {
    assert_eq!(vk::GEOMETRY_OPAQUE, ash_vk::GeometryFlagsKHR::OPAQUE.as_raw());
}

#[test]
fn index_types_have_their_numbers() {
    assert_eq!(vk::INDEX_TYPE_UINT16, ash_vk::IndexType::UINT16.as_raw());
    assert_eq!(vk::INDEX_TYPE_UINT32, ash_vk::IndexType::UINT32.as_raw());
    assert_eq!(vk::INDEX_TYPE_NONE_KHR, ash_vk::IndexType::NONE_KHR.as_raw());
}

#[test]
fn micromap_types_have_their_numbers() {
    assert_eq!(vk::MICROMAP_TYPE_OPACITY_MICROMAP, ash_vk::MicromapTypeEXT::OPACITY_MICROMAP.as_raw());
}

#[test]
fn opacity_micromap_formats_have_their_numbers() {
    assert_eq!(vk::OPACITY_MICROMAP_FORMAT_2_STATE, ash_vk::OpacityMicromapFormatEXT::TYPE_2_STATE.as_raw());
    assert_eq!(vk::OPACITY_MICROMAP_FORMAT_4_STATE, ash_vk::OpacityMicromapFormatEXT::TYPE_4_STATE.as_raw());
}

#[test]
fn query_types_have_their_numbers() {
    assert_eq!(vk::QUERY_TYPE_OCCLUSION, ash_vk::QueryType::OCCLUSION.as_raw());
    assert_eq!(vk::QUERY_TYPE_PIPELINE_STATISTICS, ash_vk::QueryType::PIPELINE_STATISTICS.as_raw());
    assert_eq!(vk::QUERY_TYPE_TIMESTAMP, ash_vk::QueryType::TIMESTAMP.as_raw());
    assert_eq!(vk::QUERY_TYPE_MICROMAP_SERIALIZATION_SIZE_EXT, ash_vk::QueryType::MICROMAP_SERIALIZATION_SIZE_EXT.as_raw());
    assert_eq!(vk::QUERY_TYPE_MICROMAP_COMPACTED_SIZE_EXT, ash_vk::QueryType::MICROMAP_COMPACTED_SIZE_EXT.as_raw());
}

#[test]
fn descriptor_types_have_their_numbers() {
    assert_eq!(vk::DESCRIPTOR_TYPE_SAMPLER, ash_vk::DescriptorType::SAMPLER.as_raw());
    assert_eq!(vk::DESCRIPTOR_TYPE_COMBINED_IMAGE_SAMPLER, ash_vk::DescriptorType::COMBINED_IMAGE_SAMPLER.as_raw());
    assert_eq!(vk::DESCRIPTOR_TYPE_SAMPLED_IMAGE, ash_vk::DescriptorType::SAMPLED_IMAGE.as_raw());
    assert_eq!(vk::DESCRIPTOR_TYPE_STORAGE_IMAGE, ash_vk::DescriptorType::STORAGE_IMAGE.as_raw());
    assert_eq!(vk::DESCRIPTOR_TYPE_UNIFORM_TEXEL_BUFFER, ash_vk::DescriptorType::UNIFORM_TEXEL_BUFFER.as_raw());
    assert_eq!(vk::DESCRIPTOR_TYPE_STORAGE_TEXEL_BUFFER, ash_vk::DescriptorType::STORAGE_TEXEL_BUFFER.as_raw());
    assert_eq!(vk::DESCRIPTOR_TYPE_UNIFORM_BUFFER, ash_vk::DescriptorType::UNIFORM_BUFFER.as_raw());
    assert_eq!(vk::DESCRIPTOR_TYPE_STORAGE_BUFFER, ash_vk::DescriptorType::STORAGE_BUFFER.as_raw());
    assert_eq!(vk::DESCRIPTOR_TYPE_UNIFORM_BUFFER_DYNAMIC, ash_vk::DescriptorType::UNIFORM_BUFFER_DYNAMIC.as_raw());
    assert_eq!(vk::DESCRIPTOR_TYPE_STORAGE_BUFFER_DYNAMIC, ash_vk::DescriptorType::STORAGE_BUFFER_DYNAMIC.as_raw());
    assert_eq!(vk::DESCRIPTOR_TYPE_INPUT_ATTACHMENT, ash_vk::DescriptorType::INPUT_ATTACHMENT.as_raw());
    assert_eq!(vk::DESCRIPTOR_TYPE_INLINE_UNIFORM_BLOCK, ash_vk::DescriptorType::INLINE_UNIFORM_BLOCK.as_raw());
    assert_eq!(vk::DESCRIPTOR_TYPE_ACCELERATION_STRUCTURE_KHR, ash_vk::DescriptorType::ACCELERATION_STRUCTURE_KHR.as_raw());
}

#[test]
fn debug_message_severities_have_their_numbers() {
    assert_eq!(vk::DEBUG_UTILS_MESSAGE_SEVERITY_VERBOSE, ash_vk::DebugUtilsMessageSeverityFlagsEXT::VERBOSE.as_raw());
    assert_eq!(vk::DEBUG_UTILS_MESSAGE_SEVERITY_INFO, ash_vk::DebugUtilsMessageSeverityFlagsEXT::INFO.as_raw());
    assert_eq!(vk::DEBUG_UTILS_MESSAGE_SEVERITY_WARNING, ash_vk::DebugUtilsMessageSeverityFlagsEXT::WARNING.as_raw());
    assert_eq!(vk::DEBUG_UTILS_MESSAGE_SEVERITY_ERROR, ash_vk::DebugUtilsMessageSeverityFlagsEXT::ERROR.as_raw());
}

#[test]
fn command_pool_flags_have_their_numbers() {
    assert_eq!(vk::COMMAND_POOL_CREATE_TRANSIENT, ash_vk::CommandPoolCreateFlags::TRANSIENT.as_raw());
    assert_eq!(vk::COMMAND_POOL_CREATE_RESET_COMMAND_BUFFER, ash_vk::CommandPoolCreateFlags::RESET_COMMAND_BUFFER.as_raw());
}

#[test]
fn query_result_flags_have_their_numbers() {
    assert_eq!(vk::QUERY_RESULT_64, ash_vk::QueryResultFlags::TYPE_64.as_raw());
    assert_eq!(vk::QUERY_RESULT_WAIT, ash_vk::QueryResultFlags::WAIT.as_raw());
    assert_eq!(vk::QUERY_RESULT_WITH_AVAILABILITY, ash_vk::QueryResultFlags::WITH_AVAILABILITY.as_raw());
    assert_eq!(vk::QUERY_RESULT_PARTIAL, ash_vk::QueryResultFlags::PARTIAL.as_raw());
}

#[test]
fn shader_stages_have_their_numbers() {
    assert_eq!(vk::SHADER_STAGE_VERTEX, ash_vk::ShaderStageFlags::VERTEX.as_raw());
    assert_eq!(vk::SHADER_STAGE_TESSELLATION_CONTROL, ash_vk::ShaderStageFlags::TESSELLATION_CONTROL.as_raw());
    assert_eq!(vk::SHADER_STAGE_TESSELLATION_EVALUATION, ash_vk::ShaderStageFlags::TESSELLATION_EVALUATION.as_raw());
    assert_eq!(vk::SHADER_STAGE_GEOMETRY, ash_vk::ShaderStageFlags::GEOMETRY.as_raw());
    assert_eq!(vk::SHADER_STAGE_FRAGMENT, ash_vk::ShaderStageFlags::FRAGMENT.as_raw());
    assert_eq!(vk::SHADER_STAGE_COMPUTE, ash_vk::ShaderStageFlags::COMPUTE.as_raw());
}

#[test]
fn blend_factors_have_their_numbers() {
    assert_eq!(vk::BLEND_FACTOR_ZERO, ash_vk::BlendFactor::ZERO.as_raw());
    assert_eq!(vk::BLEND_FACTOR_ONE, ash_vk::BlendFactor::ONE.as_raw());
    assert_eq!(vk::BLEND_FACTOR_SRC_COLOR, ash_vk::BlendFactor::SRC_COLOR.as_raw());
    assert_eq!(vk::BLEND_FACTOR_ONE_MINUS_DST_COLOR, ash_vk::BlendFactor::ONE_MINUS_DST_COLOR.as_raw());
    assert_eq!(vk::BLEND_FACTOR_SRC_ALPHA, ash_vk::BlendFactor::SRC_ALPHA.as_raw());
    assert_eq!(vk::BLEND_FACTOR_ONE_MINUS_SRC_ALPHA, ash_vk::BlendFactor::ONE_MINUS_SRC_ALPHA.as_raw());
}

#[test]
fn blend_operations_have_their_numbers() {
    assert_eq!(vk::BLEND_OP_ADD, ash_vk::BlendOp::ADD.as_raw());
    assert_eq!(vk::BLEND_OP_SUBTRACT, ash_vk::BlendOp::SUBTRACT.as_raw());
}

#[test]
fn color_components_have_their_numbers() {
    assert_eq!(vk::COLOR_COMPONENT_R, ash_vk::ColorComponentFlags::R.as_raw());
    assert_eq!(vk::COLOR_COMPONENT_G, ash_vk::ColorComponentFlags::G.as_raw());
    assert_eq!(vk::COLOR_COMPONENT_B, ash_vk::ColorComponentFlags::B.as_raw());
    assert_eq!(vk::COLOR_COMPONENT_A, ash_vk::ColorComponentFlags::A.as_raw());
}

#[test]
fn comparisons_have_their_numbers() {
    assert_eq!(vk::COMPARE_OP_NEVER, ash_vk::CompareOp::NEVER.as_raw());
    assert_eq!(vk::COMPARE_OP_LESS, ash_vk::CompareOp::LESS.as_raw());
}

#[test]
fn stencil_operations_have_their_numbers() {
    assert_eq!(vk::STENCIL_OP_KEEP, ash_vk::StencilOp::KEEP.as_raw());
    assert_eq!(vk::STENCIL_OP_ZERO, ash_vk::StencilOp::ZERO.as_raw());
}

#[test]
fn cull_modes_have_their_numbers() {
    assert_eq!(vk::CULL_MODE_NONE, ash_vk::CullModeFlags::NONE.as_raw());
    assert_eq!(vk::CULL_MODE_FRONT, ash_vk::CullModeFlags::FRONT.as_raw());
    assert_eq!(vk::CULL_MODE_BACK, ash_vk::CullModeFlags::BACK.as_raw());
}

#[test]
fn front_faces_have_their_numbers() {
    assert_eq!(vk::FRONT_FACE_COUNTER_CLOCKWISE, ash_vk::FrontFace::COUNTER_CLOCKWISE.as_raw());
    assert_eq!(vk::FRONT_FACE_CLOCKWISE, ash_vk::FrontFace::CLOCKWISE.as_raw());
}

#[test]
fn polygon_modes_have_their_numbers() {
    assert_eq!(vk::POLYGON_MODE_FILL, ash_vk::PolygonMode::FILL.as_raw());
    assert_eq!(vk::POLYGON_MODE_LINE, ash_vk::PolygonMode::LINE.as_raw());
}

#[test]
fn primitive_topologies_have_their_numbers() {
    assert_eq!(vk::PRIMITIVE_TOPOLOGY_POINT_LIST, ash_vk::PrimitiveTopology::POINT_LIST.as_raw());
    assert_eq!(vk::PRIMITIVE_TOPOLOGY_TRIANGLE_LIST, ash_vk::PrimitiveTopology::TRIANGLE_LIST.as_raw());
}

#[test]
fn attachment_flags_have_their_numbers() {
    assert_eq!(vk::ATTACHMENT_DESCRIPTION_MAY_ALIAS, ash_vk::AttachmentDescriptionFlags::MAY_ALIAS.as_raw());
}

#[test]
fn attachment_load_operations_have_their_numbers() {
    assert_eq!(vk::ATTACHMENT_LOAD_OP_LOAD, ash_vk::AttachmentLoadOp::LOAD.as_raw());
    assert_eq!(vk::ATTACHMENT_LOAD_OP_CLEAR, ash_vk::AttachmentLoadOp::CLEAR.as_raw());
    assert_eq!(vk::ATTACHMENT_LOAD_OP_DONT_CARE, ash_vk::AttachmentLoadOp::DONT_CARE.as_raw());
}

#[test]
fn attachment_store_operations_have_their_numbers() {
    assert_eq!(vk::ATTACHMENT_STORE_OP_STORE, ash_vk::AttachmentStoreOp::STORE.as_raw());
    assert_eq!(vk::ATTACHMENT_STORE_OP_DONT_CARE, ash_vk::AttachmentStoreOp::DONT_CARE.as_raw());
}

#[test]
fn resolve_modes_have_their_numbers() {
    assert_eq!(vk::RESOLVE_MODE_NONE, ash_vk::ResolveModeFlags::NONE.as_raw());
    assert_eq!(vk::RESOLVE_MODE_SAMPLE_ZERO, ash_vk::ResolveModeFlags::SAMPLE_ZERO.as_raw());
    assert_eq!(vk::RESOLVE_MODE_AVERAGE, ash_vk::ResolveModeFlags::AVERAGE.as_raw());
    assert_eq!(vk::RESOLVE_MODE_MIN, ash_vk::ResolveModeFlags::MIN.as_raw());
    assert_eq!(vk::RESOLVE_MODE_MAX, ash_vk::ResolveModeFlags::MAX.as_raw());
}

#[test]
fn dynamic_states_have_their_numbers() {
    assert_eq!(vk::DYNAMIC_STATE_VIEWPORT, ash_vk::DynamicState::VIEWPORT.as_raw());
    assert_eq!(vk::DYNAMIC_STATE_SCISSOR, ash_vk::DynamicState::SCISSOR.as_raw());
    assert_eq!(vk::DYNAMIC_STATE_RAY_TRACING_PIPELINE_STACK_SIZE_KHR, ash_vk::DynamicState::RAY_TRACING_PIPELINE_STACK_SIZE_KHR.as_raw());
}

#[test]
fn ray_tracing_shader_group_types_have_their_numbers() {
    assert_eq!(vk::RAY_TRACING_SHADER_GROUP_TYPE_GENERAL, ash_vk::RayTracingShaderGroupTypeKHR::GENERAL.as_raw());
    assert_eq!(vk::RAY_TRACING_SHADER_GROUP_TYPE_TRIANGLES_HIT_GROUP, ash_vk::RayTracingShaderGroupTypeKHR::TRIANGLES_HIT_GROUP.as_raw());
    assert_eq!(vk::RAY_TRACING_SHADER_GROUP_TYPE_PROCEDURAL_HIT_GROUP, ash_vk::RayTracingShaderGroupTypeKHR::PROCEDURAL_HIT_GROUP.as_raw());
}

#[test]
fn special_values_have_their_numbers() {
    assert_eq!(vk::WHOLE_SIZE, ash_vk::WHOLE_SIZE);
    assert_eq!(vk::REMAINING_ARRAY_LAYERS, ash_vk::REMAINING_ARRAY_LAYERS);
    assert_eq!(vk::REMAINING_MIP_LEVELS, ash_vk::REMAINING_MIP_LEVELS);
    assert_eq!(vk::SHADER_UNUSED_KHR, ash_vk::SHADER_UNUSED_KHR);
}

fn known_accesses() -> Vec<(AccessType, vk_sync_fork::AccessType)> {
    vec![
        (AccessType::Nothing, vk_sync_fork::AccessType::Nothing),
        (AccessType::CommandBufferReadNVX, vk_sync_fork::AccessType::CommandBufferReadNVX),
        (AccessType::IndirectBuffer, vk_sync_fork::AccessType::IndirectBuffer),
        (AccessType::IndexBuffer, vk_sync_fork::AccessType::IndexBuffer),
        (AccessType::VertexBuffer, vk_sync_fork::AccessType::VertexBuffer),
        (AccessType::VertexShaderReadUniformBuffer, vk_sync_fork::AccessType::VertexShaderReadUniformBuffer),
        (AccessType::VertexShaderReadSampledImageOrUniformTexelBuffer, vk_sync_fork::AccessType::VertexShaderReadSampledImageOrUniformTexelBuffer),
        (AccessType::VertexShaderReadOther, vk_sync_fork::AccessType::VertexShaderReadOther),
        (AccessType::MeshShaderReadUniformBuffer, vk_sync_fork::AccessType::MeshShaderReadUniformBuffer),
        (AccessType::MeshShaderReadSampledImageOrUniformTexelBuffer, vk_sync_fork::AccessType::MeshShaderReadSampledImageOrUniformTexelBuffer),
        (AccessType::MeshShaderReadOther, vk_sync_fork::AccessType::MeshShaderReadOther),
        (AccessType::TaskShaderReadUniformBuffer, vk_sync_fork::AccessType::TaskShaderReadUniformBuffer),
        (AccessType::TaskShaderReadSampledImageOrUniformTexelBuffer, vk_sync_fork::AccessType::TaskShaderReadSampledImageOrUniformTexelBuffer),
        (AccessType::TaskShaderReadOther, vk_sync_fork::AccessType::TaskShaderReadOther),
        (AccessType::TessellationControlShaderReadUniformBuffer, vk_sync_fork::AccessType::TessellationControlShaderReadUniformBuffer),
        (AccessType::TessellationControlShaderReadSampledImageOrUniformTexelBuffer, vk_sync_fork::AccessType::TessellationControlShaderReadSampledImageOrUniformTexelBuffer),
        (AccessType::TessellationControlShaderReadOther, vk_sync_fork::AccessType::TessellationControlShaderReadOther),
        (AccessType::TessellationEvaluationShaderReadUniformBuffer, vk_sync_fork::AccessType::TessellationEvaluationShaderReadUniformBuffer),
        (AccessType::TessellationEvaluationShaderReadSampledImageOrUniformTexelBuffer, vk_sync_fork::AccessType::TessellationEvaluationShaderReadSampledImageOrUniformTexelBuffer),
        (AccessType::TessellationEvaluationShaderReadOther, vk_sync_fork::AccessType::TessellationEvaluationShaderReadOther),
        (AccessType::GeometryShaderReadUniformBuffer, vk_sync_fork::AccessType::GeometryShaderReadUniformBuffer),
        (AccessType::GeometryShaderReadSampledImageOrUniformTexelBuffer, vk_sync_fork::AccessType::GeometryShaderReadSampledImageOrUniformTexelBuffer),
        (AccessType::GeometryShaderReadOther, vk_sync_fork::AccessType::GeometryShaderReadOther),
        (AccessType::FragmentShaderReadUniformBuffer, vk_sync_fork::AccessType::FragmentShaderReadUniformBuffer),
        (AccessType::FragmentShaderReadSampledImageOrUniformTexelBuffer, vk_sync_fork::AccessType::FragmentShaderReadSampledImageOrUniformTexelBuffer),
        (AccessType::FragmentShaderReadColorInputAttachment, vk_sync_fork::AccessType::FragmentShaderReadColorInputAttachment),
        (AccessType::FragmentShaderReadDepthStencilInputAttachment, vk_sync_fork::AccessType::FragmentShaderReadDepthStencilInputAttachment),
        (AccessType::FragmentShaderReadOther, vk_sync_fork::AccessType::FragmentShaderReadOther),
        (AccessType::ColorAttachmentRead, vk_sync_fork::AccessType::ColorAttachmentRead),
        (AccessType::DepthStencilAttachmentRead, vk_sync_fork::AccessType::DepthStencilAttachmentRead),
        (AccessType::DepthStencilAttachmentReadWrite, vk_sync_fork::AccessType::DepthStencilAttachmentReadWrite),
        (AccessType::ComputeShaderReadUniformBuffer, vk_sync_fork::AccessType::ComputeShaderReadUniformBuffer),
        (AccessType::ComputeShaderReadSampledImageOrUniformTexelBuffer, vk_sync_fork::AccessType::ComputeShaderReadSampledImageOrUniformTexelBuffer),
        (AccessType::ComputeShaderReadOther, vk_sync_fork::AccessType::ComputeShaderReadOther),
        (AccessType::ComputeShaderReadWrite, vk_sync_fork::AccessType::ComputeShaderReadWrite),
        (AccessType::AnyShaderReadUniformBuffer, vk_sync_fork::AccessType::AnyShaderReadUniformBuffer),
        (AccessType::AnyShaderReadUniformBufferOrVertexBuffer, vk_sync_fork::AccessType::AnyShaderReadUniformBufferOrVertexBuffer),
        (AccessType::AnyShaderReadSampledImageOrUniformTexelBuffer, vk_sync_fork::AccessType::AnyShaderReadSampledImageOrUniformTexelBuffer),
        (AccessType::AnyShaderReadOther, vk_sync_fork::AccessType::AnyShaderReadOther),
        (AccessType::TransferRead, vk_sync_fork::AccessType::TransferRead),
        (AccessType::HostRead, vk_sync_fork::AccessType::HostRead),
        (AccessType::Present, vk_sync_fork::AccessType::Present),
        (AccessType::CommandBufferWriteNVX, vk_sync_fork::AccessType::CommandBufferWriteNVX),
        (AccessType::VertexShaderWrite, vk_sync_fork::AccessType::VertexShaderWrite),
        (AccessType::MeshShaderWrite, vk_sync_fork::AccessType::MeshShaderWrite),
        (AccessType::TaskShaderWrite, vk_sync_fork::AccessType::TaskShaderWrite),
        (AccessType::TessellationControlShaderWrite, vk_sync_fork::AccessType::TessellationControlShaderWrite),
        (AccessType::TessellationEvaluationShaderWrite, vk_sync_fork::AccessType::TessellationEvaluationShaderWrite),
        (AccessType::GeometryShaderWrite, vk_sync_fork::AccessType::GeometryShaderWrite),
        (AccessType::FragmentShaderWrite, vk_sync_fork::AccessType::FragmentShaderWrite),
        (AccessType::ColorAttachmentWrite, vk_sync_fork::AccessType::ColorAttachmentWrite),
        (AccessType::DepthStencilAttachmentWrite, vk_sync_fork::AccessType::DepthStencilAttachmentWrite),
        (AccessType::DepthAttachmentWriteStencilReadOnly, vk_sync_fork::AccessType::DepthAttachmentWriteStencilReadOnly),
        (AccessType::StencilAttachmentWriteDepthReadOnly, vk_sync_fork::AccessType::StencilAttachmentWriteDepthReadOnly),
        (AccessType::ComputeShaderWrite, vk_sync_fork::AccessType::ComputeShaderWrite),
        (AccessType::AnyShaderWrite, vk_sync_fork::AccessType::AnyShaderWrite),
        (AccessType::TransferWrite, vk_sync_fork::AccessType::TransferWrite),
        (AccessType::HostWrite, vk_sync_fork::AccessType::HostWrite),
        (AccessType::ColorAttachmentReadWrite, vk_sync_fork::AccessType::ColorAttachmentReadWrite),
        (AccessType::General, vk_sync_fork::AccessType::General),
        (AccessType::RayTracingShaderReadSampledImageOrUniformTexelBuffer, vk_sync_fork::AccessType::RayTracingShaderReadSampledImageOrUniformTexelBuffer),
        (AccessType::RayTracingShaderReadColorInputAttachment, vk_sync_fork::AccessType::RayTracingShaderReadColorInputAttachment),
        (AccessType::RayTracingShaderReadDepthStencilInputAttachment, vk_sync_fork::AccessType::RayTracingShaderReadDepthStencilInputAttachment),
        (AccessType::RayTracingShaderReadAccelerationStructure, vk_sync_fork::AccessType::RayTracingShaderReadAccelerationStructure),
        (AccessType::RayTracingShaderReadOther, vk_sync_fork::AccessType::RayTracingShaderReadOther),
        (AccessType::AccelerationStructureBuildWrite, vk_sync_fork::AccessType::AccelerationStructureBuildWrite),
        (AccessType::AccelerationStructureBuildRead, vk_sync_fork::AccessType::AccelerationStructureBuildRead),
        (AccessType::AccelerationStructureBufferWrite, vk_sync_fork::AccessType::AccelerationStructureBufferWrite),
    ]
}

#[test]
fn stages_and_accesses_are_those_of_barriers() {
    for (access, known) in known_accesses() {
        let next_accesses = [known];
        let (_, stages, barrier) = get_memory_barrier(&GlobalBarrier {
            previous_accesses: &[vk_sync_fork::AccessType::General],
            next_accesses: &next_accesses,
        });
        let (stage_mask, access_mask) = pipeline_stage_access_flags(access);
        let expected = if stage_mask == 0 {
            ash_vk::PipelineStageFlags::BOTTOM_OF_PIPE.as_raw()
        } else {
            stage_mask
        };
        assert_eq!(stages.as_raw(), expected, "{access:?}");
        assert_eq!(barrier.dst_access_mask.as_raw(), access_mask, "{access:?}");
    }
}

#[test]
fn what_barriers_make_available_are_writes() {
    for (access, known) in known_accesses() {
        let previous_accesses = [known];
        let (_, _, barrier) = get_memory_barrier(&GlobalBarrier {
            previous_accesses: &previous_accesses,
            next_accesses: &[vk_sync_fork::AccessType::General],
        });
        if barrier.src_access_mask.as_raw() != 0 {
            assert!(is_write_access(access), "{access:?}");
        }
    }
    assert!(is_write_access(AccessType::AccelerationStructureBuildWrite));
    assert!(is_write_access(AccessType::MicromapBuildWrite));
    assert!(!is_write_access(AccessType::Nothing));
    assert!(!is_write_access(AccessType::MicromapBuildRead));
}

#[test]
fn layouts_follow_accesses() {
    assert_eq!(access_type_to_layout(AccessType::Nothing), None);
    assert_eq!(
        access_type_to_layout(AccessType::ColorAttachmentWrite),
        Some(vk::IMAGE_LAYOUT_COLOR_ATTACHMENT_OPTIMAL)
    );
    assert_eq!(
        access_type_to_layout(AccessType::DepthStencilAttachmentRead),
        Some(vk::IMAGE_LAYOUT_DEPTH_STENCIL_READ_ONLY_OPTIMAL)
    );
    assert_eq!(
        access_type_to_layout(AccessType::TransferWrite),
        Some(vk::IMAGE_LAYOUT_TRANSFER_DST_OPTIMAL)
    );
    assert_eq!(
        access_type_to_layout(AccessType::Present),
        Some(vk::IMAGE_LAYOUT_PRESENT_SRC_KHR)
    );
    assert_eq!(
        access_type_to_layout(AccessType::ComputeShaderWrite),
        Some(vk::IMAGE_LAYOUT_GENERAL)
    );
}

#[test]
fn accesses_read_back_from_their_codes() {
    let mut codes = Vec::new();
    for (access, _) in known_accesses() {
        let code = access_type_into_u8(access);
        assert_eq!(access_type_from_u8(code), access);
        assert!(!codes.contains(&code));
        codes.push(code);
    }
}
