//! Resource tracking and rules of a Vulkan driver layer.

pub mod accel_struct;
pub mod access;
pub mod accesses;
pub mod bench;
pub mod buffer;
pub mod buffer_sharing;
pub mod buffer_sync;
pub mod cmd_buf;
pub mod compute;
pub mod dense_map;
pub mod descriptor_set;
pub mod descriptor_set_layout;
pub mod device;
pub mod error;
pub mod fence;
pub mod graphic;
pub mod grid;
pub mod handle_cache;
pub mod handles;
pub mod image;
pub mod image_access;
pub mod image_info;
pub mod image_range;
pub mod image_report;
pub mod image_sharing;
pub mod image_subresources;
pub mod image_sync;
pub mod instance;
pub mod memory;
pub mod micromap;
pub mod object_names;
pub mod pipeline;
pub mod query_pool;
pub mod ray_trace;
pub mod ray_tracing;
pub mod render_pass;
pub mod run_map;
pub mod runs;
pub mod segments;
pub mod shader_group;
pub mod sharing;
pub mod text;
pub mod vk;
