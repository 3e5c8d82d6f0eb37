# vk_driver

The rules of a Vulkan driver layer, proved with Verus: which accesses touched which bytes of a
buffer and which subresources of an image, who owns them, what the next use has to wait for, which
descriptors and pipelines are valid, in which order things are made and destroyed, and which error
a failed call is reported as.

The library holds no Vulkan objects. Handles, formats, flags and result codes are plain integers,
with the constants in `src/vk.rs`. `app/` is the crate that makes the Vulkan calls through `ash`,
allocates memory through `gpu_allocator`, and asks the library what to do.

## Layout

| Modules | What they hold |
| --- | --- |
| `segments`, `runs`, `run_map` | values of byte offsets as maximal runs |
| `buffer`, `buffer_sharing`, `buffer_sync` | tracked state of buffers |
| `grid`, `dense_map`, `image_range`, `image_subresources` | values of subresources as blocks |
| `image`, `image_access`, `image_sharing`, `image_report`, `image_sync`, `image_info` | tracked state of images |
| `access`, `accesses`, `sharing`, `memory`, `error` | accesses, owners, memory locations, errors |
| `accel_struct`, `micromap` | acceleration structures and opacity micromaps |
| `descriptor_set`, `descriptor_set_layout`, `handle_cache` | descriptors and their caches |
| `pipeline`, `compute`, `graphic`, `shader_group`, `ray_tracing`, `ray_trace`, `render_pass` | pipelines and render passes |
| `instance`, `device`, `object_names`, `handles`, `fence`, `cmd_buf`, `query_pool`, `text` | instances, devices and their objects |

State that several threads share is guarded by locks in `app/`; the library's methods take
`&mut self`.

## What is trusted

Two lists are backed by `smallvec::SmallVec` (`runs::Runs` and `accesses::AccessCodes`), and
Vulkan versions are packed and unpacked by `ash::vk`. The contracts of these few calls are stated
in `runs.rs`, `accesses.rs` and `instance.rs`, and hold without proof.
