use vk_driver::cmd_buf::{CommandBufferInfo, CommandBufferInfoBuilder};
use vk_driver::descriptor_set::{
    DescriptorSetBinding, DescriptorSetInfo, DescriptorSetUpdateInfo,
};
use vk_driver::device::{DeviceInfo, DeviceInfoBuilder};

#[test]
fn command_buffer_info() {
    let info = CommandBufferInfo::new(3);
    let builder = info.into_builder().build();

    assert_eq!(info, builder);
}

#[test]
fn command_buffer_info_builder_default_queue_family_index() {
    assert_eq!(
        CommandBufferInfoBuilder::default().build(),
        CommandBufferInfo::new(0)
    );
}

#[test]
fn device_info() {
    DeviceInfo::default().into_builder().build();
}

#[test]
fn device_info_builder() {
    DeviceInfoBuilder::default().build();
}

#[test]
fn descriptor_set_binding_conversions() {
    assert_eq!(
        DescriptorSetBinding::from(3),
        DescriptorSetBinding {
            binding: 3,
            array_element: 0,
        }
    );
    assert_eq!(
        DescriptorSetBinding::from((3, [7])),
        DescriptorSetBinding {
            binding: 3,
            array_element: 7,
        }
    );
}

#[test]
fn descriptor_set_info_builder() {
    let info = DescriptorSetInfo::builder().set(2).build();

    assert_eq!(info.set, 2);
    assert_eq!(info, info.into_builder().build());
    assert_eq!(
        std::mem::size_of::<DescriptorSetInfo>(),
        std::mem::size_of::<u32>()
    );
}

#[test]
fn empty_descriptor_set_updates_are_inferred() {
    fn update_count<'a>(updates: impl IntoIterator<Item = DescriptorSetUpdateInfo<'a>>) -> usize {
        updates.into_iter().count()
    }

    assert_eq!(update_count([]), 0);
    assert_eq!(update_count(None), 0);
}
