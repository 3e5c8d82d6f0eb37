use rand::rngs::SmallRng;
use rand::{Rng, SeedableRng};
use std::ops::Range;
use vk_driver::access::AccessType;
use vk_driver::dense_map::{DenseMap, DenseMapCursor};
use vk_driver::image_access::{Access, DenseAccess};
use vk_driver::image_info::{
    format_aspect_mask, ImageInfo, ImageInfoBuilder, ImageViewInfo, ImageViewInfoBuilder,
    SampleCount,
};
use vk_driver::image_range::{
    image_subresource_range_contains as range_contains,
    image_subresource_range_intersects as range_intersects, ImageSubresourceRange,
};
use vk_driver::image_sharing::Sharing;
use vk_driver::image_sync::{ImageSubresourceSyncInfo, ImageSyncInfo};
use vk_driver::sharing::SharingMode;
use vk_driver::vk;

struct DenseMapIter<'a> {
    map: &'a mut DenseMap<AccessType>,
    cursor: DenseMapCursor,
    value: AccessType,
}

impl<'a> DenseMapIter<'a> {
    fn new(
        map: &'a mut DenseMap<AccessType>,
        value: AccessType,
        range: ImageSubresourceRange,
    ) -> Self {
        let cursor = DenseMapCursor::new(map, range);
        Self { map, cursor, value }
    }

    fn next(&mut self) -> Option<(AccessType, ImageSubresourceRange)> {
        self.cursor.next(self.map, self.value)
    }
}

fn dense_access(access: &Access) -> &DenseAccess {
    match access {
        Access::Dense(access) => access,
        _ => panic!("expected dense-capable access tracking"),
    }
}


fn assert_access_ranges_eq(
    lhs: (AccessType, ImageSubresourceRange),
    rhs: (AccessType, ImageSubresourceRange),
) {
    assert_eq!(
        (
            lhs.0,
            lhs.1.aspect_mask,
            lhs.1.base_array_layer,
            lhs.1.layer_count,
            lhs.1.base_mip_level,
            lhs.1.level_count
        ),
        (
            rhs.0,
            rhs.1.aspect_mask,
            rhs.1.base_array_layer,
            rhs.1.layer_count,
            rhs.1.base_mip_level,
            rhs.1.level_count
        )
    );
}

fn image_sync_subresource(
    aspect_mask: u32,
    array_layers: Range<u32>,
    mip_levels: Range<u32>,
) -> ImageSubresourceSyncInfo {
    ImageSubresourceSyncInfo {
        access_mask: vk::ACCESS_SHADER_READ,
        layout: Some(vk::IMAGE_LAYOUT_SHADER_READ_ONLY_OPTIMAL),
        queue_family_index: None,
        range: image_subresource_range(aspect_mask, array_layers, mip_levels),
        stage_mask: vk::PIPELINE_STAGE_COMPUTE_SHADER,
    }
}

#[test]
fn image_access_basic() {
    let mut image = DenseMap::new(
        image_subresource(vk::FORMAT_R8G8B8A8_UNORM, 1, 1),
        AccessType::Nothing,
    );

    {
        let mut accesses = DenseMapIter::new(
            &mut image,
            AccessType::AnyShaderWrite,
            image_subresource_range(vk::IMAGE_ASPECT_COLOR, 0..1, 0..1),
        );

        assert_access_ranges_eq(
            accesses.next().unwrap(),
            (
                AccessType::Nothing,
                image_subresource_range(vk::IMAGE_ASPECT_COLOR, 0..1, 0..1),
            ),
        );
        assert!(accesses.next().is_none());
    }

    {
        let mut accesses = DenseMapIter::new(
            &mut image,
            AccessType::AnyShaderReadOther,
            image_subresource_range(vk::IMAGE_ASPECT_COLOR, 0..1, 0..1),
        );

        assert_access_ranges_eq(
            accesses.next().unwrap(),
            (
                AccessType::AnyShaderWrite,
                image_subresource_range(vk::IMAGE_ASPECT_COLOR, 0..1, 0..1),
            ),
        );
        assert!(accesses.next().is_none());
    }
}

#[test]
fn image_access_uniform() {
    let info = image_subresource(vk::FORMAT_R8G8B8A8_UNORM, 1, 1);
    let mut image = Access::new(info, AccessType::Nothing);
    let mut dense = None;

    let mut accesses = image.swap(
            &mut dense,
        info,
        AccessType::AnyShaderWrite,
        image_subresource_range(vk::IMAGE_ASPECT_COLOR, 0..1, 0..1),
    )
    .into_iter();

    assert_access_ranges_eq(
        accesses.next().unwrap(),
        (
            AccessType::Nothing,
            image_subresource_range(vk::IMAGE_ASPECT_COLOR, 0..1, 0..1),
        ),
    );
    assert!(accesses.next().is_none());
}

#[test]
fn image_access_dual_aspect_tracks_aspects_independently() {
    let info = image_subresource(vk::FORMAT_D32_SFLOAT_S8_UINT, 1, 1);
    let mut image = Access::new(info, AccessType::Nothing);
    let mut dense = None;

    let mut accesses = image.swap(
            &mut dense,
        info,
        AccessType::DepthStencilAttachmentWrite,
        image_subresource_range(vk::IMAGE_ASPECT_DEPTH, 0..1, 0..1),
    )
    .into_iter();

    assert_access_ranges_eq(
        accesses.next().unwrap(),
        (
            AccessType::Nothing,
            image_subresource_range(vk::IMAGE_ASPECT_DEPTH, 0..1, 0..1),
        ),
    );
    assert!(accesses.next().is_none());

    let mut accesses = image.swap(
            &mut dense,
        info,
        AccessType::DepthStencilAttachmentRead,
        image_subresource_range(vk::IMAGE_ASPECT_STENCIL, 0..1, 0..1),
    )
    .into_iter();

    assert_access_ranges_eq(
        accesses.next().unwrap(),
        (
            AccessType::Nothing,
            image_subresource_range(vk::IMAGE_ASPECT_STENCIL, 0..1, 0..1),
        ),
    );
    assert!(accesses.next().is_none());

    let mut accesses = image.swap(
            &mut dense,
        info,
        AccessType::AnyShaderReadOther,
        image_subresource_range(vk::IMAGE_ASPECT_DEPTH | vk::IMAGE_ASPECT_STENCIL, 0..1, 0..1),
    )
    .into_iter();

    assert_access_ranges_eq(
        accesses.next().unwrap(),
        (
            AccessType::DepthStencilAttachmentWrite,
            image_subresource_range(vk::IMAGE_ASPECT_DEPTH, 0..1, 0..1),
        ),
    );
    assert_access_ranges_eq(
        accesses.next().unwrap(),
        (
            AccessType::DepthStencilAttachmentRead,
            image_subresource_range(vk::IMAGE_ASPECT_STENCIL, 0..1, 0..1),
        ),
    );
    assert!(accesses.next().is_none());
}

#[test]
fn image_access_dense_promotes_only_on_partial_update() {
    let info = image_subresource(vk::FORMAT_R8_UINT, 2, 2);
    let mut image = Access::new(info, AccessType::Nothing);
    let mut dense = None;

    let mut accesses = image.swap(
            &mut dense,
        info,
        AccessType::AnyShaderReadOther,
        image_subresource_range(vk::IMAGE_ASPECT_COLOR, 0..2, 0..2),
    )
    .into_iter();

    assert_access_ranges_eq(
        accesses.next().unwrap(),
        (
            AccessType::Nothing,
            image_subresource_range(vk::IMAGE_ASPECT_COLOR, 0..2, 0..2),
        ),
    );
    assert!(accesses.next().is_none());
    assert!(!dense_access(&image).is_dense_active());

    let mut accesses = image.swap(
            &mut dense,
        info,
        AccessType::AnyShaderWrite,
        image_subresource_range(vk::IMAGE_ASPECT_COLOR, 0..1, 0..1),
    )
    .into_iter();

    assert_access_ranges_eq(
        accesses.next().unwrap(),
        (
            AccessType::AnyShaderReadOther,
            image_subresource_range(vk::IMAGE_ASPECT_COLOR, 0..1, 0..1),
        ),
    );
    assert!(accesses.next().is_none());
    assert!(dense_access(&image).is_dense_active());
}

#[test]
fn image_access_dense_collapses_to_uniform_after_equalizing_updates() {
    let info = image_subresource(vk::FORMAT_R8_UINT, 2, 2);
    let mut image = Access::new(info, AccessType::Nothing);
    let mut dense = None;

    {
        let mut accesses = image.swap(
            &mut dense,
            info,
            AccessType::AnyShaderReadOther,
            image_subresource_range(vk::IMAGE_ASPECT_COLOR, 0..1, 0..1),
        )
    .into_iter();

        assert_access_ranges_eq(
            accesses.next().unwrap(),
            (
                AccessType::Nothing,
                image_subresource_range(vk::IMAGE_ASPECT_COLOR, 0..1, 0..1),
            ),
        );
        assert!(accesses.next().is_none());
    }

    assert!(dense_access(&image).is_dense_active());

    {
        let mut accesses = image.swap(
            &mut dense,
            info,
            AccessType::AnyShaderReadOther,
            image_subresource_range(vk::IMAGE_ASPECT_COLOR, 0..2, 0..2),
        )
    .into_iter();

        assert!(accesses.next().is_some());
        while accesses.next().is_some() {}
    }

    assert!(!dense_access(&image).is_dense_active());
    assert_eq!(dense_access(&image).load(), AccessType::AnyShaderReadOther);

    assert!(dense.is_none());
}

#[test]
fn image_access_dense_stays_active_for_mixed_updates() {
    let info = image_subresource(vk::FORMAT_R8_UINT, 2, 2);
    let mut image = Access::new(info, AccessType::Nothing);
    let mut dense = None;

    {
        let mut accesses = image.swap(
            &mut dense,
            info,
            AccessType::AnyShaderReadOther,
            image_subresource_range(vk::IMAGE_ASPECT_COLOR, 0..1, 0..1),
        )
    .into_iter();

        assert_access_ranges_eq(
            accesses.next().unwrap(),
            (
                AccessType::Nothing,
                image_subresource_range(vk::IMAGE_ASPECT_COLOR, 0..1, 0..1),
            ),
        );
        assert!(accesses.next().is_none());
    }

    {
        let mut accesses = image.swap(
            &mut dense,
            info,
            AccessType::AnyShaderWrite,
            image_subresource_range(vk::IMAGE_ASPECT_COLOR, 1..2, 0..1),
        )
    .into_iter();

        assert_access_ranges_eq(
            accesses.next().unwrap(),
            (
                AccessType::Nothing,
                image_subresource_range(vk::IMAGE_ASPECT_COLOR, 1..2, 0..1),
            ),
        );
        assert!(accesses.next().is_none());
    }

    assert!(dense_access(&image).is_dense_active());

    let dense_map = dense.as_ref().expect("missing dense access map");
    assert_eq!(
        dense_map.subresource(0, 0, 0),
        AccessType::AnyShaderReadOther
    );
    assert_eq!(dense_map.subresource(0, 1, 0), AccessType::AnyShaderWrite);
    assert_eq!(dense_map.subresource(0, 0, 1), AccessType::Nothing);
    assert_eq!(dense_map.subresource(0, 1, 1), AccessType::Nothing);
}

#[test]
fn image_access_dense_iter_drains_on_drop() {
    let info = image_subresource(vk::FORMAT_R8_UINT, 2, 2);
    let mut image = Access::new(info, AccessType::Nothing);
    let mut dense = None;

    {
        let mut accesses = image.swap(
            &mut dense,
            info,
            AccessType::AnyShaderReadOther,
            image_subresource_range(vk::IMAGE_ASPECT_COLOR, 0..1, 0..1),
        )
    .into_iter();

        assert_access_ranges_eq(
            accesses.next().unwrap(),
            (
                AccessType::Nothing,
                image_subresource_range(vk::IMAGE_ASPECT_COLOR, 0..1, 0..1),
            ),
        );
        assert!(accesses.next().is_none());
    }

    {
        let mut accesses = image.swap(
            &mut dense,
            info,
            AccessType::AnyShaderWrite,
            image_subresource_range(vk::IMAGE_ASPECT_COLOR, 1..2, 0..1),
        )
    .into_iter();

        assert_access_ranges_eq(
            accesses.next().unwrap(),
            (
                AccessType::Nothing,
                image_subresource_range(vk::IMAGE_ASPECT_COLOR, 1..2, 0..1),
            ),
        );
        assert!(accesses.next().is_none());
    }

    let mut accesses = image.swap(
            &mut dense,
        info,
        AccessType::HostRead,
        image_subresource_range(vk::IMAGE_ASPECT_COLOR, 0..2, 0..2),
    )
    .into_iter();

    assert!(accesses.next().is_some());
    drop(accesses);

    assert!(!dense_access(&image).is_dense_active());
    assert_eq!(dense_access(&image).load(), AccessType::HostRead);

    assert!(dense.is_none());
}

#[test]
fn image_access_color() {
    let mut image = DenseMap::new(
        image_subresource(vk::FORMAT_R8G8B8A8_UNORM, 3, 3),
        AccessType::Nothing,
    );

    {
        let mut accesses = DenseMapIter::new(
            &mut image,
            AccessType::AnyShaderWrite,
            image_subresource_range(vk::IMAGE_ASPECT_COLOR, 0..3, 0..3),
        );

        assert_access_ranges_eq(
            accesses.next().unwrap(),
            (
                AccessType::Nothing,
                image_subresource_range(vk::IMAGE_ASPECT_COLOR, 0..3, 0..3),
            ),
        );
        assert!(accesses.next().is_none());
    }

    {
        let mut accesses = DenseMapIter::new(
            &mut image,
            AccessType::AnyShaderReadOther,
            image_subresource_range(vk::IMAGE_ASPECT_COLOR, 0..1, 0..1),
        );

        assert_access_ranges_eq(
            accesses.next().unwrap(),
            (
                AccessType::AnyShaderWrite,
                image_subresource_range(vk::IMAGE_ASPECT_COLOR, 0..1, 0..1),
            ),
        );
        assert!(accesses.next().is_none());
    }

    {
        let mut accesses = DenseMapIter::new(
            &mut image,
            AccessType::ComputeShaderWrite,
            image_subresource_range(vk::IMAGE_ASPECT_COLOR, 0..3, 0..3),
        );

        assert_access_ranges_eq(
            accesses.next().unwrap(),
            (
                AccessType::AnyShaderReadOther,
                image_subresource_range(vk::IMAGE_ASPECT_COLOR, 0..1, 0..1),
            ),
        );
        assert_access_ranges_eq(
            accesses.next().unwrap(),
            (
                AccessType::AnyShaderWrite,
                image_subresource_range(vk::IMAGE_ASPECT_COLOR, 0..1, 1..3),
            ),
        );
        assert_access_ranges_eq(
            accesses.next().unwrap(),
            (
                AccessType::AnyShaderWrite,
                image_subresource_range(vk::IMAGE_ASPECT_COLOR, 1..3, 0..3),
            ),
        );
        assert!(accesses.next().is_none());
    }

    {
        let mut accesses = DenseMapIter::new(
            &mut image,
            AccessType::HostRead,
            image_subresource_range(vk::IMAGE_ASPECT_COLOR, 0..3, 0..3),
        );

        assert_access_ranges_eq(
            accesses.next().unwrap(),
            (
                AccessType::ComputeShaderWrite,
                image_subresource_range(vk::IMAGE_ASPECT_COLOR, 0..3, 0..3),
            ),
        );
        assert!(accesses.next().is_none());
    }

    {
        let mut accesses = DenseMapIter::new(
            &mut image,
            AccessType::HostWrite,
            image_subresource_range(vk::IMAGE_ASPECT_COLOR, 1..2, 1..2),
        );

        assert_access_ranges_eq(
            accesses.next().unwrap(),
            (
                AccessType::HostRead,
                image_subresource_range(vk::IMAGE_ASPECT_COLOR, 1..2, 1..2),
            ),
        );
        assert!(accesses.next().is_none());
    }

    {
        let mut accesses = DenseMapIter::new(
            &mut image,
            AccessType::GeometryShaderReadOther,
            image_subresource_range(vk::IMAGE_ASPECT_COLOR, 0..3, 0..3),
        );

        assert_access_ranges_eq(
            accesses.next().unwrap(),
            (
                AccessType::HostRead,
                image_subresource_range(vk::IMAGE_ASPECT_COLOR, 0..1, 0..3),
            ),
        );
        assert_access_ranges_eq(
            accesses.next().unwrap(),
            (
                AccessType::HostRead,
                image_subresource_range(vk::IMAGE_ASPECT_COLOR, 1..2, 0..1),
            ),
        );
        assert_access_ranges_eq(
            accesses.next().unwrap(),
            (
                AccessType::HostWrite,
                image_subresource_range(vk::IMAGE_ASPECT_COLOR, 1..2, 1..2),
            ),
        );
        assert_access_ranges_eq(
            accesses.next().unwrap(),
            (
                AccessType::HostRead,
                image_subresource_range(vk::IMAGE_ASPECT_COLOR, 1..2, 2..3),
            ),
        );
        assert_access_ranges_eq(
            accesses.next().unwrap(),
            (
                AccessType::HostRead,
                image_subresource_range(vk::IMAGE_ASPECT_COLOR, 2..3, 0..3),
            ),
        );
        assert!(accesses.next().is_none());
    }

    {
        let mut accesses = DenseMapIter::new(
            &mut image,
            AccessType::VertexBuffer,
            image_subresource_range(vk::IMAGE_ASPECT_COLOR, 0..3, 1..2),
        );

        assert_access_ranges_eq(
            accesses.next().unwrap(),
            (
                AccessType::GeometryShaderReadOther,
                image_subresource_range(vk::IMAGE_ASPECT_COLOR, 0..3, 1..2),
            ),
        );
        assert!(accesses.next().is_none());
    }

    {
        let mut accesses = DenseMapIter::new(
            &mut image,
            AccessType::ColorAttachmentRead,
            image_subresource_range(vk::IMAGE_ASPECT_COLOR, 0..3, 0..3),
        );

        assert_access_ranges_eq(
            accesses.next().unwrap(),
            (
                AccessType::GeometryShaderReadOther,
                image_subresource_range(vk::IMAGE_ASPECT_COLOR, 0..1, 0..1),
            ),
        );
        assert_access_ranges_eq(
            accesses.next().unwrap(),
            (
                AccessType::VertexBuffer,
                image_subresource_range(vk::IMAGE_ASPECT_COLOR, 0..1, 1..2),
            ),
        );
        assert_access_ranges_eq(
            accesses.next().unwrap(),
            (
                AccessType::GeometryShaderReadOther,
                image_subresource_range(vk::IMAGE_ASPECT_COLOR, 0..1, 2..3),
            ),
        );
        assert_access_ranges_eq(
            accesses.next().unwrap(),
            (
                AccessType::GeometryShaderReadOther,
                image_subresource_range(vk::IMAGE_ASPECT_COLOR, 1..2, 0..1),
            ),
        );
        assert_access_ranges_eq(
            accesses.next().unwrap(),
            (
                AccessType::VertexBuffer,
                image_subresource_range(vk::IMAGE_ASPECT_COLOR, 1..2, 1..2),
            ),
        );
        assert_access_ranges_eq(
            accesses.next().unwrap(),
            (
                AccessType::GeometryShaderReadOther,
                image_subresource_range(vk::IMAGE_ASPECT_COLOR, 1..2, 2..3),
            ),
        );
        assert_access_ranges_eq(
            accesses.next().unwrap(),
            (
                AccessType::GeometryShaderReadOther,
                image_subresource_range(vk::IMAGE_ASPECT_COLOR, 2..3, 0..1),
            ),
        );
        assert_access_ranges_eq(
            accesses.next().unwrap(),
            (
                AccessType::VertexBuffer,
                image_subresource_range(vk::IMAGE_ASPECT_COLOR, 2..3, 1..2),
            ),
        );
        assert_access_ranges_eq(
            accesses.next().unwrap(),
            (
                AccessType::GeometryShaderReadOther,
                image_subresource_range(vk::IMAGE_ASPECT_COLOR, 2..3, 2..3),
            ),
        );
        assert!(accesses.next().is_none());
    }
}

#[test]
fn image_access_layers() {
    let mut image = DenseMap::new(
        image_subresource(vk::FORMAT_R8G8B8A8_UNORM, 3, 1),
        AccessType::Nothing,
    );

    {
        let mut accesses = DenseMapIter::new(
            &mut image,
            AccessType::AnyShaderWrite,
            image_subresource_range(vk::IMAGE_ASPECT_COLOR, 0..3, 0..1),
        );

        assert_access_ranges_eq(
            accesses.next().unwrap(),
            (
                AccessType::Nothing,
                image_subresource_range(vk::IMAGE_ASPECT_COLOR, 0..3, 0..1),
            ),
        );
        assert!(accesses.next().is_none());
    }

    {
        let mut accesses = DenseMapIter::new(
            &mut image,
            AccessType::AnyShaderReadOther,
            image_subresource_range(vk::IMAGE_ASPECT_COLOR, 2..3, 0..1),
        );

        assert_access_ranges_eq(
            accesses.next().unwrap(),
            (
                AccessType::AnyShaderWrite,
                image_subresource_range(vk::IMAGE_ASPECT_COLOR, 2..3, 0..1),
            ),
        );
        assert!(accesses.next().is_none());
    }

    {
        let mut accesses = DenseMapIter::new(
            &mut image,
            AccessType::HostRead,
            image_subresource_range(vk::IMAGE_ASPECT_COLOR, 0..2, 0..1),
        );

        assert_access_ranges_eq(
            accesses.next().unwrap(),
            (
                AccessType::AnyShaderWrite,
                image_subresource_range(vk::IMAGE_ASPECT_COLOR, 0..2, 0..1),
            ),
        );
        assert!(accesses.next().is_none());
    }

    {
        let mut accesses = DenseMapIter::new(
            &mut image,
            AccessType::AnyShaderReadOther,
            image_subresource_range(vk::IMAGE_ASPECT_COLOR, 0..1, 0..1),
        );

        assert_access_ranges_eq(
            accesses.next().unwrap(),
            (
                AccessType::HostRead,
                image_subresource_range(vk::IMAGE_ASPECT_COLOR, 0..1, 0..1),
            ),
        );
        assert!(accesses.next().is_none());
    }

    {
        let mut accesses = DenseMapIter::new(
            &mut image,
            AccessType::AnyShaderReadOther,
            image_subresource_range(vk::IMAGE_ASPECT_COLOR, 1..2, 0..1),
        );

        assert_access_ranges_eq(
            accesses.next().unwrap(),
            (
                AccessType::HostRead,
                image_subresource_range(vk::IMAGE_ASPECT_COLOR, 1..2, 0..1),
            ),
        );
        assert!(accesses.next().is_none());
    }

    {
        let mut accesses = DenseMapIter::new(
            &mut image,
            AccessType::HostWrite,
            image_subresource_range(vk::IMAGE_ASPECT_COLOR, 0..3, 0..1),
        );

        assert_access_ranges_eq(
            accesses.next().unwrap(),
            (
                AccessType::AnyShaderReadOther,
                image_subresource_range(vk::IMAGE_ASPECT_COLOR, 0..3, 0..1),
            ),
        );
        assert!(accesses.next().is_none());
    }
}

#[test]
fn image_access_levels() {
    let mut image = DenseMap::new(
        image_subresource(vk::FORMAT_R8G8B8A8_UNORM, 1, 3),
        AccessType::Nothing,
    );

    {
        let mut accesses = DenseMapIter::new(
            &mut image,
            AccessType::AnyShaderWrite,
            image_subresource_range(vk::IMAGE_ASPECT_COLOR, 0..1, 0..3),
        );

        assert_access_ranges_eq(
            accesses.next().unwrap(),
            (
                AccessType::Nothing,
                image_subresource_range(vk::IMAGE_ASPECT_COLOR, 0..1, 0..3),
            ),
        );
        assert!(accesses.next().is_none());
    }

    {
        let mut accesses = DenseMapIter::new(
            &mut image,
            AccessType::AnyShaderReadOther,
            image_subresource_range(vk::IMAGE_ASPECT_COLOR, 0..1, 2..3),
        );

        assert_access_ranges_eq(
            accesses.next().unwrap(),
            (
                AccessType::AnyShaderWrite,
                image_subresource_range(vk::IMAGE_ASPECT_COLOR, 0..1, 2..3),
            ),
        );
        assert!(accesses.next().is_none());
    }

    {
        let mut accesses = DenseMapIter::new(
            &mut image,
            AccessType::HostRead,
            image_subresource_range(vk::IMAGE_ASPECT_COLOR, 0..1, 0..2),
        );

        assert_access_ranges_eq(
            accesses.next().unwrap(),
            (
                AccessType::AnyShaderWrite,
                image_subresource_range(vk::IMAGE_ASPECT_COLOR, 0..1, 0..2),
            ),
        );
        assert!(accesses.next().is_none());
    }

    {
        let mut accesses = DenseMapIter::new(
            &mut image,
            AccessType::AnyShaderReadOther,
            image_subresource_range(vk::IMAGE_ASPECT_COLOR, 0..1, 0..1),
        );

        assert_access_ranges_eq(
            accesses.next().unwrap(),
            (
                AccessType::HostRead,
                image_subresource_range(vk::IMAGE_ASPECT_COLOR, 0..1, 0..1),
            ),
        );
        assert!(accesses.next().is_none());
    }

    {
        let mut accesses = DenseMapIter::new(
            &mut image,
            AccessType::AnyShaderReadOther,
            image_subresource_range(vk::IMAGE_ASPECT_COLOR, 0..1, 1..2),
        );

        assert_access_ranges_eq(
            accesses.next().unwrap(),
            (
                AccessType::HostRead,
                image_subresource_range(vk::IMAGE_ASPECT_COLOR, 0..1, 1..2),
            ),
        );
        assert!(accesses.next().is_none());
    }

    {
        let mut accesses = DenseMapIter::new(
            &mut image,
            AccessType::HostWrite,
            image_subresource_range(vk::IMAGE_ASPECT_COLOR, 0..1, 0..3),
        );

        assert_access_ranges_eq(
            accesses.next().unwrap(),
            (
                AccessType::AnyShaderReadOther,
                image_subresource_range(vk::IMAGE_ASPECT_COLOR, 0..1, 0..3),
            ),
        );
        assert!(accesses.next().is_none());
    }
}

#[test]
fn image_access_depth_stencil() {
    let mut image = DenseMap::new(
        image_subresource(vk::FORMAT_D24_UNORM_S8_UINT, 4, 3),
        AccessType::Nothing,
    );

    {
        let mut accesses = DenseMapIter::new(
            &mut image,
            AccessType::AnyShaderWrite,
            image_subresource_range(vk::IMAGE_ASPECT_DEPTH, 0..4, 0..1),
        );

        assert_access_ranges_eq(
            accesses.next().unwrap(),
            (
                AccessType::Nothing,
                image_subresource_range(vk::IMAGE_ASPECT_DEPTH, 0..4, 0..1),
            ),
        );
        assert!(accesses.next().is_none());
    }

    {
        let mut accesses = DenseMapIter::new(
            &mut image,
            AccessType::AnyShaderWrite,
            image_subresource_range(vk::IMAGE_ASPECT_STENCIL, 0..4, 1..2),
        );

        assert_access_ranges_eq(
            accesses.next().unwrap(),
            (
                AccessType::Nothing,
                image_subresource_range(vk::IMAGE_ASPECT_STENCIL, 0..4, 1..2),
            ),
        );
        assert!(accesses.next().is_none());
    }

    {
        let mut accesses = DenseMapIter::new(
            &mut image,
            AccessType::AnyShaderReadOther,
            image_subresource_range(vk::IMAGE_ASPECT_DEPTH | vk::IMAGE_ASPECT_STENCIL, 0..4, 0..2),
        );

        assert_access_ranges_eq(
            accesses.next().unwrap(),
            (
                AccessType::AnyShaderWrite,
                image_subresource_range(vk::IMAGE_ASPECT_DEPTH, 0..1, 0..1),
            ),
        );
        assert_access_ranges_eq(
            accesses.next().unwrap(),
            (
                AccessType::Nothing,
                image_subresource_range(vk::IMAGE_ASPECT_DEPTH, 0..1, 1..2),
            ),
        );
        assert_access_ranges_eq(
            accesses.next().unwrap(),
            (
                AccessType::AnyShaderWrite,
                image_subresource_range(vk::IMAGE_ASPECT_DEPTH, 1..2, 0..1),
            ),
        );
        assert_access_ranges_eq(
            accesses.next().unwrap(),
            (
                AccessType::Nothing,
                image_subresource_range(vk::IMAGE_ASPECT_DEPTH, 1..2, 1..2),
            ),
        );
        assert_access_ranges_eq(
            accesses.next().unwrap(),
            (
                AccessType::AnyShaderWrite,
                image_subresource_range(vk::IMAGE_ASPECT_DEPTH, 2..3, 0..1),
            ),
        );
        assert_access_ranges_eq(
            accesses.next().unwrap(),
            (
                AccessType::Nothing,
                image_subresource_range(vk::IMAGE_ASPECT_DEPTH, 2..3, 1..2),
            ),
        );
        assert_access_ranges_eq(
            accesses.next().unwrap(),
            (
                AccessType::AnyShaderWrite,
                image_subresource_range(vk::IMAGE_ASPECT_DEPTH, 3..4, 0..1),
            ),
        );
        assert_access_ranges_eq(
            accesses.next().unwrap(),
            (
                AccessType::Nothing,
                image_subresource_range(vk::IMAGE_ASPECT_DEPTH, 3..4, 1..2),
            ),
        );
        assert_access_ranges_eq(
            accesses.next().unwrap(),
            (
                AccessType::Nothing,
                image_subresource_range(vk::IMAGE_ASPECT_STENCIL, 0..1, 0..1),
            ),
        );
        assert_access_ranges_eq(
            accesses.next().unwrap(),
            (
                AccessType::AnyShaderWrite,
                image_subresource_range(vk::IMAGE_ASPECT_STENCIL, 0..1, 1..2),
            ),
        );
        assert_access_ranges_eq(
            accesses.next().unwrap(),
            (
                AccessType::Nothing,
                image_subresource_range(vk::IMAGE_ASPECT_STENCIL, 1..2, 0..1),
            ),
        );
        assert_access_ranges_eq(
            accesses.next().unwrap(),
            (
                AccessType::AnyShaderWrite,
                image_subresource_range(vk::IMAGE_ASPECT_STENCIL, 1..2, 1..2),
            ),
        );
        assert_access_ranges_eq(
            accesses.next().unwrap(),
            (
                AccessType::Nothing,
                image_subresource_range(vk::IMAGE_ASPECT_STENCIL, 2..3, 0..1),
            ),
        );
        assert_access_ranges_eq(
            accesses.next().unwrap(),
            (
                AccessType::AnyShaderWrite,
                image_subresource_range(vk::IMAGE_ASPECT_STENCIL, 2..3, 1..2),
            ),
        );
        assert_access_ranges_eq(
            accesses.next().unwrap(),
            (
                AccessType::Nothing,
                image_subresource_range(vk::IMAGE_ASPECT_STENCIL, 3..4, 0..1),
            ),
        );
        assert_access_ranges_eq(
            accesses.next().unwrap(),
            (
                AccessType::AnyShaderWrite,
                image_subresource_range(vk::IMAGE_ASPECT_STENCIL, 3..4, 1..2),
            ),
        );
        assert!(accesses.next().is_none());
    }

    {
        let mut accesses = DenseMapIter::new(
            &mut image,
            AccessType::AccelerationStructureBuildWrite,
            image_subresource_range(vk::IMAGE_ASPECT_DEPTH | vk::IMAGE_ASPECT_STENCIL, 0..4, 0..2),
        );

        assert_access_ranges_eq(
            accesses.next().unwrap(),
            (
                AccessType::AnyShaderReadOther,
                image_subresource_range(vk::IMAGE_ASPECT_DEPTH | vk::IMAGE_ASPECT_STENCIL, 0..4, 0..2),
            ),
        );
        assert!(accesses.next().is_none());
    }

    {
        let mut accesses = DenseMapIter::new(
            &mut image,
            AccessType::AccelerationStructureBuildRead,
            image_subresource_range(vk::IMAGE_ASPECT_DEPTH, 1..3, 0..2),
        );

        assert_access_ranges_eq(
            accesses.next().unwrap(),
            (
                AccessType::AccelerationStructureBuildWrite,
                image_subresource_range(vk::IMAGE_ASPECT_DEPTH, 1..3, 0..2),
            ),
        );
        assert!(accesses.next().is_none());
    }
}

#[test]
fn image_access_stencil() {
    let mut image = DenseMap::new(
        image_subresource(vk::FORMAT_S8_UINT, 2, 2),
        AccessType::Nothing,
    );

    {
        let mut accesses = DenseMapIter::new(
            &mut image,
            AccessType::AnyShaderWrite,
            image_subresource_range(vk::IMAGE_ASPECT_STENCIL, 0..2, 0..1),
        );

        assert_access_ranges_eq(
            accesses.next().unwrap(),
            (
                AccessType::Nothing,
                image_subresource_range(vk::IMAGE_ASPECT_STENCIL, 0..2, 0..1),
            ),
        );
        assert!(accesses.next().is_none());
    }

    {
        let mut accesses = DenseMapIter::new(
            &mut image,
            AccessType::AnyShaderReadOther,
            image_subresource_range(vk::IMAGE_ASPECT_STENCIL, 0..2, 1..2),
        );

        assert_access_ranges_eq(
            accesses.next().unwrap(),
            (
                AccessType::Nothing,
                image_subresource_range(vk::IMAGE_ASPECT_STENCIL, 0..2, 1..2),
            ),
        );
        assert!(accesses.next().is_none());
    }

    {
        let mut accesses = DenseMapIter::new(
            &mut image,
            AccessType::HostRead,
            image_subresource_range(vk::IMAGE_ASPECT_STENCIL, 0..2, 0..2),
        );

        assert_access_ranges_eq(
            accesses.next().unwrap(),
            (
                AccessType::AnyShaderWrite,
                image_subresource_range(vk::IMAGE_ASPECT_STENCIL, 0..1, 0..1),
            ),
        );
        assert_access_ranges_eq(
            accesses.next().unwrap(),
            (
                AccessType::AnyShaderReadOther,
                image_subresource_range(vk::IMAGE_ASPECT_STENCIL, 0..1, 1..2),
            ),
        );
        assert_access_ranges_eq(
            accesses.next().unwrap(),
            (
                AccessType::AnyShaderWrite,
                image_subresource_range(vk::IMAGE_ASPECT_STENCIL, 1..2, 0..1),
            ),
        );
        assert_access_ranges_eq(
            accesses.next().unwrap(),
            (
                AccessType::AnyShaderReadOther,
                image_subresource_range(vk::IMAGE_ASPECT_STENCIL, 1..2, 1..2),
            ),
        );
        assert!(accesses.next().is_none());
    }
}

#[test]
fn image_info_cube() {
    let info = ImageInfo::cube(42, vk::FORMAT_R32_SFLOAT, 0);
    let builder = info.into_builder().build();

    assert_eq!(info, builder);
}

#[test]
fn image_info_cube_builder() {
    let info = ImageInfo::cube(42, vk::FORMAT_R32_SFLOAT, 0);
    let builder = ImageInfoBuilder::default()
        .ty(vk::IMAGE_TYPE_2D)
        .format(vk::FORMAT_R32_SFLOAT)
        .width(42)
        .height(42)
        .depth(1)
        .array_layer_count(6)
        .flags(vk::IMAGE_CREATE_CUBE_COMPATIBLE)
        .build();

    assert_eq!(info, builder);
}

#[test]
fn image_info_image_1d() {
    let info = ImageInfo::image_1d(42, vk::FORMAT_R32_SFLOAT, 0);
    let builder = info.into_builder().build();

    assert_eq!(info, builder);
}

#[test]
fn image_info_image_1d_builder() {
    let info = ImageInfo::image_1d(42, vk::FORMAT_R32_SFLOAT, 0);
    let builder = ImageInfoBuilder::default()
        .ty(vk::IMAGE_TYPE_1D)
        .format(vk::FORMAT_R32_SFLOAT)
        .width(42)
        .height(1)
        .depth(1)
        .build();

    assert_eq!(info, builder);
}

#[test]
fn image_info_image_2d() {
    let info =
        ImageInfo::image_2d(42, 84, vk::FORMAT_R32_SFLOAT, 0);
    let builder = info.into_builder().build();

    assert_eq!(info, builder);
}

#[test]
fn image_info_image_2d_builder() {
    let info =
        ImageInfo::image_2d(42, 84, vk::FORMAT_R32_SFLOAT, 0);
    let builder = ImageInfoBuilder::default()
        .ty(vk::IMAGE_TYPE_2D)
        .format(vk::FORMAT_R32_SFLOAT)
        .width(42)
        .height(84)
        .depth(1)
        .build();

    assert_eq!(info, builder);
}

#[test]
fn image_info_image_2d_array() {
    let info = ImageInfo::image_2d_array(
        42,
        84,
        100,
        vk::FORMAT_UNDEFINED,
        0,
    );
    let builder = info.into_builder().build();

    assert_eq!(info, builder);
}

#[test]
fn image_info_image_2d_array_builder() {
    let info = ImageInfo::image_2d_array(
        42,
        84,
        100,
        vk::FORMAT_R32_SFLOAT,
        0,
    );
    let builder = ImageInfoBuilder::default()
        .ty(vk::IMAGE_TYPE_2D)
        .format(vk::FORMAT_R32_SFLOAT)
        .width(42)
        .height(84)
        .depth(1)
        .array_layer_count(100)
        .build();

    assert_eq!(info, builder);
}

#[test]
fn image_info_image_3d() {
    let info = ImageInfo::image_3d(
        42,
        84,
        100,
        vk::FORMAT_R32_SFLOAT,
        0,
    );
    let builder = info.into_builder().build();

    assert_eq!(info, builder);
}

#[test]
fn image_info_image_3d_builder() {
    let info = ImageInfo::image_3d(
        42,
        84,
        100,
        vk::FORMAT_R32_SFLOAT,
        0,
    );
    let builder = ImageInfoBuilder::default()
        .ty(vk::IMAGE_TYPE_3D)
        .format(vk::FORMAT_R32_SFLOAT)
        .width(42)
        .height(84)
        .depth(100)
        .build();

    assert_eq!(info, builder);
}

#[test]
fn image_info_builder_defaults() {
    let info = ImageInfo {
        array_layer_count: 1,
        alloc_dedicated: false,
        depth: 0,
        flags: 0,
        format: vk::FORMAT_UNDEFINED,
        height: 0,
        host_readable: false,
        host_writable: false,
        mip_level_count: 1,
        sample_count: SampleCount::Type1,
        sharing_mode: vk::SHARING_MODE_EXCLUSIVE,
        tiling: vk::IMAGE_TILING_OPTIMAL,
        ty: vk::IMAGE_TYPE_2D,
        usage: 0,
        width: 0,
    };

    assert_eq!(ImageInfoBuilder::default().build(), info);
}

fn image_access_fuzz(aspect_count: u8, array_layer_count: u32, mip_level_count: u32) {
    const FUZZ_COUNT: usize = 100_000;
    let access_types = [
        AccessType::AnyShaderReadOther,
        AccessType::AnyShaderWrite,
        AccessType::ColorAttachmentRead,
        AccessType::ColorAttachmentWrite,
        AccessType::HostRead,
        AccessType::HostWrite,
        AccessType::Nothing,
    ];

    let fmt = match aspect_count {
        1 => vk::FORMAT_R8G8B8A8_UNORM,
        2 => vk::FORMAT_D24_UNORM_S8_UINT,
        _ => unreachable!(),
    };

    let mut rng = SmallRng::seed_from_u64(42);
    let total = (aspect_count as u32 * array_layer_count * mip_level_count) as usize;
    let mut access_map = DenseMap::new(
        image_subresource(fmt, array_layer_count, mip_level_count),
        AccessType::Nothing,
    );
    let mut data = vec![AccessType::Nothing; total];

    let aspect_bits = format_aspect_mask(fmt);

    for _ in 0..FUZZ_COUNT {
        let new_access = access_types[rng.random_range(..access_types.len())];

        // Pick a valid aspect mask from the format's supported aspects
        let aspect_mask = if aspect_count == 2 && rng.random_bool(0.5) {
            aspect_bits
        } else {
            let bit_index =
                rng.random_range(..aspect_count) + aspect_bits.trailing_zeros() as u8;
            1 << bit_index
        };

        let layer_start = rng.random_range(..array_layer_count);
        let layer_end = rng.random_range(layer_start + 1..=array_layer_count);
        let mip_start = rng.random_range(..mip_level_count);
        let mip_end = rng.random_range(mip_start + 1..=mip_level_count);

        let range =
            image_subresource_range(aspect_mask, layer_start..layer_end, mip_start..mip_end);

        for (prev, range) in access_map.swap(new_access, range) {
            let range_mask = range.aspect_mask;
            for ai in 0..range_mask.count_ones() as u8 {
                let bit = range_mask.trailing_zeros() + ai as u32;
                let a = (aspect_bits & ((1 << bit) - 1)).count_ones() as u8;
                for l in range.base_array_layer..range.base_array_layer + range.layer_count {
                    for m in range.base_mip_level..range.base_mip_level + range.level_count {
                        let idx = (l * aspect_count as u32 * mip_level_count
                            + m * aspect_count as u32
                            + a as u32) as usize;
                        assert_eq!(
                            data[idx], prev,
                            "prev mismatch at aspect={a} layer={l} mip={m} idx={idx}: expected {prev:?}, got {:?}",
                            data[idx],
                        );
                    }
                }
            }
        }

        for a in 0..aspect_count {
            let bit = aspect_bits.trailing_zeros() as u8 + a;
            if aspect_mask & (1 << bit) == 0 {
                continue;
            }
            for l in layer_start..layer_end {
                for m in mip_start..mip_end {
                    let idx = access_map.idx(a, l, m);
                    data[idx] = new_access;
                }
            }
        }
    }
}

#[test]
fn image_access_fuzz_small() {
    image_access_fuzz(1, 3, 3);
}

#[test]
fn image_access_fuzz_medium() {
    image_access_fuzz(2, 4, 3);
}

#[test]
fn image_access_fuzz_large() {
    image_access_fuzz(1, 10, 10);
}

fn image_access_fuzz_through_access(
    aspect_count: u8,
    array_layer_count: u32,
    mip_level_count: u32,
) {
    const FUZZ_COUNT: usize = 10_000;
    let access_types = [
        AccessType::AnyShaderReadOther,
        AccessType::AnyShaderWrite,
        AccessType::ColorAttachmentRead,
        AccessType::ColorAttachmentWrite,
        AccessType::HostRead,
        AccessType::HostWrite,
        AccessType::Nothing,
    ];

    let fmt = match aspect_count {
        1 => vk::FORMAT_R8G8B8A8_UNORM,
        2 => vk::FORMAT_D24_UNORM_S8_UINT,
        _ => unreachable!(),
    };

    let mut rng = SmallRng::seed_from_u64(42);
    let info = image_subresource(fmt, array_layer_count, mip_level_count);
    let total = (aspect_count as u32 * array_layer_count * mip_level_count) as usize;
    let mut access = Access::new(info, AccessType::Nothing);
    let mut dense = None;
    let mut data = vec![AccessType::Nothing; total];

    let aspect_bits = format_aspect_mask(fmt);

    for _ in 0..FUZZ_COUNT {
        let new_access = access_types[rng.random_range(..access_types.len())];

        let aspect_mask = if aspect_count == 2 && rng.random_bool(0.5) {
            aspect_bits
        } else {
            let bit_index =
                rng.random_range(..aspect_count) + aspect_bits.trailing_zeros() as u8;
            1 << bit_index
        };

        let layer_start = rng.random_range(..array_layer_count);
        let layer_end = rng.random_range(layer_start + 1..=array_layer_count);
        let mip_start = rng.random_range(..mip_level_count);
        let mip_end = rng.random_range(mip_start + 1..=mip_level_count);

        let range =
            image_subresource_range(aspect_mask, layer_start..layer_end, mip_start..mip_end);
        let resolved = info.resolve_subresource_counts(range);

        for (prev, returned_range) in access.swap(
            &mut dense, info, new_access, resolved) {
            let range_mask = returned_range.aspect_mask;
            for ai in 0..range_mask.count_ones() as u8 {
                let bit = range_mask.trailing_zeros() + ai as u32;
                let a = (aspect_bits & ((1 << bit) - 1)).count_ones() as u8;
                for l in returned_range.base_array_layer
                    ..returned_range.base_array_layer + returned_range.layer_count
                {
                    for m in returned_range.base_mip_level
                        ..returned_range.base_mip_level + returned_range.level_count
                    {
                        let idx = (l * aspect_count as u32 * mip_level_count
                            + m * aspect_count as u32
                            + a as u32) as usize;
                        assert_eq!(
                            data[idx], prev,
                            "prev mismatch at aspect={a} layer={l} mip={m} idx={idx}: expected {prev:?}, got {:?}",
                            data[idx],
                        );
                    }
                }
            }
        }

        for a in 0..aspect_count {
            let bit = aspect_bits.trailing_zeros() as u8 + a;
            if aspect_mask & (1 << bit) == 0 {
                continue;
            }
            for l in layer_start..layer_end {
                for m in mip_start..mip_end {
                    let idx = (l * aspect_count as u32 * mip_level_count
                        + m * aspect_count as u32
                        + a as u32) as usize;
                    data[idx] = new_access;
                }
            }
        }
    }
}

#[test]
fn image_access_fuzz_access_uniform() {
    image_access_fuzz_through_access(1, 1, 1);
}

#[test]
fn image_access_fuzz_access_dual_aspect() {
    image_access_fuzz_through_access(2, 1, 1);
}

#[test]
fn image_access_fuzz_access_dense_small() {
    image_access_fuzz_through_access(1, 4, 4);
}

#[test]
fn image_access_fuzz_access_dense_large() {
    image_access_fuzz_through_access(1, 8, 8);
}

#[test]
fn image_access_fuzz_access_dense_dual_aspect() {
    image_access_fuzz_through_access(2, 3, 3);
}

#[test]
fn image_sync_info_compact_merges_mips_then_layers() {
    let mut sync_info = ImageSyncInfo {
        subresources: vec![
            image_sync_subresource(vk::IMAGE_ASPECT_COLOR, 0..1, 0..1),
            image_sync_subresource(vk::IMAGE_ASPECT_COLOR, 0..1, 1..2),
            image_sync_subresource(vk::IMAGE_ASPECT_COLOR, 1..2, 0..1),
            image_sync_subresource(vk::IMAGE_ASPECT_COLOR, 1..2, 1..2),
        ],
    };

    sync_info.compact();

    assert_eq!(sync_info.subresources.len(), 1);
    let subresource = &sync_info.subresources[0];
    let range = image_subresource_range(vk::IMAGE_ASPECT_COLOR, 0..2, 0..2);
    assert_eq!(subresource.access_mask, vk::ACCESS_SHADER_READ);
    assert_eq!(
        subresource.layout,
        Some(vk::IMAGE_LAYOUT_SHADER_READ_ONLY_OPTIMAL)
    );
    assert_eq!(subresource.range.aspect_mask, range.aspect_mask);
    assert_eq!(subresource.range.base_array_layer, range.base_array_layer);
    assert_eq!(subresource.range.layer_count, range.layer_count);
    assert_eq!(subresource.range.base_mip_level, range.base_mip_level);
    assert_eq!(subresource.range.level_count, range.level_count);
    assert_eq!(
        subresource.stage_mask,
        vk::PIPELINE_STAGE_COMPUTE_SHADER
    );
}

#[test]
fn image_sync_info_compact_keeps_different_sync_separate() {
    let sync_info = ImageSyncInfo {
        subresources: vec![
            image_sync_subresource(vk::IMAGE_ASPECT_COLOR, 0..1, 0..1),
            ImageSubresourceSyncInfo {
                access_mask: vk::ACCESS_SHADER_WRITE,
                layout: Some(vk::IMAGE_LAYOUT_GENERAL),
                queue_family_index: None,
                range: image_subresource_range(vk::IMAGE_ASPECT_COLOR, 0..1, 1..2),
                stage_mask: vk::PIPELINE_STAGE_COMPUTE_SHADER,
            },
        ],
    };

    let sync_info = sync_info.into_compacted();

    assert_eq!(sync_info.subresources.len(), 2);
    let subresource = &sync_info.subresources[0];
    let range = image_subresource_range(vk::IMAGE_ASPECT_COLOR, 0..1, 0..1);
    assert_eq!(subresource.access_mask, vk::ACCESS_SHADER_READ);
    assert_eq!(
        subresource.layout,
        Some(vk::IMAGE_LAYOUT_SHADER_READ_ONLY_OPTIMAL)
    );
    assert_eq!(subresource.range.aspect_mask, range.aspect_mask);
    assert_eq!(subresource.range.base_array_layer, range.base_array_layer);
    assert_eq!(subresource.range.layer_count, range.layer_count);
    assert_eq!(subresource.range.base_mip_level, range.base_mip_level);
    assert_eq!(subresource.range.level_count, range.level_count);
    assert_eq!(
        subresource.stage_mask,
        vk::PIPELINE_STAGE_COMPUTE_SHADER
    );
    assert_eq!(
        sync_info.subresources[1].access_mask,
        vk::ACCESS_SHADER_WRITE
    );
    assert_eq!(
        sync_info.subresources[1].layout,
        Some(vk::IMAGE_LAYOUT_GENERAL)
    );
}

#[test]
fn image_sync_info_compact_keeps_different_queue_families_separate() {
    let sync_info = ImageSyncInfo {
        subresources: vec![
            ImageSubresourceSyncInfo {
                access_mask: vk::ACCESS_SHADER_READ,
                layout: Some(vk::IMAGE_LAYOUT_SHADER_READ_ONLY_OPTIMAL),
                queue_family_index: Some(1),
                range: image_subresource_range(vk::IMAGE_ASPECT_COLOR, 0..1, 0..1),
                stage_mask: vk::PIPELINE_STAGE_COMPUTE_SHADER,
            },
            ImageSubresourceSyncInfo {
                access_mask: vk::ACCESS_SHADER_READ,
                layout: Some(vk::IMAGE_LAYOUT_SHADER_READ_ONLY_OPTIMAL),
                queue_family_index: Some(2),
                range: image_subresource_range(vk::IMAGE_ASPECT_COLOR, 0..1, 1..2),
                stage_mask: vk::PIPELINE_STAGE_COMPUTE_SHADER,
            },
        ],
    };

    let sync_info = sync_info.into_compacted();

    assert_eq!(sync_info.subresources.len(), 2);
    assert_eq!(sync_info.subresources[0].queue_family_index, Some(1));
    assert_eq!(sync_info.subresources[1].queue_family_index, Some(2));
}

#[test]
fn image_ownership_set_promotes_dense_on_partial_update() {
    let info = image_subresource(vk::FORMAT_R8_UINT, 2, 2);
    let mut sharing = Sharing::new(vk::SHARING_MODE_EXCLUSIVE);
    let mut dense = None;

    sharing.set_ranges(
        &mut dense,
        info,
        SharingMode::Exclusive(Some((7, 3))),
        &vec![image_subresource_range(vk::IMAGE_ASPECT_COLOR, 0..1, 0..1)],
    );

    match &sharing {
        Sharing::Exclusive(exclusive) => {
            assert!(exclusive.is_dense_sharing_active());
        }
        Sharing::Concurrent => panic!("expected exclusive ownership"),
    }

    let dense = dense.as_ref().expect("missing dense sharing state");
    assert_eq!(
        dense.subresource(0, 0, 0),
        SharingMode::Exclusive(Some((7, 3)))
    );
    assert_eq!(dense.subresource(0, 1, 0), SharingMode::Exclusive(None));
    assert_eq!(dense.subresource(0, 0, 1), SharingMode::Exclusive(None));
    assert_eq!(dense.subresource(0, 1, 1), SharingMode::Exclusive(None));
}

#[test]
fn image_ownership_set_whole_image_stays_uniform() {
    let info = image_subresource(vk::FORMAT_R8_UINT, 2, 2);
    let mut sharing = Sharing::new(vk::SHARING_MODE_EXCLUSIVE);
    let mut dense = None;

    sharing.set_ranges(
        &mut dense,
        info,
        SharingMode::Exclusive(Some((1, 2))),
        &vec![image_subresource_range(vk::IMAGE_ASPECT_COLOR, 0..2, 0..2)],
    );

    match &sharing {
        Sharing::Exclusive(exclusive) => {
            assert!(!exclusive.is_dense_sharing_active());
            assert_eq!(
                SharingMode::decode(exclusive.load()),
                SharingMode::Exclusive(Some((1, 2)))
            );
        }
        Sharing::Concurrent => panic!("expected exclusive ownership"),
    }
}

fn image_subresource(
    format: i32,
    array_layer_count: u32,
    mip_level_count: u32,
) -> ImageInfo {
    ImageInfo::image_2d(1, 1, format, 0)
        .into_builder()
        .array_layer_count(array_layer_count)
        .mip_level_count(mip_level_count)
        .build()
}

fn image_subresource_range(
    aspect_mask: u32,
    array_layers: Range<u32>,
    mip_levels: Range<u32>,
) -> ImageSubresourceRange {
    ImageSubresourceRange {
        aspect_mask,
        base_array_layer: array_layers.start,
        base_mip_level: mip_levels.start,
        layer_count: array_layers.len() as _,
        level_count: mip_levels.len() as _,
    }
}

#[test]
fn image_subresource_range_contains() {
    let f = range_contains;
    let i = image_subresource_range;

    assert!(f(i(vk::IMAGE_ASPECT_COLOR, 0..1, 0..1), i(vk::IMAGE_ASPECT_COLOR, 0..1, 0..1)));
    assert!(f(i(vk::IMAGE_ASPECT_COLOR, 0..2, 0..1), i(vk::IMAGE_ASPECT_COLOR, 0..1, 0..1)));
    assert!(f(i(vk::IMAGE_ASPECT_COLOR, 0..1, 0..2), i(vk::IMAGE_ASPECT_COLOR, 0..1, 0..1)));
    assert!(f(i(vk::IMAGE_ASPECT_COLOR, 0..2, 0..2), i(vk::IMAGE_ASPECT_COLOR, 0..1, 0..1)));
    assert!(!f(i(vk::IMAGE_ASPECT_COLOR, 0..1, 1..3), i(vk::IMAGE_ASPECT_COLOR, 0..1, 0..1)));
    assert!(!f(i(vk::IMAGE_ASPECT_COLOR, 1..3, 0..1), i(vk::IMAGE_ASPECT_COLOR, 0..1, 0..1)));
    assert!(!f(i(vk::IMAGE_ASPECT_COLOR, 0..1, 1..3), i(vk::IMAGE_ASPECT_COLOR, 0..1, 0..2)));
    assert!(!f(i(vk::IMAGE_ASPECT_COLOR, 1..3, 0..1), i(vk::IMAGE_ASPECT_COLOR, 0..2, 0..1)));
}

#[test]
fn image_subresource_range_intersects() {
    let f = range_intersects;
    let i = image_subresource_range;

    assert!(f(i(vk::IMAGE_ASPECT_COLOR, 0..1, 0..1), i(vk::IMAGE_ASPECT_COLOR, 0..1, 0..1)));
    assert!(!f(i(vk::IMAGE_ASPECT_COLOR, 0..1, 0..1), i(vk::IMAGE_ASPECT_DEPTH, 0..1, 0..1)));

    assert!(!f(i(vk::IMAGE_ASPECT_COLOR, 0..1, 0..1), i(vk::IMAGE_ASPECT_COLOR, 1..2, 0..1)));
    assert!(!f(i(vk::IMAGE_ASPECT_COLOR, 0..1, 0..1), i(vk::IMAGE_ASPECT_COLOR, 0..1, 1..2)));
    assert!(!f(i(vk::IMAGE_ASPECT_COLOR, 0..1, 0..1), i(vk::IMAGE_ASPECT_DEPTH, 1..2, 0..1)));
    assert!(!f(i(vk::IMAGE_ASPECT_COLOR, 0..1, 0..1), i(vk::IMAGE_ASPECT_DEPTH, 0..1, 1..2)));
    assert!(!f(i(vk::IMAGE_ASPECT_COLOR, 1..2, 1..2), i(vk::IMAGE_ASPECT_COLOR, 0..1, 0..1)));

    assert!(f(
        i(vk::IMAGE_ASPECT_DEPTH | vk::IMAGE_ASPECT_STENCIL, 2..3, 3..5),
        i(vk::IMAGE_ASPECT_DEPTH, 2..3, 2..4)
    ));
    assert!(f(
        i(vk::IMAGE_ASPECT_DEPTH | vk::IMAGE_ASPECT_STENCIL, 2..3, 3..5),
        i(vk::IMAGE_ASPECT_DEPTH, 2..3, 4..6)
    ));
    assert!(!f(
        i(vk::IMAGE_ASPECT_DEPTH | vk::IMAGE_ASPECT_STENCIL, 2..3, 3..5),
        i(vk::IMAGE_ASPECT_DEPTH, 2..3, 2..3)
    ));
    assert!(!f(
        i(vk::IMAGE_ASPECT_DEPTH | vk::IMAGE_ASPECT_STENCIL, 2..3, 3..5),
        i(vk::IMAGE_ASPECT_DEPTH, 2..3, 5..6)
    ));
}

#[test]
fn image_subresource_range_normalize_remaining_counts() {
    let info = image_subresource(vk::FORMAT_R8_UINT, 4, 6);
    let range = ImageSubresourceRange {
        aspect_mask: vk::IMAGE_ASPECT_COLOR,
        base_array_layer: 1,
        layer_count: vk::REMAINING_ARRAY_LAYERS,
        base_mip_level: 2,
        level_count: vk::REMAINING_MIP_LEVELS,
    };

    let range = info.resolve_subresource_counts(range);

    assert_eq!(range.base_array_layer, 1);
    assert_eq!(range.layer_count, 3);
    assert_eq!(range.base_mip_level, 2);
    assert_eq!(range.level_count, 4);
}

#[test]
fn image_view_info() {
    let info = ImageViewInfo::new(vk::FORMAT_UNDEFINED, vk::IMAGE_VIEW_TYPE_1D);
    let builder = info.into_builder().build();

    assert_eq!(info, builder);
}

#[test]
fn image_view_info_builder() {
    let info = ImageViewInfo::new(vk::FORMAT_UNDEFINED, vk::IMAGE_VIEW_TYPE_1D);
    let builder = ImageViewInfoBuilder::default()
        .format(vk::FORMAT_UNDEFINED)
        .ty(vk::IMAGE_VIEW_TYPE_1D)
        .aspect_mask(vk::IMAGE_ASPECT_COLOR)
        .build();

    assert_eq!(info, builder);
}

#[test]
fn image_view_info_builder_defaults() {
    assert_eq!(
        ImageViewInfoBuilder::default().build(),
        ImageViewInfo::new(vk::FORMAT_UNDEFINED, vk::IMAGE_VIEW_TYPE_2D)
    );
}
