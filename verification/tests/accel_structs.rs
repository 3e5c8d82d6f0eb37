use vk_driver::accel_struct::{
    validate_build_size_counts, AccelerationStructureGeometry, AccelerationStructureGeometryData,
    AccelerationStructureGeometryMarshaler, AccelerationStructureInfo,
    AccelerationStructureInfoBuilder, AccelerationStructureOpacityMicromap,
    AccelerationStructureTriangles, GeometryRecordData,
};
use vk_driver::access::AccessType;
use vk_driver::accesses::{AccessCodes, AccessIter, AccessStore};
use vk_driver::micromap::OpacityMicromapUsage;
use vk_driver::vk;

type Info = AccelerationStructureInfo;
type Builder = AccelerationStructureInfoBuilder;

fn swap_accesses(accesses: &mut AccessCodes, next_accesses: &[AccessType]) -> Vec<AccessType> {
    let iter = AccessIter::many(accesses, &next_accesses.to_vec());
    iter.drain(accesses)
}

fn listed(accesses: &AccessCodes) -> Vec<AccessType> {
    (0..accesses.access_count())
        .map(|idx| accesses.access_at(idx))
        .collect()
}

fn triangles<'a>() -> AccelerationStructureTriangles<'a> {
    AccelerationStructureTriangles::new(
        1,
        vk::INDEX_TYPE_UINT32,
        3,
        0,
        2,
        vk::FORMAT_R32G32B32_SFLOAT,
        12,
    )
}

fn extension_of(data: &GeometryRecordData) -> Option<usize> {
    match data {
        GeometryRecordData::Triangles { extension, .. } => *extension,
        _ => panic!("expected triangles"),
    }
}

#[test]
fn accel_struct_info() {
    let info = Info::blas(32);
    let builder = info.into_builder().build();

    assert_eq!(info, builder);
}

#[test]
fn accel_struct_info_builder() {
    let info = Info {
        acceleration_structure_type: vk::ACCELERATION_STRUCTURE_TYPE_GENERIC,
        size: 32,
    };
    let builder = Builder::default().size(32).build();

    assert_eq!(info, builder);
}

#[test]
fn accel_struct_info_builder_default_size() {
    let info = Info {
        acceleration_structure_type: vk::ACCELERATION_STRUCTURE_TYPE_GENERIC,
        size: 0,
    };

    assert_eq!(Builder::default().build(), info);
}

#[test]
fn access_tracking_retains_write_until_next_write() {
    let mut accesses = AccessCodes::new(AccessType::Nothing);
    let write = AccessType::AccelerationStructureBuildWrite;
    let read = AccessType::RayTracingShaderReadAccelerationStructure;

    assert_eq!(
        swap_accesses(&mut accesses, &[write]),
        [AccessType::Nothing]
    );
    assert_eq!(swap_accesses(&mut accesses, &[read]), [write]);
    assert!(swap_accesses(&mut accesses, &[read]).is_empty());
    assert_eq!(swap_accesses(&mut accesses, &[write]), [write, read]);
    assert_eq!(listed(&accesses), [write]);
}

#[test]
fn access_tracking_retains_reads_after_inline_capacity_is_exceeded() {
    let mut accesses = AccessCodes::new(AccessType::Nothing);
    let reads = [
        AccessType::VertexShaderReadOther,
        AccessType::GeometryShaderReadOther,
        AccessType::FragmentShaderReadOther,
        AccessType::ComputeShaderReadOther,
        AccessType::RayTracingShaderReadAccelerationStructure,
    ];

    for &read in &reads {
        swap_accesses(&mut accesses, &[read]);
        assert!(swap_accesses(&mut accesses, &[read]).is_empty());
    }

    let mut expected = vec![AccessType::Nothing];
    expected.extend(reads);
    let write = AccessType::AccelerationStructureBuildWrite;
    assert_eq!(swap_accesses(&mut accesses, &[write]), expected);
    assert_eq!(listed(&accesses), [write]);
}

#[test]
fn build_size_count_shapes() {
    assert!(validate_build_size_counts(0, 0));
    assert!(validate_build_size_counts(1, 1));
    assert!(validate_build_size_counts(64, 64));

    assert!(!validate_build_size_counts(1, 0));
    assert!(!validate_build_size_counts(0, 1));
    assert!(!validate_build_size_counts(2, 1));
    if usize::BITS > u32::BITS {
        let oversized = usize::try_from(u64::from(u32::MAX) + 1).unwrap();

        assert!(!validate_build_size_counts(oversized, oversized));
    }
}

#[test]
fn geometry_marshaler_emits_opacity_micromap_extension() {
    let usage = [
        OpacityMicromapUsage {
            count: 5,
            format: vk::OPACITY_MICROMAP_FORMAT_4_STATE,
            subdivision_level: 2,
        },
        OpacityMicromapUsage {
            count: 3,
            format: vk::OPACITY_MICROMAP_FORMAT_2_STATE,
            subdivision_level: 1,
        },
    ];
    let attachment = AccelerationStructureOpacityMicromap::new(7, &usage)
        .index_buffer(3)
        .index_type(vk::INDEX_TYPE_UINT16)
        .index_stride(2)
        .base_triangle(11);
    let geometry =
        AccelerationStructureGeometry::new(triangles().opacity_micromap(attachment).into());
    let marshaled = AccelerationStructureGeometryMarshaler::new(&[geometry]);

    assert_eq!(extension_of(&marshaled.geometries[0].data), Some(0));

    let extension = &marshaled.opacity_micromaps[0];
    let counts = &marshaled.usage_counts[0];

    assert_eq!(counts[0].count, 5);
    assert_eq!(extension.usage_counts_count, 2);
    assert_eq!(counts.len(), 2);
    assert_eq!(counts[1].count, 3);
    assert_eq!(extension.index_type, vk::INDEX_TYPE_UINT16);
    assert_eq!(extension.index_stride, 2);
    assert_eq!(extension.base_triangle, 11);
    assert_eq!(extension.micromap, 7);
    assert_eq!(extension.index_buffer, 3);
    assert_eq!(counts[0].subdivision_level, 2);
    assert_eq!(
        counts[0].format,
        vk::OPACITY_MICROMAP_FORMAT_4_STATE as u32
    );
    assert_eq!(attachment.usage_counts.as_ptr(), usage.as_ptr());
}

#[test]
fn geometry_marshaler_emits_triangles_without_extension() {
    let geometry = AccelerationStructureGeometry::new(triangles().into());
    let marshaled = AccelerationStructureGeometryMarshaler::new(&[geometry]);

    assert!(marshaled.opacity_micromaps.is_empty());
    assert_eq!(marshaled.geometries.len(), 1);
    assert_eq!(
        marshaled.geometries[0].data,
        GeometryRecordData::Triangles {
            index_data: 1,
            index_type: vk::INDEX_TYPE_UINT32,
            max_vertex: 3,
            transform_data: 0,
            vertex_data: 2,
            vertex_format: vk::FORMAT_R32G32B32_SFLOAT,
            vertex_stride: 12,
            extension: None,
        }
    );
}

#[test]
fn geometry_marshaler_empty_usage_and_transform() {
    let empty = AccelerationStructureGeometryMarshaler::new(&[]);

    assert!(empty.geometries.is_empty());
    assert!(empty.usage_counts.is_empty());

    let geometry = AccelerationStructureGeometry::new(
        AccelerationStructureTriangles::new(
            0,
            vk::INDEX_TYPE_NONE_KHR,
            2,
            64,
            128,
            vk::FORMAT_R32G32B32_SFLOAT,
            12,
        )
        .opacity_micromap(AccelerationStructureOpacityMicromap::new(0, &[]))
        .into(),
    );
    let marshaled = AccelerationStructureGeometryMarshaler::new(&[geometry]);

    match marshaled.geometries[0].data {
        GeometryRecordData::Triangles { transform_data, .. } => assert_eq!(transform_data, 64),
        _ => panic!("expected triangles"),
    }

    let extension = &marshaled.opacity_micromaps[0];

    assert_eq!(extension.usage_counts_count, 0);
    assert!(marshaled.usage_counts[0].is_empty());
    assert_eq!(extension.index_type, vk::INDEX_TYPE_NONE_KHR);
}

#[test]
fn geometry_marshaler_keeps_all_extension_pointers_stable() {
    let usages = (0..64)
        .map(|index| {
            [OpacityMicromapUsage {
                count: index + 1,
                format: vk::OPACITY_MICROMAP_FORMAT_2_STATE,
                subdivision_level: 0,
            }]
        })
        .collect::<Vec<_>>();
    let geometries = (0..64)
        .map(|index| {
            let attachment =
                AccelerationStructureOpacityMicromap::new(index as u64 + 1, &usages[index]);
            AccelerationStructureGeometry::new(triangles().opacity_micromap(attachment).into())
        })
        .collect::<Vec<_>>();
    let marshaled = AccelerationStructureGeometryMarshaler::new(&geometries);

    assert_eq!(marshaled.geometries.len(), 64);

    for (index, geometry) in marshaled.geometries.iter().enumerate() {
        assert_eq!(extension_of(&geometry.data), Some(index));

        let extension = &marshaled.opacity_micromaps[index];
        assert_eq!(marshaled.usage_counts[index][0].count, index as u32 + 1);
        assert_eq!(extension.micromap, index as u64 + 1);
    }
}

#[test]
fn geometry_marshaler_mixes_concrete_geometry() {
    let usage = [OpacityMicromapUsage {
        count: 1,
        format: vk::OPACITY_MICROMAP_FORMAT_2_STATE,
        subdivision_level: 0,
    }];
    let geometries = [
        AccelerationStructureGeometry::opaque(triangles().into()),
        AccelerationStructureGeometry::new(
            triangles()
                .opacity_micromap(AccelerationStructureOpacityMicromap::new(7, &usage))
                .into(),
        ),
        AccelerationStructureGeometry::new(AccelerationStructureGeometryData::aabbs(8, 24)),
        AccelerationStructureGeometry::new(AccelerationStructureGeometryData::instances(16)),
        AccelerationStructureGeometry::new(AccelerationStructureGeometryData::instance_pointers(
            32,
        )),
    ];
    let marshaled = AccelerationStructureGeometryMarshaler::new(&geometries);
    assert_eq!(marshaled.opacity_micromaps.len(), 1);
    assert_eq!(marshaled.geometries[0].flags, vk::GEOMETRY_OPAQUE);
    assert_eq!(
        marshaled
            .geometries
            .iter()
            .map(|geometry| geometry.geometry_type())
            .collect::<Vec<_>>(),
        [
            vk::GEOMETRY_TYPE_TRIANGLES,
            vk::GEOMETRY_TYPE_TRIANGLES,
            vk::GEOMETRY_TYPE_AABBS,
            vk::GEOMETRY_TYPE_INSTANCES,
            vk::GEOMETRY_TYPE_INSTANCES
        ]
    );
    assert!(extension_of(&marshaled.geometries[0].data).is_none());
    assert!(extension_of(&marshaled.geometries[1].data).is_some());
    assert_eq!(
        marshaled.geometries[2].data,
        GeometryRecordData::Aabbs {
            data: 8,
            stride: 24
        }
    );
    assert_eq!(
        marshaled.geometries[3].data,
        GeometryRecordData::Instances {
            data: 16,
            array_of_pointers: false
        }
    );
    assert_eq!(
        marshaled.geometries[4].data,
        GeometryRecordData::Instances {
            data: 32,
            array_of_pointers: true
        }
    );
}
