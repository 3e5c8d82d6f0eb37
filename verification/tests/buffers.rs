use rand::rngs::SmallRng;
use rand::{Rng, SeedableRng};
use std::ops::Range;
use vk_driver::access::{access_type_from_u8, access_type_into_u8, AccessType};
use vk_driver::buffer::{
    tracked_access_after, BufferInfo, BufferInfoBuilder, BufferSubresourceRange,
};
use vk_driver::buffer_sharing::ExclusiveSharing;
use vk_driver::buffer_sync::{BufferSubresourceSyncInfo, BufferSyncInfo};
use vk_driver::run_map::{RunMap, RunMapCursor, RunMapIter};
use vk_driver::sharing::SharingMode;
use vk_driver::vk;

type Info = BufferInfo;
type Builder = BufferInfoBuilder;

const FUZZ_COUNT: usize = 100_000;

fn code(access: AccessType) -> u64 {
    access_type_into_u8(access) as u64
}

fn access_of(code: u64) -> AccessType {
    access_type_from_u8(code as u8)
}

fn buffer_subresource_range(Range { start, end }: Range<u64>) -> BufferSubresourceRange {
    BufferSubresourceRange { start, end }
}

fn map_of(runs: &[(u64, u64)], size: u64) -> RunMap {
    let mut map = RunMap::new(size, runs[0].0);
    for (idx, run) in runs.iter().enumerate() {
        let end = runs.get(idx + 1).map_or(size, |next| next.1);
        map.set_range(run.0, (run.1..end).into());
    }
    map
}

fn access_map(runs: &[(AccessType, u64)], size: u64) -> RunMap {
    let runs = runs
        .iter()
        .map(|(access, start)| (code(*access), *start))
        .collect::<Vec<_>>();
    map_of(&runs, size)
}

fn runs_of(map: &RunMap) -> Vec<(u64, u64)> {
    (0..map.run_count()).map(|idx| map.run(idx)).collect()
}

fn assert_access_runs_eq(map: &RunMap, expected: &[(AccessType, u64)]) {
    let runs = runs_of(map)
        .into_iter()
        .map(|(value, start)| (access_of(value), start))
        .collect::<Vec<_>>();
    assert_eq!(runs.as_slice(), expected);
}

fn next_access(
    iter: &mut RunMapIter,
    map: &mut RunMap,
) -> Option<(AccessType, BufferSubresourceRange)> {
    iter.next(map)
        .map(|(value, range)| (access_of(value), range))
}

fn buffer_sync_info(range: Range<u64>) -> BufferSubresourceSyncInfo {
    BufferSubresourceSyncInfo {
        access_mask: vk::ACCESS_SHADER_READ,
        queue_family_index: None,
        range: buffer_subresource_range(range),
        stage_mask: vk::PIPELINE_STAGE_COMPUTE_SHADER,
    }
}

#[test]
fn buffer_sharing_whole_update_retries_after_promotion() {
    for bulk in [false, true] {
        let mut sharing = ExclusiveSharing::new(16);
        let whole_owner = SharingMode::Exclusive(Some((1, 0)));
        let partial_owner = SharingMode::Exclusive(Some((2, 1)));
        let observed = sharing.load();
        // Complete promotion after the whole-buffer writer has loaded its expected owner, but
        // before it stores its own.
        if bulk {
            sharing.set_ranges(16, partial_owner, &vec![(4..8).into(), (10..12).into()]);
        } else {
            sharing.set_range(16, partial_owner, (4..8).into());
        }
        sharing.set_uniform_or_dense(observed, 16, whole_owner);
        assert_eq!(
            sharing.ranges_in(16, (0..16).into()),
            vec![(whole_owner, (0..16).into())],
            "bulk={bulk}"
        );
    }
}

#[test]
fn buffer_sharing_uniform_updates_survive_promotion() {
    for bulk in [false, true] {
        for whole_owner in [
            SharingMode::Exclusive(None),
            SharingMode::Concurrent,
            SharingMode::Exclusive(Some((1, 0))),
        ] {
            let mut sharing = ExclusiveSharing::new(16);
            let partial_owner = SharingMode::Exclusive(Some((2, 1)));
            sharing.set_range(16, whole_owner, (0..16).into());
            assert_eq!(sharing.load(), whole_owner.encode());
            assert_eq!(
                sharing.ranges_in(16, (0..16).into()),
                vec![(whole_owner, (0..16).into())]
            );

            if bulk {
                sharing.set_ranges(16, partial_owner, &vec![(4..6).into(), (6..8).into()]);
            } else {
                sharing.set_range(16, partial_owner, (4..8).into());
            }
            assert_eq!(
                sharing.ranges_in(16, (0..16).into()),
                vec![
                    (whole_owner, (0..4).into()),
                    (partial_owner, (4..8).into()),
                    (whole_owner, (8..16).into()),
                ],
                "bulk={bulk}, whole_owner={whole_owner:?}"
            );
        }
    }
}

#[test]
fn run_map_set_range_noops_do_not_shift_tail() {
    let runs = (0..1024)
        .map(|idx| (idx % 2, idx * 4))
        .collect::<Vec<(u64, u64)>>();
    let mut map = map_of(&runs, 4096);
    let expected = runs_of(&map);
    assert_eq!(expected, runs);
    for _ in 0..128 {
        for range in [8..9, 9..11, 8..12, 9..12] {
            map.set_range(0, range.into());
        }
    }
    assert_eq!(runs_of(&map), expected);
}

#[test]
fn run_map_set_range_matches_exhaustive_oracle() {
    const SIZE: usize = 8;
    let compact = |data: &[u8]| -> Vec<(u64, u64)> {
        data.iter()
            .copied()
            .enumerate()
            .filter(|&(idx, value)| idx == 0 || data[idx - 1] != value)
            .map(|(idx, value)| (value as u64, idx as u64))
            .collect()
    };
    for bits in 0..1 << SIZE {
        let data: [u8; SIZE] = std::array::from_fn(|idx| ((bits >> idx) & 1) as u8);
        for start in 0..SIZE {
            for end in start + 1..=SIZE {
                for value in 0..3 {
                    let mut map = map_of(&compact(&data), SIZE as u64);
                    let mut expected = data;
                    expected[start..end].fill(value);
                    let expected = compact(&expected);
                    for _ in 0..2 {
                        map.set_range(value as u64, (start as u64..end as u64).into());
                        assert_eq!(
                            runs_of(&map),
                            expected,
                            "bits={bits} range={start}..{end} value={value}"
                        );
                    }
                }
            }
        }
    }
}

#[test]
fn fragmented_cursor_defers_tail_shifts() {
    let runs = (0..1024)
        .map(|idx| (idx % 2, idx))
        .collect::<Vec<(u64, u64)>>();
    let mut map = map_of(&runs, 1024);
    let mut iter = RunMapIter::new(&map, 2, (0..1024).into());
    assert_eq!(map.run(0), (0, 0));
    for idx in 0..128 {
        assert_eq!(
            iter.next(&mut map),
            Some((idx % 2, (idx..idx + 1).into()))
        );
    }
    // Unvisited entries stay in place until the cursor finishes, rather than shifting the entire
    // tail once for every merged run.
    assert_eq!(map.run_count(), 1024);
    assert_eq!(map.run(128), (0, 128));
    iter.drain(&mut map);
    assert_eq!(runs_of(&map), vec![(2, 0)]);
}

#[test]
fn fragmented_cursor_partial_drop_preserves_boundaries() {
    for consumed in [0, 1, 17, 63] {
        let runs = (0..64)
            .map(|idx| (idx % 2, idx * 4))
            .collect::<Vec<(u64, u64)>>();
        let mut map = map_of(&runs, 256);
        let mut iter = RunMapIter::new(&map, 2, (2..254).into());
        for idx in 0..consumed {
            assert_eq!(
                iter.next(&mut map),
                Some((idx % 2, ((idx * 4).max(2)..(idx * 4 + 4).min(254)).into()))
            );
        }
        iter.drain(&mut map);
        assert_eq!(runs_of(&map), vec![(0, 0), (2, 2), (1, 254)]);
    }
}

#[test]
fn fragmented_cursor_transforms_each_old_value_lazily() {
    let runs = (0..64)
        .map(|idx| {
            (
                if idx % 2 == 0 {
                    AccessType::TransferWrite
                } else {
                    AccessType::TransferRead
                },
                idx * 4,
            )
        })
        .collect::<Vec<_>>();
    let mut map = access_map(&runs, 256);
    let mut cursor = RunMapCursor::new(&map, (2..254).into());
    let mut calls = 0;
    for idx in 0..64 {
        let expected = if idx % 2 == 0 {
            AccessType::TransferWrite
        } else {
            AccessType::TransferRead
        };
        assert_eq!(
            cursor.next_with(&mut map, |old| {
                calls += 1;
                assert_eq!(access_of(old), expected);
                code(tracked_access_after(access_of(old), AccessType::HostRead))
            }),
            Some((
                code(expected),
                ((idx * 4).max(2)..(idx * 4 + 4).min(254)).into()
            ))
        );
        assert_eq!(calls, idx + 1);
    }
    assert!(cursor
        .next_with(&mut map, |_| panic!("exhausted cursor transformed a value"))
        .is_none());
    let mut expected = vec![(AccessType::TransferWrite, 0)];
    expected.extend((0..64).map(|idx| {
        (
            if idx % 2 == 0 {
                AccessType::General
            } else {
                AccessType::HostRead
            },
            (idx * 4).max(2),
        )
    }));
    expected.push((AccessType::TransferRead, 254));
    assert_access_runs_eq(&map, &expected);
}

#[test]
fn fragmented_ownership_bulk_assignment_preserves_gaps_and_resets() {
    let mut sharing = ExclusiveSharing::new(256);
    let owner_a = SharingMode::Exclusive(Some((1, 0)));
    let owner_b = SharingMode::Exclusive(Some((2, 1)));
    sharing.set_ranges(
        256,
        owner_a,
        &(0..128)
            .map(|idx| (idx * 2..idx * 2 + 1).into())
            .collect::<Vec<BufferSubresourceRange>>(),
    );
    sharing.set_ranges(
        256,
        owner_b,
        &vec![(3..101).into(), (99..201).into(), (220..240).into()],
    );
    for offset in 0..256 {
        let expected = if (3..201).contains(&offset) || (220..240).contains(&offset) {
            owner_b
        } else if offset % 2 == 0 {
            owner_a
        } else {
            SharingMode::Exclusive(None)
        };
        assert_eq!(
            sharing.ranges_in(256, (offset..offset + 1).into()),
            vec![(expected, (offset..offset + 1).into())]
        );
    }
    for ranges in [
        vec![(0..256).into()],
        vec![(0..128).into(), (128..256).into()],
    ] {
        sharing.set_ranges(256, owner_a, &ranges);
        assert_eq!(
            sharing.ranges_in(256, (0..256).into()),
            vec![(owner_a, (0..256).into())]
        );
        assert_eq!(sharing.load(), ExclusiveSharing::DENSE);
        sharing.set_range(256, owner_b, (80..160).into());
    }
}

#[test]
fn buffer_sharing_ranges_in_clips_dense_runs_to_query_range() {
    let mut sharing = ExclusiveSharing::new(16);
    let owner_a = SharingMode::Exclusive(Some((1, 0)));
    let owner_b = SharingMode::Exclusive(Some((2, 0)));
    let range_a = buffer_subresource_range(0..8);
    let range_b = buffer_subresource_range(8..16);
    let query_range = buffer_subresource_range(4..12);

    sharing.set_ranges(16, owner_a, &vec![range_a]);
    sharing.set_ranges(16, owner_b, &vec![range_b]);

    let ranges = sharing.ranges_in(16, query_range);

    assert_eq!(
        ranges,
        vec![
            (owner_a, buffer_subresource_range(4..8)),
            (owner_b, buffer_subresource_range(8..12)),
        ]
    );
}

#[test]
fn tracked_access_preserves_write_and_later_read_dependencies() {
    let write = AccessType::TransferWrite;

    assert_eq!(
        tracked_access_after(write, AccessType::ComputeShaderReadOther),
        AccessType::General
    );
    assert_eq!(
        tracked_access_after(AccessType::General, AccessType::TransferRead),
        AccessType::General
    );
    assert_eq!(
        tracked_access_after(write, AccessType::ComputeShaderWrite),
        AccessType::ComputeShaderWrite
    );
    assert_eq!(
        tracked_access_after(AccessType::ComputeShaderReadOther, AccessType::TransferRead),
        AccessType::TransferRead
    );
}

#[test]
fn buffer_access() {
    let mut access_runs = RunMap::new(100, code(AccessType::Nothing));

    {
        let mut accesses = RunMapIter::new(
            &access_runs,
            code(AccessType::TransferWrite),
            buffer_subresource_range(0..10),
        );

        assert_access_runs_eq(&access_runs, &[(AccessType::Nothing, 0)]);
        assert_eq!(
            next_access(&mut accesses, &mut access_runs).unwrap(),
            (AccessType::Nothing, buffer_subresource_range(0..10))
        );
        assert_access_runs_eq(
            &access_runs,
            &[(AccessType::TransferWrite, 0), (AccessType::Nothing, 10)],
        );
        assert!(next_access(&mut accesses, &mut access_runs).is_none());
    }

    {
        let mut accesses = RunMapIter::new(
            &access_runs,
            code(AccessType::TransferRead),
            buffer_subresource_range(5..15),
        );

        assert_access_runs_eq(
            &access_runs,
            &[(AccessType::TransferWrite, 0), (AccessType::Nothing, 10)],
        );
        assert_eq!(
            next_access(&mut accesses, &mut access_runs).unwrap(),
            (AccessType::TransferWrite, buffer_subresource_range(5..10))
        );
        assert_access_runs_eq(
            &access_runs,
            &[
                (AccessType::TransferWrite, 0),
                (AccessType::TransferRead, 5),
                (AccessType::Nothing, 10),
            ],
        );
        assert_eq!(
            next_access(&mut accesses, &mut access_runs).unwrap(),
            (AccessType::Nothing, buffer_subresource_range(10..15))
        );
        assert_access_runs_eq(
            &access_runs,
            &[
                (AccessType::TransferWrite, 0),
                (AccessType::TransferRead, 5),
                (AccessType::Nothing, 15),
            ],
        );
        assert!(next_access(&mut accesses, &mut access_runs).is_none());
    }

    {
        let mut accesses = RunMapIter::new(
            &access_runs,
            code(AccessType::HostRead),
            buffer_subresource_range(0..100),
        );

        assert_access_runs_eq(
            &access_runs,
            &[
                (AccessType::TransferWrite, 0),
                (AccessType::TransferRead, 5),
                (AccessType::Nothing, 15),
            ],
        );
        assert_eq!(
            next_access(&mut accesses, &mut access_runs).unwrap(),
            (AccessType::TransferWrite, buffer_subresource_range(0..5))
        );
        assert_access_runs_eq(
            &access_runs,
            &[
                (AccessType::HostRead, 0),
                (AccessType::TransferRead, 5),
                (AccessType::Nothing, 15),
            ],
        );
        assert_eq!(
            next_access(&mut accesses, &mut access_runs).unwrap(),
            (AccessType::TransferRead, buffer_subresource_range(5..15))
        );
        assert_access_runs_eq(
            &access_runs,
            &[
                (AccessType::HostRead, 0),
                // Compaction leaves a gap until the last old run is visited.
                (AccessType::TransferRead, 5),
                (AccessType::Nothing, 15),
            ],
        );
        assert_eq!(
            next_access(&mut accesses, &mut access_runs).unwrap(),
            (AccessType::Nothing, buffer_subresource_range(15..100))
        );
        assert_access_runs_eq(&access_runs, &[(AccessType::HostRead, 0)]);
        assert!(next_access(&mut accesses, &mut access_runs).is_none());
    }

    {
        let mut accesses = RunMapIter::new(
            &access_runs,
            code(AccessType::HostWrite),
            buffer_subresource_range(0..100),
        );

        assert_access_runs_eq(&access_runs, &[(AccessType::HostRead, 0)]);
        assert_eq!(
            next_access(&mut accesses, &mut access_runs).unwrap(),
            (AccessType::HostRead, buffer_subresource_range(0..100))
        );
        assert_access_runs_eq(&access_runs, &[(AccessType::HostWrite, 0)]);
        assert!(next_access(&mut accesses, &mut access_runs).is_none());
    }

    {
        let mut accesses = RunMapIter::new(
            &access_runs,
            code(AccessType::HostWrite),
            buffer_subresource_range(0..100),
        );

        assert_access_runs_eq(&access_runs, &[(AccessType::HostWrite, 0)]);
        assert_eq!(
            next_access(&mut accesses, &mut access_runs).unwrap(),
            (AccessType::HostWrite, buffer_subresource_range(0..100))
        );
        assert_access_runs_eq(&access_runs, &[(AccessType::HostWrite, 0)]);
        assert!(next_access(&mut accesses, &mut access_runs).is_none());
    }

    {
        let mut accesses = RunMapIter::new(
            &access_runs,
            code(AccessType::HostWrite),
            buffer_subresource_range(1..99),
        );

        assert_access_runs_eq(&access_runs, &[(AccessType::HostWrite, 0)]);
        assert_eq!(
            next_access(&mut accesses, &mut access_runs).unwrap(),
            (AccessType::HostWrite, buffer_subresource_range(1..99))
        );
        assert_access_runs_eq(&access_runs, &[(AccessType::HostWrite, 0)]);
        assert!(next_access(&mut accesses, &mut access_runs).is_none());
    }

    {
        let mut accesses = RunMapIter::new(
            &access_runs,
            code(AccessType::HostRead),
            buffer_subresource_range(1..99),
        );

        assert_access_runs_eq(&access_runs, &[(AccessType::HostWrite, 0)]);
        assert_eq!(
            next_access(&mut accesses, &mut access_runs).unwrap(),
            (AccessType::HostWrite, buffer_subresource_range(1..99))
        );
        assert_access_runs_eq(
            &access_runs,
            &[
                (AccessType::HostWrite, 0),
                (AccessType::HostRead, 1),
                (AccessType::HostWrite, 99),
            ],
        );
        assert!(next_access(&mut accesses, &mut access_runs).is_none());
    }

    {
        let mut accesses = RunMapIter::new(
            &access_runs,
            code(AccessType::Nothing),
            buffer_subresource_range(0..100),
        );

        assert_eq!(
            next_access(&mut accesses, &mut access_runs).unwrap(),
            (AccessType::HostWrite, buffer_subresource_range(0..1))
        );
        assert_eq!(
            next_access(&mut accesses, &mut access_runs).unwrap(),
            (AccessType::HostRead, buffer_subresource_range(1..99))
        );
        assert_eq!(
            next_access(&mut accesses, &mut access_runs).unwrap(),
            (AccessType::HostWrite, buffer_subresource_range(99..100))
        );
        assert!(next_access(&mut accesses, &mut access_runs).is_none());
    }

    {
        let mut accesses = RunMapIter::new(
            &access_runs,
            code(AccessType::AnyShaderWrite),
            buffer_subresource_range(0..100),
        );

        assert_eq!(
            next_access(&mut accesses, &mut access_runs).unwrap(),
            (AccessType::Nothing, buffer_subresource_range(0..100))
        );
        assert!(next_access(&mut accesses, &mut access_runs).is_none());
    }

    {
        let mut accesses = RunMapIter::new(
            &access_runs,
            code(AccessType::AnyShaderReadOther),
            buffer_subresource_range(1..2),
        );

        assert_eq!(
            next_access(&mut accesses, &mut access_runs).unwrap(),
            (AccessType::AnyShaderWrite, buffer_subresource_range(1..2))
        );
        assert!(next_access(&mut accesses, &mut access_runs).is_none());
    }

    {
        let mut accesses = RunMapIter::new(
            &access_runs,
            code(AccessType::AnyShaderReadOther),
            buffer_subresource_range(3..4),
        );

        assert_eq!(
            next_access(&mut accesses, &mut access_runs).unwrap(),
            (AccessType::AnyShaderWrite, buffer_subresource_range(3..4))
        );
        assert!(next_access(&mut accesses, &mut access_runs).is_none());
    }

    {
        let mut accesses = RunMapIter::new(
            &access_runs,
            code(AccessType::Nothing),
            buffer_subresource_range(0..5),
        );

        assert_eq!(
            next_access(&mut accesses, &mut access_runs).unwrap(),
            (AccessType::AnyShaderWrite, buffer_subresource_range(0..1))
        );
        assert_eq!(
            next_access(&mut accesses, &mut access_runs).unwrap(),
            (
                AccessType::AnyShaderReadOther,
                buffer_subresource_range(1..2)
            )
        );
        assert_eq!(
            next_access(&mut accesses, &mut access_runs).unwrap(),
            (AccessType::AnyShaderWrite, buffer_subresource_range(2..3))
        );
        assert_eq!(
            next_access(&mut accesses, &mut access_runs).unwrap(),
            (
                AccessType::AnyShaderReadOther,
                buffer_subresource_range(3..4)
            )
        );
        assert_eq!(
            next_access(&mut accesses, &mut access_runs).unwrap(),
            (AccessType::AnyShaderWrite, buffer_subresource_range(4..5))
        );
        assert!(next_access(&mut accesses, &mut access_runs).is_none());
    }
}

#[test]
fn buffer_access_basic() {
    let mut access_runs = access_map(
        &[
            (AccessType::ColorAttachmentRead, 0),
            (AccessType::AnyShaderWrite, 4),
        ],
        5,
    );

    {
        let mut accesses = RunMapIter::new(
            &access_runs,
            code(AccessType::AnyShaderWrite),
            buffer_subresource_range(0..2),
        );

        assert_eq!(
            next_access(&mut accesses, &mut access_runs).unwrap(),
            (
                AccessType::ColorAttachmentRead,
                buffer_subresource_range(0..2)
            )
        );
        assert!(next_access(&mut accesses, &mut access_runs).is_none());
    }

    {
        let mut accesses = RunMapIter::new(
            &access_runs,
            code(AccessType::HostWrite),
            buffer_subresource_range(0..5),
        );

        assert_eq!(
            next_access(&mut accesses, &mut access_runs).unwrap(),
            (AccessType::AnyShaderWrite, buffer_subresource_range(0..2))
        );
        assert_eq!(
            next_access(&mut accesses, &mut access_runs).unwrap(),
            (
                AccessType::ColorAttachmentRead,
                buffer_subresource_range(2..4)
            )
        );
        assert_eq!(
            next_access(&mut accesses, &mut access_runs).unwrap(),
            (AccessType::AnyShaderWrite, buffer_subresource_range(4..5))
        );

        assert!(next_access(&mut accesses, &mut access_runs).is_none());
    }
}

fn buffer_access_fuzz(buffer_size: u64) {
    let access_types = [
        AccessType::AnyShaderReadOther,
        AccessType::AnyShaderWrite,
        AccessType::ColorAttachmentRead,
        AccessType::ColorAttachmentWrite,
        AccessType::HostRead,
        AccessType::HostWrite,
        AccessType::Nothing,
    ];

    let mut rng = SmallRng::seed_from_u64(42);
    let mut access_runs = RunMap::new(buffer_size, code(AccessType::Nothing));
    let mut data = vec![AccessType::Nothing; buffer_size as usize];

    for _ in 0..FUZZ_COUNT {
        let access = access_types[rng.random_range(..access_types.len())];
        let access_start = rng.random_range(..buffer_size);
        let access_end = rng.random_range(access_start + 1..=buffer_size);

        let mut accesses = RunMapIter::new(
            &access_runs,
            code(access),
            buffer_subresource_range(access_start..access_end),
        );

        while let Some((access, access_range)) = next_access(&mut accesses, &mut access_runs) {
            assert!(
                data[access_range.start as usize..access_range.end as usize]
                    .iter()
                    .all(|data| *data == access),
                "{:?}",
                &data[access_range.start as usize..access_range.end as usize]
            );
        }

        for data in &mut data[access_start as usize..access_end as usize] {
            *data = access;
        }
    }
}

#[test]
fn buffer_access_fuzz_small() {
    buffer_access_fuzz(5);
}

#[test]
fn buffer_access_fuzz_medium() {
    buffer_access_fuzz(101);
}

#[test]
fn buffer_access_fuzz_large() {
    buffer_access_fuzz(10_000);
}

#[test]
fn buffer_sync_info_compact_merges_adjacent_equal_ranges() {
    let mut sync_info = BufferSyncInfo {
        ranges: vec![
            buffer_sync_info(0..4),
            buffer_sync_info(4..8),
            BufferSubresourceSyncInfo {
                access_mask: vk::ACCESS_SHADER_WRITE,
                queue_family_index: None,
                range: buffer_subresource_range(8..12),
                stage_mask: vk::PIPELINE_STAGE_COMPUTE_SHADER,
            },
        ],
    };

    sync_info.compact();

    assert_eq!(sync_info.ranges.len(), 2);
    assert_eq!(sync_info.ranges[0], buffer_sync_info(0..8));
    assert_eq!(
        sync_info.ranges[1],
        BufferSubresourceSyncInfo {
            access_mask: vk::ACCESS_SHADER_WRITE,
            queue_family_index: None,
            range: buffer_subresource_range(8..12),
            stage_mask: vk::PIPELINE_STAGE_COMPUTE_SHADER,
        }
    );
}

#[test]
fn buffer_sync_info_into_compacted_preserves_non_adjacent_ranges() {
    let sync_info = BufferSyncInfo {
        ranges: vec![
            BufferSubresourceSyncInfo {
                queue_family_index: Some(3),
                ..buffer_sync_info(0..4)
            },
            BufferSubresourceSyncInfo {
                queue_family_index: Some(3),
                ..buffer_sync_info(5..9)
            },
        ],
    };

    let sync_info = sync_info.into_compacted();

    assert_eq!(sync_info.ranges.len(), 2);
    assert_eq!(sync_info.ranges[0].queue_family_index, Some(3));
    assert_eq!(sync_info.ranges[1].queue_family_index, Some(3));
    assert_eq!(sync_info.ranges[0].range, buffer_subresource_range(0..4));
    assert_eq!(sync_info.ranges[1].range, buffer_subresource_range(5..9));
}

#[test]
fn buffer_info() {
    let info = Info::device_mem(0, 0);
    let builder = info.into_builder().build();

    assert_eq!(info, builder);
}

#[test]
fn buffer_info_alignment() {
    let info = Info::device_mem(0, 0);

    assert_eq!(info.alignment, 1);
}

#[test]
fn buffer_info_builder() {
    let info = Info::device_mem(0, 0);
    let builder = Builder::default().size(0).build();

    assert_eq!(info, builder);
}

#[test]
fn buffer_info_builder_alignment_0() {
    assert_eq!(
        Builder::default().size(0).alignment(0).build_checked(),
        None
    );
}

#[test]
fn buffer_info_builder_alignment_256() {
    let mut info = Info::device_mem(42, 0);
    info.alignment = 256;

    let builder = Builder::default().size(42).alignment(256).build();

    assert_eq!(info, builder);
    assert_eq!(
        Builder::default().size(42).alignment(256).build_checked(),
        Some(info)
    );
}

#[test]
fn buffer_info_builder_alignment_42() {
    assert_eq!(
        Builder::default().size(0).alignment(42).build_checked(),
        None
    );
}

#[test]
fn buffer_info_builder_default_size() {
    assert_eq!(
        Builder::default().build(),
        Info::device_mem(0, 0)
    );
}

#[test]
fn buffer_subresource_range_intersects() {
    assert!(!buffer_subresource_range(10..20).intersects(buffer_subresource_range(0..5)));
    assert!(!buffer_subresource_range(10..20).intersects(buffer_subresource_range(5..10)));
    assert!(buffer_subresource_range(10..20).intersects(buffer_subresource_range(10..15)));
    assert!(buffer_subresource_range(10..20).intersects(buffer_subresource_range(15..20)));
    assert!(!buffer_subresource_range(10..20).intersects(buffer_subresource_range(20..25)));
    assert!(!buffer_subresource_range(10..20).intersects(buffer_subresource_range(25..30)));

    assert!(!buffer_subresource_range(5..10).intersects(buffer_subresource_range(10..20)));
    assert!(buffer_subresource_range(5..25).intersects(buffer_subresource_range(10..20)));
    assert!(buffer_subresource_range(5..15).intersects(buffer_subresource_range(10..20)));
    assert!(buffer_subresource_range(10..20).intersects(buffer_subresource_range(10..20)));
    assert!(buffer_subresource_range(11..19).intersects(buffer_subresource_range(10..20)));
    assert!(buffer_subresource_range(15..25).intersects(buffer_subresource_range(10..20)));
    assert!(!buffer_subresource_range(20..25).intersects(buffer_subresource_range(10..20)));
}
