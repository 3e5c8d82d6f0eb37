//! Queue ownership of image subresources.

use crate::dense_map::{subresource_count, DenseMap};
use crate::grid::{inside, Grid};
use crate::image_access::{dense_fits, image_extent, in_range, range_in_image};
use crate::image_info::ImageInfo;
use crate::image_range::ImageSubresourceRange;
use crate::sharing::{decode_undoes_encode, SharingMode};
use crate::vk;
use vstd::prelude::*;

verus! {

/// Whether a place lies in one of some ranges, in which counts may stand for all that remains.
pub open spec fn covered(
    info: ImageInfo,
    ranges: Seq<ImageSubresourceRange>,
    a: int,
    l: int,
    m: int,
) -> bool {
    exists|i: int|
        0 <= i < ranges.len() && in_range(info, #[trigger] info.resolved(ranges[i]), a, l, m)
}

/// Whether ranges, in which counts may stand for all that remains, are parts of an image.
pub open spec fn ranges_in_image(info: ImageInfo, ranges: Seq<ImageSubresourceRange>) -> bool {
    forall|i: int|
        0 <= i < ranges.len() ==> info.resolvable(#[trigger] ranges[i]) && range_in_image(
            info,
            info.resolved(ranges[i]),
        )
}

/// Whether ownership is held once, or for each subresource.
#[derive(Clone, Copy, Debug, PartialEq, Eq, Structural)]
pub enum DenseSharingState {
    /// All subresources have the owner that is held.
    Idle,
    /// The map of subresources is being made; updates of the whole image already go to it.
    Promoting,
    /// The map of subresources holds their owners.
    Dense,
}

/// Ownership of an exclusive image: one owner for all of it, or, once ranges had different owners,
/// one for each subresource.
#[derive(Debug)]
pub struct ExclusiveSharing {
    dense_sharing_state: DenseSharingState,
    uniform: u64,
}

impl ExclusiveSharing {
    /// Whether ownership is held once, or for each subresource.
    pub closed spec fn state(self) -> DenseSharingState {
        self.dense_sharing_state
    }

    /// The owner that is held for all subresources.
    pub closed spec fn uniform_mode(self) -> SharingMode {
        SharingMode::of_code(self.uniform)
    }

    /// The encoded owner that is held for all subresources.
    pub closed spec fn uniform_code(self) -> u64 {
        self.uniform
    }

    /// The owner of each subresource, by the ordinal of its aspect, its array layer and mip level.
    pub open spec fn grid(self, dense: Option<DenseMap<SharingMode>>) -> Grid<SharingMode> {
        if self.state() == DenseSharingState::Idle {
            |a: int, l: int, m: int| self.uniform_mode()
        } else {
            |a: int, l: int, m: int| dense->0.at(a, l, m)
        }
    }

    /// A map of owners is there exactly where one is used.
    pub open spec fn fits(self, dense: Option<DenseMap<SharingMode>>, info: ImageInfo) -> bool {
        &&& self.state() != DenseSharingState::Promoting
        &&& self.state() == DenseSharingState::Idle ==> dense is None
        &&& self.state() == DenseSharingState::Dense ==> dense_fits(dense, info)
    }

    /// Nobody is known to own a new image.
    pub fn new() -> (sharing: Self)
        ensures
            sharing.state() == DenseSharingState::Idle,
            sharing.uniform_mode() == SharingMode::Exclusive(None),
            sharing.grid(None) == (|a: int, l: int, m: int| SharingMode::Exclusive(None)),
    {
        let sharing = ExclusiveSharing {
            dense_sharing_state: DenseSharingState::Idle,
            uniform: SharingMode::Exclusive(None).encode(),
        };
        assert(sharing.grid(None) =~= (|a: int, l: int, m: int| SharingMode::Exclusive(None)));
        sharing
    }

    /// Reads whether ownership is held once, or for each subresource.
    pub fn dense_sharing_state(&self) -> (state: DenseSharingState)
        ensures
            state == self.state(),
    {
        self.dense_sharing_state
    }

    /// Reads the encoded owner that is held for all subresources.
    pub fn load(&self) -> (code: u64)
        ensures
            code == self.uniform_code(),
            SharingMode::of_code(code) == self.uniform_mode(),
    {
        self.uniform
    }

    /// Whether the map of subresources holds their owners.
    pub fn is_dense_sharing_active(&self) -> (active: bool)
        ensures
            active == (self.state() == DenseSharingState::Dense),
    {
        self.dense_sharing_state == DenseSharingState::Dense
    }

    /// Whether the map of subresources is being made.
    pub fn is_promoting_dense_sharing(&self) -> (promoting: bool)
        ensures
            promoting == (self.state() == DenseSharingState::Promoting),
    {
        self.dense_sharing_state == DenseSharingState::Promoting
    }

    /// Whether updates go to the map of subresources.
    pub fn uses_dense_sharing(&self) -> (uses: bool)
        ensures
            uses == (self.state() != DenseSharingState::Idle),
    {
        self.dense_sharing_state != DenseSharingState::Idle
    }

    /// Says that the map of subresources is being made.
    pub fn set_promoting_dense_sharing(&mut self)
        ensures
            final(self).state() == DenseSharingState::Promoting,
            final(self).uniform_code() == old(self).uniform_code(),
    {
        self.dense_sharing_state = DenseSharingState::Promoting;
    }

    /// Says that the map of subresources holds their owners.
    pub fn set_dense_sharing_active(&mut self)
        ensures
            final(self).state() == DenseSharingState::Dense,
            final(self).uniform_code() == old(self).uniform_code(),
    {
        self.dense_sharing_state = DenseSharingState::Dense;
    }

    /// Replaces the encoded owner of all subresources where it still is `current`, and says
    /// whether it was.
    fn compare_exchange(&mut self, current: u64, new: u64) -> (exchanged: bool)
        ensures
            final(self).state() == old(self).state(),
            exchanged == (old(self).uniform_code() == current),
            final(self).uniform_code() == (if exchanged {
                new
            } else {
                old(self).uniform_code()
            }),
    {
        if self.uniform == current {
            self.uniform = new;
            true
        } else {
            false
        }
    }

    /// Assigns ranges: none changes nothing, and the whole image may leave one owner in place.
    pub fn set_ranges(
        &mut self,
        dense: &mut Option<DenseMap<SharingMode>>,
        info: ImageInfo,
        sharing: SharingMode,
        sharing_ranges: &Vec<ImageSubresourceRange>,
    )
        requires
            subresource_count(info) <= u32::MAX,
            old(self).fits(*old(dense), info),
            sharing.valid(),
            ranges_in_image(info, sharing_ranges@),
        ensures
            final(self).fits(*final(dense), info),
            (final(self).state() == DenseSharingState::Idle) == (old(self).state()
                == DenseSharingState::Idle && (sharing_ranges@.len() == 0 || sharing_ranges@.len()
                == 1 && sharing_ranges@[0] == info.whole_range())),
            forall|a: int, l: int, m: int|
                inside(image_extent(info), (a, l, m)) ==> #[trigger] final(self).grid(
                    *final(dense),
                )(a, l, m) == (if covered(info, sharing_ranges@, a, l, m) {
                    sharing
                } else {
                    old(self).grid(*old(dense))(a, l, m)
                }),
    {
        if sharing_ranges.len() == 0 {
            return;
        }
        if sharing_ranges.len() == 1 && info.is_full_subresource_range(sharing_ranges[0]) {
            let observed: u64 = self.load();
            proof {
                let range = sharing_ranges@[0];
                assert(info.resolvable(range) && range_in_image(info, info.resolved(range)));
                assert(info.resolved(range) == range);
                assert forall|a: int, l: int, m: int| inside(
                    image_extent(info),
                    (a, l, m),
                ) implies covered(info, sharing_ranges@, a, l, m) by {
                    crate::image_access::lemma_whole_range(info, info.resolved(range), a, l, m);
                    assert(in_range(info, info.resolved(sharing_ranges@[0]), a, l, m));
                }
            }
            self.set_uniform_or_dense_sharing(observed, dense, info, sharing, sharing_ranges[0]);
            return;
        }
        self.promote_dense_sharing_and_set_ranges(dense, info, sharing, sharing_ranges);
    }

    /// Assigns the whole image, given what was last read of its owner, which may be out of date.
    pub fn set_uniform_or_dense_sharing(
        &mut self,
        observed: u64,
        dense: &mut Option<DenseMap<SharingMode>>,
        info: ImageInfo,
        sharing: SharingMode,
        sharing_range: ImageSubresourceRange,
    )
        requires
            old(self).fits(*old(dense), info),
            sharing.valid(),
            sharing_range == info.whole_range(),
            range_in_image(info, sharing_range),
        ensures
            final(self).fits(*final(dense), info),
            final(self).state() == old(self).state(),
            forall|a: int, l: int, m: int|
                inside(image_extent(info), (a, l, m)) ==> #[trigger] final(self).grid(
                    *final(dense),
                )(a, l, m) == sharing,
    {
        let encoded_sharing: u64 = sharing.encode();
        proof {
            decode_undoes_encode(sharing);
        }
        if self.uses_dense_sharing() {
            if let Some(map) = dense {
                let _previous = map.swap(sharing, sharing_range);
            }
            proof {
                assert forall|a: int, l: int, m: int| inside(
                    image_extent(info),
                    (a, l, m),
                ) implies #[trigger] self.grid(*dense)(a, l, m) == sharing by {
                    crate::image_access::lemma_whole_range(info, sharing_range, a, l, m);
                    assert(dense->0.at(a, l, m) == sharing);
                }
            }
            return;
        }
        let mut current: u64 = observed;
        while !self.compare_exchange(current, encoded_sharing)
            invariant
                self.state() == DenseSharingState::Idle,
            ensures
                self.state() == DenseSharingState::Idle,
                self.uniform_code() == encoded_sharing,
            decreases
                if current == self.uniform_code() {
                    0int
                } else {
                    1int
                },
        {
            current = self.load();
        }
    }

    /// Moves to one owner for each subresource, and assigns ranges.
    pub fn promote_dense_sharing_and_set_ranges(
        &mut self,
        dense: &mut Option<DenseMap<SharingMode>>,
        info: ImageInfo,
        sharing: SharingMode,
        sharing_ranges: &Vec<ImageSubresourceRange>,
    )
        requires
            subresource_count(info) <= u32::MAX,
            old(self).fits(*old(dense), info),
            ranges_in_image(info, sharing_ranges@),
        ensures
            final(self).fits(*final(dense), info),
            final(self).state() == DenseSharingState::Dense,
            forall|a: int, l: int, m: int|
                inside(image_extent(info), (a, l, m)) ==> #[trigger] final(self).grid(
                    *final(dense),
                )(a, l, m) == (if covered(info, sharing_ranges@, a, l, m) {
                    sharing
                } else {
                    old(self).grid(*old(dense))(a, l, m)
                }),
    {
        let ghost before = self.grid(*dense);
        if !self.is_dense_sharing_active() {
            self.set_promoting_dense_sharing();
            let current = SharingMode::decode(self.load());
            *dense = Some(DenseMap::new(info, current));
        }
        assert(forall|a: int, l: int, m: int|
            inside(image_extent(info), (a, l, m)) ==> #[trigger] dense->0.at(a, l, m) == before(
                a,
                l,
                m,
            ));
        if let Some(map) = dense {
            assign_ranges(map, info, sharing, sharing_ranges);
        }
        self.set_dense_sharing_active();
    }
}

/// Assigns ranges of a map, one after the other.
fn assign_ranges(
    map: &mut DenseMap<SharingMode>,
    info: ImageInfo,
    sharing: SharingMode,
    sharing_ranges: &Vec<ImageSubresourceRange>,
)
    requires
        old(map).wf(),
        old(map).extent() == image_extent(info),
        ranges_in_image(info, sharing_ranges@),
    ensures
        final(map).wf(),
        final(map).extent() == image_extent(info),
        forall|a: int, l: int, m: int|
            inside(image_extent(info), (a, l, m)) ==> #[trigger] final(map).at(a, l, m) == (
            if covered(info, sharing_ranges@, a, l, m) {
                sharing
            } else {
                old(map).at(a, l, m)
            }),
{
    let mut index: usize = 0;
    while index < sharing_ranges.len()
        invariant
            index <= sharing_ranges@.len(),
            map.wf(),
            map.extent() == image_extent(info),
            ranges_in_image(info, sharing_ranges@),
            forall|a: int, l: int, m: int|
                inside(image_extent(info), (a, l, m)) ==> #[trigger] map.at(a, l, m) == (
                if covered(info, sharing_ranges@.take(index as int), a, l, m) {
                    sharing
                } else {
                    old(map).at(a, l, m)
                }),
        decreases sharing_ranges@.len() - index,
    {
        let range = info.resolve_subresource_counts(sharing_ranges[index]);
        let ghost before = *map;
        let _previous = map.swap(sharing, range);
        proof {
            assert forall|a: int, l: int, m: int| inside(
                image_extent(info),
                (a, l, m),
            ) implies #[trigger] map.at(a, l, m) == (if covered(
                info,
                sharing_ranges@.take(index + 1),
                a,
                l,
                m,
            ) {
                sharing
            } else {
                old(map).at(a, l, m)
            }) by {
                lemma_covered_next(info, sharing_ranges@, index as int, a, l, m);
                assert(before.at(a, l, m) == before.at(a, l, m));
            }
        }
        index += 1;
    }
    assert(sharing_ranges@.take(index as int) =~= sharing_ranges@);
}

/// The places in one more range of a list.
proof fn lemma_covered_next(
    info: ImageInfo,
    ranges: Seq<ImageSubresourceRange>,
    index: int,
    a: int,
    l: int,
    m: int,
)
    requires
        0 <= index < ranges.len(),
    ensures
        covered(info, ranges.take(index + 1), a, l, m) == (covered(
            info,
            ranges.take(index),
            a,
            l,
            m,
        ) || in_range(info, info.resolved(ranges[index]), a, l, m)),
{
    let few = ranges.take(index);
    let more = ranges.take(index + 1);
    if covered(info, few, a, l, m) {
        let i = choose|i: int|
            0 <= i < few.len() && in_range(info, #[trigger] info.resolved(few[i]), a, l, m);
        assert(in_range(info, info.resolved(more[i]), a, l, m));
    }
    if in_range(info, info.resolved(ranges[index]), a, l, m) {
        assert(in_range(info, info.resolved(more[index]), a, l, m));
    }
    if covered(info, more, a, l, m) {
        let i = choose|i: int|
            0 <= i < more.len() && in_range(info, #[trigger] info.resolved(more[i]), a, l, m);
        if i < index {
            assert(in_range(info, info.resolved(few[i]), a, l, m));
        }
    }
}

/// Ownership of an image.
#[derive(Debug)]
pub enum Sharing {
    /// All queues use the image.
    Concurrent,
    /// Subresources of the image have owners.
    Exclusive(ExclusiveSharing),
}

impl Sharing {
    /// The ownership of each subresource.
    pub open spec fn grid(self, dense: Option<DenseMap<SharingMode>>) -> Grid<SharingMode> {
        match self {
            Sharing::Concurrent => |a: int, l: int, m: int| SharingMode::Concurrent,
            Sharing::Exclusive(exclusive) => exclusive.grid(dense),
        }
    }

    /// A map of owners is there exactly where one is used.
    pub open spec fn fits(self, dense: Option<DenseMap<SharingMode>>, info: ImageInfo) -> bool {
        match self {
            Sharing::Concurrent => dense is None,
            Sharing::Exclusive(exclusive) => exclusive.fits(dense, info),
        }
    }

    /// Ownership of a new image.
    pub fn new(sharing_mode: i32) -> (sharing: Self)
        ensures
            (sharing is Concurrent) == (sharing_mode == vk::SHARING_MODE_CONCURRENT),
            forall|info: ImageInfo| #[trigger] sharing.fits(None, info),
            sharing.grid(None) == (if sharing_mode == vk::SHARING_MODE_CONCURRENT {
                |a: int, l: int, m: int| SharingMode::Concurrent
            } else {
                |a: int, l: int, m: int| SharingMode::Exclusive(None)
            }),
    {
        if sharing_mode == vk::SHARING_MODE_CONCURRENT {
            Sharing::Concurrent
        } else {
            Sharing::Exclusive(ExclusiveSharing::new())
        }
    }

    /// Assigns ranges of an exclusive image.
    pub fn set_ranges(
        &mut self,
        dense: &mut Option<DenseMap<SharingMode>>,
        info: ImageInfo,
        sharing: SharingMode,
        sharing_ranges: &Vec<ImageSubresourceRange>,
    )
        requires
            subresource_count(info) <= u32::MAX,
            old(self).fits(*old(dense), info),
            sharing.valid(),
            ranges_in_image(info, sharing_ranges@),
        ensures
            final(self).fits(*final(dense), info),
            (*final(self) is Concurrent) == (*old(self) is Concurrent),
            forall|a: int, l: int, m: int|
                inside(image_extent(info), (a, l, m)) ==> #[trigger] final(self).grid(
                    *final(dense),
                )(a, l, m) == (if *old(self) is Exclusive && covered(
                    info,
                    sharing_ranges@,
                    a,
                    l,
                    m,
                ) {
                    sharing
                } else {
                    old(self).grid(*old(dense))(a, l, m)
                }),
            *old(self) matches Sharing::Exclusive(before) ==> *final(self)
                matches Sharing::Exclusive(after) && (after.state() == DenseSharingState::Idle)
                == (before.state() == DenseSharingState::Idle && (sharing_ranges@.len() == 0
                || sharing_ranges@.len() == 1 && sharing_ranges@[0] == info.whole_range())),
    {
        if let Sharing::Exclusive(exclusive) = self {
            exclusive.set_ranges(dense, info, sharing, sharing_ranges);
        }
    }
}

} // verus!
