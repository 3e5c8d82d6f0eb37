//! Tracked state of images.

use crate::access::AccessType;
use crate::dense_map::{
    first_ordinal, lemma_place_in_map, lemma_uniform_range, place_in_map, range_extent,
    subresource_count, DenseMap,
};
use crate::grid::{inside, places_from, Grid, Place};
use crate::handle_cache::{lists, CacheKey, HandleCache};
use crate::image_access::{
    image_extent, in_range, lemma_ordinal, lemma_same_swap_blocks, range_in_image, swap_blocks,
    swap_is_exact, Access,
};
use crate::image_info::{format_aspect_mask, ImageInfo, ImageViewInfo};
use crate::image_range::{aspect_ordinal, lemma_supported_aspects, ImageSubresourceRange};
use crate::image_report::{
    entries, entries_at, entry_at, is_part, join_along, lemma_entries_are_parts, lemma_parts,
    lemma_report_is_of_parts, published, report,
};
use crate::image_sharing::{covered, ranges_in_image, DenseSharingState, Sharing};
use crate::image_subresources::{place_count, subresource_at, ImageSubresourceRangeIter};
use crate::image_sync::{compacted, Axis, ImageSubresourceSyncInfo, ImageSyncInfo};
use crate::sharing::SharingMode;
use crate::vk;
use vstd::prelude::*;

verus! {

/// The accesses of an image after a range was accessed.
pub open spec fn accessed(
    grid: Grid<AccessType>,
    info: ImageInfo,
    next: AccessType,
    range: ImageSubresourceRange,
) -> Grid<AccessType> {
    |a: int, l: int, m: int|
        if in_range(info, range, a, l, m) {
            next
        } else {
            grid(a, l, m)
        }
}

/// The accesses of an image after a list of ranges was accessed.
pub open spec fn accessed_all(
    grid: Grid<AccessType>,
    info: ImageInfo,
    nexts: Seq<(AccessType, ImageSubresourceRange)>,
) -> Grid<AccessType>
    decreases nexts.len(),
{
    if nexts.len() == 0 {
        grid
    } else {
        accessed(
            accessed_all(grid, info, nexts.drop_last()),
            info,
            nexts.last().0,
            info.resolved(nexts.last().1),
        )
    }
}

/// Blocks of previous accesses, each with the access that followed it.
pub open spec fn transitions(
    blocks: Seq<(AccessType, ImageSubresourceRange)>,
    next: AccessType,
) -> Seq<(AccessType, AccessType, ImageSubresourceRange)> {
    blocks.map_values(|block: (AccessType, ImageSubresourceRange)| (next, block.0, block.1))
}

/// The transitions of a list of accesses to ranges, in order.
pub open spec fn all_transitions(
    grid: Grid<AccessType>,
    info: ImageInfo,
    nexts: Seq<(AccessType, ImageSubresourceRange)>,
) -> Seq<(AccessType, AccessType, ImageSubresourceRange)>
    decreases nexts.len(),
{
    if nexts.len() == 0 {
        seq![]
    } else {
        all_transitions(grid, info, nexts.drop_last()) + transitions(
            swap_blocks(
                accessed_all(grid, info, nexts.drop_last()),
                info,
                info.resolved(nexts.last().1),
            ),
            nexts.last().0,
        )
    }
}

/// Whether two grids have the same values for all subresources of an image.
pub open spec fn same_grid<V>(a: Grid<V>, b: Grid<V>, info: ImageInfo) -> bool {
    forall|x: int, l: int, m: int|
        inside(image_extent(info), (x, l, m)) ==> #[trigger] a(x, l, m) == b(x, l, m)
}

/// Whether a range, in which counts may stand for all that remains, is a part of an image.
pub open spec fn resolves_in_image(info: ImageInfo, range: ImageSubresourceRange) -> bool {
    info.resolvable(range) && range_in_image(info, info.resolved(range))
}

impl CacheKey for ImageViewInfo {
    type Model = ImageViewInfo;

    open spec fn model(&self) -> ImageViewInfo {
        *self
    }

    fn same_key(&self, other: &Self) -> (same: bool) {
        *self == *other
    }
}

/// What is done when an image is dropped.
#[derive(Clone, Copy, Debug, PartialEq, Eq, Structural)]
pub enum ImageTeardown {
    /// The name of the image is cleared.
    ClearName(u64),
    /// The name of the image is forgotten without touching the image.
    ForgetName(u64),
    /// A view is destroyed.
    View(u64),
    /// The image is destroyed.
    Image(u64),
    /// The memory of the image is freed.
    Memory,
}

/// The steps that destroy some views of an image, and the image itself where it is owned.
pub open spec fn teardown_steps(views: Seq<u64>, handle: u64, owned: bool) -> Seq<ImageTeardown> {
    let views = views.map_values(|view: u64| ImageTeardown::View(view));
    if owned {
        seq![ImageTeardown::ClearName(handle)] + views + seq![
            ImageTeardown::Image(handle),
            ImageTeardown::Memory,
        ]
    } else {
        seq![ImageTeardown::ForgetName(handle)] + views
    }
}

/// Whether some steps destroy all views of an image, each once, and the image itself where it is
/// owned.
pub open spec fn tears_down(
    steps: Seq<ImageTeardown>,
    views: Map<ImageViewInfo, u64>,
    handle: u64,
    owned: bool,
) -> bool {
    exists|handles: Seq<u64>|
        lists(handles, views) && steps == #[trigger] teardown_steps(handles, handle, owned)
}

/// The tracked state of an image: which access last touched each of its subresources, which queue
/// owns it, and which views were made of it.
#[derive(Debug)]
pub struct Image {
    access: Access,
    dense_access: Option<DenseMap<AccessType>>,
    dense_sharing: Option<DenseMap<SharingMode>>,
    handle: u64,
    image_view_cache: HandleCache<ImageViewInfo>,
    info: ImageInfo,
    sharing: Sharing,
}

impl Image {
    /// Information used to create this resource.
    pub closed spec fn spec_info(&self) -> ImageInfo {
        self.info
    }

    /// Information used to create this resource.
    #[verifier::when_used_as_spec(spec_info)]
    pub fn info(&self) -> (info: ImageInfo)
        ensures
            info == self.spec_info(),
    {
        self.info
    }

    /// The native handle of this image.
    pub closed spec fn spec_handle(&self) -> u64 {
        self.handle
    }

    /// The native handle of this image.
    #[verifier::when_used_as_spec(spec_handle)]
    pub fn handle(&self) -> (handle: u64)
        ensures
            handle == self.spec_handle(),
    {
        self.handle
    }

    /// The access that last touched each subresource, by the ordinal of its aspect, its array
    /// layer and mip level.
    pub closed spec fn accesses(self) -> Grid<AccessType> {
        self.access.grid(self.dense_access)
    }

    /// The ownership of each subresource.
    pub closed spec fn modes(self) -> Grid<SharingMode> {
        self.sharing.grid(self.dense_sharing)
    }

    /// The views that were made of the image.
    pub closed spec fn views(self) -> Map<ImageViewInfo, u64> {
        self.image_view_cache@
    }

    /// Whether one access is held for all subresources.
    pub closed spec fn has_uniform_access(self) -> bool {
        self.access.is_uniform()
    }

    /// Whether one owner is held for all subresources.
    pub closed spec fn has_uniform_sharing(self) -> bool {
        match self.sharing {
            Sharing::Concurrent => true,
            Sharing::Exclusive(exclusive) => exclusive.state() == DenseSharingState::Idle,
        }
    }

    /// The tracked state is one of the image.
    pub closed spec fn wf(self) -> bool {
        &&& subresource_count(self.info) <= u32::MAX
        &&& self.access.wf(self.dense_access, self.info)
        &&& self.sharing.fits(self.dense_sharing, self.info)
        &&& (self.sharing is Concurrent) == (self.info.sharing_mode
            == vk::SHARING_MODE_CONCURRENT)
        &&& self.image_view_cache.wf()
    }

    /// Tracks a new image, of which nothing has been accessed yet.
    pub fn new(handle: u64, info: ImageInfo) -> (image: Self)
        requires
            subresource_count(info) <= u32::MAX,
        ensures
            image.wf(),
            image.info() == info,
            image.handle() == handle,
            same_grid(image.accesses(), |a: int, l: int, m: int| AccessType::Nothing, info),
            image.modes() == (if info.sharing_mode == vk::SHARING_MODE_CONCURRENT {
                |a: int, l: int, m: int| SharingMode::Concurrent
            } else {
                |a: int, l: int, m: int| SharingMode::Exclusive(None)
            }),
            image.views() == Map::<ImageViewInfo, u64>::empty(),
            image.has_uniform_access() == (image_extent(info) != (2int, 1int, 1int)),
            image.has_uniform_sharing(),
    {
        Image {
            access: Access::new(info, AccessType::Nothing),
            dense_access: None,
            dense_sharing: None,
            handle,
            image_view_cache: HandleCache::new(),
            info,
            sharing: Sharing::new(info.sharing_mode),
        }
    }

    /// Produces a new image with the same handle and independent tracking.
    ///
    /// The new image has the views of this one, which are moved out of it so that they are not
    /// duplicated, and has not been accessed.
    pub fn to_detached(&mut self) -> (detached: Self)
        requires
            old(self).wf(),
        ensures
            final(self).wf(),
            final(self).info() == old(self).info(),
            final(self).handle() == old(self).handle(),
            final(self).accesses() == old(self).accesses(),
            final(self).modes() == old(self).modes(),
            final(self).views() == Map::<ImageViewInfo, u64>::empty(),
            detached.wf(),
            detached.info() == old(self).info(),
            detached.handle() == old(self).handle(),
            same_grid(
                detached.accesses(),
                |a: int, l: int, m: int| AccessType::Nothing,
                old(self).info(),
            ),
            detached.modes() == (if old(self).info().sharing_mode == vk::SHARING_MODE_CONCURRENT {
                |a: int, l: int, m: int| SharingMode::Concurrent
            } else {
                |a: int, l: int, m: int| SharingMode::Exclusive(None)
            }),
            detached.views() == old(self).views(),
    {
        let mut image_view_cache = HandleCache::new();
        std::mem::swap(&mut image_view_cache, &mut self.image_view_cache);
        let info = self.info;
        Image {
            access: Access::new(info, AccessType::Nothing),
            dense_access: None,
            dense_sharing: None,
            handle: self.handle,
            image_view_cache,
            info,
            sharing: Sharing::new(info.sharing_mode),
        }
    }

    /// Returns the view with the given information, where one was made.
    pub fn cached_view(&self, info: ImageViewInfo) -> (handle: Option<u64>)
        requires
            self.wf(),
        ensures
            handle == (if self.views().dom().contains(info) {
                Some(self.views()[info])
            } else {
                None
            }),
    {
        self.image_view_cache.get(&info)
    }

    /// Remembers a view that was made because there was none.
    pub fn insert_view(&mut self, info: ImageViewInfo, handle: u64)
        requires
            old(self).wf(),
            !old(self).views().dom().contains(info),
        ensures
            final(self).wf(),
            final(self).info() == old(self).info(),
            final(self).handle() == old(self).handle(),
            final(self).accesses() == old(self).accesses(),
            final(self).modes() == old(self).modes(),
            final(self).views() == old(self).views().insert(info, handle),
    {
        self.image_view_cache.insert(info, handle);
    }

    /// What is done when the image is dropped, in order; nothing while a panic unwinds.
    ///
    /// The native object of an image that somebody else owns, such as a swapchain, may be gone
    /// already: its name is forgotten without touching it.
    pub fn teardown(&mut self, panicking: bool, owned: bool) -> (steps: Vec<ImageTeardown>)
        requires
            old(self).wf(),
        ensures
            final(self).wf(),
            panicking ==> steps@ == Seq::<ImageTeardown>::empty() && *final(self) == *old(self),
            !panicking ==> tears_down(steps@, old(self).views(), old(self).handle(), owned)
                && final(self).views() == Map::<ImageViewInfo, u64>::empty(),
    {
        let mut steps: Vec<ImageTeardown> = Vec::new();
        if panicking {
            return steps;
        }
        steps.push(
            if owned {
                ImageTeardown::ClearName(self.handle)
            } else {
                ImageTeardown::ForgetName(self.handle)
            },
        );
        let ghost first = steps@;
        let views = self.image_view_cache.drain();
        let mut index: usize = 0;
        while index < views.len()
            invariant
                index <= views@.len(),
                steps@ == first + views@.take(index as int).map_values(
                    |view: u64| ImageTeardown::View(view),
                ),
            decreases views@.len() - index,
        {
            steps.push(ImageTeardown::View(views[index]));
            index += 1;
            assert(steps@ =~= first + views@.take(index as int).map_values(
                |view: u64| ImageTeardown::View(view),
            ));
        }
        assert(views@.take(index as int) =~= views@);
        if owned {
            steps.push(ImageTeardown::Image(self.handle));
            steps.push(ImageTeardown::Memory);
        }
        assert(steps@ =~= teardown_steps(views@, self.handle, owned));
        steps
    }

    /// Assigns the ownership of ranges.
    pub fn set_sharing_ranges(
        &mut self,
        sharing: SharingMode,
        sharing_ranges: &Vec<ImageSubresourceRange>,
    )
        requires
            old(self).wf(),
            sharing.valid(),
            ranges_in_image(old(self).info(), sharing_ranges@),
        ensures
            final(self).wf(),
            final(self).info() == old(self).info(),
            final(self).handle() == old(self).handle(),
            final(self).accesses() == old(self).accesses(),
            final(self).views() == old(self).views(),
            same_grid(
                final(self).modes(),
                |a: int, l: int, m: int|
                    if old(self).info().sharing_mode != vk::SHARING_MODE_CONCURRENT && covered(
                        old(self).info(),
                        sharing_ranges@,
                        a,
                        l,
                        m,
                    ) {
                        sharing
                    } else {
                        old(self).modes()(a, l, m)
                    },
                old(self).info(),
            ),
            final(self).has_uniform_sharing() == (old(self).has_uniform_sharing() && (
            old(self).info().sharing_mode == vk::SHARING_MODE_CONCURRENT || sharing_ranges@.len()
                == 0 || sharing_ranges@.len() == 1 && sharing_ranges@[0]
                == old(self).info().whole_range())),
    {
        self.sharing.set_ranges(&mut self.dense_sharing, self.info, sharing, sharing_ranges);
    }

    /// Keeps track of some next access which affects a range of this image.
    ///
    /// Returns the previous accesses for which a pipeline barrier should be used to prevent data
    /// corruption.
    pub fn swap_access(&mut self, next_access: AccessType, access_range: ImageSubresourceRange) -> (
    previous: Vec<(AccessType, ImageSubresourceRange)>)
        requires
            old(self).wf(),
            resolves_in_image(old(self).info(), access_range),
        ensures
            final(self).wf(),
            final(self).info() == old(self).info(),
            final(self).handle() == old(self).handle(),
            final(self).modes() == old(self).modes(),
            final(self).views() == old(self).views(),
            same_grid(
                final(self).accesses(),
                accessed(
                    old(self).accesses(),
                    old(self).info(),
                    next_access,
                    old(self).info().resolved(access_range),
                ),
                old(self).info(),
            ),
            previous@ == swap_blocks(
                old(self).accesses(),
                old(self).info(),
                old(self).info().resolved(access_range),
            ),
    {
        let range = self.info.resolve_subresource_counts(access_range);
        self.access.swap(&mut self.dense_access, self.info, next_access, range)
    }

    /// Keeps track of accesses to ranges, one after the other, and returns the transitions that
    /// they make.
    pub fn swap_accesses(&mut self, accesses: &Vec<(AccessType, ImageSubresourceRange)>) -> (made:
        Vec<(AccessType, AccessType, ImageSubresourceRange)>)
        requires
            old(self).wf(),
            forall|i: int|
                0 <= i < accesses@.len() ==> resolves_in_image(
                    old(self).info(),
                    (#[trigger] accesses@[i]).1,
                ),
        ensures
            final(self).wf(),
            final(self).info() == old(self).info(),
            final(self).handle() == old(self).handle(),
            final(self).modes() == old(self).modes(),
            final(self).views() == old(self).views(),
            same_grid(
                final(self).accesses(),
                accessed_all(old(self).accesses(), old(self).info(), accesses@),
                old(self).info(),
            ),
            made@ == all_transitions(old(self).accesses(), old(self).info(), accesses@),
    {
        let mut made: Vec<(AccessType, AccessType, ImageSubresourceRange)> = Vec::new();
        let mut index: usize = 0;
        let ghost start = self.accesses();
        let ghost info = self.info;
        assert(accesses@.take(0) =~= seq![]);
        while index < accesses.len()
            invariant
                index <= accesses@.len(),
                self.wf(),
                info == self.info(),
                info == old(self).info(),
                self.handle() == old(self).handle(),
                self.modes() == old(self).modes(),
                self.views() == old(self).views(),
                start == old(self).accesses(),
                forall|i: int|
                    0 <= i < accesses@.len() ==> resolves_in_image(
                        info,
                        (#[trigger] accesses@[i]).1,
                    ),
                same_grid(
                    self.accesses(),
                    accessed_all(start, info, accesses@.take(index as int)),
                    info,
                ),
                made@ == all_transitions(start, info, accesses@.take(index as int)),
            decreases accesses@.len() - index,
        {
            let (next_access, access_range) = accesses[index];
            let ghost now = self.accesses();
            let ghost expected = accessed_all(start, info, accesses@.take(index as int));
            proof {
                assert(resolves_in_image(info, accesses@[index as int].1));
                lemma_same_swap_blocks(now, expected, info, info.resolved(access_range));
                assert(accesses@.take(index + 1).drop_last() =~= accesses@.take(index as int));
                assert(accesses@.take(index + 1).last() == accesses@[index as int]);
            }
            let previous = self.swap_access(next_access, access_range);
            append_transitions(&mut made, next_access, &previous);
            assert(same_grid(
                self.accesses(),
                accessed_all(start, info, accesses@.take(index + 1)),
                info,
            )) by {
                let grid = accessed_all(start, info, accesses@.take(index + 1));
                let step = accessed(now, info, next_access, info.resolved(access_range));
                assert forall|a: int, l: int, m: int| inside(
                    image_extent(info),
                    (a, l, m),
                ) implies #[trigger] self.accesses()(a, l, m) == grid(a, l, m) by {
                    assert(step(a, l, m) == self.accesses()(a, l, m));
                    assert(now(a, l, m) == expected(a, l, m));
                }
            }
            index += 1;
        }
        assert(accesses@.take(index as int) =~= accesses@);
        made
    }

    /// Reads the access of a subresource.
    fn access_at(&self, aspect: u8, array_layer: u32, mip_level: u32) -> (access: AccessType)
        requires
            self.wf(),
            inside(
                image_extent(self.info()),
                (aspect as int, array_layer as int, mip_level as int),
            ),
        ensures
            access == self.accesses()(aspect as int, array_layer as int, mip_level as int),
    {
        match &self.access {
            Access::Uniform(uniform) => uniform.load(),
            Access::DualAspect(dual) => dual.load(aspect as usize),
            Access::Dense(access) => {
                if access.uses_dense() {
                    match &self.dense_access {
                        Some(dense) => dense.subresource(aspect, array_layer, mip_level),
                        None => access.load(),
                    }
                } else {
                    access.load()
                }
            },
        }
    }

    /// Reads the owner of a subresource.
    fn sharing_at(&self, aspect: u8, array_layer: u32, mip_level: u32) -> (sharing: SharingMode)
        requires
            self.wf(),
            inside(
                image_extent(self.info()),
                (aspect as int, array_layer as int, mip_level as int),
            ),
        ensures
            sharing == self.modes()(aspect as int, array_layer as int, mip_level as int),
    {
        match &self.sharing {
            Sharing::Concurrent => SharingMode::Concurrent,
            Sharing::Exclusive(exclusive) => {
                if exclusive.uses_dense_sharing() {
                    match &self.dense_sharing {
                        Some(dense) => dense.subresource(aspect, array_layer, mip_level),
                        None => SharingMode::decode(exclusive.load()),
                    }
                } else {
                    SharingMode::decode(exclusive.load())
                }
            },
        }
    }

    /// The entries of all subresources of a range.
    fn sync_entries(&self, range: ImageSubresourceRange) -> (list: Vec<
        (ImageSubresourceSyncInfo, SharingMode),
    >)
        requires
            self.wf(),
            range_in_image(self.info(), range),
            place_count(range_extent(range)) <= u32::MAX,
        ensures
            list@ == entries(self.accesses(), self.modes(), self.info(), range),
    {
        let format_aspects: u32 = format_aspect_mask(self.info.format);
        let ghost extent = range_extent(range);
        let ghost info = self.info;
        let mut list: Vec<(ImageSubresourceSyncInfo, SharingMode)> = Vec::new();
        let mut ranges = ImageSubresourceRangeIter::new(range);
        let ghost all = places_from(extent, (0, 0, 0));
        assert(list@ =~= entries_at(self.accesses(), self.modes(), info, range, all.take(0)));
        assert(all.skip(0) =~= all);
        let mut count: usize = ranges.len();
        while count > 0
            invariant
                self.wf(),
                info == self.info(),
                info == self.info,
                range_in_image(info, range),
                format_aspects == crate::image_info::aspects_of_format(info.format),
                extent == range_extent(range),
                all == places_from(extent, (0, 0, 0)),
                ranges.wf(),
                ranges.range() == range,
                count <= all.len(),
                count == ranges.places().len(),
                ranges.places() == all.skip(all.len() - count),
                list@ == entries_at(
                    self.accesses(),
                    self.modes(),
                    info,
                    range,
                    all.take(all.len() - count),
                ),
            decreases count,
        {
            let ghost done = all.len() - count;
            let ghost place = all[done];
            assert(ranges.places()[0] == place);
            match ranges.next() {
                Some(subresource) => {
                    proof {
                        lemma_supported_aspects(range.aspect_mask);
                        crate::image_subresources::lemma_places(extent, (0, 0, 0));
                        assert(inside(extent, place));
                        lemma_ordinal(info, range, place.0);
                        lemma_supported_aspects(crate::image_info::aspects_of_format(info.format));
                        lemma_place_in_map(image_extent(info), range, place);
                    }
                    let aspect: u8 = aspect_ordinal(format_aspects, subresource.aspect_mask);
                    let access = self.access_at(
                        aspect,
                        subresource.base_array_layer,
                        subresource.base_mip_level,
                    );
                    let sharing = self.sharing_at(
                        aspect,
                        subresource.base_array_layer,
                        subresource.base_mip_level,
                    );
                    let entry = ImageSubresourceSyncInfo::from_access(access, subresource);
                    list.push((entry, sharing));
                    proof {
                        assert((entry, sharing) == entry_at(
                            self.accesses(),
                            self.modes(),
                            info,
                            range,
                            place,
                        ));
                        assert(all.take(done + 1) =~= all.take(done).push(place));
                        assert(list@ =~= entries_at(
                            self.accesses(),
                            self.modes(),
                            info,
                            range,
                            all.take(done + 1),
                        ));
                        assert(all.skip(done).skip(1) =~= all.skip(done + 1));
                    }
                },
                None => {},
            }
            count -= 1;
        }
        assert(all.take(all.len() as int) =~= all);
        list
    }

    /// The number of subresources of a range can be written down.
    proof fn lemma_range_room(&self, range: ImageSubresourceRange)
        requires
            self.wf(),
            range_in_image(self.info(), range),
        ensures
            place_count(range_extent(range)) <= u32::MAX,
    {
        lemma_supported_aspects(range.aspect_mask);
        lemma_supported_aspects(crate::image_info::aspects_of_format(self.info.format));
        let (aspects, layers, levels) = range_extent(range);
        let (all_aspects, all_layers, all_levels) = image_extent(self.info);
        assert(aspects * layers * levels <= all_aspects * (all_layers * all_levels))
            by (nonlinear_arith)
            requires
                1 <= aspects <= all_aspects,
                1 <= layers <= all_layers,
                1 <= levels <= all_levels,
        {
            assert(layers * levels <= all_layers * all_levels);
            assert(aspects * layers * levels == aspects * (layers * levels));
            assert(aspects * (layers * levels) <= all_aspects * (all_layers * all_levels));
        }
    }

    /// Reports the synchronization state of a queried range.
    pub fn sync_info_with_sharing_range(&self, query_range: ImageSubresourceRange) -> (infos: Vec<
        (ImageSubresourceSyncInfo, SharingMode),
    >)
        requires
            self.wf(),
            resolves_in_image(self.info(), query_range),
        ensures
            infos@ == report(
                self.accesses(),
                self.modes(),
                self.info(),
                self.info().resolved(query_range),
            ),
    {
        let range = self.info.resolve_subresource_counts(query_range);
        proof {
            self.lemma_range_room(range);
            lemma_entries_are_parts(self.accesses(), self.modes(), self.info(), range);
        }
        let list = self.sync_entries(range);
        let mip_levels = join_along(Axis::MipLevels, &list, Ghost(range));
        proof {
            lemma_parts(Axis::MipLevels, range, list@);
        }
        join_along(Axis::ArrayLayers, &mip_levels, Ghost(range))
    }

    /// Reports the synchronization state of the whole image.
    pub fn sync_info_with_sharing(&self) -> (infos: Vec<(ImageSubresourceSyncInfo, SharingMode)>)
        requires
            self.wf(),
            self.info().array_layer_count > 0,
            self.info().mip_level_count > 0,
        ensures
            infos@ == report(
                self.accesses(),
                self.modes(),
                self.info(),
                self.info().whole_range(),
            ),
    {
        let range = ImageSubresourceRange {
            aspect_mask: format_aspect_mask(self.info.format),
            base_mip_level: 0,
            level_count: self.info.mip_level_count,
            base_array_layer: 0,
            layer_count: self.info.array_layer_count,
        };
        proof {
            self.lemma_whole_range();
        }
        self.sync_info_with_sharing_range(range)
    }

    /// All subresources of an image that has some form a range of it.
    pub proof fn lemma_whole_range(&self)
        requires
            self.info().array_layer_count > 0,
            self.info().mip_level_count > 0,
        ensures
            resolves_in_image(self.info(), self.info().whole_range()),
            self.info().resolved(self.info().whole_range()) == self.info().whole_range(),
    {
        let mask = crate::image_info::aspects_of_format(self.info.format);
        assert(mask & mask == mask) by (bit_vector);
        lemma_supported_aspects(mask);
    }

    /// Reports what is needed to use the image elsewhere.
    pub fn sync_info(&self) -> (info: ImageSyncInfo)
        requires
            self.wf(),
            self.info().array_layer_count > 0,
            self.info().mip_level_count > 0,
        ensures
            info.subresources@ == compacted(
                published(
                    report(
                        self.accesses(),
                        self.modes(),
                        self.info(),
                        self.info().whole_range(),
                    ),
                ),
            ),
    {
        let infos = self.sync_info_with_sharing();
        proof {
            self.lemma_whole_range();
            lemma_report_is_of_parts(
                self.accesses(),
                self.modes(),
                self.info(),
                self.info().whole_range(),
            );
        }
        let mut subresources: Vec<ImageSubresourceSyncInfo> = Vec::new();
        let mut index: usize = 0;
        while index < infos.len()
            invariant
                index <= infos@.len(),
                subresources@ == published(infos@.take(index as int)),
            decreases infos@.len() - index,
        {
            let (info, sharing) = infos[index];
            subresources.push(info.into_public(sharing));
            proof {
                assert(infos@.take(index + 1) =~= infos@.take(index as int).push(
                    infos@[index as int],
                ));
                assert(subresources@ =~= published(infos@.take(index + 1)));
            }
            index += 1;
        }
        proof {
            assert(infos@.take(index as int) =~= infos@);
            assert forall|i: int|
                0 <= i < subresources@.len() implies (#[trigger] subresources@[i]).range.bounded() by {
                assert(subresources@[i] == infos@[i].0.published(infos@[i].1));
                assert(is_part(self.info().whole_range(), infos@[i].0.range));
            }
        }
        ImageSyncInfo { subresources: ImageSyncInfo::compact_subresources(&subresources) }
    }
}

/// Appends the transitions that an access makes.
fn append_transitions(
    made: &mut Vec<(AccessType, AccessType, ImageSubresourceRange)>,
    next_access: AccessType,
    previous: &Vec<(AccessType, ImageSubresourceRange)>,
)
    ensures
        final(made)@ == old(made)@ + transitions(previous@, next_access),
{
    let mut index: usize = 0;
    assert(made@ =~= old(made)@ + transitions(previous@.take(0), next_access));
    while index < previous.len()
        invariant
            index <= previous@.len(),
            made@ == old(made)@ + transitions(previous@.take(index as int), next_access),
        decreases previous@.len() - index,
    {
        let (previous_access, range) = previous[index];
        made.push((next_access, previous_access, range));
        proof {
            assert(previous@.take(index + 1) =~= previous@.take(index as int).push(
                previous@[index as int],
            ));
            assert(made@ =~= old(made)@ + transitions(previous@.take(index + 1), next_access));
        }
        index += 1;
    }
    assert(previous@.take(index as int) =~= previous@);
}

/// What was recorded for a range is what the next access to it is told: it had that one access, in
/// all of its subresources.
pub proof fn access_reads_back(
    grid: Grid<AccessType>,
    info: ImageInfo,
    access: AccessType,
    range: ImageSubresourceRange,
)
    requires
        range_in_image(info, range),
    ensures
        ({
            let blocks = swap_blocks(accessed(grid, info, access, range), info, range);
            if image_extent(info) == (2int, 1int, 1int) {
                &&& blocks.len() == range_extent(range).0
                &&& forall|i: int| 0 <= i < blocks.len() ==> (#[trigger] blocks[i]).0 == access
            } else {
                blocks == seq![(access, range)]
            }
        }),
{
    lemma_supported_aspects(range.aspect_mask);
    lemma_supported_aspects(crate::image_info::aspects_of_format(info.format));
    let after = accessed(grid, info, access, range);
    if image_extent(info) == (2int, 1int, 1int) {
        let blocks = swap_blocks(after, info, range);
        assert forall|i: int| 0 <= i < blocks.len() implies (#[trigger] blocks[i]).0 == access by {
            assert(in_range(info, range, first_ordinal(image_extent(info), range) + i, 0, 0));
        }
    } else {
        let uniform: Grid<AccessType> = |a: int, l: int, m: int| access;
        lemma_uniform_range(uniform, image_extent(info), range, access);
        crate::dense_map::lemma_same_window_blocks(after, uniform, image_extent(info), range);
    }
}

/// Accesses to ranges that share no subresource are recorded in any order with the same result.
pub proof fn disjoint_accesses_commute(
    grid: Grid<AccessType>,
    info: ImageInfo,
    first: (AccessType, ImageSubresourceRange),
    second: (AccessType, ImageSubresourceRange),
)
    requires
        forall|a: int, l: int, m: int|
            !(in_range(info, first.1, a, l, m) && #[trigger] in_range(info, second.1, a, l, m)),
    ensures
        accessed(accessed(grid, info, first.0, first.1), info, second.0, second.1) == accessed(
            accessed(grid, info, second.0, second.1),
            info,
            first.0,
            first.1,
        ),
{
    let one = accessed(accessed(grid, info, first.0, first.1), info, second.0, second.1);
    let two = accessed(accessed(grid, info, second.0, second.1), info, first.0, first.1);
    assert(one =~= two);
}

/// A subresource is remembered with the last of the accesses to it. One that none of the accesses
/// touched is remembered as it was.
pub proof fn last_access_is_remembered(
    grid: Grid<AccessType>,
    info: ImageInfo,
    nexts: Seq<(AccessType, ImageSubresourceRange)>,
    turn: int,
    a: int,
    l: int,
    m: int,
)
    requires
        -1 <= turn < nexts.len(),
        0 <= turn ==> in_range(info, info.resolved(nexts[turn].1), a, l, m),
        forall|k: int|
            turn < k < nexts.len() ==> !in_range(
                info,
                info.resolved((#[trigger] nexts[k]).1),
                a,
                l,
                m,
            ),
    ensures
        accessed_all(grid, info, nexts)(a, l, m) == (if turn < 0 {
            grid(a, l, m)
        } else {
            nexts[turn].0
        }),
    decreases nexts.len(),
{
    if nexts.len() > 0 && turn < nexts.len() - 1 {
        let some = nexts.drop_last();
        assert(!in_range(info, info.resolved(nexts[nexts.len() - 1].1), a, l, m));
        assert forall|k: int| turn < k < some.len() implies !in_range(
            info,
            info.resolved((#[trigger] some[k]).1),
            a,
            l,
            m,
        ) by {
            assert(some[k] == nexts[k]);
        }
        last_access_is_remembered(grid, info, some, turn, a, l, m);
    }
}

/// Each access of a list is told, of each subresource that it touches, what was remembered of the
/// subresource when its turn came.
pub proof fn accesses_are_told_of_each_subresource(
    grid: Grid<AccessType>,
    info: ImageInfo,
    nexts: Seq<(AccessType, ImageSubresourceRange)>,
    turn: int,
    p: Place,
)
    requires
        0 <= turn < nexts.len(),
        range_in_image(info, info.resolved(nexts[turn].1)),
        inside(range_extent(info.resolved(nexts[turn].1)), p),
    ensures
        ({
            let range = info.resolved(nexts[turn].1);
            let place = place_in_map(image_extent(info), range, p);
            exists|i: int|
                {
                    let made = #[trigger] all_transitions(grid, info, nexts)[i];
                    &&& 0 <= i < all_transitions(grid, info, nexts).len()
                    &&& made.0 == nexts[turn].0
                    &&& made.1 == accessed_all(grid, info, nexts.take(turn))(
                        place.0,
                        place.1,
                        place.2,
                    )
                    &&& made.2.contains(subresource_at(range, p))
                }
        }),
    decreases nexts.len(),
{
    let some = nexts.drop_last();
    let all = all_transitions(grid, info, nexts);
    let earlier = all_transitions(grid, info, some);
    let range = info.resolved(nexts[turn].1);
    let at = subresource_at(range, p);
    let place = place_in_map(image_extent(info), range, p);
    if turn == nexts.len() - 1 {
        assert(nexts.take(turn) =~= some);
        let before = accessed_all(grid, info, some);
        let blocks = swap_blocks(before, info, range);
        swap_is_exact(before, info, range, p);
        let i = choose|i: int|
            0 <= i < blocks.len() && (#[trigger] blocks[i]).1.contains(at) && blocks[i].0 == before(
                place.0,
                place.1,
                place.2,
            );
        assert(all[earlier.len() + i] == transitions(blocks, nexts.last().0)[i]);
    } else {
        assert(some[turn] == nexts[turn]);
        accesses_are_told_of_each_subresource(grid, info, some, turn, p);
        assert(some.take(turn) =~= nexts.take(turn));
        let i = choose|i: int|
            {
                let made = #[trigger] earlier[i];
                &&& 0 <= i < earlier.len()
                &&& made.0 == some[turn].0
                &&& made.1 == accessed_all(grid, info, some.take(turn))(place.0, place.1, place.2)
                &&& made.2.contains(at)
            };
        assert(all[i] == earlier[i]);
    }
}

/// The name of an image goes first and its views go next. The image itself and its memory go last,
/// and only where they are owned.
pub proof fn owned_images_go_last(views: Seq<u64>, handle: u64, index: int)
    requires
        0 <= index < views.len(),
    ensures
        ({
            let owned = teardown_steps(views, handle, true);
            let borrowed = teardown_steps(views, handle, false);
            &&& owned.len() == views.len() + 3
            &&& borrowed.len() == views.len() + 1
            &&& owned[0] == ImageTeardown::ClearName(handle)
            &&& borrowed[0] == ImageTeardown::ForgetName(handle)
            &&& owned[index + 1] == ImageTeardown::View(views[index])
            &&& borrowed[index + 1] == ImageTeardown::View(views[index])
            &&& owned[owned.len() - 2] == ImageTeardown::Image(handle)
            &&& owned.last() == ImageTeardown::Memory
        }),
{
}

} // verus!
