//! Descriptor set layouts.

use crate::handle_cache::{CacheKey, HandleCache};
use vstd::prelude::*;

verus! {

/// One binding of a descriptor set layout.
#[derive(Clone, Copy, Debug, PartialEq, Eq, Hash, Structural)]
pub struct DescriptorSetLayoutBindingInfo {
    /// The descriptor binding index.
    pub binding: u32,
    /// Options of the binding.
    pub binding_flags: u32,
    /// The number of descriptors in the binding.
    pub descriptor_count: u32,
    /// The type of the descriptors.
    pub descriptor_type: i32,
    /// The key of the sampler that the binding always uses, where it does.
    pub immutable_sampler: Option<u64>,
    /// The shader stages that use the binding.
    pub stage_flags: u32,
}

/// Whether bindings are in ascending order, and none occurs twice.
pub open spec fn ascending(bindings: Seq<DescriptorSetLayoutBindingInfo>) -> bool {
    forall|i: int, j: int|
        0 <= i < j < bindings.len() ==> (#[trigger] bindings[i]).binding < (
        #[trigger] bindings[j]).binding
}

/// The information of a descriptor set layout.
#[derive(Debug)]
pub struct DescriptorSetLayoutInfo {
    /// The bindings, in ascending order.
    pub bindings: Vec<DescriptorSetLayoutBindingInfo>,
}

/// The keys of the samplers of some bindings, each once, in the order in which they come up.
pub open spec fn sampler_keys(bindings: Seq<DescriptorSetLayoutBindingInfo>) -> Seq<u64>
    decreases bindings.len(),
{
    if bindings.len() == 0 {
        seq![]
    } else {
        let before = sampler_keys(bindings.drop_last());
        match bindings.last().immutable_sampler {
            Some(key) => if before.contains(key) {
                before
            } else {
                before.push(key)
            },
            None => before,
        }
    }
}

/// A binding as the creation of a layout reads it.
#[derive(Debug)]
pub struct DescriptorSetLayoutBinding {
    /// The descriptor binding index.
    pub binding: u32,
    /// The number of descriptors in the binding.
    pub descriptor_count: u32,
    /// The type of the descriptors.
    pub descriptor_type: i32,
    /// The shader stages that use the binding.
    pub stage_flags: u32,
    /// The sampler that the binding always uses, once for each descriptor.
    pub immutable_samplers: Option<Vec<u64>>,
}

/// Whether a record is that of a binding whose sampler has the given handle.
pub open spec fn is_record(
    record: DescriptorSetLayoutBinding,
    info: DescriptorSetLayoutBindingInfo,
    samplers: Map<u64, u64>,
) -> bool {
    &&& record.binding == info.binding
    &&& record.descriptor_count == info.descriptor_count
    &&& record.descriptor_type == info.descriptor_type
    &&& record.stage_flags == info.stage_flags
    &&& record.immutable_samplers is Some == info.immutable_sampler is Some
    &&& record.immutable_samplers matches Some(handles) ==> handles@ == Seq::new(
        info.descriptor_count as nat,
        |i: int| samplers[info.immutable_sampler->0],
    )
}

impl DescriptorSetLayoutInfo {
    /// The binding with an index, where there is one.
    pub open spec fn lookup(bindings: Seq<DescriptorSetLayoutBindingInfo>, binding: u32) -> Option<
        DescriptorSetLayoutBindingInfo,
    > {
        if exists|i: int| 0 <= i < bindings.len() && (#[trigger] bindings[i]).binding == binding {
            Some(
                bindings[choose|i: int|
                    0 <= i < bindings.len() && (#[trigger] bindings[i]).binding == binding],
            )
        } else {
            None
        }
    }

    /// Returns the binding with an index, where there is one.
    pub fn binding(&self, binding: u32) -> (info: Option<DescriptorSetLayoutBindingInfo>)
        requires
            ascending(self.bindings@),
        ensures
            info == Self::lookup(self.bindings@, binding),
    {
        let mut low: usize = 0;
        let mut high: usize = self.bindings.len();
        while low < high
            invariant
                ascending(self.bindings@),
                low <= high <= self.bindings@.len(),
                forall|i: int| 0 <= i < low ==> (#[trigger] self.bindings@[i]).binding < binding,
                forall|i: int|
                    high <= i < self.bindings@.len() ==> (#[trigger] self.bindings@[i]).binding
                        > binding,
            decreases high - low,
        {
            let middle: usize = low + (high - low) / 2;
            let info = self.bindings[middle];
            if info.binding == binding {
                proof {
                    assert(self.bindings@[middle as int].binding == binding);
                    let i = choose|i: int|
                        0 <= i < self.bindings@.len() && (#[trigger] self.bindings@[i]).binding
                            == binding;
                    assert(i == middle);
                }
                return Some(info);
            }
            if info.binding < binding {
                low = middle + 1;
            } else {
                high = middle;
            }
        }
        None
    }

    /// The keys of the samplers that have to be made for the layout, each once.
    pub fn sampler_keys(&self) -> (keys: Vec<u64>)
        ensures
            keys@ == sampler_keys(self.bindings@),
    {
        let mut keys: Vec<u64> = Vec::new();
        let mut index: usize = 0;
        while index < self.bindings.len()
            invariant
                index <= self.bindings@.len(),
                keys@ == sampler_keys(self.bindings@.take(index as int)),
            decreases self.bindings@.len() - index,
        {
            proof {
                assert(self.bindings@.take(index + 1).drop_last() =~= self.bindings@.take(
                    index as int,
                ));
                assert(self.bindings@.take(index + 1).last() == self.bindings@[index as int]);
            }
            if let Some(key) = self.bindings[index].immutable_sampler {
                if !holds(&keys, key) {
                    keys.push(key);
                }
            }
            index += 1;
        }
        assert(self.bindings@.take(index as int) =~= self.bindings@);
        keys
    }

    /// Whether a layout has to be created with binding flags: one of them is not empty.
    pub fn uses_binding_flags(&self) -> (uses: bool)
        ensures
            uses == exists|i: int|
                0 <= i < self.bindings@.len() && (#[trigger] self.bindings@[i]).binding_flags != 0,
    {
        let mut index: usize = 0;
        while index < self.bindings.len()
            invariant
                index <= self.bindings@.len(),
                forall|i: int|
                    0 <= i < index ==> (#[trigger] self.bindings@[i]).binding_flags == 0,
            decreases self.bindings@.len() - index,
        {
            if self.bindings[index].binding_flags != 0 {
                assert(self.bindings@[index as int].binding_flags != 0);
                return true;
            }
            index += 1;
        }
        false
    }

    /// The bindings as the creation of the layout reads them, given the handles of the samplers
    /// with the keys of [`Self::sampler_keys`].
    pub fn layout_bindings(&self, samplers: &Vec<u64>) -> (records: Vec<DescriptorSetLayoutBinding>)
        requires
            samplers@.len() == sampler_keys(self.bindings@).len(),
        ensures
            records@.len() == self.bindings@.len(),
            forall|i: int|
                0 <= i < records@.len() ==> is_record(
                    #[trigger] records@[i],
                    self.bindings@[i],
                    keyed(sampler_keys(self.bindings@), samplers@),
                ),
    {
        let keys = self.sampler_keys();
        let ghost handles = keyed(keys@, samplers@);
        let mut records: Vec<DescriptorSetLayoutBinding> = Vec::new();
        let mut index: usize = 0;
        proof {
            lemma_keys_complete(self.bindings@);
            lemma_keys_distinct(self.bindings@);
        }
        while index < self.bindings.len()
            invariant
                index <= self.bindings@.len(),
                keys@ == sampler_keys(self.bindings@),
                keys@.len() == samplers@.len(),
                keys@.no_duplicates(),
                forall|i: int|
                    0 <= i < self.bindings@.len() ==> ((
                    #[trigger] self.bindings@[i]).immutable_sampler matches Some(key)
                        ==> keys@.contains(key)),
                handles == keyed(keys@, samplers@),
                records@.len() == index,
                forall|i: int|
                    0 <= i < index ==> is_record(
                        #[trigger] records@[i],
                        self.bindings@[i],
                        handles,
                    ),
            decreases self.bindings@.len() - index,
        {
            let info = self.bindings[index];
            let immutable_samplers: Option<Vec<u64>> = match info.immutable_sampler {
                Some(key) => {
                    assert(keys@.contains(key));
                    let at: usize = position(&keys, key);
                    assert(handles[key] == samplers@[at as int]) by {
                        let i = keys@.index_of(key);
                        assert(keys@[at as int] == key);
                    }
                    Some(repeated(samplers[at], info.descriptor_count))
                },
                None => None,
            };
            records.push(
                DescriptorSetLayoutBinding {
                    binding: info.binding,
                    descriptor_count: info.descriptor_count,
                    descriptor_type: info.descriptor_type,
                    stage_flags: info.stage_flags,
                    immutable_samplers,
                },
            );
            index += 1;
        }
        records
    }
}

/// The handles of keys.
pub open spec fn keyed(keys: Seq<u64>, handles: Seq<u64>) -> Map<u64, u64> {
    Map::new(|key: u64| keys.contains(key), |key: u64| handles[keys.index_of(key)])
}

proof fn lemma_keys_complete(bindings: Seq<DescriptorSetLayoutBindingInfo>)
    ensures
        forall|i: int|
            0 <= i < bindings.len() ==> ((#[trigger] bindings[i]).immutable_sampler matches Some(key)
                ==> sampler_keys(bindings).contains(key)),
    decreases bindings.len(),
{
    if bindings.len() > 0 {
        let some = bindings.drop_last();
        lemma_keys_complete(some);
        let before = sampler_keys(some);
        let after = sampler_keys(bindings);
        assert forall|i: int| 0 <= i < bindings.len() implies ((
        #[trigger] bindings[i]).immutable_sampler matches Some(key) ==> after.contains(key)) by {
            if let Some(key) = bindings[i].immutable_sampler {
                if i < some.len() {
                    assert(some[i] == bindings[i]);
                    assert(before.contains(key));
                    let k = choose|k: int| 0 <= k < before.len() && before[k] == key;
                    assert(after[k] == key);
                } else if !before.contains(key) {
                    assert(after[before.len() as int] == key);
                }
            }
        }
    }
}

/// No sampler is made twice.
proof fn lemma_keys_distinct(bindings: Seq<DescriptorSetLayoutBindingInfo>)
    ensures
        sampler_keys(bindings).no_duplicates(),
    decreases bindings.len(),
{
    if bindings.len() > 0 {
        lemma_keys_distinct(bindings.drop_last());
    }
}

/// The samplers that are made for a layout are those that its bindings always use, each made once.
pub proof fn samplers_are_made_once(bindings: Seq<DescriptorSetLayoutBindingInfo>)
    ensures
        sampler_keys(bindings).no_duplicates(),
        forall|i: int|
            0 <= i < bindings.len() ==> ((#[trigger] bindings[i]).immutable_sampler matches Some(key)
                ==> sampler_keys(bindings).contains(key)),
{
    lemma_keys_distinct(bindings);
    lemma_keys_complete(bindings);
}

/// Whether a list holds a key.
fn holds(keys: &Vec<u64>, key: u64) -> (holds: bool)
    ensures
        holds == keys@.contains(key),
{
    let mut index: usize = 0;
    while index < keys.len()
        invariant
            index <= keys@.len(),
            forall|i: int| 0 <= i < index ==> keys@[i] != key,
        decreases keys@.len() - index,
    {
        if keys[index] == key {
            assert(keys@[index as int] == key);
            return true;
        }
        index += 1;
    }
    false
}

/// Where a list holds a key.
fn position(keys: &Vec<u64>, key: u64) -> (index: usize)
    requires
        keys@.contains(key),
    ensures
        index < keys@.len(),
        keys@[index as int] == key,
{
    let mut index: usize = 0;
    while keys[index] != key
        invariant
            index < keys@.len(),
            keys@.contains(key),
            forall|i: int| 0 <= i < index ==> keys@[i] != key,
        decreases keys@.len() - index,
    {
        assert(index + 1 < keys@.len()) by {
            let i = choose|i: int| 0 <= i < keys@.len() && keys@[i] == key;
            assert(i > index);
        }
        let _len: usize = keys.len();
        index += 1;
    }
    index
}

/// A value a number of times.
fn repeated(value: u64, count: u32) -> (list: Vec<u64>)
    ensures
        list@ == Seq::new(count as nat, |i: int| value),
{
    let mut list: Vec<u64> = Vec::new();
    let mut made: u32 = 0;
    while made < count
        invariant
            made <= count,
            list@ == Seq::new(made as nat, |i: int| value),
        decreases count - made,
    {
        list.push(value);
        made += 1;
        assert(list@ =~= Seq::new(made as nat, |i: int| value));
    }
    list
}

/// A descriptor set layout of a device.
#[derive(Debug)]
pub struct DescriptorSetLayout {
    /// The device of the layout.
    pub device: u64,
    /// The native handle of the layout.
    pub handle: u64,
    /// The information of the layout.
    pub info: DescriptorSetLayoutInfo,
}

impl DescriptorSetLayout {
    /// Whether two values are one layout. A device has no two layouts with one handle.
    pub open spec fn same_layout(self, other: Self) -> bool {
        self.device == other.device && self.handle == other.handle
    }

    /// Whether two values are one layout.
    pub fn is_same(&self, other: &Self) -> (same: bool)
        ensures
            same == self.same_layout(*other),
    {
        self.device == other.device && self.handle == other.handle
    }
}

/// Whether two layouts have the same bindings.
pub fn same_info(a: &DescriptorSetLayoutInfo, b: &DescriptorSetLayoutInfo) -> (same: bool)
    ensures
        same == (a.bindings@ == b.bindings@),
{
    if a.bindings.len() != b.bindings.len() {
        return false;
    }
    let mut index: usize = 0;
    while index < a.bindings.len()
        invariant
            index <= a.bindings@.len() == b.bindings@.len(),
            forall|i: int| 0 <= i < index ==> a.bindings@[i] == b.bindings@[i],
        decreases a.bindings@.len() - index,
    {
        if a.bindings[index] != b.bindings[index] {
            assert(a.bindings@[index as int] != b.bindings@[index as int]);
            return false;
        }
        index += 1;
    }
    assert(a.bindings@ =~= b.bindings@);
    true
}

/// What a descriptor set layout is shared by: its device and its information.
#[derive(Debug)]
pub struct DescriptorSetLayoutKey {
    /// The device of the layout.
    pub device: u64,
    /// The information of the layout.
    pub info: DescriptorSetLayoutInfo,
}

impl CacheKey for DescriptorSetLayoutKey {
    type Model = (u64, Seq<DescriptorSetLayoutBindingInfo>);

    open spec fn model(&self) -> (u64, Seq<DescriptorSetLayoutBindingInfo>) {
        (self.device, self.info.bindings@)
    }

    fn same_key(&self, other: &Self) -> (same: bool) {
        self.device == other.device && same_info(&self.info, &other.info)
    }
}

/// The layouts that are in use.
pub type DescriptorSetLayoutCache = HandleCache<DescriptorSetLayoutKey>;

/// Every binding is found by its index, and nothing is found by any other index.
pub proof fn bindings_are_found_by_index(bindings: Seq<DescriptorSetLayoutBindingInfo>, index: int)
    requires
        ascending(bindings),
    ensures
        0 <= index < bindings.len() ==> DescriptorSetLayoutInfo::lookup(
            bindings,
            bindings[index].binding,
        ) == Some(bindings[index]),
        forall|binding: u32|
            (#[trigger] DescriptorSetLayoutInfo::lookup(bindings, binding) matches Some(info)
                ==> info.binding == binding && bindings.contains(info)),
{
    if 0 <= index < bindings.len() {
        let binding = bindings[index].binding;
        let i = choose|i: int| 0 <= i < bindings.len() && (#[trigger] bindings[i]).binding == binding;
        if i < index {
            assert(bindings[i].binding < bindings[index].binding);
        } else if index < i {
            assert(bindings[index].binding < bindings[i].binding);
        }
    }
    assert forall|binding: u32|
        (#[trigger] DescriptorSetLayoutInfo::lookup(bindings, binding) matches Some(info)
            ==> info.binding == binding && bindings.contains(info)) by {
        if exists|i: int| 0 <= i < bindings.len() && (#[trigger] bindings[i]).binding == binding {
            let i = choose|i: int|
                0 <= i < bindings.len() && (#[trigger] bindings[i]).binding == binding;
            assert(bindings.contains(bindings[i]));
        }
    }
}

/// No sampler is made that no binding always uses.
pub proof fn samplers_are_of_bindings(bindings: Seq<DescriptorSetLayoutBindingInfo>, key: u64)
    requires
        sampler_keys(bindings).contains(key),
    ensures
        exists|i: int|
            0 <= i < bindings.len() && (#[trigger] bindings[i]).immutable_sampler == Some(key),
    decreases bindings.len(),
{
    let some = bindings.drop_last();
    if sampler_keys(some).contains(key) {
        samplers_are_of_bindings(some, key);
        let i = choose|i: int|
            0 <= i < some.len() && (#[trigger] some[i]).immutable_sampler == Some(key);
        assert(bindings[i] == some[i]);
    } else {
        let all = sampler_keys(bindings);
        let k = choose|k: int| 0 <= k < all.len() && all[k] == key;
        if k < sampler_keys(some).len() {
            assert(sampler_keys(some)[k] == key);
        }
        assert(bindings[bindings.len() - 1].immutable_sampler == Some(key));
    }
}

/// A binding that always uses a sampler names its handle once for each descriptor; the others name
/// none.
pub proof fn samplers_are_named_for_descriptors(
    record: DescriptorSetLayoutBinding,
    info: DescriptorSetLayoutBindingInfo,
    samplers: Map<u64, u64>,
)
    requires
        is_record(record, info, samplers),
    ensures
        info.immutable_sampler is None ==> record.immutable_samplers is None,
        info.immutable_sampler matches Some(key) ==> {
            let handles = (record.immutable_samplers->0)@;
            &&& record.immutable_samplers is Some
            &&& handles.len() == record.descriptor_count
            &&& forall|i: int| 0 <= i < handles.len() ==> handles[i] == samplers[key]
        },
        info == (DescriptorSetLayoutBindingInfo {
            binding: record.binding,
            descriptor_count: record.descriptor_count,
            descriptor_type: record.descriptor_type,
            stage_flags: record.stage_flags,
            ..info
        }),
{
}

/// One layout is one whatever is known of its bindings, and layouts of different devices are never
/// one.
pub proof fn layouts_are_of_their_devices(a: DescriptorSetLayout, b: DescriptorSetLayout)
    ensures
        a.same_layout(DescriptorSetLayout { info: b.info, ..a }),
        a.device != b.device ==> !a.same_layout(b),
        a.handle != b.handle ==> !a.same_layout(b),
        a.same_layout(b) == b.same_layout(a),
{
}

} // verus!
