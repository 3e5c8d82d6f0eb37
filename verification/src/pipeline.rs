//! What the kinds of pipelines have in common.

use crate::descriptor_set::PipelineDescriptorInfo;
use crate::device::has_nul;
use crate::error::DriverError;
use crate::text::{decimal, decimal_text, decimals_read_back};
use vstd::prelude::*;

verus! {

/// A range of push constants, and the stages that read it.
#[derive(Clone, Copy, Debug, PartialEq, Eq, Hash, Structural)]
pub struct PushConstantRange {
    /// The stages that read the range.
    pub stage_flags: u32,
    /// Where the range starts, in bytes.
    pub offset: u32,
    /// The length of the range, in bytes.
    pub size: u32,
}

/// How many descriptors each binding gets: a binding of no fixed count gets the bindless count.
pub open spec fn bindless_counts(counts: Seq<u32>, bindless: u32) -> Seq<u32> {
    Seq::new(
        counts.len(),
        |i: int|
            if counts[i] == 0 {
                bindless
            } else {
                counts[i]
            },
    )
}

/// Gives each binding of no fixed count the bindless count.
pub fn set_bindless_counts(counts: &mut Vec<u32>, bindless: u32)
    ensures
        final(counts)@ == bindless_counts(old(counts)@, bindless),
{
    let ghost before = counts@;
    let mut index: usize = 0;
    while index < counts.len()
        invariant
            index <= counts@.len() == before.len(),
            forall|i: int|
                0 <= i < index ==> #[trigger] counts@[i] == bindless_counts(before, bindless)[i],
            forall|i: int| index <= i < before.len() ==> #[trigger] counts@[i] == before[i],
        decreases before.len() - index,
    {
        if counts[index] == 0 {
            counts.set(index, bindless);
        }
        index += 1;
    }
}

/// The handles of the layouts of a pipeline, in the order of their set indices.
pub open spec fn layout_handle_list(info: PipelineDescriptorInfo) -> Seq<u64> {
    Seq::new(info.layouts@.len(), |i: int| info.layouts@[i].1.handle)
}

/// Returns the handles of the layouts of a pipeline, in the order of their set indices.
pub fn layout_handles(info: &PipelineDescriptorInfo) -> (handles: Vec<u64>)
    ensures
        handles@ == layout_handle_list(*info),
{
    let mut handles: Vec<u64> = Vec::new();
    let mut index: usize = 0;
    while index < info.layouts.len()
        invariant
            index <= info.layouts@.len(),
            handles@ == layout_handle_list(*info).take(index as int),
        decreases info.layouts@.len() - index,
    {
        handles.push(info.layouts[index].1.handle);
        index += 1;
        assert(handles@ =~= layout_handle_list(*info).take(index as int));
    }
    assert(handles@ =~= layout_handle_list(*info));
    handles
}

/// The ranges that are there, in order.
pub open spec fn present(ranges: Seq<Option<PushConstantRange>>) -> Seq<PushConstantRange>
    decreases ranges.len(),
{
    if ranges.len() == 0 {
        seq![]
    } else {
        match ranges.last() {
            Some(range) => present(ranges.drop_last()).push(range),
            None => present(ranges.drop_last()),
        }
    }
}

/// Returns the ranges that are there, in order.
pub fn present_ranges(ranges: &Vec<Option<PushConstantRange>>) -> (there: Vec<PushConstantRange>)
    ensures
        there@ == present(ranges@),
{
    let mut there: Vec<PushConstantRange> = Vec::new();
    let mut index: usize = 0;
    while index < ranges.len()
        invariant
            index <= ranges@.len(),
            there@ == present(ranges@.take(index as int)),
        decreases ranges@.len() - index,
    {
        proof {
            assert(ranges@.take(index + 1).drop_last() =~= ranges@.take(index as int));
        }
        if let Some(range) = ranges[index] {
            there.push(range);
        }
        index += 1;
    }
    assert(ranges@.take(index as int) =~= ranges@);
    there
}

/// Says whether making a pipeline goes on once a shader module was made, or was not: no module and
/// an entry name that the driver cannot take are errors.
pub fn accept_shader_module(made: bool, entry_name: &str) -> (accepted: Result<(), DriverError>)
    ensures
        accepted == (if !made {
            Err::<(), DriverError>(DriverError::Unsupported)
        } else if entry_name@.contains('\0') {
            Err(DriverError::InvalidData)
        } else {
            Ok(())
        }),
{
    if !made {
        return Err(DriverError::Unsupported);
    }
    if has_nul(entry_name) {
        return Err(DriverError::InvalidData);
    }
    Ok(())
}

/// The name of the layout of a named pipeline.
pub fn layout_name(name: &str) -> (layout: String)
    ensures
        layout@ == name@ + " (layout)"@,
{
    let mut layout = String::from_str(name);
    layout.append(" (layout)");
    layout
}

/// The text that names a descriptor set layout of a named pipeline.
pub open spec fn set_name_text(name: Seq<char>, set: u32) -> Seq<char> {
    name + " (DS"@ + decimal(set as nat) + ")"@
}

/// The name of a descriptor set layout of a named pipeline.
pub fn set_name(name: &str, set: u32) -> (layout: String)
    ensures
        layout@ == set_name_text(name@, set),
{
    let mut layout = String::from_str(name);
    layout.append(" (DS");
    layout.append(decimal_text(set).as_str());
    layout.append(")");
    layout
}

/// The names of the descriptor set layouts of a named pipeline, with the layouts' handles.
pub fn set_names(info: &PipelineDescriptorInfo, name: &str) -> (names: Vec<(u64, String)>)
    ensures
        names@.len() == info.layouts@.len(),
        forall|i: int|
            0 <= i < names@.len() ==> (#[trigger] names@[i]).0 == info.layouts@[i].1.handle
                && names@[i].1@ == set_name_text(name@, info.layouts@[i].0),
{
    let mut names: Vec<(u64, String)> = Vec::new();
    let mut index: usize = 0;
    while index < info.layouts.len()
        invariant
            index <= info.layouts@.len(),
            names@.len() == index,
            forall|i: int|
                0 <= i < index ==> (#[trigger] names@[i]).0 == info.layouts@[i].1.handle
                    && names@[i].1@ == set_name_text(name@, info.layouts@[i].0),
        decreases info.layouts@.len() - index,
    {
        names.push((info.layouts[index].1.handle, set_name(name, info.layouts[index].0)));
        index += 1;
    }
    names
}

/// A debugging name that is given once, and only where the instance is in debug mode.
#[derive(Debug)]
pub struct PipelineName {
    debug: bool,
    name: Option<String>,
}

impl PipelineName {
    /// Whether the instance is in debug mode.
    pub closed spec fn spec_debug(&self) -> bool {
        self.debug
    }

    /// The text of the name, where one was given.
    pub closed spec fn view(&self) -> Option<Seq<char>> {
        match self.name {
            Some(name) => Some(name@),
            None => None,
        }
    }

    /// A name that was not given yet.
    pub fn new(debug: bool) -> (name: Self)
        ensures
            name.spec_debug() == debug,
            name@ is None,
    {
        PipelineName { debug, name: None }
    }

    /// Returns the name, where one was given.
    pub fn get(&self) -> (name: Option<&str>)
        ensures
            name is Some == self@ is Some,
            name matches Some(name) ==> self@ == Some(name@),
    {
        match &self.name {
            Some(name) => Some(name.as_str()),
            None => None,
        }
    }

    /// Gives the name: it stays as it is where it was given before, and outside debug mode.
    pub fn set(&mut self, name: String)
        ensures
            final(self).spec_debug() == old(self).spec_debug(),
            final(self)@ == (if old(self).spec_debug() && old(self)@ is None {
                Some(name@)
            } else {
                old(self)@
            }),
    {
        if !self.debug {
            return;
        }
        if self.name.is_none() {
            self.name = Some(name);
        }
    }
}

/// What is destroyed with a pipeline, or where making one fails.
#[derive(Clone, Copy, Debug, PartialEq, Eq, Structural)]
pub enum PipelineTeardown {
    /// The debugging name of the pipeline.
    Name(u64),
    /// The pipeline.
    Pipeline(u64),
    /// The layout of the pipeline.
    Layout(u64),
    /// A shader module.
    Module(u64),
}

/// The steps that destroy some shader modules.
pub open spec fn module_steps(modules: Seq<u64>) -> Seq<PipelineTeardown> {
    modules.map_values(|module: u64| PipelineTeardown::Module(module))
}

/// Appends the steps that destroy some shader modules.
pub fn push_modules(steps: &mut Vec<PipelineTeardown>, modules: &Vec<u64>)
    ensures
        final(steps)@ == old(steps)@ + module_steps(modules@),
{
    let ghost before = steps@;
    let mut index: usize = 0;
    while index < modules.len()
        invariant
            index <= modules@.len(),
            steps@ == before + module_steps(modules@.take(index as int)),
        decreases modules@.len() - index,
    {
        steps.push(PipelineTeardown::Module(modules[index]));
        index += 1;
        assert(steps@ =~= before + module_steps(modules@.take(index as int)));
    }
    assert(modules@.take(index as int) =~= modules@);
}

/// The bindless count goes to the bindings without a count of their own, and to no others.
pub proof fn fixed_counts_stay(counts: Seq<u32>, bindless: u32, other: u32, index: int)
    requires
        0 <= index < counts.len(),
    ensures
        bindless_counts(counts, bindless).len() == counts.len(),
        bindless_counts(counts, counts[index])[index] == counts[index],
        counts[index] > 0 ==> bindless_counts(counts, bindless)[index] == bindless_counts(
            counts,
            other,
        )[index],
        counts[index] == 0 ==> bindless_counts(counts, bindless)[index] == bindless,
        bindless > 0 ==> bindless_counts(bindless_counts(counts, bindless), other)
            == bindless_counts(counts, bindless),
{
    assert(bindless > 0 ==> bindless_counts(bindless_counts(counts, bindless), other)
        =~= bindless_counts(counts, bindless));
}

/// Ranges that are there are found list by list, and one that is not there adds nothing.
pub proof fn ranges_are_found_in_order(
    first: Seq<Option<PushConstantRange>>,
    second: Seq<Option<PushConstantRange>>,
    range: PushConstantRange,
)
    ensures
        present(first + second) == present(first) + present(second),
        present(seq![Some(range)]) == seq![range],
        present(seq![None::<PushConstantRange>]) == Seq::<PushConstantRange>::empty(),
    decreases second.len(),
{
    let none = Seq::<Option<PushConstantRange>>::empty();
    assert(seq![Some(range)].drop_last() =~= none);
    assert(seq![None::<PushConstantRange>].drop_last() =~= none);
    assert(present(none) =~= Seq::<PushConstantRange>::empty());
    assert(present(seq![Some(range)]) =~= seq![range]);
    if second.len() == 0 {
        assert(first + second =~= first);
        assert(present(first) + present(second) =~= present(first));
    } else {
        ranges_are_found_in_order(first, second.drop_last(), range);
        assert((first + second).drop_last() =~= first + second.drop_last());
        assert((first + second).last() == second.last());
        assert(present(first + second) =~= present(first) + present(second));
    }
}

/// The layouts of one pipeline have names of their own, all of which start with the pipeline's.
pub proof fn layouts_have_names_of_their_own(name: Seq<char>, a: u32, b: u32)
    ensures
        name.is_prefix_of(set_name_text(name, a)),
        set_name_text(name, a) == set_name_text(name, b) <==> a == b,
{
    let start = name + " (DS"@;
    let n = start.len() as int;
    let (one, two) = (decimal(a as nat), decimal(b as nat));
    let (x, y) = (set_name_text(name, a), set_name_text(name, b));
    decimals_read_back(a as nat);
    decimals_read_back(b as nat);
    assert(x.take(name.len() as int) =~= name);
    reveal_strlit(")");
    if x == y {
        assert(x.len() == n + one.len() + 1 && y.len() == n + two.len() + 1);
        assert(x.subrange(n, n + one.len()) =~= one);
        assert(y.subrange(n, n + one.len()) =~= two);
    }
}

/// Each module is destroyed, in order.
pub proof fn modules_are_destroyed_in_order(modules: Seq<u64>, module: u64)
    ensures
        module_steps(modules.push(module)) == module_steps(modules).push(
            PipelineTeardown::Module(module),
        ),
        module_steps(Seq::empty()) == Seq::<PipelineTeardown>::empty(),
        module_steps(modules).len() == modules.len(),
{
    assert(module_steps(modules.push(module)) =~= module_steps(modules).push(
        PipelineTeardown::Module(module),
    ));
    assert(module_steps(Seq::empty()) =~= Seq::<PipelineTeardown>::empty());
}

} // verus!
