//! Descriptor set layouts, descriptor pools and the writes that fill a
//! descriptor set.

use crate::attachments::DescriptorImageInfo;
use crate::buffer::DescriptorBufferInfo;
use crate::vulkan::Handle;
use std::collections::HashMap;
use vstd::prelude::*;
use vstd::std_specs::iter::IteratorSpec;

verus! {

broadcast use vstd::std_specs::hash::group_hash_axioms;

/// How many sets a pool holds unless told otherwise.
pub const DEFAULT_MAX_SETS: u32 = 1000;

/// One binding of a descriptor set layout. The descriptor type and the
/// shader stages keep their Vulkan encoding.
#[derive(Clone, Copy, PartialEq, Eq, Debug, Structural)]
pub struct LayoutBinding {
    pub binding: u32,
    pub descriptor_type: i32,
    pub descriptor_count: u32,
    pub stage_flags: u32,
}

/// How many descriptors of one type a pool holds.
#[derive(Clone, Copy, PartialEq, Eq, Debug, Structural)]
pub struct PoolSize {
    pub descriptor_type: i32,
    pub descriptor_count: u32,
}

/// What the driver is asked for when a descriptor pool is created.
#[derive(Debug)]
pub struct DescriptorPoolCreateInfo {
    pub pool_sizes: Vec<PoolSize>,
    pub max_sets: u32,
    pub flags: u32,
}

/// What a write puts into a binding.
#[derive(Clone, Copy, PartialEq, Eq, Debug, Structural)]
pub enum WriteSource {
    Buffer(DescriptorBufferInfo),
    Image(DescriptorImageInfo),
}

/// One write of a single descriptor into a binding of a set.
#[derive(Clone, Copy, PartialEq, Eq, Debug, Structural)]
pub struct DescriptorWrite {
    pub dst_set: Handle,
    pub dst_binding: u32,
    pub descriptor_type: i32,
    pub source: WriteSource,
}

/// Collects the bindings of a descriptor set layout.
#[derive(Debug)]
pub struct DescriptorSetLayoutBuilder {
    bindings: HashMap<u32, LayoutBinding>,
}

/// A descriptor set layout and its bindings by number.
#[derive(Debug)]
pub struct DescriptorSetLayout {
    descriptor_set_layout: Handle,
    bindings: HashMap<u32, LayoutBinding>,
}

/// A descriptor pool.
#[derive(Clone, Copy, PartialEq, Eq, Debug, Structural)]
pub struct DescriptorPool {
    pub descriptor_pool: Handle,
}

/// Collects what a descriptor pool is to hold.
#[derive(Debug)]
pub struct DescriptorPoolBuilder {
    pool_sizes: Vec<PoolSize>,
    max_sets: u32,
    pool_flags: u32,
}

/// The state of a `DescriptorPoolBuilder`.
pub struct DescriptorPoolBuilderView {
    pub pool_sizes: Seq<PoolSize>,
    pub max_sets: u32,
    pub pool_flags: u32,
}

/// Collects the writes that fill a descriptor set of a given layout from a
/// given pool.
#[derive(Debug)]
pub struct DescriptorWriter<'a> {
    set_layout: &'a DescriptorSetLayout,
    pool: &'a DescriptorPool,
    writes: Vec<DescriptorWrite>,
}

/// The state of a `DescriptorWriter`.
pub struct DescriptorWriterView {
    pub layout: Map<u32, LayoutBinding>,
    pub layout_handle: Handle,
    pub pool: Handle,
    pub writes: Seq<DescriptorWrite>,
}

impl View for DescriptorSetLayoutBuilder {
    type V = Map<u32, LayoutBinding>;

    closed spec fn view(&self) -> Map<u32, LayoutBinding> {
        self.bindings@
    }
}

impl View for DescriptorSetLayout {
    type V = Map<u32, LayoutBinding>;

    closed spec fn view(&self) -> Map<u32, LayoutBinding> {
        self.bindings@
    }
}

impl View for DescriptorPoolBuilder {
    type V = DescriptorPoolBuilderView;

    closed spec fn view(&self) -> DescriptorPoolBuilderView {
        DescriptorPoolBuilderView {
            pool_sizes: self.pool_sizes@,
            max_sets: self.max_sets,
            pool_flags: self.pool_flags,
        }
    }
}

impl<'a> View for DescriptorWriter<'a> {
    type V = DescriptorWriterView;

    closed spec fn view(&self) -> DescriptorWriterView {
        DescriptorWriterView {
            layout: self.set_layout@,
            layout_handle: self.set_layout.handle(),
            pool: self.pool.descriptor_pool,
            writes: self.writes@,
        }
    }
}

/// A given descriptor count, or one.
pub open spec fn count_or_one(count: Option<u32>) -> u32 {
    match count {
        Some(count) => count,
        None => 1,
    }
}

/// The write of one descriptor from `source` into `binding` of a layout,
/// with the descriptor type that the layout gives the binding. The set is
/// left open.
pub open spec fn write_into(layout: Map<u32, LayoutBinding>, binding: u32, source: WriteSource)
    -> DescriptorWrite {
    DescriptorWrite {
        dst_set: Handle { raw: 0 },
        dst_binding: binding,
        descriptor_type: layout[binding].descriptor_type,
        source,
    }
}

/// The writes with `set` as the set of each.
pub open spec fn aimed_at(writes: Seq<DescriptorWrite>, set: Handle) -> Seq<DescriptorWrite> {
    writes.map_values(|write: DescriptorWrite| DescriptorWrite { dst_set: set, ..write })
}

fn copy_bindings(bindings: &HashMap<u32, LayoutBinding>) -> (copy: HashMap<u32, LayoutBinding>)
    ensures
        copy@ == bindings@,
{
    bindings.clone()
}

impl DescriptorSetLayoutBuilder {
    /// A builder without bindings.
    pub fn new() -> (builder: Self)
        ensures
            builder@ == Map::<u32, LayoutBinding>::empty(),
    {
        Self { bindings: HashMap::new() }
    }

    /// Adds a binding of `count` descriptors, or of one, and hands out the
    /// builder as it then stands. A binding number can be used once.
    pub fn add_binding(
        &mut self,
        binding: u32,
        descriptor_type: i32,
        stage_flags: u32,
        count: Option<u32>,
    ) -> (builder: Self)
        requires
            !old(self)@.contains_key(binding),
        ensures
            final(self)@ == old(self)@.insert(
                binding,
                LayoutBinding {
                    binding,
                    descriptor_type,
                    descriptor_count: count_or_one(count),
                    stage_flags,
                },
            ),
            builder@ == final(self)@,
    {
        let count = match count {
            Some(count) => count,
            None => 1,
        };
        let layout_binding = LayoutBinding {
            binding,
            descriptor_type,
            descriptor_count: count,
            stage_flags,
        };
        self.bindings.insert(binding, layout_binding);
        Self { bindings: copy_bindings(&self.bindings) }
    }

    /// Whether a binding number is taken.
    pub fn has_binding(&self, binding: u32) -> (taken: bool)
        ensures
            taken == self@.contains_key(binding),
    {
        self.bindings.contains_key(&binding)
    }

    /// The bindings to create the layout with: each binding once, in no
    /// particular order.
    pub fn bindings(&self) -> (list: Vec<LayoutBinding>)
        ensures
            list@.to_set() == self@.values(),
            list.len() == self@.dom().len(),
    {
        let mut list: Vec<LayoutBinding> = Vec::new();
        let ghost all = self.bindings.values().remaining();
        for binding in iter: self.bindings.values()
            invariant
                iter.seq() == all,
                list.len() == iter.index(),
                forall|i: int| 0 <= i < iter.index() ==> list[i] == *(#[trigger] iter.seq()[i]),
        {
            list.push(*binding);
        }
        assert(list@ =~= all.unref());
        list
    }

    /// The layout that the driver created as `descriptor_set_layout` from
    /// the bindings collected.
    pub fn build(&self, descriptor_set_layout: Handle) -> (layout: DescriptorSetLayout)
        ensures
            layout@ == self@,
            layout.handle() == descriptor_set_layout,
    {
        DescriptorSetLayout::new(descriptor_set_layout, &self.bindings)
    }
}

impl DescriptorSetLayout {
    /// The driver's handle of the layout.
    pub closed spec fn handle(&self) -> Handle {
        self.descriptor_set_layout
    }

    /// The layout that the driver created as `descriptor_set_layout` from
    /// the given bindings.
    pub fn new(descriptor_set_layout: Handle, bindings: &HashMap<u32, LayoutBinding>) -> (layout:
        Self)
        ensures
            layout@ == bindings@,
            layout.handle() == descriptor_set_layout,
    {
        Self { descriptor_set_layout, bindings: copy_bindings(bindings) }
    }

    /// A builder without bindings.
    pub fn builder() -> (builder: DescriptorSetLayoutBuilder)
        ensures
            builder@ == Map::<u32, LayoutBinding>::empty(),
    {
        DescriptorSetLayoutBuilder::new()
    }

    /// Gives up the layout: its handle goes back to the driver.
    pub fn destroy(self) -> (handle: Handle)
        ensures
            handle == self.handle(),
    {
        self.descriptor_set_layout
    }

    /// The driver's handle of the layout.
    pub fn descriptor_set_layout(&self) -> (handle: Handle)
        ensures
            handle == self.handle(),
    {
        self.descriptor_set_layout
    }

    /// The binding of the given number, where the layout has one.
    pub fn binding(&self, binding: u32) -> (found: Option<LayoutBinding>)
        ensures
            found == if self@.contains_key(binding) {
                Some(self@[binding])
            } else {
                None
            },
    {
        match self.bindings.get(&binding) {
            Some(found) => Some(*found),
            None => None,
        }
    }
}

fn copy_pool_sizes(pool_sizes: &Vec<PoolSize>) -> (copy: Vec<PoolSize>)
    ensures
        copy@ == pool_sizes@,
{
    let mut copy: Vec<PoolSize> = Vec::new();
    let mut index: usize = 0;
    while index < pool_sizes.len()
        invariant
            index <= pool_sizes.len(),
            copy@ == pool_sizes@.take(index as int),
        decreases pool_sizes.len() - index,
    {
        copy.push(pool_sizes[index]);
        assert(copy@ =~= pool_sizes@.take(index + 1));
        index += 1;
    }
    assert(pool_sizes@.take(index as int) =~= pool_sizes@);
    copy
}

fn copy_writes(writes: &Vec<DescriptorWrite>) -> (copy: Vec<DescriptorWrite>)
    ensures
        copy@ == writes@,
{
    let mut copy: Vec<DescriptorWrite> = Vec::new();
    let mut index: usize = 0;
    while index < writes.len()
        invariant
            index <= writes.len(),
            copy@ == writes@.take(index as int),
        decreases writes.len() - index,
    {
        copy.push(writes[index]);
        assert(copy@ =~= writes@.take(index + 1));
        index += 1;
    }
    assert(writes@.take(index as int) =~= writes@);
    copy
}

impl DescriptorPoolBuilder {
    /// A builder for a pool of a thousand sets that holds nothing yet.
    pub fn new() -> (builder: Self)
        ensures
            builder@ == (DescriptorPoolBuilderView {
                pool_sizes: seq![],
                max_sets: DEFAULT_MAX_SETS,
                pool_flags: 0,
            }),
    {
        Self { pool_sizes: Vec::new(), max_sets: DEFAULT_MAX_SETS, pool_flags: 0 }
    }

    /// The builder with `count` more descriptors of the given type.
    pub fn add_pool_size(&self, descriptor_type: i32, count: u32) -> (builder: Self)
        ensures
            builder@ == (DescriptorPoolBuilderView {
                pool_sizes: self@.pool_sizes.push(
                    PoolSize { descriptor_type, descriptor_count: count },
                ),
                ..self@
            }),
    {
        let mut pool_sizes = copy_pool_sizes(&self.pool_sizes);
        pool_sizes.push(PoolSize { descriptor_type, descriptor_count: count });
        Self { pool_sizes, max_sets: self.max_sets, pool_flags: self.pool_flags }
    }

    /// The builder with the given pool flags.
    pub fn set_pool_flags(&self, flags: u32) -> (builder: Self)
        ensures
            builder@ == (DescriptorPoolBuilderView { pool_flags: flags, ..self@ }),
    {
        Self {
            pool_flags: flags,
            pool_sizes: copy_pool_sizes(&self.pool_sizes),
            max_sets: self.max_sets,
        }
    }

    /// The builder with the given number of sets.
    pub fn set_max_sets(&self, count: u32) -> (builder: Self)
        ensures
            builder@ == (DescriptorPoolBuilderView { max_sets: count, ..self@ }),
    {
        Self {
            max_sets: count,
            pool_sizes: copy_pool_sizes(&self.pool_sizes),
            pool_flags: self.pool_flags,
        }
    }

    /// What to ask of the driver for the pool.
    pub fn build(&self) -> (info: DescriptorPoolCreateInfo)
        ensures
            info.pool_sizes@ == self@.pool_sizes,
            info.max_sets == self@.max_sets,
            info.flags == self@.pool_flags,
    {
        DescriptorPoolCreateInfo {
            pool_sizes: copy_pool_sizes(&self.pool_sizes),
            max_sets: self.max_sets,
            flags: self.pool_flags,
        }
    }
}

impl DescriptorPool {
    /// The pool that the driver created as `descriptor_pool`.
    pub fn new(descriptor_pool: Handle) -> (pool: Self)
        ensures
            pool.descriptor_pool == descriptor_pool,
    {
        Self { descriptor_pool }
    }

    /// A builder for a pool of a thousand sets that holds nothing yet.
    pub fn builder() -> (builder: DescriptorPoolBuilder)
        ensures
            builder@ == (DescriptorPoolBuilderView {
                pool_sizes: seq![],
                max_sets: DEFAULT_MAX_SETS,
                pool_flags: 0,
            }),
    {
        DescriptorPoolBuilder::new()
    }

    /// Reads what the driver answered to the request for one set: the sets
    /// it allocated with the word that it worked, or none with the word that
    /// it did not.
    pub fn allocate_descriptor(&self, outcome: Result<Vec<Handle>, i32>) -> (allocated: (
        Vec<Handle>,
        bool,
    ))
        ensures
            match outcome {
                Ok(sets) => allocated.0@ == sets@ && allocated.1,
                Err(_) => allocated.0@ == Seq::<Handle>::empty() && !allocated.1,
            },
    {
        match outcome {
            Ok(sets) => (sets, true),
            Err(_) => (Vec::new(), false),
        }
    }
}

impl<'a> DescriptorWriter<'a> {
    /// A writer without writes.
    pub fn new(set_layout: &'a DescriptorSetLayout, pool: &'a DescriptorPool) -> (writer: Self)
        ensures
            writer@ == (DescriptorWriterView {
                layout: set_layout@,
                layout_handle: set_layout.handle(),
                pool: pool.descriptor_pool,
                writes: seq![],
            }),
    {
        Self { set_layout, pool, writes: Vec::new() }
    }

    /// The writer with one more write, of one descriptor from `source` into
    /// `binding`.
    fn write(&self, binding: u32, source: WriteSource) -> (writer: Self)
        requires
            self@.layout.contains_key(binding),
        ensures
            writer@ == (DescriptorWriterView {
                writes: self@.writes.push(write_into(self@.layout, binding, source)),
                ..self@
            }),
    {
        let mut writes = copy_writes(&self.writes);
        let descriptor_type = match self.set_layout.binding(binding) {
            Some(description) => description.descriptor_type,
            None => 0,
        };
        writes.push(
            DescriptorWrite { dst_set: Handle::null(), dst_binding: binding, descriptor_type, source },
        );
        Self { set_layout: self.set_layout, pool: self.pool, writes }
    }

    /// The writer with one more write, of a buffer into `binding`, which the
    /// layout must have with a single descriptor.
    pub fn write_buffer(&self, binding: u32, buffer_info: &DescriptorBufferInfo) -> (writer: Self)
        requires
            self@.layout.contains_key(binding),
            self@.layout[binding].descriptor_count == 1,
        ensures
            writer@ == (DescriptorWriterView {
                writes: self@.writes.push(
                    write_into(self@.layout, binding, WriteSource::Buffer(*buffer_info)),
                ),
                ..self@
            }),
    {
        self.write(binding, WriteSource::Buffer(*buffer_info))
    }

    /// The writer with one more write, of an image into `binding`, which the
    /// layout must have with a single descriptor.
    pub fn write_image(&self, binding: u32, image_info: &DescriptorImageInfo) -> (writer: Self)
        requires
            self@.layout.contains_key(binding),
            self@.layout[binding].descriptor_count == 1,
        ensures
            writer@ == (DescriptorWriterView {
                writes: self@.writes.push(
                    write_into(self@.layout, binding, WriteSource::Image(*image_info)),
                ),
                ..self@
            }),
    {
        self.write(binding, WriteSource::Image(*image_info))
    }

    /// Whether `binding` can take a write of a single descriptor.
    pub fn accepts(&self, binding: u32) -> (accepted: bool)
        ensures
            accepted == (self@.layout.contains_key(binding) && self@.layout[binding].descriptor_count
                == 1),
    {
        match self.set_layout.binding(binding) {
            Some(description) => description.descriptor_count == 1,
            None => false,
        }
    }

    /// The layout to allocate the set with.
    pub fn layout(&self) -> (handle: Handle)
        ensures
            handle == self@.layout_handle,
    {
        self.set_layout.descriptor_set_layout()
    }

    /// The pool to allocate the set from.
    pub fn pool(&self) -> (handle: Handle)
        ensures
            handle == self@.pool,
    {
        self.pool.descriptor_pool
    }

    /// Takes in what the pool allocated. Where it worked and there is a set,
    /// the writes are aimed at the first set and handed out to be carried
    /// out. The answer names the first set, or the null handle where there is
    /// none, and says whether the allocation worked.
    pub fn build(&mut self, allocated: &(Vec<Handle>, bool)) -> (built: (
        Handle,
        bool,
        Option<Vec<DescriptorWrite>>,
    ))
        ensures
            built.1 == allocated.1,
            built.0 == if allocated.0.len() > 0 {
                allocated.0[0]
            } else {
                Handle { raw: 0 }
            },
            built.2 matches Some(writes) ==> writes@ == final(self)@.writes,
            built.2 is Some <==> allocated.0.len() > 0 && allocated.1,
            final(self)@ == if allocated.0.len() > 0 && allocated.1 {
                DescriptorWriterView {
                    writes: aimed_at(old(self)@.writes, allocated.0[0]),
                    ..old(self)@
                }
            } else {
                old(self)@
            },
    {
        if allocated.0.len() > 0 {
            let set = allocated.0[0];
            if allocated.1 {
                let writes = self.overwrite(set);
                return (set, allocated.1, Some(writes));
            }
            return (set, allocated.1, None);
        }
        (Handle::null(), allocated.1, None)
    }

    /// Aims every write at `set` and hands the writes out to be carried
    /// out.
    pub fn overwrite(&mut self, set: Handle) -> (writes: Vec<DescriptorWrite>)
        ensures
            final(self)@ == (DescriptorWriterView {
                writes: aimed_at(old(self)@.writes, set),
                ..old(self)@
            }),
            writes@ == final(self)@.writes,
    {
        let mut aimed: Vec<DescriptorWrite> = Vec::new();
        let mut index: usize = 0;
        while index < self.writes.len()
            invariant
                index <= self.writes.len(),
                self.writes@ == old(self).writes@,
                aimed@ == aimed_at(self.writes@.take(index as int), set),
            decreases self.writes.len() - index,
        {
            let write = self.writes[index];
            aimed.push(
                DescriptorWrite {
                    dst_set: set,
                    dst_binding: write.dst_binding,
                    descriptor_type: write.descriptor_type,
                    source: write.source,
                },
            );
            assert(aimed@ =~= aimed_at(self.writes@.take(index + 1), set));
            index += 1;
        }
        assert(self.writes@.take(index as int) =~= self.writes@);
        let writes = copy_writes(&aimed);
        self.writes = aimed;
        writes
    }
}

} // verus!
