//! Selection of the graphics adapter: queue families, required extensions,
//! memory types and formats.

use crate::extensions::{
    debug_utils_extension, debug_utils_extension_name, names, requirement_met, supports_all,
    swapchain_extension, swapchain_extension_name, validation_layer,
};
use crate::surface::SwapChainSupportDetails;
use crate::vulkan::{
    Format, ImageTiling, FORMAT_D24_UNORM_S8_UINT, FORMAT_D32_SFLOAT, FORMAT_D32_SFLOAT_S8_UINT,
    FORMAT_FEATURE_DEPTH_STENCIL_ATTACHMENT, QUEUE_GRAPHICS,
};
use std::collections::HashSet;
use vstd::prelude::*;

verus! {

broadcast use vstd::std_specs::hash::group_hash_axioms;

/// Why no usable device could be set up.
#[derive(Clone, Copy, PartialEq, Eq, Debug, Structural)]
pub enum DeviceError {
    /// No adapter offers graphics and presentation queues, the swapchain
    /// extension, and at least one surface format and present mode.
    DeviceUnavailable,
    /// The adapter has no queue family that can draw.
    GraphicsFamilyMissing,
    /// The adapter has no queue family that can present to the surface.
    PresentFamilyMissing,
    /// No memory type is allowed by the filter and has every wanted property.
    NoSuitableMemory,
    /// None of the candidate formats has every wanted feature.
    NoSupportedFormat,
    /// Validation was asked for and its layer is not installed.
    ValidationLayersUnavailable,
    /// The instance lacks an extension that the window system requires.
    MissingExtension,
}

/// One queue family of an adapter, with whether it can present to the
/// surface in question.
#[derive(Clone, Copy, PartialEq, Eq, Debug, Structural)]
pub struct QueueFamily {
    pub queue_count: u32,
    pub queue_flags: u32,
    pub present_support: bool,
}

impl QueueFamily {
    /// The family has queues and they accept graphics commands.
    pub open spec fn graphics_capable(self) -> bool {
        self.queue_count > 0 && self.queue_flags & QUEUE_GRAPHICS == QUEUE_GRAPHICS
    }

    /// The family has queues and they can present to the surface.
    pub open spec fn present_capable(self) -> bool {
        self.queue_count > 0 && self.present_support
    }
}

/// The queue families chosen for drawing and for presenting. They may
/// coincide.
#[derive(Clone, Copy, Debug)]
pub struct QueryFamilyIndices {
    pub graphics_family: Option<u32>,
    pub present_family: Option<u32>,
}

impl QueryFamilyIndices {
    /// Both families have been found.
    pub open spec fn complete(self) -> bool {
        self.graphics_family is Some && self.present_family is Some
    }

    /// The choice after looking at family `index`: a capable family replaces
    /// what was chosen before.
    pub open spec fn observed(self, index: u32, family: QueueFamily) -> QueryFamilyIndices {
        QueryFamilyIndices {
            graphics_family: if family.graphics_capable() {
                Some(index)
            } else {
                self.graphics_family
            },
            present_family: if family.present_capable() {
                Some(index)
            } else {
                self.present_family
            },
        }
    }

    /// The choice after looking at the first `n` families in order, stopping
    /// at the first point where both are found.
    pub open spec fn scan(families: Seq<QueueFamily>, n: nat) -> QueryFamilyIndices
        decreases n,
    {
        if n == 0 {
            QueryFamilyIndices { graphics_family: None, present_family: None }
        } else {
            let before = Self::scan(families, (n - 1) as nat);
            if before.complete() {
                before
            } else {
                before.observed((n - 1) as u32, families[n - 1])
            }
        }
    }

    /// Nothing chosen yet.
    pub fn none() -> (indices: Self)
        ensures
            indices.graphics_family is None,
            indices.present_family is None,
    {
        Self { graphics_family: None, present_family: None }
    }

    /// The set of the two chosen families, which has one member when they
    /// coincide. The graphics family is asked for first.
    pub fn unique_queue_families(&self) -> (families: Result<HashSet<u32>, DeviceError>)
        ensures
            match families {
                Ok(set) => {
                    &&& self.graphics_family matches Some(graphics)
                    &&& self.present_family matches Some(present)
                    &&& set@ == set![graphics, present]
                },
                Err(error) => {
                    if self.graphics_family is None {
                        error == DeviceError::GraphicsFamilyMissing
                    } else {
                        self.present_family is None && error == DeviceError::PresentFamilyMissing
                    }
                },
            },
    {
        let graphics = match self.graphics_family {
            Some(graphics) => graphics,
            None => {
                return Err(DeviceError::GraphicsFamilyMissing);
            },
        };
        let present = match self.present_family {
            Some(present) => present,
            None => {
                return Err(DeviceError::PresentFamilyMissing);
            },
        };
        let mut set = HashSet::new();
        set.insert(graphics);
        set.insert(present);
        assert(set@ =~= set![graphics, present]);
        Ok(set)
    }

    /// Whether both families have been found.
    pub fn is_complete(&self) -> (complete: bool)
        ensures
            complete == self.complete(),
    {
        self.graphics_family.is_some() && self.present_family.is_some()
    }

    /// Takes family `index` into account.
    pub fn observe(&mut self, index: u32, family: &QueueFamily)
        ensures
            *final(self) == old(self).observed(index, *family),
    {
        if family.queue_count > 0 {
            if family.queue_flags & QUEUE_GRAPHICS == QUEUE_GRAPHICS {
                self.graphics_family = Some(index);
            }
            if family.present_support {
                self.present_family = Some(index);
            }
        }
    }

    /// Walks the families in order and stops as soon as both a drawing and a
    /// presenting family are known.
    pub fn find_queue_families(families: &Vec<QueueFamily>) -> (indices: Self)
        requires
            families.len() <= u32::MAX,
        ensures
            indices == Self::scan(families@, families.len() as nat),
    {
        let mut indices = Self::none();
        let mut index: usize = 0;
        while index < families.len() && !indices.is_complete()
            invariant
                index <= families.len() <= u32::MAX,
                indices == Self::scan(families@, index as nat),
            decreases families.len() - index,
        {
            indices.observe(index as u32, &families[index]);
            index += 1;
        }
        proof {
            Self::lemma_scan_stays_complete(families@, index as nat, families.len() as nat);
        }
        indices
    }

    /// Once both families are found, further families change nothing.
    pub proof fn lemma_scan_stays_complete(families: Seq<QueueFamily>, n: nat, m: nat)
        requires
            n <= m,
            n == m || Self::scan(families, n).complete(),
        ensures
            Self::scan(families, m) == Self::scan(families, n),
        decreases m - n,
    {
        if n < m {
            Self::lemma_scan_stays_complete(families, n, (m - 1) as nat);
        }
    }

    /// A family that the scan chose is one of the families looked at and is
    /// capable of what it was chosen for.
    pub proof fn lemma_scan_sound(families: Seq<QueueFamily>, n: nat)
        requires
            n <= families.len() <= u32::MAX,
        ensures
            Self::scan(families, n).graphics_family matches Some(g) ==> g < n
                && families[g as int].graphics_capable(),
            Self::scan(families, n).present_family matches Some(p) ==> p < n
                && families[p as int].present_capable(),
        decreases n,
    {
        if n > 0 {
            Self::lemma_scan_sound(families, (n - 1) as nat);
        }
    }

    /// Some family among the first `n` can draw.
    pub open spec fn has_graphics(families: Seq<QueueFamily>, n: nat) -> bool {
        exists|i: int| 0 <= i < n && (#[trigger] families[i]).graphics_capable()
    }

    /// Some family among the first `n` can present.
    pub open spec fn has_present(families: Seq<QueueFamily>, n: nat) -> bool {
        exists|i: int| 0 <= i < n && (#[trigger] families[i]).present_capable()
    }

    /// The scan finds both families exactly when the adapter has a family
    /// that can draw and a family that can present; and while it has not
    /// found both, it has found each one exactly when such a family exists.
    pub proof fn lemma_scan_complete_iff(families: Seq<QueueFamily>, n: nat)
        requires
            n <= families.len() <= u32::MAX,
        ensures
            Self::scan(families, n).complete() <==> Self::has_graphics(families, n)
                && Self::has_present(families, n),
            !Self::scan(families, n).complete() ==> (Self::scan(families, n).graphics_family
                is Some <==> Self::has_graphics(families, n)),
            !Self::scan(families, n).complete() ==> (Self::scan(families, n).present_family
                is Some <==> Self::has_present(families, n)),
        decreases n,
    {
        if n > 0 {
            let k = (n - 1) as nat;
            Self::lemma_scan_complete_iff(families, k);
            let last = families[k as int];
            assert(Self::has_graphics(families, n) <==> Self::has_graphics(families, k)
                || last.graphics_capable()) by {
                if Self::has_graphics(families, k) {
                    let i = choose|i: int| 0 <= i < k && (#[trigger] families[i]).graphics_capable();
                    assert(families[i].graphics_capable());
                }
                if Self::has_graphics(families, n) && !last.graphics_capable() {
                    let i = choose|i: int| 0 <= i < n && (#[trigger] families[i]).graphics_capable();
                    assert(families[i].graphics_capable() && i < k);
                }
            }
            assert(Self::has_present(families, n) <==> Self::has_present(families, k)
                || last.present_capable()) by {
                if Self::has_present(families, k) {
                    let i = choose|i: int| 0 <= i < k && (#[trigger] families[i]).present_capable();
                    assert(families[i].present_capable());
                }
                if Self::has_present(families, n) && !last.present_capable() {
                    let i = choose|i: int| 0 <= i < n && (#[trigger] families[i]).present_capable();
                    assert(families[i].present_capable() && i < k);
                }
            }
        }
    }
}

/// One memory type of an adapter.
#[derive(Clone, Copy, PartialEq, Eq, Debug, Structural)]
pub struct MemoryType {
    pub property_flags: u32,
    pub heap_index: u32,
}

/// A format together with what the adapter can do with it under each tiling.
#[derive(Clone, Copy, PartialEq, Eq, Debug, Structural)]
pub struct FormatCandidate {
    pub format: Format,
    pub linear_tiling_features: u32,
    pub optimal_tiling_features: u32,
}

impl FormatCandidate {
    /// The candidate has every one of `features` under `tiling`. No
    /// candidate has any under a tiling other than linear and optimal.
    pub open spec fn supports(self, tiling: ImageTiling, features: u32) -> bool {
        match tiling {
            ImageTiling::Linear => self.linear_tiling_features & features == features,
            ImageTiling::Optimal => self.optimal_tiling_features & features == features,
            ImageTiling::DrmFormatModifier => false,
        }
    }
}

/// What is known of one adapter when the device is chosen: its queue
/// families, the extensions it offers, and what the surface supports on it.
#[derive(Debug)]
pub struct PhysicalDeviceInfo {
    pub queue_families: Vec<QueueFamily>,
    pub extensions: Vec<String>,
    pub support: SwapChainSupportDetails,
}

impl PhysicalDeviceInfo {
    /// The adapter has a drawing and a presenting queue family, offers the
    /// swapchain extension, and the surface names a format and a present
    /// mode on it.
    pub open spec fn suitable(&self) -> bool {
        &&& QueryFamilyIndices::scan(self.queue_families@, self.queue_families.len() as nat).complete()
        &&& requirement_met(seq![swapchain_extension()], names(self.extensions@))
        &&& self.support.adequate()
    }
}

/// An adapter is suitable exactly when it has a queue family that can draw
/// and one that can present to the surface, its extensions include the
/// swapchain extension, and the surface names a format and a present mode on
/// it.
pub proof fn lemma_suitable_adapter(info: PhysicalDeviceInfo)
    requires
        info.queue_families.len() <= u32::MAX,
    ensures
        info.suitable() <==> {
            &&& QueryFamilyIndices::has_graphics(
                info.queue_families@,
                info.queue_families.len() as nat,
            )
            &&& QueryFamilyIndices::has_present(
                info.queue_families@,
                info.queue_families.len() as nat,
            )
            &&& names(info.extensions@).contains(swapchain_extension())
            &&& info.support.formats.len() > 0
            &&& info.support.present_modes.len() > 0
        },
{
    let required = seq![swapchain_extension()];
    QueryFamilyIndices::lemma_scan_complete_iff(
        info.queue_families@,
        info.queue_families.len() as nat,
    );
    assert(required[0] == swapchain_extension());
}

/// What the driver is asked for when the logical device is created: one
/// queue from each of `queue_families`, which holds each chosen family once,
/// and the named extensions.
#[derive(Debug)]
pub struct DeviceCreateInfo {
    pub queue_families: Vec<u32>,
    pub extensions: Vec<String>,
    pub graphics_family: u32,
    pub present_family: u32,
}

/// What the driver is asked for when the command pool is created: a pool on
/// the drawing family for short-lived buffers that can be reset one by one.
#[derive(Clone, Copy, PartialEq, Eq, Debug, Structural)]
pub struct CommandPoolCreateInfo {
    pub queue_family_index: u32,
    pub transient: bool,
    pub reset_command_buffer: bool,
}

/// What the driver is asked for when the instance is created.
#[derive(Debug)]
pub struct InstanceCreateInfo {
    pub extensions: Vec<String>,
    pub layers: Vec<String>,
    /// Whether a debug messenger is chained to the instance.
    pub debug_messenger: bool,
}

/// One of the objects that make up a device, in the sense of what is torn
/// down at shutdown.
#[derive(Clone, Copy, PartialEq, Eq, Debug, Structural)]
pub enum DeviceObject {
    CommandPool,
    LogicalDevice,
    Surface,
    DebugMessenger,
    Instance,
}

/// The command buffer asked for when a one-off transfer is to be recorded: a
/// single primary buffer from the device's pool, which is begun for one
/// submission only.
#[derive(Clone, Copy, PartialEq, Eq, Debug, Structural)]
pub struct SingleTimeCommands {
    pub primary: bool,
    pub count: u32,
    pub one_time_submit: bool,
}

/// One step of bringing a one-off transfer to its end.
#[derive(Clone, Copy, PartialEq, Eq, Debug, Structural)]
pub enum TransferStep {
    /// Close the recording.
    EndRecording,
    /// Hand the buffer to the graphics queue, without a fence.
    Submit,
    /// Block until the graphics queue has nothing left to do.
    WaitQueueIdle,
    /// Give the buffer back to the pool.
    FreeCommandBuffer,
}

/// The steps that end a one-off transfer, in order. The buffer is freed only
/// after the queue has fallen idle, so the transfer has run by the time the
/// steps are done.
pub open spec fn transfer_steps() -> Seq<TransferStep> {
    seq![
        TransferStep::EndRecording,
        TransferStep::Submit,
        TransferStep::WaitQueueIdle,
        TransferStep::FreeCommandBuffer,
    ]
}

/// Whether memory type `index` is allowed by `type_filter`, whose bit
/// `index` stands for it, and has every one of `properties`. A filter has 32
/// bits, so no type from the 33rd on is ever allowed.
pub open spec fn memory_type_fits(
    memory_types: Seq<MemoryType>,
    index: int,
    type_filter: u32,
    properties: u32,
) -> bool {
    &&& 0 <= index < memory_types.len()
    &&& index < 32
    &&& type_filter & (1u32 << (index as u32)) != 0
    &&& memory_types[index].property_flags & properties == properties
}

/// The depth formats the engine can work with, best first.
pub open spec fn depth_formats() -> Seq<Format> {
    seq![
        Format { raw: FORMAT_D32_SFLOAT },
        Format { raw: FORMAT_D32_SFLOAT_S8_UINT },
        Format { raw: FORMAT_D24_UNORM_S8_UINT },
    ]
}

/// The extensions an instance needs: those of the window system, and the
/// debug-utils extension after them where validation is on.
pub open spec fn required_instance_extensions(window_extensions: Seq<Seq<char>>, validation: bool)
    -> Seq<Seq<char>> {
    if validation {
        window_extensions.push(debug_utils_extension())
    } else {
        window_extensions
    }
}

/// The order in which a device's objects are released. Any other order is
/// undefined behaviour in the driver.
pub open spec fn teardown_order(validation: bool) -> Seq<DeviceObject> {
    if validation {
        seq![
            DeviceObject::CommandPool,
            DeviceObject::LogicalDevice,
            DeviceObject::Surface,
            DeviceObject::DebugMessenger,
            DeviceObject::Instance,
        ]
    } else {
        seq![
            DeviceObject::CommandPool,
            DeviceObject::LogicalDevice,
            DeviceObject::Surface,
            DeviceObject::Instance,
        ]
    }
}

/// The adapter in use, as far as the engine's rules read it.
#[derive(Debug)]
pub struct Device {
    graphics_family: u32,
    present_family: u32,
    memory_types: Vec<MemoryType>,
    validation: bool,
}

/// The state of a `Device`.
pub struct DeviceView {
    pub graphics_family: u32,
    pub present_family: u32,
    pub memory_types: Seq<MemoryType>,
    pub validation: bool,
}

impl View for Device {
    type V = DeviceView;

    closed spec fn view(&self) -> DeviceView {
        DeviceView {
            graphics_family: self.graphics_family,
            present_family: self.present_family,
            memory_types: self.memory_types@,
            validation: self.validation,
        }
    }
}

impl Device {
    /// The device on the adapter whose queue families were chosen as
    /// `indices` and whose memory types are `memory_types`. Refused where a
    /// family is missing; the graphics family is asked for first.
    pub fn new(indices: &QueryFamilyIndices, memory_types: Vec<MemoryType>, validation: bool) -> (device:
        Result<Device, DeviceError>)
        ensures
            match device {
                Ok(device) => {
                    &&& indices.graphics_family matches Some(graphics)
                    &&& indices.present_family matches Some(present)
                    &&& device@ == (DeviceView {
                        graphics_family: graphics,
                        present_family: present,
                        memory_types: memory_types@,
                        validation,
                    })
                },
                Err(error) => if indices.graphics_family is None {
                    error == DeviceError::GraphicsFamilyMissing
                } else {
                    indices.present_family is None && error == DeviceError::PresentFamilyMissing
                },
            },
    {
        let graphics_family = match indices.graphics_family {
            Some(graphics) => graphics,
            None => {
                return Err(DeviceError::GraphicsFamilyMissing);
            },
        };
        let present_family = match indices.present_family {
            Some(present) => present,
            None => {
                return Err(DeviceError::PresentFamilyMissing);
            },
        };
        Ok(Device { graphics_family, present_family, memory_types, validation })
    }

    /// The queue families of the adapter in use.
    pub fn find_physical_queue_families(&self) -> (indices: QueryFamilyIndices)
        ensures
            indices.graphics_family == Some(self@.graphics_family),
            indices.present_family == Some(self@.present_family),
    {
        QueryFamilyIndices {
            graphics_family: Some(self.graphics_family),
            present_family: Some(self.present_family),
        }
    }

    /// Whether the device was set up with validation.
    pub fn validation(&self) -> (validation: bool)
        ensures
            validation == self@.validation,
    {
        self.validation
    }

    /// The first memory type that the filter allows and that has every one
    /// of `properties`.
    pub fn find_memory_type(&self, type_filter: u32, properties: u32) -> (found: Result<
        u32,
        DeviceError,
    >)
        ensures
            match found {
                Ok(index) => {
                    &&& memory_type_fits(self@.memory_types, index as int, type_filter, properties)
                    &&& forall|earlier: int|
                        0 <= earlier < index ==> !memory_type_fits(
                            self@.memory_types,
                            earlier,
                            type_filter,
                            properties,
                        )
                },
                Err(error) => {
                    &&& error == DeviceError::NoSuitableMemory
                    &&& forall|index: int|
                        !memory_type_fits(self@.memory_types, index, type_filter, properties)
                },
            },
    {
        let mut index: u32 = 0;
        while index < 32 && (index as usize) < self.memory_types.len()
            invariant
                index <= 32,
                index <= self.memory_types.len(),
                forall|earlier: int|
                    0 <= earlier < index ==> !memory_type_fits(
                        self@.memory_types,
                        earlier,
                        type_filter,
                        properties,
                    ),
            decreases 32 - index,
        {
            if type_filter & (1u32 << index) != 0 && self.memory_types[index as usize].property_flags
                & properties == properties {
                return Ok(index);
            }
            index += 1;
        }
        Err(DeviceError::NoSuitableMemory)
    }

    /// The first candidate that has every one of `features` under `tiling`.
    pub fn find_supported_format(
        candidates: &Vec<FormatCandidate>,
        tiling: ImageTiling,
        features: u32,
    ) -> (found: Result<Format, DeviceError>)
        ensures
            match found {
                Ok(format) => exists|index: int|
                    {
                        &&& 0 <= index < candidates.len()
                        &&& format == (#[trigger] candidates[index]).format
                        &&& candidates[index].supports(tiling, features)
                        &&& forall|earlier: int|
                            0 <= earlier < index ==> !(#[trigger] candidates[earlier]).supports(
                                tiling,
                                features,
                            )
                    },
                Err(error) => {
                    &&& error == DeviceError::NoSupportedFormat
                    &&& forall|index: int|
                        0 <= index < candidates.len() ==> !(#[trigger] candidates[index]).supports(
                            tiling,
                            features,
                        )
                },
            },
    {
        let mut index: usize = 0;
        while index < candidates.len()
            invariant
                index <= candidates.len(),
                forall|earlier: int|
                    0 <= earlier < index ==> !(#[trigger] candidates[earlier]).supports(
                        tiling,
                        features,
                    ),
            decreases candidates.len() - index,
        {
            let candidate = candidates[index];
            let supported = match tiling {
                ImageTiling::Linear => candidate.linear_tiling_features & features == features,
                ImageTiling::Optimal => candidate.optimal_tiling_features & features == features,
                ImageTiling::DrmFormatModifier => false,
            };
            if supported {
                assert(candidates[index as int].supports(tiling, features));
                return Ok(candidate.format);
            }
            index += 1;
        }
        Err(DeviceError::NoSupportedFormat)
    }

    /// The depth formats to ask the adapter about, best first.
    pub fn depth_format_candidates() -> (formats: Vec<Format>)
        ensures
            formats@ == depth_formats(),
    {
        let mut formats: Vec<Format> = Vec::new();
        formats.push(Format { raw: FORMAT_D32_SFLOAT });
        formats.push(Format { raw: FORMAT_D32_SFLOAT_S8_UINT });
        formats.push(Format { raw: FORMAT_D24_UNORM_S8_UINT });
        assert(formats@ =~= depth_formats());
        formats
    }

    /// The depth format to use: the first of the candidates that can be a
    /// depth-stencil attachment under optimal tiling.
    pub fn find_depth_format(candidates: &Vec<FormatCandidate>) -> (found: Result<
        Format,
        DeviceError,
    >)
        ensures
            match found {
                Ok(format) => exists|index: int|
                    {
                        &&& 0 <= index < candidates.len()
                        &&& format == (#[trigger] candidates[index]).format
                        &&& candidates[index].supports(
                            ImageTiling::Optimal,
                            FORMAT_FEATURE_DEPTH_STENCIL_ATTACHMENT,
                        )
                        &&& forall|earlier: int|
                            0 <= earlier < index ==> !(#[trigger] candidates[earlier]).supports(
                                ImageTiling::Optimal,
                                FORMAT_FEATURE_DEPTH_STENCIL_ATTACHMENT,
                            )
                    },
                Err(error) => {
                    &&& error == DeviceError::NoSupportedFormat
                    &&& forall|index: int|
                        0 <= index < candidates.len() ==> !(#[trigger] candidates[index]).supports(
                            ImageTiling::Optimal,
                            FORMAT_FEATURE_DEPTH_STENCIL_ATTACHMENT,
                        )
                },
            },
    {
        Self::find_supported_format(
            candidates,
            ImageTiling::Optimal,
            FORMAT_FEATURE_DEPTH_STENCIL_ATTACHMENT,
        )
    }

    /// The device extensions the engine cannot do without.
    pub fn device_extensions() -> (extensions: Vec<String>)
        ensures
            names(extensions@) == seq![swapchain_extension()],
    {
        let mut extensions: Vec<String> = Vec::new();
        extensions.push(swapchain_extension_name());
        assert(names(extensions@) =~= seq![swapchain_extension()]);
        extensions
    }

    /// The validation layers asked for where validation is on.
    pub fn validation_layers() -> (layers: Vec<String>)
        ensures
            names(layers@) == seq![validation_layer()],
    {
        let mut layers: Vec<String> = Vec::new();
        layers.push("VK_LAYER_KHRONOS_validation".to_owned());
        assert(names(layers@) =~= seq![validation_layer()]);
        layers
    }

    /// Whether the extensions an adapter offers include those the engine
    /// cannot do without.
    pub fn check_device_extension_support(offered: &Vec<String>) -> (supported: bool)
        ensures
            supported == requirement_met(seq![swapchain_extension()], names(offered@)),
    {
        let required = Self::device_extensions();
        supports_all(&required, offered)
    }

    /// Whether the layers installed include the validation layers.
    pub fn check_validation_layer_support(installed: &Vec<String>) -> (supported: bool)
        ensures
            supported == requirement_met(seq![validation_layer()], names(installed@)),
    {
        let required = Self::validation_layers();
        supports_all(&required, installed)
    }

    /// The instance extensions to enable.
    pub fn get_required_extensions(window_extensions: &Vec<String>, validation: bool) -> (extensions:
        Vec<String>)
        ensures
            names(extensions@) == required_instance_extensions(
                names(window_extensions@),
                validation,
            ),
    {
        let mut extensions: Vec<String> = Vec::new();
        let mut index: usize = 0;
        while index < window_extensions.len()
            invariant
                index <= window_extensions.len(),
                extensions.len() == index,
                forall|i: int| 0 <= i < index ==> (#[trigger] extensions[i])@ == window_extensions[i]@,
            decreases window_extensions.len() - index,
        {
            extensions.push(window_extensions[index].clone());
            index += 1;
        }
        assert(names(extensions@) =~= names(window_extensions@));
        if validation {
            extensions.push(debug_utils_extension_name());
            assert(names(extensions@) =~= names(window_extensions@).push(debug_utils_extension()));
        }
        extensions
    }

    /// Holds the extensions to enable against those the loader offers.
    pub fn has_required_instance_extensions(required: &Vec<String>, offered: &Vec<String>) -> (checked:
        Result<(), DeviceError>)
        ensures
            requirement_met(names(required@), names(offered@)) ==> checked is Ok,
            !requirement_met(names(required@), names(offered@)) ==> checked == Err::<(), _>(
                DeviceError::MissingExtension,
            ),
    {
        if supports_all(required, offered) {
            Ok(())
        } else {
            Err(DeviceError::MissingExtension)
        }
    }

    /// Works out what to ask of the driver for the instance. Refused where
    /// validation is on and its layer is not installed, and where the loader
    /// does not offer what has to be enabled.
    pub fn create_instance(
        validation: bool,
        installed_layers: &Vec<String>,
        window_extensions: &Vec<String>,
        offered_extensions: &Vec<String>,
    ) -> (request: Result<InstanceCreateInfo, DeviceError>)
        ensures
            match request {
                Ok(info) => {
                    &&& validation ==> requirement_met(
                        seq![validation_layer()],
                        names(installed_layers@),
                    )
                    &&& names(info.extensions@) == required_instance_extensions(
                        names(window_extensions@),
                        validation,
                    )
                    &&& requirement_met(names(info.extensions@), names(offered_extensions@))
                    &&& names(info.layers@) == if validation {
                        seq![validation_layer()]
                    } else {
                        seq![]
                    }
                    &&& info.debug_messenger == validation
                },
                Err(error) => if validation && !requirement_met(
                    seq![validation_layer()],
                    names(installed_layers@),
                ) {
                    error == DeviceError::ValidationLayersUnavailable
                } else {
                    &&& error == DeviceError::MissingExtension
                    &&& !requirement_met(
                        required_instance_extensions(names(window_extensions@), validation),
                        names(offered_extensions@),
                    )
                },
            },
    {
        if validation && !Self::check_validation_layer_support(installed_layers) {
            return Err(DeviceError::ValidationLayersUnavailable);
        }
        let extensions = Self::get_required_extensions(window_extensions, validation);
        match Self::has_required_instance_extensions(&extensions, offered_extensions) {
            Ok(()) => {},
            Err(error) => {
                return Err(error);
            },
        }
        let layers = if validation {
            Self::validation_layers()
        } else {
            let none: Vec<String> = Vec::new();
            assert(names(none@) =~= seq![]);
            none
        };
        Ok(InstanceCreateInfo { extensions, layers, debug_messenger: validation })
    }

    /// Whether an adapter can carry the engine.
    pub fn is_device_suitable(info: &PhysicalDeviceInfo) -> (suitable: bool)
        requires
            info.queue_families.len() <= u32::MAX,
        ensures
            suitable == info.suitable(),
    {
        let indices = QueryFamilyIndices::find_queue_families(&info.queue_families);
        let extensions_supported = Self::check_device_extension_support(&info.extensions);
        let swap_chain_adequate = if extensions_supported {
            info.support.is_adequate()
        } else {
            false
        };
        indices.is_complete() && extensions_supported && swap_chain_adequate
    }

    /// The first adapter that can carry the engine, by its place in the
    /// list.
    pub fn pick_physical_device(adapters: &Vec<PhysicalDeviceInfo>) -> (picked: Result<
        usize,
        DeviceError,
    >)
        requires
            forall|i: int|
                0 <= i < adapters.len() ==> (#[trigger] adapters[i]).queue_families.len()
                    <= u32::MAX,
        ensures
            match picked {
                Ok(index) => {
                    &&& index < adapters.len()
                    &&& adapters[index as int].suitable()
                    &&& forall|earlier: int|
                        0 <= earlier < index ==> !(#[trigger] adapters[earlier]).suitable()
                },
                Err(error) => {
                    &&& error == DeviceError::DeviceUnavailable
                    &&& forall|index: int|
                        0 <= index < adapters.len() ==> !(#[trigger] adapters[index]).suitable()
                },
            },
    {
        let mut index: usize = 0;
        while index < adapters.len()
            invariant
                index <= adapters.len(),
                forall|i: int|
                    0 <= i < adapters.len() ==> (#[trigger] adapters[i]).queue_families.len()
                        <= u32::MAX,
                forall|earlier: int|
                    0 <= earlier < index ==> !(#[trigger] adapters[earlier]).suitable(),
            decreases adapters.len() - index,
        {
            if Self::is_device_suitable(&adapters[index]) {
                return Ok(index);
            }
            index += 1;
        }
        Err(DeviceError::DeviceUnavailable)
    }

    /// Works out what to ask of the driver for the logical device: a queue
    /// from each chosen family, once, and the swapchain extension.
    pub fn create_device(indices: &QueryFamilyIndices) -> (request: Result<
        DeviceCreateInfo,
        DeviceError,
    >)
        ensures
            match request {
                Ok(info) => {
                    &&& indices.graphics_family matches Some(graphics)
                    &&& indices.present_family matches Some(present)
                    &&& info.graphics_family == graphics
                    &&& info.present_family == present
                    &&& info.queue_families@ == if graphics == present {
                        seq![graphics]
                    } else {
                        seq![graphics, present]
                    }
                    &&& names(info.extensions@) == seq![swapchain_extension()]
                },
                Err(error) => if indices.graphics_family is None {
                    error == DeviceError::GraphicsFamilyMissing
                } else {
                    indices.present_family is None && error == DeviceError::PresentFamilyMissing
                },
            },
    {
        let graphics = match indices.graphics_family {
            Some(graphics) => graphics,
            None => {
                return Err(DeviceError::GraphicsFamilyMissing);
            },
        };
        let present = match indices.present_family {
            Some(present) => present,
            None => {
                return Err(DeviceError::PresentFamilyMissing);
            },
        };
        let mut queue_families: Vec<u32> = Vec::new();
        queue_families.push(graphics);
        if present != graphics {
            queue_families.push(present);
        }
        Ok(
            DeviceCreateInfo {
                queue_families,
                extensions: Self::device_extensions(),
                graphics_family: graphics,
                present_family: present,
            },
        )
    }

    /// Works out what to ask of the driver for the command pool.
    pub fn create_command_pool(indices: &QueryFamilyIndices) -> (request: Result<
        CommandPoolCreateInfo,
        DeviceError,
    >)
        ensures
            match request {
                Ok(info) => {
                    &&& indices.graphics_family matches Some(graphics)
                    &&& info == (CommandPoolCreateInfo {
                        queue_family_index: graphics,
                        transient: true,
                        reset_command_buffer: true,
                    })
                },
                Err(error) => indices.graphics_family is None && error
                    == DeviceError::GraphicsFamilyMissing,
            },
    {
        match indices.graphics_family {
            Some(graphics) => Ok(
                CommandPoolCreateInfo {
                    queue_family_index: graphics,
                    transient: true,
                    reset_command_buffer: true,
                },
            ),
            None => Err(DeviceError::GraphicsFamilyMissing),
        }
    }

    /// What to ask of the driver for the command buffer of a one-off
    /// transfer.
    pub fn begin_single_time_commands() -> (request: SingleTimeCommands)
        ensures
            request == (SingleTimeCommands { primary: true, count: 1, one_time_submit: true }),
    {
        SingleTimeCommands { primary: true, count: 1, one_time_submit: true }
    }

    /// The steps that end a one-off transfer. They stall the CPU until the
    /// GPU is done, which is what callers outside the per-frame path want.
    pub fn end_single_time_commands() -> (steps: Vec<TransferStep>)
        ensures
            steps@ == transfer_steps(),
    {
        let mut steps: Vec<TransferStep> = Vec::new();
        steps.push(TransferStep::EndRecording);
        steps.push(TransferStep::Submit);
        steps.push(TransferStep::WaitQueueIdle);
        steps.push(TransferStep::FreeCommandBuffer);
        assert(steps@ =~= transfer_steps());
        steps
    }

    /// Gives up the device and lists its objects in the order in which they
    /// have to be released: command pool, logical device, surface, the debug
    /// messenger where there is one, instance.
    pub fn destroy(self) -> (order: Vec<DeviceObject>)
        ensures
            order@ == teardown_order(self@.validation),
    {
        let mut order: Vec<DeviceObject> = Vec::new();
        order.push(DeviceObject::CommandPool);
        order.push(DeviceObject::LogicalDevice);
        order.push(DeviceObject::Surface);
        if self.validation {
            order.push(DeviceObject::DebugMessenger);
        }
        order.push(DeviceObject::Instance);
        assert(order@ =~= teardown_order(self@.validation));
        order
    }
}

} // verus!
