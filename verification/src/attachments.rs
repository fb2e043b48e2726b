//! What the driver is asked to create around the images of a swapchain:
//! views, depth and storage attachments, the render pass, framebuffers and
//! the barriers that move images between layouts.

use crate::swap_chain::{SwapChain, SwapChainView};
use crate::vulkan::{
    Access, Extent2D, Format, Handle, ImageAspect, ImageLayout, ImageTiling, PipelineStage,
    SharingMode, FORMAT_R8G8B8A8_UNORM, IMAGE_USAGE_DEPTH_STENCIL_ATTACHMENT, IMAGE_USAGE_SAMPLED,
    IMAGE_USAGE_STORAGE, MEMORY_PROPERTY_DEVICE_LOCAL,
};
use vstd::prelude::*;

verus! {

/// A two-dimensional view of the first mip level and array layer of an
/// image.
#[derive(Clone, Copy, PartialEq, Eq, Debug, Structural)]
pub struct ImageViewCreateInfo {
    pub image: Handle,
    pub format: Format,
    pub aspect: ImageAspect,
}

/// A two-dimensional, single-sampled image with one mip level and one array
/// layer, together with the properties its memory must have.
#[derive(Clone, Copy, PartialEq, Eq, Debug, Structural)]
pub struct ImageCreateInfo {
    pub extent: Extent2D,
    pub depth: u32,
    pub format: Format,
    pub tiling: ImageTiling,
    pub initial_layout: ImageLayout,
    pub usage: u32,
    pub sharing_mode: SharingMode,
    pub memory_properties: u32,
}

/// A barrier that moves the colour aspect of an image from one layout to
/// another without handing it to another queue family.
#[derive(Clone, Copy, PartialEq, Eq, Debug, Structural)]
pub struct ImageBarrier {
    pub image: Handle,
    pub old_layout: ImageLayout,
    pub new_layout: ImageLayout,
    pub src_access: Access,
    pub dst_access: Access,
    pub src_stage: PipelineStage,
    pub dst_stage: PipelineStage,
}

/// How a texel lookup picks among neighbouring texels or mip levels.
#[derive(Clone, Copy, PartialEq, Eq, Debug, Structural)]
pub enum Filter {
    Nearest,
    Linear,
}

/// A sampler that repeats the image in every direction, without
/// anisotropy, comparison or unnormalised coordinates.
#[derive(Clone, Copy, PartialEq, Eq, Debug, Structural)]
pub struct SamplerCreateInfo {
    pub min_filter: Filter,
    pub mag_filter: Filter,
    pub mipmap_mode: Filter,
}

/// An image view as a shader sees it through a descriptor.
#[derive(Clone, Copy, PartialEq, Eq, Debug, Structural)]
pub struct DescriptorImageInfo {
    pub sampler: Handle,
    pub image_view: Handle,
    pub image_layout: ImageLayout,
}

/// What happens to an attachment's contents when a render pass begins.
#[derive(Clone, Copy, PartialEq, Eq, Debug, Structural)]
pub enum AttachmentLoadOp {
    Load,
    Clear,
    DontCare,
}

/// What happens to an attachment's contents when a render pass ends.
#[derive(Clone, Copy, PartialEq, Eq, Debug, Structural)]
pub enum AttachmentStoreOp {
    Store,
    DontCare,
}

/// One single-sampled attachment of a render pass. Its stencil contents are
/// of no concern.
#[derive(Clone, Copy, PartialEq, Eq, Debug, Structural)]
pub struct AttachmentDescription {
    pub format: Format,
    pub load_op: AttachmentLoadOp,
    pub store_op: AttachmentStoreOp,
    pub initial_layout: ImageLayout,
    pub final_layout: ImageLayout,
}

/// A render pass of one graphics subpass that draws to attachment 0 as
/// colour and attachment 1 as depth, and that waits for whatever came
/// before it from outside.
#[derive(Clone, Copy, PartialEq, Eq, Debug, Structural)]
pub struct RenderPassCreateInfo {
    pub color: AttachmentDescription,
    pub depth: AttachmentDescription,
    pub color_layout: ImageLayout,
    pub depth_layout: ImageLayout,
    pub src_stage: PipelineStage,
    pub src_access: Access,
    pub dst_stage: PipelineStage,
    pub dst_access: Access,
}

/// A framebuffer of one layer that binds a colour view and a depth view to a
/// render pass.
#[derive(Clone, Copy, PartialEq, Eq, Debug, Structural)]
pub struct FramebufferCreateInfo {
    pub render_pass: Handle,
    pub color_view: Handle,
    pub depth_view: Handle,
    pub extent: Extent2D,
}

/// The sync objects to create for a swapchain.
#[derive(Clone, Copy, PartialEq, Eq, Debug, Structural)]
pub struct SyncObjectsCreateInfo {
    /// How many triples of two semaphores and a fence.
    pub frames: usize,
    /// Whether the fences start out signalled, so that the first wait for
    /// each returns at once.
    pub fences_signaled: bool,
}

/// The accesses and stages on the two sides of a layout transition.
pub open spec fn transition_scopes(old_layout: ImageLayout, new_layout: ImageLayout) -> (
    Access,
    Access,
    PipelineStage,
    PipelineStage,
) {
    if old_layout == ImageLayout::Undefined && new_layout == ImageLayout::TransferDstOptimal {
        (Access::Nothing, Access::TransferWrite, PipelineStage::TopOfPipe, PipelineStage::Transfer)
    } else if old_layout == ImageLayout::Undefined && new_layout == ImageLayout::General {
        (
            Access::Nothing,
            Access::MemoryWrite,
            PipelineStage::TopOfPipe,
            PipelineStage::ComputeShader,
        )
    } else {
        (
            Access::TransferWrite,
            Access::ShaderRead,
            PipelineStage::Transfer,
            PipelineStage::FragmentShader,
        )
    }
}

/// The barrier that moves `image` from `old_layout` to `new_layout`.
pub open spec fn transition_of(
    image: Handle,
    old_layout: ImageLayout,
    new_layout: ImageLayout,
) -> ImageBarrier {
    ImageBarrier {
        image,
        old_layout,
        new_layout,
        src_access: transition_scopes(old_layout, new_layout).0,
        dst_access: transition_scopes(old_layout, new_layout).1,
        src_stage: transition_scopes(old_layout, new_layout).2,
        dst_stage: transition_scopes(old_layout, new_layout).3,
    }
}

/// The image of an attachment as large as the swapchain's images, in
/// device-local memory.
pub open spec fn attachment_image(extent: Extent2D, format: Format, usage: u32) -> ImageCreateInfo {
    ImageCreateInfo {
        extent,
        depth: 1,
        format,
        tiling: ImageTiling::Optimal,
        initial_layout: ImageLayout::Undefined,
        usage,
        sharing_mode: SharingMode::Exclusive,
        memory_properties: MEMORY_PROPERTY_DEVICE_LOCAL,
    }
}

/// The descriptor through which a compute shader writes storage image `i`:
/// the view in the general layout, without a sampler. Where a view or a
/// sampler is missing, the descriptor names neither.
pub open spec fn write_descriptor(views: Seq<Handle>, samplers: Seq<Handle>, i: int)
    -> DescriptorImageInfo {
    DescriptorImageInfo {
        sampler: Handle { raw: 0 },
        image_view: if i < views.len() && i < samplers.len() {
            views[i]
        } else {
            Handle { raw: 0 }
        },
        image_layout: ImageLayout::General,
    }
}

/// The descriptor through which a fragment shader reads storage image `i`:
/// the view in the general layout, with the image's sampler. Where a view or
/// a sampler is missing, the descriptor names neither.
pub open spec fn read_descriptor(views: Seq<Handle>, samplers: Seq<Handle>, i: int)
    -> DescriptorImageInfo {
    DescriptorImageInfo {
        sampler: if i < views.len() && i < samplers.len() {
            samplers[i]
        } else {
            Handle { raw: 0 }
        },
        image_view: if i < views.len() && i < samplers.len() {
            views[i]
        } else {
            Handle { raw: 0 }
        },
        image_layout: ImageLayout::General,
    }
}

/// The render pass for the given colour and depth formats. The colour
/// attachment arrives laid out for drawing with contents that are kept, and
/// leaves laid out for presentation; the depth attachment is cleared at the
/// start and dropped at the end.
pub open spec fn render_pass_for(color_format: Format, depth_format: Format)
    -> RenderPassCreateInfo {
    RenderPassCreateInfo {
        color: AttachmentDescription {
            format: color_format,
            load_op: AttachmentLoadOp::Load,
            store_op: AttachmentStoreOp::Store,
            initial_layout: ImageLayout::ColorAttachmentOptimal,
            final_layout: ImageLayout::PresentSrc,
        },
        depth: AttachmentDescription {
            format: depth_format,
            load_op: AttachmentLoadOp::Clear,
            store_op: AttachmentStoreOp::DontCare,
            initial_layout: ImageLayout::Undefined,
            final_layout: ImageLayout::DepthStencilAttachmentOptimal,
        },
        color_layout: ImageLayout::ColorAttachmentOptimal,
        depth_layout: ImageLayout::DepthStencilAttachmentOptimal,
        src_stage: PipelineStage::ColorOutputAndEarlyFragmentTests,
        src_access: Access::Nothing,
        dst_stage: PipelineStage::ColorOutputAndEarlyFragmentTests,
        dst_access: Access::ColorAndDepthStencilAttachmentWrite,
    }
}

impl SwapChain {
    /// The colour views to create, one per image and in image order.
    pub fn create_image_views(images: &Vec<Handle>, format: Format) -> (views: Vec<
        ImageViewCreateInfo,
    >)
        ensures
            views.len() == images.len(),
            forall|i: int|
                0 <= i < images.len() ==> #[trigger] views[i] == (ImageViewCreateInfo {
                    image: images[i],
                    format,
                    aspect: ImageAspect::Color,
                }),
    {
        let mut views: Vec<ImageViewCreateInfo> = Vec::new();
        let mut index: usize = 0;
        while index < images.len()
            invariant
                index <= images.len(),
                views.len() == index,
                forall|i: int|
                    0 <= i < index ==> #[trigger] views[i] == (ImageViewCreateInfo {
                        image: images[i],
                        format,
                        aspect: ImageAspect::Color,
                    }),
            decreases images.len() - index,
        {
            views.push(ImageViewCreateInfo { image: images[index], format, aspect: ImageAspect::Color });
            index += 1;
        }
        views
    }

    /// The image to create for each attachment of the given format and
    /// usage. One is made per image of the swapchain.
    pub fn create_resources(extent: &Extent2D, format: Format, usage: u32) -> (image:
        ImageCreateInfo)
        ensures
            image == attachment_image(*extent, format, usage),
    {
        ImageCreateInfo {
            extent: *extent,
            depth: 1,
            format,
            tiling: ImageTiling::Optimal,
            initial_layout: ImageLayout::Undefined,
            usage,
            sharing_mode: SharingMode::Exclusive,
            memory_properties: MEMORY_PROPERTY_DEVICE_LOCAL,
        }
    }

    /// The view to create of an attachment's image.
    pub fn create_resource_view(image: Handle, format: Format, aspect: ImageAspect) -> (view:
        ImageViewCreateInfo)
        ensures
            view == (ImageViewCreateInfo { image, format, aspect }),
    {
        ImageViewCreateInfo { image, format, aspect }
    }

    /// The barriers that move each of `images` from `old_layout` to
    /// `new_layout`, in order. Each is recorded into a command buffer of its
    /// own, which is submitted and waited for before the next.
    pub fn transition_image_layout(
        images: &Vec<Handle>,
        old_layout: ImageLayout,
        new_layout: ImageLayout,
    ) -> (barriers: Vec<ImageBarrier>)
        ensures
            barriers.len() == images.len(),
            forall|i: int|
                0 <= i < images.len() ==> #[trigger] barriers[i] == transition_of(
                    images[i],
                    old_layout,
                    new_layout,
                ),
    {
        let (src_access, dst_access, src_stage, dst_stage) = match (old_layout, new_layout) {
            (ImageLayout::Undefined, ImageLayout::TransferDstOptimal) => (
                Access::Nothing,
                Access::TransferWrite,
                PipelineStage::TopOfPipe,
                PipelineStage::Transfer,
            ),
            (ImageLayout::Undefined, ImageLayout::General) => (
                Access::Nothing,
                Access::MemoryWrite,
                PipelineStage::TopOfPipe,
                PipelineStage::ComputeShader,
            ),
            _ => (
                Access::TransferWrite,
                Access::ShaderRead,
                PipelineStage::Transfer,
                PipelineStage::FragmentShader,
            ),
        };
        let mut barriers: Vec<ImageBarrier> = Vec::new();
        let mut index: usize = 0;
        while index < images.len()
            invariant
                index <= images.len(),
                barriers.len() == index,
                (src_access, dst_access, src_stage, dst_stage) == transition_scopes(
                    old_layout,
                    new_layout,
                ),
                forall|i: int|
                    0 <= i < index ==> #[trigger] barriers[i] == transition_of(
                        images[i],
                        old_layout,
                        new_layout,
                    ),
            decreases images.len() - index,
        {
            barriers.push(
                ImageBarrier {
                    image: images[index],
                    old_layout,
                    new_layout,
                    src_access,
                    dst_access,
                    src_stage,
                    dst_stage,
                },
            );
            index += 1;
        }
        barriers
    }

    /// The depth attachment to create for each image, in the depth format
    /// that the device was found to support.
    pub fn create_depth_resources(extent: &Extent2D, depth_format: Format) -> (image:
        ImageCreateInfo)
        ensures
            image == attachment_image(*extent, depth_format, IMAGE_USAGE_DEPTH_STENCIL_ATTACHMENT),
    {
        Self::create_resources(extent, depth_format, IMAGE_USAGE_DEPTH_STENCIL_ATTACHMENT)
    }

    /// The storage attachment to create for each image, and the sampler to
    /// create beside it. The images are written by compute shaders and
    /// sampled by fragment shaders; they are 8-bit RGBA, and each is moved
    /// from the undefined to the general layout once it exists.
    pub fn create_storage_resources(extent: &Extent2D) -> (plan: (ImageCreateInfo, SamplerCreateInfo))
        ensures
            plan.0 == attachment_image(
                *extent,
                Format { raw: FORMAT_R8G8B8A8_UNORM },
                IMAGE_USAGE_STORAGE | IMAGE_USAGE_SAMPLED,
            ),
            plan.1 == (SamplerCreateInfo {
                min_filter: Filter::Nearest,
                mag_filter: Filter::Linear,
                mipmap_mode: Filter::Linear,
            }),
    {
        let image = Self::create_resources(
            extent,
            Format { raw: FORMAT_R8G8B8A8_UNORM },
            IMAGE_USAGE_STORAGE | IMAGE_USAGE_SAMPLED,
        );
        let sampler = SamplerCreateInfo {
            min_filter: Filter::Nearest,
            mag_filter: Filter::Linear,
            mipmap_mode: Filter::Linear,
        };
        (image, sampler)
    }

    /// The descriptors of the storage attachments, one pair per image: the
    /// first of each pair for writing, the second for reading through the
    /// image's sampler. Views and samplers are paired off in order as far as
    /// both reach.
    pub fn storage_descriptors(image_count: usize, views: &Vec<Handle>, samplers: &Vec<Handle>) -> (
        descriptors: (Vec<DescriptorImageInfo>, Vec<DescriptorImageInfo>))
        ensures
            descriptors.0.len() == image_count,
            descriptors.1.len() == image_count,
            forall|i: int|
                0 <= i < image_count ==> #[trigger] descriptors.0[i] == write_descriptor(
                    views@,
                    samplers@,
                    i,
                ),
            forall|i: int|
                0 <= i < image_count ==> #[trigger] descriptors.1[i] == read_descriptor(
                    views@,
                    samplers@,
                    i,
                ),
    {
        let mut write: Vec<DescriptorImageInfo> = Vec::new();
        let mut read: Vec<DescriptorImageInfo> = Vec::new();
        let mut index: usize = 0;
        while index < image_count
            invariant
                index <= image_count,
                write.len() == index,
                read.len() == index,
                forall|i: int|
                    0 <= i < index ==> #[trigger] write[i] == write_descriptor(views@, samplers@, i),
                forall|i: int|
                    0 <= i < index ==> #[trigger] read[i] == read_descriptor(views@, samplers@, i),
            decreases image_count - index,
        {
            let paired = index < views.len() && index < samplers.len();
            let view = if paired {
                views[index]
            } else {
                Handle::null()
            };
            let sampler = if paired {
                samplers[index]
            } else {
                Handle::null()
            };
            write.push(
                DescriptorImageInfo {
                    sampler: Handle::null(),
                    image_view: view,
                    image_layout: ImageLayout::General,
                },
            );
            read.push(
                DescriptorImageInfo { sampler, image_view: view, image_layout: ImageLayout::General },
            );
            index += 1;
        }
        (write, read)
    }

    /// The render pass to create for a swapchain of the given colour format
    /// with depth attachments of the given format.
    pub fn create_render_pass(color_format: Format, depth_format: Format) -> (render_pass:
        RenderPassCreateInfo)
        ensures
            render_pass == render_pass_for(color_format, depth_format),
    {
        RenderPassCreateInfo {
            color: AttachmentDescription {
                format: color_format,
                load_op: AttachmentLoadOp::Load,
                store_op: AttachmentStoreOp::Store,
                initial_layout: ImageLayout::ColorAttachmentOptimal,
                final_layout: ImageLayout::PresentSrc,
            },
            depth: AttachmentDescription {
                format: depth_format,
                load_op: AttachmentLoadOp::Clear,
                store_op: AttachmentStoreOp::DontCare,
                initial_layout: ImageLayout::Undefined,
                final_layout: ImageLayout::DepthStencilAttachmentOptimal,
            },
            color_layout: ImageLayout::ColorAttachmentOptimal,
            depth_layout: ImageLayout::DepthStencilAttachmentOptimal,
            src_stage: PipelineStage::ColorOutputAndEarlyFragmentTests,
            src_access: Access::Nothing,
            dst_stage: PipelineStage::ColorOutputAndEarlyFragmentTests,
            dst_access: Access::ColorAndDepthStencilAttachmentWrite,
        }
    }

    /// The framebuffers to create, one per image and in image order: each
    /// binds the image's colour view and depth view to the render pass at
    /// the swapchain's extent.
    pub fn create_framebuffers(
        extent: &Extent2D,
        image_views: &Vec<Handle>,
        depth_image_views: &Vec<Handle>,
        render_pass: Handle,
    ) -> (framebuffers: Vec<FramebufferCreateInfo>)
        requires
            image_views.len() <= depth_image_views.len(),
        ensures
            framebuffers.len() == image_views.len(),
            forall|i: int|
                0 <= i < image_views.len() ==> #[trigger] framebuffers[i] == (
                FramebufferCreateInfo {
                    render_pass,
                    color_view: image_views[i],
                    depth_view: depth_image_views[i],
                    extent: *extent,
                }),
    {
        let mut framebuffers: Vec<FramebufferCreateInfo> = Vec::new();
        let mut index: usize = 0;
        while index < image_views.len()
            invariant
                index <= image_views.len() <= depth_image_views.len(),
                framebuffers.len() == index,
                forall|i: int|
                    0 <= i < index ==> #[trigger] framebuffers[i] == (FramebufferCreateInfo {
                        render_pass,
                        color_view: image_views[i],
                        depth_view: depth_image_views[i],
                        extent: *extent,
                    }),
            decreases image_views.len() - index,
        {
            framebuffers.push(
                FramebufferCreateInfo {
                    render_pass,
                    color_view: image_views[index],
                    depth_view: depth_image_views[index],
                    extent: *extent,
                },
            );
            index += 1;
        }
        framebuffers
    }

    /// The sync objects to create: one triple per frame in flight, each
    /// fence signalled from the start.
    pub fn create_sync_objects() -> (sync: SyncObjectsCreateInfo)
        ensures
            sync == (SyncObjectsCreateInfo {
                frames: Self::MAX_FRAMES_IN_FLIGHT,
                fences_signaled: true,
            }),
    {
        SyncObjectsCreateInfo { frames: Self::MAX_FRAMES_IN_FLIGHT, fences_signaled: true }
    }

    /// The barrier that readies image `frame_index` for being written by a
    /// compute shader, whatever it held before.
    pub fn prepare_to_trace_barrier(&self, frame_index: usize) -> (barrier: ImageBarrier)
        requires
            frame_index < self@.images.len(),
        ensures
            barrier == SwapChainView::trace_barrier(self@.images[frame_index as int].image),
    {
        ImageBarrier {
            image: self.image(frame_index).image,
            old_layout: ImageLayout::Undefined,
            new_layout: ImageLayout::General,
            src_access: Access::Nothing,
            dst_access: Access::MemoryWrite,
            src_stage: PipelineStage::TopOfPipe,
            dst_stage: PipelineStage::ComputeShader,
        }
    }

    /// The barrier that makes what a compute shader wrote to image
    /// `frame_index` visible to fragment shaders and lays the image out for
    /// drawing.
    pub fn enforce_barrier(&self, frame_index: usize) -> (barrier: ImageBarrier)
        requires
            frame_index < self@.images.len(),
        ensures
            barrier == SwapChainView::draw_barrier(self@.images[frame_index as int].image),
    {
        ImageBarrier {
            image: self.image(frame_index).image,
            old_layout: ImageLayout::General,
            new_layout: ImageLayout::ColorAttachmentOptimal,
            src_access: Access::MemoryWrite,
            dst_access: Access::ShaderRead,
            src_stage: PipelineStage::ComputeShader,
            dst_stage: PipelineStage::FragmentShader,
        }
    }
}

impl SwapChainView {
    /// From the undefined to the general layout, ahead of compute writes.
    pub open spec fn trace_barrier(image: Handle) -> ImageBarrier {
        ImageBarrier {
            image,
            old_layout: ImageLayout::Undefined,
            new_layout: ImageLayout::General,
            src_access: Access::Nothing,
            dst_access: Access::MemoryWrite,
            src_stage: PipelineStage::TopOfPipe,
            dst_stage: PipelineStage::ComputeShader,
        }
    }

    /// From the general layout to the one for drawing, between compute
    /// writes and fragment reads.
    pub open spec fn draw_barrier(image: Handle) -> ImageBarrier {
        ImageBarrier {
            image,
            old_layout: ImageLayout::General,
            new_layout: ImageLayout::ColorAttachmentOptimal,
            src_access: Access::MemoryWrite,
            dst_access: Access::ShaderRead,
            src_stage: PipelineStage::ComputeShader,
            dst_stage: PipelineStage::FragmentShader,
        }
    }
}

} // verus!
