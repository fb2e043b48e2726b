//! Plain-value mirrors of the Vulkan data that the engine's rules read.
//!
//! Values that a driver hands in (formats, colour spaces, present modes,
//! status codes, flag words, object handles) keep their raw encoding, so
//! that a value this library has never heard of still passes through
//! unchanged. The named constants are the encodings of the Vulkan headers.

use vstd::prelude::*;

verus! {

/// `VK_FORMAT_UNDEFINED`.
pub const FORMAT_UNDEFINED: i32 = 0;

/// `VK_FORMAT_R8G8B8A8_UNORM`.
pub const FORMAT_R8G8B8A8_UNORM: i32 = 37;

/// `VK_FORMAT_R8G8B8A8_SRGB`.
pub const FORMAT_R8G8B8A8_SRGB: i32 = 43;

/// `VK_FORMAT_B8G8R8A8_SRGB`.
pub const FORMAT_B8G8R8A8_SRGB: i32 = 50;

/// `VK_FORMAT_D32_SFLOAT`.
pub const FORMAT_D32_SFLOAT: i32 = 126;

/// `VK_FORMAT_D24_UNORM_S8_UINT`.
pub const FORMAT_D24_UNORM_S8_UINT: i32 = 129;

/// `VK_FORMAT_D32_SFLOAT_S8_UINT`.
pub const FORMAT_D32_SFLOAT_S8_UINT: i32 = 130;

/// `VK_COLOR_SPACE_SRGB_NONLINEAR_KHR`.
pub const COLOR_SPACE_SRGB_NONLINEAR: i32 = 0;

/// `VK_PRESENT_MODE_MAILBOX_KHR`.
pub const PRESENT_MODE_MAILBOX: i32 = 1;

/// `VK_PRESENT_MODE_FIFO_KHR`.
pub const PRESENT_MODE_FIFO: i32 = 2;

/// `VK_ERROR_OUT_OF_DATE_KHR`.
pub const STATUS_ERROR_OUT_OF_DATE: i32 = -1_000_001_004;

/// `VK_SUBOPTIMAL_KHR`.
pub const STATUS_SUBOPTIMAL: i32 = 1_000_001_003;

/// `VK_QUEUE_GRAPHICS_BIT`.
pub const QUEUE_GRAPHICS: u32 = 0x1;

/// `VK_MEMORY_PROPERTY_DEVICE_LOCAL_BIT`.
pub const MEMORY_PROPERTY_DEVICE_LOCAL: u32 = 0x1;

/// `VK_MEMORY_PROPERTY_HOST_VISIBLE_BIT`.
pub const MEMORY_PROPERTY_HOST_VISIBLE: u32 = 0x2;

/// `VK_MEMORY_PROPERTY_HOST_COHERENT_BIT`.
pub const MEMORY_PROPERTY_HOST_COHERENT: u32 = 0x4;

/// `VK_FORMAT_FEATURE_DEPTH_STENCIL_ATTACHMENT_BIT`.
pub const FORMAT_FEATURE_DEPTH_STENCIL_ATTACHMENT: u32 = 0x200;

/// `VK_IMAGE_USAGE_SAMPLED_BIT`.
pub const IMAGE_USAGE_SAMPLED: u32 = 0x4;

/// `VK_IMAGE_USAGE_STORAGE_BIT`.
pub const IMAGE_USAGE_STORAGE: u32 = 0x8;

/// `VK_IMAGE_USAGE_COLOR_ATTACHMENT_BIT`.
pub const IMAGE_USAGE_COLOR_ATTACHMENT: u32 = 0x10;

/// `VK_IMAGE_USAGE_DEPTH_STENCIL_ATTACHMENT_BIT`.
pub const IMAGE_USAGE_DEPTH_STENCIL_ATTACHMENT: u32 = 0x20;

/// `VK_BUFFER_USAGE_TRANSFER_SRC_BIT`.
pub const BUFFER_USAGE_TRANSFER_SRC: u32 = 0x1;

/// `VK_BUFFER_USAGE_TRANSFER_DST_BIT`.
pub const BUFFER_USAGE_TRANSFER_DST: u32 = 0x2;

/// `VK_BUFFER_USAGE_INDEX_BUFFER_BIT`.
pub const BUFFER_USAGE_INDEX_BUFFER: u32 = 0x40;

/// `VK_BUFFER_USAGE_VERTEX_BUFFER_BIT`.
pub const BUFFER_USAGE_VERTEX_BUFFER: u32 = 0x80;

/// `VK_COMPOSITE_ALPHA_OPAQUE_BIT_KHR`.
pub const COMPOSITE_ALPHA_OPAQUE: u32 = 0x1;

/// The width that a surface reports for its current extent when the
/// swapchain, not the surface, decides the size.
pub const EXTENT_UNDECIDED: u32 = 0xFFFF_FFFF;

/// The timeout of a wait that only the GPU can end.
pub const TIMEOUT_UNBOUNDED: u64 = 0xFFFF_FFFF_FFFF_FFFF;

/// A Vulkan object handle. Zero is the null handle.
#[derive(Clone, Copy, PartialEq, Eq, Debug, Structural)]
pub struct Handle {
    pub raw: u64,
}

impl Handle {
    /// The null handle.
    pub fn null() -> (handle: Handle)
        ensures
            handle.raw == 0,
    {
        Handle { raw: 0 }
    }

    /// Whether this is the null handle.
    pub fn is_null(&self) -> (null: bool)
        ensures
            null == (self.raw == 0),
    {
        self.raw == 0
    }
}

/// A width and a height in pixels.
#[derive(Clone, Copy, PartialEq, Eq, Debug, Structural)]
pub struct Extent2D {
    pub width: u32,
    pub height: u32,
}

impl Extent2D {
    /// An extent has area when neither side is zero.
    pub open spec fn has_area(self) -> bool {
        self.width != 0 && self.height != 0
    }

    /// Whether a swapchain can be built at this size.
    pub fn is_drawable(&self) -> (drawable: bool)
        ensures
            drawable == self.has_area(),
    {
        self.width != 0 && self.height != 0
    }
}

/// A pixel format, by its Vulkan encoding.
#[derive(Clone, Copy, PartialEq, Eq, Debug, Structural)]
pub struct Format {
    pub raw: i32,
}

/// A colour space, by its Vulkan encoding.
#[derive(Clone, Copy, PartialEq, Eq, Debug, Structural)]
pub struct ColorSpace {
    pub raw: i32,
}

/// A presentation mode, by its Vulkan encoding.
#[derive(Clone, Copy, PartialEq, Eq, Debug, Structural)]
pub struct PresentMode {
    pub raw: i32,
}

/// How the texels of an image are laid out in memory.
#[derive(Clone, Copy, PartialEq, Eq, Debug, Structural)]
pub enum ImageTiling {
    Optimal,
    Linear,
    DrmFormatModifier,
}

/// Whether an image is owned by one queue family at a time or shared by
/// several.
#[derive(Clone, Copy, PartialEq, Eq, Debug, Structural)]
pub enum SharingMode {
    Exclusive,
    Concurrent,
}

/// The layouts that the engine moves its images through.
#[derive(Clone, Copy, PartialEq, Eq, Debug, Structural)]
pub enum ImageLayout {
    Undefined,
    General,
    ColorAttachmentOptimal,
    DepthStencilAttachmentOptimal,
    ShaderReadOnlyOptimal,
    TransferSrcOptimal,
    TransferDstOptimal,
    PresentSrc,
}

/// Which aspect of an image a view or a barrier addresses.
#[derive(Clone, Copy, PartialEq, Eq, Debug, Structural)]
pub enum ImageAspect {
    Color,
    Depth,
}

/// The pipeline stages that the engine synchronises against. Each stands
/// for a set of `VK_PIPELINE_STAGE_*` bits.
#[derive(Clone, Copy, PartialEq, Eq, Debug, Structural)]
pub enum PipelineStage {
    TopOfPipe,
    Transfer,
    ComputeShader,
    FragmentShader,
    ColorAttachmentOutput,
    ColorOutputAndEarlyFragmentTests,
}

/// The memory accesses that the engine orders. Each stands for a set of
/// `VK_ACCESS_*` bits.
#[derive(Clone, Copy, PartialEq, Eq, Debug, Structural)]
pub enum Access {
    Nothing,
    TransferWrite,
    MemoryWrite,
    ShaderRead,
    ColorAndDepthStencilAttachmentWrite,
}

/// One colour format with the colour space it is presented in.
#[derive(Clone, Copy, PartialEq, Eq, Debug, Structural)]
pub struct SurfaceFormat {
    pub format: Format,
    pub color_space: ColorSpace,
}

/// What a surface reports about the swapchains it can carry.
#[derive(Clone, Copy, PartialEq, Eq, Debug, Structural)]
pub struct SurfaceCapabilities {
    pub min_image_count: u32,
    pub max_image_count: u32,
    pub current_extent: Extent2D,
    pub min_image_extent: Extent2D,
    pub max_image_extent: Extent2D,
    pub current_transform: u32,
}

} // verus!
