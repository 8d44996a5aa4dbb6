//! Broker-side bookkeeping for a shared image backed by a Vulkan
//! allocation: the identity and geometry of the allocation, the handle
//! words the backend hands out, and the translation tables between the
//! wire's pixel formats and Vulkan's format codes. The Vulkan calls
//! themselves are the graphics backend's business and happen outside; what
//! stands here is the state decided about them.

use vstd::prelude::*;

use crate::img_data::{ImgFormat, ShmemDataInternal};

verus! {

/// Vulkan format codes used by the translation tables.
pub const VK_FORMAT_UNDEFINED: u32 = 0;

pub const VK_FORMAT_R8G8B8_UNORM: u32 = 23;

pub const VK_FORMAT_B8G8R8_UNORM: u32 = 30;

pub const VK_FORMAT_R8G8B8A8_UNORM: u32 = 37;

pub const VK_FORMAT_B8G8R8A8_UNORM: u32 = 44;

/// The Vulkan image layout a freshly constructed, uninitialized image is in.
pub const VK_IMAGE_LAYOUT_UNDEFINED: u32 = 0;

/// Identity and geometry of one shared allocation, as the backend sees it.
pub struct SharedImageData {
    pub id: u32,
    pub width: u32,
    pub height: u32,
    pub format: u32,
    pub allocation_size: u64,
}

/// The OS handles exported for one allocation; a handle word of `-1` means
/// "no handle exported".
pub struct ShareHandles {
    pub memory: i32,
}

/// One shared image as the broker books it: the backend's image and memory
/// handle words, the image's current layout, and its geometry.
pub struct VkSharedImage {
    pub image: u64,
    pub memory: u64,
    pub image_layout: u32,
    pub data: SharedImageData,
}

/// The Vulkan format code of a wire format.
pub open spec fn spec_vk_format(f: ImgFormat) -> u32 {
    match f {
        ImgFormat::B8G8R8 => VK_FORMAT_B8G8R8_UNORM,
        ImgFormat::B8G8R8A8 => VK_FORMAT_B8G8R8A8_UNORM,
        ImgFormat::R8G8B8 => VK_FORMAT_R8G8B8_UNORM,
        ImgFormat::R8G8B8A8 => VK_FORMAT_R8G8B8A8_UNORM,
        ImgFormat::Undefined => VK_FORMAT_UNDEFINED,
    }
}

/// A fresh set of share handles: nothing exported yet.
pub fn vk_share_handles_new() -> (r: ShareHandles)
    ensures
        r.memory == -1,
{
    ShareHandles { memory: -1 }
}

impl ShareHandles {
    /// The exported memory handle word, `-1` while none is.
    pub fn get_memory_handle(&self) -> (r: i32)
        ensures
            r == self.memory,
    {
        self.memory
    }
}

/// A fresh, uninitialized shared image: no backend objects, undefined
/// layout, zeroed geometry.
pub fn vk_shared_image_new() -> (r: VkSharedImage)
    ensures
        r.image == 0,
        r.memory == 0,
        r.image_layout == VK_IMAGE_LAYOUT_UNDEFINED,
        r.data.id == 0,
        r.data.width == 0,
        r.data.height == 0,
        r.data.format == VK_FORMAT_UNDEFINED,
        r.data.allocation_size == 0,
{
    VkSharedImage {
        image: 0,
        memory: 0,
        image_layout: VK_IMAGE_LAYOUT_UNDEFINED,
        data: SharedImageData {
            id: 0,
            width: 0,
            height: 0,
            format: VK_FORMAT_UNDEFINED,
            allocation_size: 0,
        },
    }
}

impl VkSharedImage {
    /// The Vulkan format code of a wire format.
    pub fn get_vk_format(format: ImgFormat) -> (r: u32)
        ensures
            r == spec_vk_format(format),
    {
        match format {
            ImgFormat::B8G8R8 => VK_FORMAT_B8G8R8_UNORM,
            ImgFormat::B8G8R8A8 => VK_FORMAT_B8G8R8A8_UNORM,
            ImgFormat::R8G8B8 => VK_FORMAT_R8G8B8_UNORM,
            ImgFormat::R8G8B8A8 => VK_FORMAT_R8G8B8A8_UNORM,
            ImgFormat::Undefined => VK_FORMAT_UNDEFINED,
        }
    }

    /// The wire format of a Vulkan format code; only codes out of the
    /// translation table are meaningless here, and the caller keeps them out.
    pub fn get_img_format(format: u32) -> (r: ImgFormat)
        requires
            format == VK_FORMAT_UNDEFINED || format == VK_FORMAT_R8G8B8_UNORM || format
                == VK_FORMAT_B8G8R8_UNORM || format == VK_FORMAT_R8G8B8A8_UNORM || format
                == VK_FORMAT_B8G8R8A8_UNORM,
        ensures
            spec_vk_format(r) == format,
    {
        if format == VK_FORMAT_B8G8R8_UNORM {
            ImgFormat::B8G8R8
        } else if format == VK_FORMAT_B8G8R8A8_UNORM {
            ImgFormat::B8G8R8A8
        } else if format == VK_FORMAT_R8G8B8_UNORM {
            ImgFormat::R8G8B8
        } else if format == VK_FORMAT_R8G8B8A8_UNORM {
            ImgFormat::R8G8B8A8
        } else {
            ImgFormat::Undefined
        }
    }

    /// The image's identity and geometry.
    pub fn get_image_data(&self) -> (r: &SharedImageData)
        ensures
            *r == self.data,
    {
        &self.data
    }

    /// Release the backend objects and return the bookkeeping to the
    /// uninitialized state; the backend performs the actual destruction.
    pub fn cleanup(&mut self)
        ensures
            final(self).image == 0,
            final(self).memory == 0,
            final(self).image_layout == VK_IMAGE_LAYOUT_UNDEFINED,
            final(self).data == old(self).data,
    {
        self.image = 0;
        self.memory = 0;
        self.image_layout = VK_IMAGE_LAYOUT_UNDEFINED;
    }
}

impl SharedImageData {
    /// The backend's view of a Shared Record. The backend allocates every
    /// shared image as `VK_FORMAT_R8G8B8A8_UNORM` regardless of the record's
    /// wire format.
    pub fn from_shmem_img_data(data: &ShmemDataInternal) -> (r: SharedImageData)
        ensures
            r.id == data.handle_id,
            r.width == data.width,
            r.height == data.height,
            r.format == VK_FORMAT_R8G8B8A8_UNORM,
            r.allocation_size == data.allocation_size,
    {
        SharedImageData {
            id: data.handle_id,
            width: data.width,
            height: data.height,
            format: VK_FORMAT_R8G8B8A8_UNORM,
            allocation_size: data.allocation_size,
        }
    }
}

} // verus!
