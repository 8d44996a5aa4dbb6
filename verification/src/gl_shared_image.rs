//! Client-side bookkeeping for a shared image imported into an OpenGL
//! context: the object names the GL driver handed out, the geometry of the
//! imported copy, and the translation tables between the wire's pixel
//! formats and GL's format and internal-format enumerants. The GL calls
//! themselves happen outside; what stands here is everything decided about
//! them.

use vstd::prelude::*;

use crate::img_data::{ImgFormat, ShmemDataInternal};

verus! {

/// GL enumerant values used by the translation tables.
pub const GL_NONE: u32 = 0;

pub const GL_RGB: u32 = 0x1907;

pub const GL_RGBA: u32 = 0x1908;

pub const GL_BGR: u32 = 0x80E0;

pub const GL_BGRA: u32 = 0x80E1;

pub const GL_RGB8: u32 = 0x8051;

pub const GL_RGBA8: u32 = 0x8058;

/// Geometry and identity of one imported copy, as GL sees it.
pub struct GlSharedImageData {
    pub id: u32,
    pub width: u32,
    pub height: u32,
    pub format: u32,
    pub allocation_size: u64,
}

/// A rectangle in GL window coordinates, for blit operations.
pub struct GlImageExtent {
    pub top_left: [i32; 2],
    pub bottom_right: [i32; 2],
}

/// One shared image as held by a GL client: the framebuffer, memory object
/// and texture names the driver allocated for it, plus its geometry.
pub struct GlSharedImage {
    pub fbo: u32,
    pub mem: u32,
    pub texture: u32,
    pub data: GlSharedImageData,
}

/// The GL pixel-format enumerant of a wire format.
pub open spec fn spec_gl_format(f: ImgFormat) -> u32 {
    match f {
        ImgFormat::B8G8R8 => GL_BGR,
        ImgFormat::B8G8R8A8 => GL_BGRA,
        ImgFormat::R8G8B8 => GL_RGB,
        ImgFormat::R8G8B8A8 => GL_RGBA,
        ImgFormat::Undefined => GL_NONE,
    }
}

impl GlSharedImageData {
    /// The GL view of a Shared Record: same identity and geometry, the
    /// format translated to its GL enumerant.
    pub fn from_shmem_img_data(data: &ShmemDataInternal) -> (r: GlSharedImageData)
        ensures
            r.id == data.handle_id,
            r.width == data.width,
            r.height == data.height,
            r.format == spec_gl_format(data.format),
            r.allocation_size == data.allocation_size,
    {
        GlSharedImageData {
            id: data.handle_id,
            width: data.width,
            height: data.height,
            format: GlSharedImage::get_gl_format(data.format),
            allocation_size: data.allocation_size,
        }
    }
}

impl GlSharedImage {
    /// The GL pixel-format enumerant of a wire format.
    pub fn get_gl_format(img_format: ImgFormat) -> (r: u32)
        ensures
            r == spec_gl_format(img_format),
    {
        match img_format {
            ImgFormat::B8G8R8 => GL_BGR,
            ImgFormat::B8G8R8A8 => GL_BGRA,
            ImgFormat::R8G8B8 => GL_RGB,
            ImgFormat::R8G8B8A8 => GL_RGBA,
            ImgFormat::Undefined => GL_NONE,
        }
    }

    /// The GL internal-format enumerant a texture for this wire format is
    /// allocated with: three-channel formats store as `GL_RGB8`, four-channel
    /// ones as `GL_RGBA8`.
    pub fn get_gl_internal_format(img_format: ImgFormat) -> (r: i32)
        ensures
            img_format == ImgFormat::B8G8R8 || img_format == ImgFormat::R8G8B8 ==> r == GL_RGB8,
            img_format == ImgFormat::B8G8R8A8 || img_format == ImgFormat::R8G8B8A8 ==> r
                == GL_RGBA8,
            img_format == ImgFormat::Undefined ==> r == GL_NONE,
    {
        match img_format {
            ImgFormat::B8G8R8 => GL_RGB8 as i32,
            ImgFormat::B8G8R8A8 => GL_RGBA8 as i32,
            ImgFormat::R8G8B8 => GL_RGB8 as i32,
            ImgFormat::R8G8B8A8 => GL_RGBA8 as i32,
            ImgFormat::Undefined => GL_NONE as i32,
        }
    }

    /// The wire format of a GL pixel-format enumerant; anything outside the
    /// translation table is `Undefined`.
    pub fn get_img_format(gl_format: u32) -> (r: ImgFormat)
        ensures
            gl_format == GL_BGR ==> r == ImgFormat::B8G8R8,
            gl_format == GL_BGRA ==> r == ImgFormat::B8G8R8A8,
            gl_format == GL_RGB ==> r == ImgFormat::R8G8B8,
            gl_format == GL_RGBA ==> r == ImgFormat::R8G8B8A8,
            gl_format != GL_BGR && gl_format != GL_BGRA && gl_format != GL_RGB && gl_format
                != GL_RGBA ==> r == ImgFormat::Undefined,
            spec_gl_format(r) == gl_format || r == ImgFormat::Undefined,
    {
        if gl_format == GL_BGR {
            ImgFormat::B8G8R8
        } else if gl_format == GL_BGRA {
            ImgFormat::B8G8R8A8
        } else if gl_format == GL_RGB {
            ImgFormat::R8G8B8
        } else if gl_format == GL_RGBA {
            ImgFormat::R8G8B8A8
        } else {
            ImgFormat::Undefined
        }
    }

    /// Book an image around the texture the GL driver created for it; no
    /// framebuffer or memory object is attached yet.
    pub fn from_texture(texture: u32, data: GlSharedImageData) -> (r: GlSharedImage)
        ensures
            r.fbo == 0,
            r.mem == 0,
            r.texture == texture,
            r.data == data,
    {
        GlSharedImage { fbo: 0, mem: 0, texture, data }
    }

    /// The image's geometry and identity.
    pub fn get_data(&self) -> (r: &GlSharedImageData)
        ensures
            *r == self.data,
    {
        &self.data
    }

    /// The whole image as a blit rectangle: from the origin to the image's
    /// own width and height.
    pub fn full_extent(&self) -> (r: GlImageExtent)
        requires
            self.data.width <= i32::MAX,
            self.data.height <= i32::MAX,
        ensures
            r.top_left@ == seq![0i32, 0i32],
            r.bottom_right@ == seq![self.data.width as i32, self.data.height as i32],
    {
        GlImageExtent {
            top_left: [0, 0],
            bottom_right: [self.data.width as i32, self.data.height as i32],
        }
    }

    /// Remember the framebuffer object a blit created, so later blits reuse
    /// it instead of allocating a new one.
    pub fn note_blit_fbo(&mut self, blit_fbo: u32)
        ensures
            final(self).fbo == blit_fbo,
            final(self).mem == old(self).mem,
            final(self).texture == old(self).texture,
            final(self).data == old(self).data,
    {
        self.fbo = blit_fbo;
    }
}

} // verus!
