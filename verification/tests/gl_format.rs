use texture_share_ipc::gl_shared_image::{
    GlSharedImage, GlSharedImageData, GL_BGR, GL_BGRA, GL_NONE, GL_RGB, GL_RGB8, GL_RGBA, GL_RGBA8,
};
use texture_share_ipc::img_data::{ImgData, ImgFormat, ShmemDataInternal};

#[test]
fn wire_formats_translate_to_gl_enumerants() {
    assert_eq!(GlSharedImage::get_gl_format(ImgFormat::B8G8R8), GL_BGR);
    assert_eq!(GlSharedImage::get_gl_format(ImgFormat::B8G8R8A8), GL_BGRA);
    assert_eq!(GlSharedImage::get_gl_format(ImgFormat::R8G8B8), GL_RGB);
    assert_eq!(GlSharedImage::get_gl_format(ImgFormat::R8G8B8A8), GL_RGBA);
    assert_eq!(GlSharedImage::get_gl_format(ImgFormat::Undefined), GL_NONE);
}

#[test]
fn internal_formats_follow_channel_count() {
    assert_eq!(GlSharedImage::get_gl_internal_format(ImgFormat::B8G8R8), GL_RGB8 as i32);
    assert_eq!(GlSharedImage::get_gl_internal_format(ImgFormat::R8G8B8), GL_RGB8 as i32);
    assert_eq!(
        GlSharedImage::get_gl_internal_format(ImgFormat::B8G8R8A8),
        GL_RGBA8 as i32
    );
    assert_eq!(
        GlSharedImage::get_gl_internal_format(ImgFormat::R8G8B8A8),
        GL_RGBA8 as i32
    );
    assert_eq!(GlSharedImage::get_gl_internal_format(ImgFormat::Undefined), GL_NONE as i32);
}

#[test]
fn gl_enumerants_translate_back_to_wire_formats() {
    assert_eq!(GlSharedImage::get_img_format(GL_BGR), ImgFormat::B8G8R8);
    assert_eq!(GlSharedImage::get_img_format(GL_BGRA), ImgFormat::B8G8R8A8);
    assert_eq!(GlSharedImage::get_img_format(GL_RGB), ImgFormat::R8G8B8);
    assert_eq!(GlSharedImage::get_img_format(GL_RGBA), ImgFormat::R8G8B8A8);
    assert_eq!(GlSharedImage::get_img_format(0xDEAD), ImgFormat::Undefined);
}

#[test]
fn gl_image_data_mirrors_the_shared_record() {
    let rec = ShmemDataInternal::new(
        ImgData::convert_shmem_str_to_array("img"),
        7,
        64,
        32,
        ImgFormat::B8G8R8A8,
        8192,
    );
    let gl = GlSharedImageData::from_shmem_img_data(&rec);
    assert_eq!(gl.id, 7);
    assert_eq!(gl.width, 64);
    assert_eq!(gl.height, 32);
    assert_eq!(gl.format, GL_BGRA);
    assert_eq!(gl.allocation_size, 8192);
}

#[test]
fn gl_image_bookkeeping_tracks_texture_and_fbo() {
    let rec = ShmemDataInternal::new(
        ImgData::convert_shmem_str_to_array("img"),
        1,
        4,
        2,
        ImgFormat::R8G8B8A8,
        32,
    );
    let mut img = GlSharedImage::from_texture(17, GlSharedImageData::from_shmem_img_data(&rec));
    assert_eq!(img.texture, 17);
    assert_eq!(img.fbo, 0);
    assert_eq!(img.get_data().width, 4);
    let extent = img.full_extent();
    assert_eq!(extent.top_left, [0, 0]);
    assert_eq!(extent.bottom_right, [4, 2]);
    img.note_blit_fbo(5);
    assert_eq!(img.fbo, 5);
    assert_eq!(img.texture, 17);
}
