use texture_share_ipc::img_data::{ImgData, ImgFormat, ShmemDataInternal};
use texture_share_ipc::vk_shared_image::{
    vk_share_handles_new, vk_shared_image_new, SharedImageData, VkSharedImage,
    VK_FORMAT_B8G8R8A8_UNORM, VK_FORMAT_B8G8R8_UNORM, VK_FORMAT_R8G8B8A8_UNORM,
    VK_FORMAT_R8G8B8_UNORM, VK_FORMAT_UNDEFINED, VK_IMAGE_LAYOUT_UNDEFINED,
};

#[test]
fn vk_shared_image_share_handles_new() {
    let share_handles = vk_share_handles_new();
    assert_eq!(share_handles.get_memory_handle(), -1);
}

#[test]
fn vk_shared_image_create() {
    let _ = vk_shared_image_new();
}

#[test]
fn vk_shared_image_cleanup() {
    let mut vk_shared_image = vk_shared_image_new();
    vk_shared_image.cleanup();
    assert_eq!(vk_shared_image.image_layout, VK_IMAGE_LAYOUT_UNDEFINED);
    assert_eq!(vk_shared_image.image, 0);
    assert_eq!(vk_shared_image.memory, 0);
}

#[test]
fn vk_format_translation_round_trips() {
    for f in [
        ImgFormat::R8G8B8A8,
        ImgFormat::R8G8B8,
        ImgFormat::B8G8R8A8,
        ImgFormat::B8G8R8,
        ImgFormat::Undefined,
    ] {
        assert_eq!(VkSharedImage::get_img_format(VkSharedImage::get_vk_format(f)), f);
    }
    assert_eq!(VkSharedImage::get_vk_format(ImgFormat::R8G8B8A8), VK_FORMAT_R8G8B8A8_UNORM);
    assert_eq!(VkSharedImage::get_vk_format(ImgFormat::B8G8R8A8), VK_FORMAT_B8G8R8A8_UNORM);
    assert_eq!(VkSharedImage::get_vk_format(ImgFormat::R8G8B8), VK_FORMAT_R8G8B8_UNORM);
    assert_eq!(VkSharedImage::get_vk_format(ImgFormat::B8G8R8), VK_FORMAT_B8G8R8_UNORM);
    assert_eq!(VkSharedImage::get_vk_format(ImgFormat::Undefined), VK_FORMAT_UNDEFINED);
}

#[test]
fn backend_view_mirrors_the_shared_record() {
    let rec = ShmemDataInternal::new(
        ImgData::convert_shmem_str_to_array("img"),
        6,
        100,
        50,
        ImgFormat::B8G8R8,
        20000,
    );
    let v = SharedImageData::from_shmem_img_data(&rec);
    assert_eq!(v.id, 6);
    assert_eq!(v.width, 100);
    assert_eq!(v.height, 50);
    assert_eq!(v.format, VK_FORMAT_R8G8B8A8_UNORM);
    assert_eq!(v.allocation_size, 20000);
    let img = vk_shared_image_new();
    assert_eq!(img.get_image_data().width, 0);
}
