use texture_share_ipc::error::IpcError;
use texture_share_ipc::img_data::{ImgData, ImgFormat, ShmemDataInternal, IMG_NAME_LEN};
use texture_share_ipc::ipc_commands::{
    decode_command, decode_result, encode_command, encode_result, CommCopyImage, CommFindImage,
    CommInitImage, CommandMsg, CommandTag, ResultFindImage, ResultInitImage, ResultMsg,
    COMMAND_MSG_SIZE, RESULT_MSG_SIZE,
};

fn name_buf(name: &str) -> Vec<u8> {
    ImgData::convert_shmem_str_to_array(name)
}

#[test]
fn envelope_sizes_are_fixed() {
    assert_eq!(COMMAND_MSG_SIZE, 4 + 2 * IMG_NAME_LEN + 4 + 4 + 4 + 1 + 16);
    assert_eq!(RESULT_MSG_SIZE, 4 + 1 + 2 * IMG_NAME_LEN + 4 + 4 + 4 + 4 + 8);
}

#[test]
fn init_command_round_trip() {
    let msg = CommandMsg::InitImage(CommInitImage {
        image_name: name_buf("tex"),
        shmem_name: name_buf("shared_images_tex"),
        width: 640,
        height: 480,
        format: ImgFormat::B8G8R8A8,
        overwrite_existing: true,
        gpu_device_uuid: 0x0123_4567_89ab_cdef_0123_4567_89ab_cdef,
    });
    let bytes = encode_command(&msg);
    assert_eq!(bytes.len(), COMMAND_MSG_SIZE);
    let back = decode_command(&bytes).expect("decode failed");
    match back {
        CommandMsg::InitImage(c) => {
            assert_eq!(c.image_name, name_buf("tex"));
            assert_eq!(c.shmem_name, name_buf("shared_images_tex"));
            assert_eq!(c.width, 640);
            assert_eq!(c.height, 480);
            assert_eq!(c.format, ImgFormat::B8G8R8A8);
            assert!(c.overwrite_existing);
            assert_eq!(c.gpu_device_uuid, 0x0123_4567_89ab_cdef_0123_4567_89ab_cdef);
        }
        _ => panic!("wrong variant"),
    }
}

#[test]
fn find_command_round_trip() {
    let msg = CommandMsg::FindImage(CommFindImage {
        image_name: name_buf("lookup"),
        gpu_device_uuid: 7,
    });
    let bytes = encode_command(&msg);
    assert_eq!(bytes.len(), COMMAND_MSG_SIZE);
    match decode_command(&bytes).expect("decode failed") {
        CommandMsg::FindImage(c) => {
            assert_eq!(c.image_name, name_buf("lookup"));
            assert_eq!(c.gpu_device_uuid, 7);
        }
        _ => panic!("wrong variant"),
    }
}

#[test]
fn copy_command_round_trip() {
    let msg = CommandMsg::CopyImage(CommCopyImage {
        image_name: name_buf("blit"),
        gpu_device_uuid: u128::MAX,
    });
    let bytes = encode_command(&msg);
    match decode_command(&bytes).expect("decode failed") {
        CommandMsg::CopyImage(c) => {
            assert_eq!(c.image_name, name_buf("blit"));
            assert_eq!(c.gpu_device_uuid, u128::MAX);
        }
        _ => panic!("wrong variant"),
    }
}

#[test]
fn command_tags_are_distinct_on_the_wire() {
    let init = encode_command(&CommandMsg::InitImage(CommInitImage {
        image_name: name_buf("a"),
        shmem_name: name_buf("a"),
        width: 1,
        height: 1,
        format: ImgFormat::R8G8B8A8,
        overwrite_existing: false,
        gpu_device_uuid: 0,
    }));
    let find = encode_command(&CommandMsg::FindImage(CommFindImage {
        image_name: name_buf("a"),
        gpu_device_uuid: 0,
    }));
    let copy = encode_command(&CommandMsg::CopyImage(CommCopyImage {
        image_name: name_buf("a"),
        gpu_device_uuid: 0,
    }));
    assert_eq!(&init[0..4], &[0, 0, 0, 0]);
    assert_eq!(&find[0..4], &[1, 0, 0, 0]);
    assert_eq!(&copy[0..4], &[2, 0, 0, 0]);
}

#[test]
fn decode_rejects_wrong_length() {
    let bytes = vec![0u8; COMMAND_MSG_SIZE - 1];
    assert!(matches!(decode_command(&bytes), Err(IpcError::BadLength)));
    let bytes = vec![0u8; RESULT_MSG_SIZE + 1];
    assert!(matches!(decode_result(&bytes), Err(IpcError::BadLength)));
}

#[test]
fn decode_rejects_unknown_tag() {
    let mut bytes = vec![0u8; COMMAND_MSG_SIZE];
    bytes[0] = 9;
    assert!(matches!(decode_command(&bytes), Err(IpcError::UnknownTag)));
    let mut bytes = vec![0u8; RESULT_MSG_SIZE];
    bytes[0] = 3;
    assert!(matches!(decode_result(&bytes), Err(IpcError::UnknownTag)));
}

#[test]
fn decode_rejects_unknown_format() {
    let msg = CommandMsg::InitImage(CommInitImage {
        image_name: name_buf("x"),
        shmem_name: name_buf("x"),
        width: 2,
        height: 2,
        format: ImgFormat::R8G8B8,
        overwrite_existing: false,
        gpu_device_uuid: 1,
    });
    let mut bytes = encode_command(&msg);
    // Overwrite the format field with a code outside the closed set.
    let off = 4 + 2 * IMG_NAME_LEN + 8;
    bytes[off] = 0xff;
    assert!(matches!(decode_command(&bytes), Err(IpcError::UnknownFormat)));
}

fn sample_img_data() -> ImgData {
    ImgData::from_shmem_data_internal(
        name_buf("shared_images_pic"),
        ShmemDataInternal::new(name_buf("pic"), 3, 128, 64, ImgFormat::R8G8B8, 32768),
    )
}

#[test]
fn init_result_round_trip() {
    let msg = ResultMsg::InitImage(ResultInitImage {
        image_created: true,
        img_data: sample_img_data(),
    });
    assert_eq!(msg.tag(), CommandTag::InitImage);
    let bytes = encode_result(&msg);
    assert_eq!(bytes.len(), RESULT_MSG_SIZE);
    match decode_result(&bytes).expect("decode failed") {
        ResultMsg::InitImage(r) => {
            assert!(r.image_created);
            assert_eq!(r.img_data.shmem_name, name_buf("shared_images_pic"));
            assert_eq!(r.img_data.data.name, name_buf("pic"));
            assert_eq!(r.img_data.data.handle_id, 3);
            assert_eq!(r.img_data.data.width, 128);
            assert_eq!(r.img_data.data.height, 64);
            assert_eq!(r.img_data.data.format, ImgFormat::R8G8B8);
            assert_eq!(r.img_data.data.allocation_size, 32768);
        }
        _ => panic!("wrong variant"),
    }
}

#[test]
fn find_result_round_trip() {
    let msg = ResultMsg::FindImage(ResultFindImage {
        image_found: false,
        img_data: ImgData::default(),
    });
    assert_eq!(msg.tag(), CommandTag::FindImage);
    let bytes = encode_result(&msg);
    match decode_result(&bytes).expect("decode failed") {
        ResultMsg::FindImage(r) => {
            assert!(!r.image_found);
            assert_eq!(r.img_data.data.handle_id, 0);
            assert_eq!(r.img_data.data.format, ImgFormat::Undefined);
        }
        _ => panic!("wrong variant"),
    }
}

#[test]
fn bool_fields_encode_as_single_bytes() {
    let off = 4 + 2 * IMG_NAME_LEN + 12;
    let with_overwrite = encode_command(&CommandMsg::InitImage(CommInitImage {
        image_name: name_buf("b"),
        shmem_name: name_buf("b"),
        width: 0,
        height: 0,
        format: ImgFormat::Undefined,
        overwrite_existing: true,
        gpu_device_uuid: 0,
    }));
    assert_eq!(with_overwrite[off], 1);
    let without_overwrite = encode_command(&CommandMsg::InitImage(CommInitImage {
        image_name: name_buf("b"),
        shmem_name: name_buf("b"),
        width: 0,
        height: 0,
        format: ImgFormat::Undefined,
        overwrite_existing: false,
        gpu_device_uuid: 0,
    }));
    assert_eq!(without_overwrite[off], 0);
}
