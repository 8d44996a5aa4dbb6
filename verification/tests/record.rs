use texture_share_ipc::error::IpcError;
use texture_share_ipc::img_data::{ImgData, ImgFormat, ShmemDataInternal};
use texture_share_ipc::record::{
    decode_record_data, encode_record_data, read_version_unlocked, record_data_offset,
    validate_data_offset, RecordLock, LOCK_REGION_SIZE, RECORD_DATA_OFF, RECORD_DATA_SIZE,
    RECORD_SEGMENT_SIZE, RECORD_VERSION_OFF,
};

fn name_buf(name: &str) -> Vec<u8> {
    ImgData::convert_shmem_str_to_array(name)
}

fn sample_record() -> ShmemDataInternal {
    ShmemDataInternal::new(name_buf("img"), 5, 320, 200, ImgFormat::B8G8R8, 256000)
}

#[test]
fn record_layout_constants_agree() {
    assert!(LOCK_REGION_SIZE <= RECORD_DATA_OFF);
    assert_eq!(RECORD_SEGMENT_SIZE, RECORD_DATA_OFF + RECORD_DATA_SIZE);
    assert_eq!(RECORD_VERSION_OFF, RECORD_DATA_OFF + 1024);
}

#[test]
fn record_data_round_trip() {
    let d = sample_record();
    let bytes = encode_record_data(&d);
    assert_eq!(bytes.len(), RECORD_DATA_SIZE);
    let back = decode_record_data(&bytes).expect("decode failed");
    assert_eq!(back.name, name_buf("img"));
    assert_eq!(back.handle_id, 5);
    assert_eq!(back.width, 320);
    assert_eq!(back.height, 200);
    assert_eq!(back.format, ImgFormat::B8G8R8);
    assert_eq!(back.allocation_size, 256000);
}

#[test]
fn record_decode_rejects_bad_bytes() {
    let short = vec![0u8; RECORD_DATA_SIZE - 1];
    assert!(matches!(decode_record_data(&short), Err(IpcError::BadLength)));
    let mut bytes = encode_record_data(&sample_record());
    bytes[1024 + 12] = 0x7f;
    assert!(matches!(
        decode_record_data(&bytes),
        Err(IpcError::UnknownFormat)
    ));
}

#[test]
fn version_probe_reads_the_version_field() {
    let d = sample_record();
    let mut segment = vec![0u8; RECORD_DATA_OFF];
    segment.extend_from_slice(&encode_record_data(&d));
    assert_eq!(segment.len(), RECORD_SEGMENT_SIZE);
    assert_eq!(read_version_unlocked(&segment), 5);
}

#[test]
fn opener_accepts_only_the_creators_offset() {
    assert!(validate_data_offset(record_data_offset()).is_ok());
    assert!(matches!(
        validate_data_offset(record_data_offset() + 8),
        Err(IpcError::LayoutMismatch)
    ));
}

#[test]
fn concurrent_readers_share_the_lock() {
    let mut lock = RecordLock::new();
    assert!(lock.try_acquire_read());
    assert!(lock.try_acquire_read());
    assert_eq!(lock.readers, 2);
}

#[test]
fn writer_waits_for_all_readers() {
    let mut lock = RecordLock::new();
    assert!(lock.try_acquire_read());
    assert!(lock.try_acquire_read());
    assert!(!lock.try_acquire_write());
    lock.release_read();
    assert!(!lock.try_acquire_write());
    lock.release_read();
    assert!(lock.try_acquire_write());
}

#[test]
fn readers_wait_for_the_writer() {
    let mut lock = RecordLock::new();
    assert!(lock.try_acquire_write());
    assert!(!lock.try_acquire_read());
    assert!(!lock.try_acquire_write());
    lock.release_write();
    assert!(lock.try_acquire_read());
}
