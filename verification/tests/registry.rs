use texture_share_ipc::img_data::{ImgData, ImgFormat};
use texture_share_ipc::ipc_commands::{CommCopyImage, CommFindImage, CommInitImage};
use texture_share_ipc::registry::Registry;

const DEV_A: u128 = 0x1111;
const DEV_B: u128 = 0x2222;

fn name_buf(name: &str) -> Vec<u8> {
    ImgData::convert_shmem_str_to_array(name)
}

fn prefix() -> Vec<u8> {
    b"shared_images_".to_vec()
}

fn init_cmd(name: &str, w: u32, h: u32, overwrite: bool, dev: u128) -> CommInitImage {
    CommInitImage {
        image_name: name_buf(name),
        shmem_name: name_buf(name),
        width: w,
        height: h,
        format: ImgFormat::R8G8B8A8,
        overwrite_existing: overwrite,
        gpu_device_uuid: dev,
    }
}

fn find_cmd(name: &str, dev: u128) -> CommFindImage {
    CommFindImage {
        image_name: name_buf(name),
        gpu_device_uuid: dev,
    }
}

#[test]
fn find_before_init_reports_not_found() {
    let reg = Registry::new(prefix());
    let r = reg.handle_find(&find_cmd("tex", DEV_A));
    assert!(!r.image_found);
    assert_eq!(r.img_data.data.handle_id, 0);
}

#[test]
fn first_init_creates_at_version_one() {
    let mut reg = Registry::new(prefix());
    let r = reg.handle_init(&init_cmd("tex", 4, 4, false, DEV_A), &vec![(DEV_A, 64)]);
    assert!(r.image_created);
    assert_eq!(r.img_data.data.handle_id, 1);
    assert_eq!(r.img_data.data.width, 4);
    assert_eq!(r.img_data.data.height, 4);
    assert_eq!(r.img_data.data.allocation_size, 64);
    assert_eq!(r.img_data.shmem_name, name_buf("shared_images_tex"));
    assert_eq!(r.img_data.data.name, name_buf("tex"));
}

#[test]
fn init_without_overwrite_is_a_noop_on_existing() {
    let mut reg = Registry::new(prefix());
    let _ = reg.handle_init(&init_cmd("tex", 4, 4, false, DEV_A), &vec![(DEV_A, 64)]);
    // Same name, same device, overwrite not requested: "not created", and
    // the version is left exactly where it was.
    let r = reg.handle_init(&init_cmd("tex", 8, 8, false, DEV_A), &vec![(DEV_A, 256)]);
    assert!(!r.image_created);
    let f = reg.handle_find(&find_cmd("tex", DEV_A));
    assert!(f.image_found);
    assert_eq!(f.img_data.data.handle_id, 1);
    assert_eq!(f.img_data.data.width, 4);
}

#[test]
fn init_with_overwrite_bumps_version_by_one() {
    let mut reg = Registry::new(prefix());
    let _ = reg.handle_init(&init_cmd("tex", 4, 4, false, DEV_A), &vec![(DEV_A, 64)]);
    let r = reg.handle_init(&init_cmd("tex", 8, 8, true, DEV_A), &vec![(DEV_A, 256)]);
    assert!(r.image_created);
    assert_eq!(r.img_data.data.handle_id, 2);
    assert_eq!(r.img_data.data.width, 8);
    assert_eq!(r.img_data.data.allocation_size, 256);
}

#[test]
fn find_after_init_matches_what_init_returned() {
    let mut reg = Registry::new(prefix());
    let r = reg.handle_init(&init_cmd("tex", 4, 4, false, DEV_A), &vec![(DEV_A, 64)]);
    let f = reg.handle_find(&find_cmd("tex", DEV_A));
    assert!(f.image_found);
    assert_eq!(f.img_data.shmem_name, r.img_data.shmem_name);
    assert_eq!(f.img_data.data.name, r.img_data.data.name);
    assert_eq!(f.img_data.data.handle_id, r.img_data.data.handle_id);
    assert_eq!(f.img_data.data.width, r.img_data.data.width);
    assert_eq!(f.img_data.data.height, r.img_data.data.height);
    assert_eq!(f.img_data.data.allocation_size, r.img_data.data.allocation_size);
}

#[test]
fn find_on_other_device_reports_not_found() {
    let mut reg = Registry::new(prefix());
    let _ = reg.handle_init(&init_cmd("tex", 4, 4, false, DEV_A), &vec![(DEV_A, 64)]);
    let f = reg.handle_find(&find_cmd("tex", DEV_B));
    assert!(!f.image_found);
}

#[test]
fn init_updates_every_device_tracking_the_name() {
    let mut reg = Registry::new(prefix());
    let _ = reg.handle_init(&init_cmd("tex", 4, 4, false, DEV_A), &vec![(DEV_A, 64)]);
    let _ = reg.handle_init(
        &init_cmd("tex", 4, 4, false, DEV_B),
        &vec![(DEV_A, 64), (DEV_B, 64)],
    );
    // Both devices now track the name; an overwrite through one device bumps
    // both versions and resizes both copies.
    let r = reg.handle_init(
        &init_cmd("tex", 16, 16, true, DEV_A),
        &vec![(DEV_A, 1024), (DEV_B, 1024)],
    );
    assert!(r.image_created);
    let fa = reg.handle_find(&find_cmd("tex", DEV_A));
    let fb = reg.handle_find(&find_cmd("tex", DEV_B));
    assert_eq!(fa.img_data.data.handle_id, 3);
    assert_eq!(fb.img_data.data.handle_id, 2);
    assert_eq!(fa.img_data.data.width, 16);
    assert_eq!(fb.img_data.data.width, 16);
}

#[test]
fn devices_tracking_lists_each_copy() {
    let mut reg = Registry::new(prefix());
    assert_eq!(reg.devices_tracking(&name_buf("tex")).len(), 0);
    let _ = reg.handle_init(&init_cmd("tex", 4, 4, false, DEV_A), &vec![(DEV_A, 64)]);
    let _ = reg.handle_init(
        &init_cmd("tex", 4, 4, false, DEV_B),
        &vec![(DEV_A, 64), (DEV_B, 64)],
    );
    let devs = reg.devices_tracking(&name_buf("tex"));
    assert_eq!(devs.len(), 2);
    assert!(devs.contains(&DEV_A));
    assert!(devs.contains(&DEV_B));
}

#[test]
fn copy_plan_is_empty_below_two_devices() {
    let mut reg = Registry::new(prefix());
    let _ = reg.handle_init(&init_cmd("tex", 4, 4, false, DEV_A), &vec![(DEV_A, 64)]);
    let plan = reg.plan_copy(&CommCopyImage {
        image_name: name_buf("tex"),
        gpu_device_uuid: DEV_A,
    });
    assert!(plan.source_device.is_none());
    assert_eq!(plan.targets.len(), 0);
}

#[test]
fn copy_plan_targets_every_other_device() {
    let mut reg = Registry::new(prefix());
    let _ = reg.handle_init(&init_cmd("tex", 4, 4, false, DEV_A), &vec![(DEV_A, 64)]);
    let _ = reg.handle_init(
        &init_cmd("tex", 4, 4, false, DEV_B),
        &vec![(DEV_A, 64), (DEV_B, 64)],
    );
    let plan = reg.plan_copy(&CommCopyImage {
        image_name: name_buf("tex"),
        gpu_device_uuid: DEV_A,
    });
    assert_eq!(plan.source_device, Some(DEV_A));
    assert_eq!(plan.targets, vec![DEV_B]);
}

#[test]
fn copy_plan_is_empty_for_untracked_source() {
    let mut reg = Registry::new(prefix());
    let _ = reg.handle_init(&init_cmd("tex", 4, 4, false, DEV_A), &vec![(DEV_A, 64)]);
    let _ = reg.handle_init(
        &init_cmd("tex", 4, 4, false, DEV_B),
        &vec![(DEV_A, 64), (DEV_B, 64)],
    );
    let plan = reg.plan_copy(&CommCopyImage {
        image_name: name_buf("tex"),
        gpu_device_uuid: 0x3333,
    });
    assert!(plan.source_device.is_none());
    assert_eq!(plan.targets.len(), 0);
}

#[test]
fn distinct_names_are_tracked_independently() {
    let mut reg = Registry::new(prefix());
    let _ = reg.handle_init(&init_cmd("one", 4, 4, false, DEV_A), &vec![(DEV_A, 64)]);
    let _ = reg.handle_init(&init_cmd("two", 8, 8, false, DEV_A), &vec![(DEV_A, 256)]);
    let r = reg.handle_init(&init_cmd("one", 2, 2, true, DEV_A), &vec![(DEV_A, 16)]);
    assert_eq!(r.img_data.data.handle_id, 2);
    let f = reg.handle_find(&find_cmd("two", DEV_A));
    assert!(f.image_found);
    assert_eq!(f.img_data.data.handle_id, 1);
    assert_eq!(f.img_data.data.width, 8);
}

#[test]
fn record_of_reports_each_devices_copy() {
    let mut reg = Registry::new(prefix());
    assert!(reg.record_of(&name_buf("tex"), DEV_A).is_none());
    let _ = reg.handle_init(&init_cmd("tex", 4, 4, false, DEV_A), &vec![(DEV_A, 64)]);
    let rec = reg.record_of(&name_buf("tex"), DEV_A).expect("copy exists");
    assert_eq!(rec.handle_id, 1);
    assert_eq!(rec.width, 4);
    assert_eq!(rec.name, name_buf("tex"));
    assert!(reg.record_of(&name_buf("tex"), DEV_B).is_none());
    assert!(reg.record_of(&name_buf("other"), DEV_A).is_none());
}
