use texture_share_ipc::client::{
    build_find_command, build_init_command, interpret_find_result, interpret_init_result,
    ClientCache,
};
use texture_share_ipc::error::IpcError;
use texture_share_ipc::img_data::{ImgData, ImgFormat};
use texture_share_ipc::ipc_commands::{
    decode_command, encode_command, encode_result, decode_result, CommandMsg, ResultFindImage,
    ResultInitImage, ResultMsg,
};
use texture_share_ipc::registry::Registry;
use texture_share_ipc::server::{
    check_phase_step, classify_event, connection_step, next_idle_deadline, remove_connection,
    should_stop, ConnPhase, EventClass, RecvStatus, LISTENER_EVENT_KEY,
};

const DEV: u128 = 0xabcd;
const FMT: ImgFormat = ImgFormat::R8G8B8A8;

fn name_buf(name: &str) -> Vec<u8> {
    ImgData::convert_shmem_str_to_array(name)
}

/// Dispatch one encoded command against a registry, the way the broker's
/// reactor does, and hand back the encoded reply (none for a copy command).
fn broker_dispatch(reg: &mut Registry, wire_cmd: &Vec<u8>) -> Option<Vec<u8>> {
    match decode_command(wire_cmd).expect("broker received a malformed envelope") {
        CommandMsg::InitImage(c) => {
            let mut allocs: Vec<(u128, u64)> = Vec::new();
            for d in reg.devices_tracking(&c.image_name) {
                allocs.push((d, (c.width as u64) * (c.height as u64) * 4));
            }
            if !allocs.iter().any(|e| e.0 == c.gpu_device_uuid) {
                allocs.push((c.gpu_device_uuid, (c.width as u64) * (c.height as u64) * 4));
            }
            let r = reg.handle_init(&c, &allocs);
            Some(encode_result(&ResultMsg::InitImage(r)))
        }
        CommandMsg::FindImage(c) => {
            let r = reg.handle_find(&c);
            Some(encode_result(&ResultMsg::FindImage(r)))
        }
        CommandMsg::CopyImage(c) => {
            let _plan = reg.plan_copy(&c);
            None
        }
    }
}

#[test]
fn end_to_end_init_find_overwrite_find() {
    // Broker state for segments named `shared_images_<name>`.
    let mut reg = Registry::new(b"shared_images_".to_vec());
    let mut cache_b = ClientCache::new();

    // Client A creates "tex" at 4x4; the broker reports version 1.
    let wire = encode_command(&build_init_command("tex", 4, 4, FMT, false, DEV));
    let reply = broker_dispatch(&mut reg, &wire).unwrap();
    let res = decode_result(&reply).unwrap();
    let created = interpret_init_result(&res).unwrap().expect("not created");
    assert_eq!(created.data.handle_id, 1);
    assert_eq!(created.data.width, 4);

    // Client B finds "tex": found, version 1, matching what A was told.
    assert!(cache_b.find_needs_round_trip(&b"tex".to_vec(), false));
    let wire = encode_command(&build_find_command("tex", DEV));
    let reply = broker_dispatch(&mut reg, &wire).unwrap();
    let res = decode_result(&reply).unwrap();
    let found = interpret_find_result(&res).unwrap().expect("not found");
    assert_eq!(found.data.handle_id, 1);
    assert_eq!(found.data.width, created.data.width);
    cache_b.note_imported(b"tex".to_vec(), found.data.handle_id);

    // A second unforced find is answered from B's cache: no round trip.
    assert!(!cache_b.find_needs_round_trip(&b"tex".to_vec(), false));

    // Client A recreates "tex" at 8x8 with overwrite: version 2.
    let wire = encode_command(&build_init_command("tex", 8, 8, FMT, true, DEV));
    let reply = broker_dispatch(&mut reg, &wire).unwrap();
    let res = decode_result(&reply).unwrap();
    let recreated = interpret_init_result(&res).unwrap().expect("not created");
    assert_eq!(recreated.data.handle_id, 2);
    assert_eq!(recreated.data.width, 8);

    // A forced find always goes back over the transport and sees version 2.
    assert!(cache_b.find_needs_round_trip(&b"tex".to_vec(), true));
    let wire = encode_command(&build_find_command("tex", DEV));
    let reply = broker_dispatch(&mut reg, &wire).unwrap();
    let res = decode_result(&reply).unwrap();
    let found = interpret_find_result(&res).unwrap().expect("not found");
    assert_eq!(found.data.handle_id, 2);
    let imported = cache_b.imported_id(&b"tex".to_vec()).unwrap();
    assert!(ClientCache::is_update_available(found.data.handle_id, imported));
}

#[test]
fn init_without_overwrite_is_declined_over_the_wire() {
    let mut reg = Registry::new(b"shared_images_".to_vec());
    let wire = encode_command(&build_init_command("tex", 4, 4, FMT, false, DEV));
    let _ = broker_dispatch(&mut reg, &wire);
    let wire = encode_command(&build_init_command("tex", 8, 8, FMT, false, DEV));
    let reply = broker_dispatch(&mut reg, &wire).unwrap();
    let res = decode_result(&reply).unwrap();
    assert!(interpret_init_result(&res).unwrap().is_none());
}

#[test]
fn replies_of_the_wrong_kind_are_protocol_errors() {
    let init_reply = ResultMsg::InitImage(ResultInitImage {
        image_created: true,
        img_data: ImgData::default(),
    });
    let find_reply = ResultMsg::FindImage(ResultFindImage {
        image_found: true,
        img_data: ImgData::default(),
    });
    assert!(matches!(
        interpret_init_result(&find_reply),
        Err(IpcError::UnexpectedResult)
    ));
    assert!(matches!(
        interpret_find_result(&init_reply),
        Err(IpcError::UnexpectedResult)
    ));
}

#[test]
fn cached_imports_gate_the_round_trip() {
    let mut cache = ClientCache::new();
    assert!(cache.find_needs_round_trip(&name_buf_trimmed("pic"), false));
    cache.note_imported(name_buf_trimmed("pic"), 1);
    assert!(!cache.find_needs_round_trip(&name_buf_trimmed("pic"), false));
    assert!(cache.find_needs_round_trip(&name_buf_trimmed("pic"), true));
    assert!(cache.find_needs_round_trip(&name_buf_trimmed("other"), false));
    assert!(!ClientCache::is_update_available(1, 1));
    assert!(ClientCache::is_update_available(2, 1));
}

fn name_buf_trimmed(name: &str) -> Vec<u8> {
    name.as_bytes().to_vec()
}

#[test]
fn commands_survive_the_wire_byte_for_byte() {
    let cmd = build_init_command("roundtrip", 32, 16, ImgFormat::B8G8R8A8, true, 42);
    let bytes = encode_command(&cmd);
    match decode_command(&bytes).unwrap() {
        CommandMsg::InitImage(c) => {
            assert_eq!(c.image_name, name_buf("roundtrip"));
            assert_eq!(c.width, 32);
            assert_eq!(c.height, 16);
            assert_eq!(c.format, ImgFormat::B8G8R8A8);
            assert!(c.overwrite_existing);
            assert_eq!(c.gpu_device_uuid, 42);
        }
        _ => panic!("wrong variant"),
    }
}

#[test]
fn reactor_routes_events_by_key() {
    assert_eq!(classify_event(LISTENER_EVENT_KEY, 3), EventClass::ListenerReady);
    assert_eq!(classify_event(1, 3), EventClass::ConnectionReady(1));
    assert_eq!(classify_event(7, 3), EventClass::Stale);
}

#[test]
fn disconnect_removes_only_that_connection() {
    let mut conns: Vec<u64> = vec![10, 11, 12, 13];
    // The peer of connection 1 went away mid-command.
    let (close, cmd) = connection_step(RecvStatus::ClosedByPeer);
    assert!(close);
    assert!(cmd.is_none());
    remove_connection(&mut conns, 1);
    assert_eq!(conns, vec![10, 12, 13]);
    // The others are still served.
    let (close, _) = connection_step(RecvStatus::NothingYet);
    assert!(!close);
}

#[test]
fn idle_broker_stops_only_past_its_deadline() {
    assert!(!should_stop(2, 10_000, 5_000, false));
    assert!(!should_stop(0, 4_000, 5_000, false));
    assert!(should_stop(0, 5_001, 5_000, false));
    assert!(should_stop(3, 0, 5_000, true));
    assert_eq!(next_idle_deadline(2, 1_000, 500, 9_999), 1_500);
    assert_eq!(next_idle_deadline(0, 1_000, 500, 9_999), 9_999);
}

#[test]
fn connection_lifecycle_edges_are_closed() {
    // The command cycle.
    assert!(check_phase_step(ConnPhase::Accepted, ConnPhase::AwaitingCommand));
    assert!(check_phase_step(ConnPhase::AwaitingCommand, ConnPhase::Decoding));
    assert!(check_phase_step(ConnPhase::Decoding, ConnPhase::Dispatching));
    assert!(check_phase_step(ConnPhase::Dispatching, ConnPhase::SendingResult));
    assert!(check_phase_step(ConnPhase::SendingResult, ConnPhase::AwaitingCommand));
    // The optional handle-transfer tail.
    assert!(check_phase_step(ConnPhase::SendingResult, ConnPhase::TransferringHandles));
    assert!(check_phase_step(ConnPhase::TransferringHandles, ConnPhase::AwaitingAck));
    assert!(check_phase_step(ConnPhase::AwaitingAck, ConnPhase::AwaitingCommand));
    // Closed is reachable from anywhere; nothing leaves it but Closed.
    assert!(check_phase_step(ConnPhase::Dispatching, ConnPhase::Closed));
    assert!(check_phase_step(ConnPhase::Closed, ConnPhase::Closed));
    assert!(!check_phase_step(ConnPhase::Closed, ConnPhase::AwaitingCommand));
    assert!(!check_phase_step(ConnPhase::Accepted, ConnPhase::Dispatching));
    assert!(!check_phase_step(ConnPhase::AwaitingCommand, ConnPhase::SendingResult));
}
