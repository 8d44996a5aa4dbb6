use texture_share_ipc::error::IpcError;

#[test]
fn it_works() {
    let result = texture_share_ipc::add(2, 2);
    assert_eq!(result, 4);
}

#[test]
fn error_descriptions_distinguish_variants() {
    assert_ne!(
        IpcError::Timeout.describe(),
        IpcError::ConnectionClosed.describe()
    );
    assert_eq!(IpcError::UnknownTag.describe(), "unknown command tag");
    assert_eq!(IpcError::BadLength.describe(), "envelope size mismatch");
}
