use tguirs::connection::{PROTOCOL_PROTOBUF, SOCKET_NAME_LEN};
use tguirs::Connection;

#[test]
fn socket_names_are_fifty_alphanumerics() {
    let a = Connection::socket_name();
    let b = Connection::socket_name();
    assert_eq!(a.len(), SOCKET_NAME_LEN);
    assert_eq!(a.chars().count(), 50);
    assert!(a.chars().all(|c| c.is_ascii_alphanumeric()));
    assert!(b.chars().all(|c| c.is_ascii_alphanumeric()));
}

#[test]
fn broadcast_names_both_sockets() {
    let args = Connection::broadcast_args("mainname", "eventname");
    assert_eq!(
        args,
        vec![
            "broadcast",
            "-n",
            "com.termux.gui/.GUIReceiver",
            "--es",
            "mainSocket",
            "mainname",
            "--es",
            "eventSocket",
            "eventname",
        ]
    );
}

#[test]
fn protobuf_is_protocol_zero() {
    assert_eq!(PROTOCOL_PROTOBUF, 0);
}
