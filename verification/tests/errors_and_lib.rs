use tguirs::hb::Lib;
use tguirs::TguiErr;

#[test]
fn error_conversions() {
    assert!(matches!(TguiErr::from("boom"), TguiErr::Msg("boom")));
    let e: TguiErr = nix::errno::Errno::EAGAIN.into();
    assert!(matches!(e, TguiErr::Errno(nix::errno::Errno::EAGAIN)));
    let e: TguiErr = std::io::Error::new(std::io::ErrorKind::Other, "x").into();
    assert!(matches!(e, TguiErr::IoError(_)));
}

#[test]
fn decode_error_converts_and_describes() {
    let err = <u32 as prost::Message>::decode(&[0x80u8][..]).unwrap_err();
    let e: TguiErr = err.into();
    assert!(matches!(e, TguiErr::Decode(_)));
    assert!(e.to_string().starts_with("Prost Decode failed: failed to decode Protobuf message: "));
}

#[test]
fn error_texts() {
    assert_eq!(TguiErr::Msg("new_hardware_buffer").to_string(), "new_hardware_buffer");
    assert_eq!(TguiErr::ProtoZeroLen.to_string(), "ProtoZeroLen");
    assert!(TguiErr::Errno(nix::errno::Errno::EAGAIN).to_string().starts_with("nix error: EAGAIN"));
    let io = TguiErr::IoError(std::io::Error::new(std::io::ErrorKind::Other, "gone"));
    assert_eq!(io.to_string(), "IO Error: gone");
}

#[test]
fn lib_loading_state() {
    let l = Lib::unloaded();
    assert!(!l.is_loaded());
    assert_eq!(l.recv_fn(), None);
    let l = Lib::loaded(0x1000, 0x2000);
    assert!(l.is_loaded());
    assert_eq!(l.handle(), 0x1000);
    assert_eq!(l.recv_fn(), Some(0x2000));
}

#[test]
fn lib_recv_outcomes() {
    assert_eq!(Lib::recv_outcome(0, 0x3000), Some(0x3000));
    assert_eq!(Lib::recv_outcome(-1, 0x3000), None);
    assert_eq!(Lib::recv_outcome(0, 0), None);
}

#[test]
fn with_cause_keeps_inner_text() {
    assert_eq!(tguirs::terr::with_cause("IO Error: ", "gone"), "IO Error: gone");
    assert_eq!(tguirs::terr::with_cause("", ""), "");
}

#[test]
fn errno_text_keeps_description() {
    let e = nix::errno::Errno::EAGAIN;
    assert_eq!(TguiErr::Errno(e).to_string(), format!("nix error: {e}"));
}

#[test]
fn lib_handle_and_function_go_together() {
    let l = Lib::unloaded();
    assert_eq!(l.handle(), 0);
    assert!(l.recv_fn().is_none());
    let l = Lib::loaded(1, 2);
    assert_ne!(l.handle(), 0);
    assert!(l.recv_fn().is_some());
}

#[test]
fn decode_text_is_prefixed_display() {
    let err = <u32 as prost::Message>::decode(&[0x80u8][..]).unwrap_err();
    let expected = format!("Prost Decode failed: {err}");
    assert_eq!(TguiErr::Decode(err).to_string(), expected);
}
