use tguirs::items::{
    ActivityType, CpuUsage, Create, CreateButtonResponse, CreateSurfaceViewResponse, Format, Method,
    NewActivityResponse, SendTouchEventResponse, SetTextResponse, SurfaceViewSetBufferResponse,
    Visibility,
};
use tguirs::views::touch_event_outcome;
use tguirs::{Activity, Connection, HardwareBuffer, SetEv, TguiErr, View};

fn conn() -> Connection {
    Connection { main: 3, event: 4 }
}

fn act() -> Activity {
    Activity { c: conn(), id: 11, tid: 22 }
}

#[test]
fn toast_request_carries_text() {
    match Connection::toast_request("Click!".to_string(), true) {
        Method::Toast(t) => {
            assert_eq!(t.text, "Click!");
            assert!(t.long);
        }
        _ => panic!("not a toast"),
    }
}

#[test]
fn new_activity_request_is_normal() {
    match Connection::new_activity_request(-1, false) {
        Method::NewActivity(r) => {
            assert_eq!(r.tid, -1);
            assert_eq!(r.activity_type, ActivityType::Normal);
            assert!(!r.intercept_back_button);
        }
        _ => panic!("not a new activity request"),
    }
}

#[test]
fn new_task_takes_task_from_reply() {
    let a = conn().activity_from_response(-1, NewActivityResponse { aid: 5, tid: 9 });
    assert_eq!(a.id, 5);
    assert_eq!(a.tid, 9);
    assert_eq!(a.c, conn());
}

#[test]
fn given_task_is_kept() {
    let a = conn().activity_from_response(3, NewActivityResponse { aid: 5, tid: 9 });
    assert_eq!(a.id, 5);
    assert_eq!(a.tid, 3);
}

#[test]
fn gen_create_is_top_level_visible() {
    assert_eq!(act().gen_create(), Create { aid: 11, parent: -1, v: Visibility::Visible });
}

#[test]
fn button_request_and_id() {
    match act().button_request("Button".to_string(), false) {
        Method::CreateButton(r) => {
            assert_eq!(r.data, Some(Create { aid: 11, parent: -1, v: Visibility::Visible }));
            assert_eq!(r.text, "Button");
            assert!(!r.allcaps);
        }
        _ => panic!("not a button request"),
    }
    let b = act().button_from_response(CreateButtonResponse { id: 42 });
    assert_eq!(b.get_id(), 42);
    assert_eq!(*b.get_act(), act());
}

#[test]
fn set_text_names_the_button() {
    let b = act().button_from_response(CreateButtonResponse { id: 42 });
    match b.set_text_request("hi".to_string()) {
        Method::SetText(r) => {
            assert_eq!(r.v, Some(tguirs::items::View { aid: 11, id: 42 }));
            assert_eq!(r.text, "hi");
        }
        _ => panic!("not a set text request"),
    }
}

#[test]
fn set_text_outcomes() {
    assert!(tguirs::Button::set_text_outcome(SetTextResponse { success: true }).is_ok());
    assert!(matches!(
        tguirs::Button::set_text_outcome(SetTextResponse { success: false }),
        Err(TguiErr::Msg("surface view: set hardware buffer"))
    ));
}

#[test]
fn surface_view_request_and_buffer() {
    match act().surface_view_request() {
        Method::CreateSurfaceView(r) => {
            assert_eq!(r.data, Some(act().gen_create()));
            assert!(!r.keyboard);
            assert!(r.secure);
        }
        _ => panic!("not a surface view request"),
    }
    let s = act().surface_view_from_response(CreateSurfaceViewResponse { id: 7 });
    assert_eq!(s.get_id(), 7);
    let hb = HardwareBuffer { id: 3, buffer: 0x1000, width: 640, height: 480 };
    match s.set_hb_request(&hb) {
        Method::SetSurfaceBuffer(r) => {
            assert_eq!(r.v, Some(tguirs::items::View { aid: 11, id: 7 }));
            assert_eq!(r.buffer, 3);
        }
        _ => panic!("not a set buffer request"),
    }
}

#[test]
fn set_hb_outcomes() {
    assert!(tguirs::SurfaceView::set_hb_outcome(SurfaceViewSetBufferResponse { success: true }).is_ok());
    assert!(matches!(
        tguirs::SurfaceView::set_hb_outcome(SurfaceViewSetBufferResponse { success: false }),
        Err(TguiErr::Msg("surface view: set hardware buffer"))
    ));
}

#[test]
fn touch_events_name_the_view() {
    let s = act().surface_view_from_response(CreateSurfaceViewResponse { id: 7 });
    match s.touch_event_request(true) {
        Method::SendTouchEvent(r) => {
            assert_eq!(r.v, Some(tguirs::items::View { aid: 11, id: 7 }));
            assert!(r.send);
        }
        _ => panic!("not a touch event request"),
    }
    assert_eq!(act().gen_view(&s), tguirs::items::View { aid: 11, id: 7 });
}

#[test]
fn touch_event_outcomes() {
    assert!(touch_event_outcome(SendTouchEventResponse { success: true }).is_ok());
    assert!(matches!(
        touch_event_outcome(SendTouchEventResponse { success: false }),
        Err(TguiErr::Msg("send_touch_event: error"))
    ));
}

#[test]
fn hardware_buffer_request_fields() {
    match Connection::hardware_buffer_request(640, 480) {
        Method::CreateHardwareBuffer(r) => {
            assert_eq!(r.width, 640);
            assert_eq!(r.height, 480);
            assert_eq!(r.format, Format::Rgba8888);
            assert_eq!(r.cpu_read, CpuUsage::Rarely);
            assert_eq!(r.cpu_write, CpuUsage::Rarely);
        }
        _ => panic!("not a hardware buffer request"),
    }
}

#[test]
fn hardware_buffer_ids() {
    assert!(matches!(Connection::hardware_buffer_id([0, 0, 1, 7]), Ok(263)));
    assert!(matches!(Connection::hardware_buffer_id([0x7f, 0xff, 0xff, 0xff]), Ok(i32::MAX)));
    for bytes in [[0u8, 0, 0, 0], [0x80, 0, 0, 0], [0xff, 0xff, 0xff, 0xff]] {
        assert!(matches!(
            Connection::hardware_buffer_id(bytes),
            Err(TguiErr::Msg("new_hardware_buffer"))
        ));
        assert!(i32::from_be_bytes(bytes) <= 0);
    }
}

#[test]
fn hardware_buffer_from_parts() {
    let hb = HardwareBuffer::from_parts(5, Some(0x2000), 10, 20).ok().unwrap();
    assert_eq!(hb, HardwareBuffer { id: 5, buffer: 0x2000, width: 10, height: 20 });
    assert!(matches!(
        HardwareBuffer::from_parts(5, None, 10, 20),
        Err(TguiErr::Msg("failed to receive AHardwareBuffer"))
    ));
}
