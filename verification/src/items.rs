//! The protocol messages that this library sends and reads, as plain
//! values. Their wire encoding lives with the application, which converts
//! them to and from the protocol's generated types.

use vstd::prelude::*;

verus! {

/// The kind of activity that is opened.
#[derive(Debug, Clone, Copy, PartialEq, Eq, Structural)]
pub enum ActivityType {
    Normal,
}

/// The visibility a view is created with.
#[derive(Debug, Clone, Copy, PartialEq, Eq, Structural)]
pub enum Visibility {
    Visible,
}

/// The pixel format of a hardware buffer.
#[derive(Debug, Clone, Copy, PartialEq, Eq, Structural)]
pub enum Format {
    Rgba8888,
}

/// How often the CPU reads or writes a hardware buffer.
#[derive(Debug, Clone, Copy, PartialEq, Eq, Structural)]
pub enum CpuUsage {
    Rarely,
}

/// Opens an activity in task `tid` (`-1` for a new task).
#[derive(Debug, Clone, Copy, PartialEq, Eq, Structural)]
pub struct NewActivityRequest {
    pub tid: i32,
    pub activity_type: ActivityType,
    pub intercept_back_button: bool,
}

/// The activity id and task id that the other side assigned.
#[derive(Debug, Clone, Copy, PartialEq, Eq, Structural)]
pub struct NewActivityResponse {
    pub aid: i32,
    pub tid: i32,
}

/// Shows a short (or, with `long`, a long) notice.
#[derive(Debug, Clone)]
pub struct ToastRequest {
    pub text: String,
    pub long: bool,
}

/// Where and how a new view is created.
#[derive(Debug, Clone, Copy, PartialEq, Eq, Structural)]
pub struct Create {
    pub aid: i32,
    pub parent: i32,
    pub v: Visibility,
}

/// A view, named by its activity and its own id.
#[derive(Debug, Clone, Copy, PartialEq, Eq, Structural)]
pub struct View {
    pub aid: i32,
    pub id: i32,
}

/// Creates a button.
#[derive(Debug, Clone)]
pub struct CreateButtonRequest {
    pub data: Option<Create>,
    pub allcaps: bool,
    pub text: String,
}

/// The id of the created button.
#[derive(Debug, Clone, Copy, PartialEq, Eq, Structural)]
pub struct CreateButtonResponse {
    pub id: i32,
}

/// Sets the text of a view.
#[derive(Debug, Clone)]
pub struct SetTextRequest {
    pub v: Option<View>,
    pub text: String,
}

/// Whether the text was set.
#[derive(Debug, Clone, Copy, PartialEq, Eq, Structural)]
pub struct SetTextResponse {
    pub success: bool,
}

/// Creates a surface view.
#[derive(Debug, Clone, Copy, PartialEq, Eq, Structural)]
pub struct CreateSurfaceViewRequest {
    pub data: Option<Create>,
    pub keyboard: bool,
    pub secure: bool,
}

/// The id of the created surface view.
#[derive(Debug, Clone, Copy, PartialEq, Eq, Structural)]
pub struct CreateSurfaceViewResponse {
    pub id: i32,
}

/// Shows a hardware buffer in a surface view.
#[derive(Debug, Clone, Copy, PartialEq, Eq, Structural)]
pub struct SurfaceViewSetBufferRequest {
    pub v: Option<View>,
    pub buffer: i32,
}

/// Whether the buffer was set.
#[derive(Debug, Clone, Copy, PartialEq, Eq, Structural)]
pub struct SurfaceViewSetBufferResponse {
    pub success: bool,
}

/// Allocates a hardware buffer.
#[derive(Debug, Clone, Copy, PartialEq, Eq, Structural)]
pub struct CreateHardwareBufferRequest {
    pub width: i32,
    pub height: i32,
    pub format: Format,
    pub cpu_read: CpuUsage,
    pub cpu_write: CpuUsage,
}

/// Turns the delivery of touch events of a view on or off.
#[derive(Debug, Clone, Copy, PartialEq, Eq, Structural)]
pub struct SendTouchEventRequest {
    pub v: Option<View>,
    pub send: bool,
}

/// Whether the setting was applied.
#[derive(Debug, Clone, Copy, PartialEq, Eq, Structural)]
pub struct SendTouchEventResponse {
    pub success: bool,
}

/// A request on the main socket.
#[derive(Debug, Clone)]
pub enum Method {
    NewActivity(NewActivityRequest),
    Toast(ToastRequest),
    CreateButton(CreateButtonRequest),
    SetText(SetTextRequest),
    CreateSurfaceView(CreateSurfaceViewRequest),
    SetSurfaceBuffer(SurfaceViewSetBufferRequest),
    CreateHardwareBuffer(CreateHardwareBufferRequest),
    SendTouchEvent(SendTouchEventRequest),
}

} // verus!
