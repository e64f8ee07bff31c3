//! Views of an activity.

pub mod button;
pub mod surface_view;

use vstd::prelude::*;

use crate::activity::Activity;
use crate::items::{Method, SendTouchEventRequest, SendTouchEventResponse};
use crate::terr::{Res, TguiErr};

verus! {

/// A request and, once it came, the reply for a view of an activity.
pub struct ViewType<Req, Rsp> {
    pub req: Req,
    pub res: Option<Rsp>,
    pub a: Activity,
}

/// A view: it has an id, given by the service, and belongs to an activity.
pub trait View {
    /// The id of the view.
    spec fn view_id(&self) -> i32;

    /// The activity that the view belongs to.
    spec fn view_act(&self) -> Activity;

    fn get_id(&self) -> (id: i32)
        ensures
            id == self.view_id(),
    ;

    fn get_act(&self) -> (a: &Activity)
        ensures
            *a == self.view_act(),
    ;
}

/// Views whose touch events can be turned on and off.
pub trait SetEv: View + Sized {
    /// The request that turns the delivery of this view's touch events on
    /// (`send`) or off.
    fn touch_event_request(&self, send: bool) -> (m: Method)
        ensures
            m == Method::SendTouchEvent(
                SendTouchEventRequest {
                    v: Some(
                        crate::items::View { aid: self.view_act().id, id: self.view_id() },
                    ),
                    send,
                },
            ),
    {
        let v = self.get_act().gen_view(self);
        Method::SendTouchEvent(SendTouchEventRequest { v: Some(v), send })
    }
}

impl<T: View> SetEv for T {

}

/// What the reply to a touch event request means: success, or the
/// refusal `send_touch_event: error`.
pub fn touch_event_outcome(res: SendTouchEventResponse) -> (r: Res<()>)
    ensures
        r == (if res.success {
            Ok::<(), TguiErr>(())
        } else {
            Err(TguiErr::Msg("send_touch_event: error"))
        }),
{
    if res.success {
        Ok(())
    } else {
        Err(TguiErr::Msg("send_touch_event: error"))
    }
}

} // verus!
