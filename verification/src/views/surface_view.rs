//! Surface views, which show hardware buffers.

use vstd::prelude::*;

use crate::activity::Activity;
use crate::hardwarebuffer::HardwareBuffer;
use crate::items::{Visibility, 
    CreateSurfaceViewRequest, CreateSurfaceViewResponse, Method, SurfaceViewSetBufferRequest,
    SurfaceViewSetBufferResponse,
};
use crate::terr::{Res, TguiErr};

verus! {

/// A surface view in an activity.
#[derive(Debug, Clone, Copy, PartialEq, Eq, Structural)]
pub struct SurfaceView {
    a: Activity,
    id: i32,
}

impl Activity {
    /// The request that creates a secure surface view without keyboard at
    /// the top level of this activity.
    pub fn surface_view_request(&self) -> (m: Method)
        ensures
            m == Method::CreateSurfaceView(
                CreateSurfaceViewRequest {
                    data: Some(self.gen_create_spec()),
                    keyboard: false,
                    secure: true,
                },
            ),
            m matches Method::CreateSurfaceView(r) && r.data matches Some(c) && c.aid == self.id
                && c.parent == -1 && c.v == Visibility::Visible,
    {
        Method::CreateSurfaceView(
            CreateSurfaceViewRequest { data: Some(self.gen_create()), keyboard: false, secure: true },
        )
    }

    /// The surface view that the reply `res` names, in this activity.
    pub fn surface_view_from_response(&self, res: CreateSurfaceViewResponse) -> (s: SurfaceView)
        ensures
            s.act() == *self,
            s.id() == res.id,
    {
        SurfaceView { a: *self, id: res.id }
    }
}

impl SurfaceView {
    /// The activity of the surface view.
    pub closed spec fn act(&self) -> Activity {
        self.a
    }

    /// The id that the service gave the surface view.
    pub closed spec fn id(&self) -> i32 {
        self.id
    }

    /// The request that shows hardware buffer `hb` in this surface view.
    pub fn set_hb_request(&self, hb: &HardwareBuffer) -> (m: Method)
        ensures
            m == Method::SetSurfaceBuffer(
                SurfaceViewSetBufferRequest {
                    v: Some(crate::items::View { aid: self.act().id, id: self.id() }),
                    buffer: hb.id,
                },
            ),
    {
        Method::SetSurfaceBuffer(
            SurfaceViewSetBufferRequest {
                v: Some(crate::items::View { aid: self.a.id, id: self.id }),
                buffer: hb.id,
            },
        )
    }

    /// What the reply to a set-buffer request means: success, or the
    /// refusal `surface view: set hardware buffer`.
    pub fn set_hb_outcome(res: SurfaceViewSetBufferResponse) -> (r: Res<()>)
        ensures
            r == (if res.success {
                Ok::<(), TguiErr>(())
            } else {
                Err(TguiErr::Msg("surface view: set hardware buffer"))
            }),
    {
        if res.success {
            Ok(())
        } else {
            Err(TguiErr::Msg("surface view: set hardware buffer"))
        }
    }
}

impl crate::views::View for SurfaceView {
    open spec fn view_id(&self) -> i32 {
        self.id()
    }

    open spec fn view_act(&self) -> Activity {
        self.act()
    }

    fn get_id(&self) -> (id: i32) {
        self.id
    }

    fn get_act(&self) -> (a: &Activity) {
        &self.a
    }
}

} // verus!
