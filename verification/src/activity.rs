//! Activities: opening one and describing views in it.

use vstd::prelude::*;

use crate::connection::Connection;
use crate::items::{ActivityType, Create, Method, NewActivityRequest, NewActivityResponse, Visibility};
use crate::views::View;

verus! {

/// An activity opened on a connection: its id and the task it runs in.
#[derive(Debug, Clone, Copy, PartialEq, Eq, Structural)]
pub struct Activity {
    pub c: Connection,
    pub id: i32,
    pub tid: i32,
}

impl Connection {
    /// The request that opens a normal activity in task `tid` (`-1` asks
    /// for a new task).
    pub fn new_activity_request(tid: i32, intercept_back_button: bool) -> (m: Method)
        ensures
            m == Method::NewActivity(
                NewActivityRequest {
                    tid,
                    activity_type: ActivityType::Normal,
                    intercept_back_button,
                },
            ),
    {
        Method::NewActivity(
            NewActivityRequest { tid, activity_type: ActivityType::Normal, intercept_back_button },
        )
    }

    /// The activity that the reply `res` to a request for task `tid`
    /// describes: where a new task was asked for, the task is the one the
    /// service chose; else it is the one asked for.
    pub fn activity_from_response(&self, tid: i32, res: NewActivityResponse) -> (a: Activity)
        ensures
            a.c == *self,
            a.id == res.aid,
            a.tid == (if tid == -1 {
                res.tid
            } else {
                tid
            }),
    {
        let mut tid = tid;
        if tid == -1 {
            tid = res.tid;
        }
        Activity { c: *self, id: res.aid, tid }
    }
}

impl Activity {
    /// Where a view of this activity is created: at its top level
    /// (parent `-1`), visible.
    pub open spec fn gen_create_spec(&self) -> Create {
        Create { aid: self.id, parent: -1i32, v: Visibility::Visible }
    }

    /// Where a view of this activity is created: at its top level, visible.
    pub fn gen_create(&self) -> (c: Create)
        ensures
            c == self.gen_create_spec(),
            c.aid == self.id,
            c.parent == -1,
            c.v == Visibility::Visible,
    {
        Create { aid: self.id, parent: -1, v: Visibility::Visible }
    }

    /// A view is created in the activity it is asked of, at its top level
    /// (parent `-1`), visible: for every activity, the creation data names
    /// that activity's own id.
    pub proof fn lemma_views_created_in_own_activity(a: Activity)
        ensures
            a.gen_create_spec().aid == a.id,
            a.gen_create_spec().parent == -1,
            a.gen_create_spec().v == Visibility::Visible,
    {
    }

    /// The protocol's name for view `v` of this activity.
    pub fn gen_view<V: View>(&self, v: &V) -> (r: crate::items::View)
        ensures
            r == (crate::items::View { aid: self.id, id: v.view_id() }),
    {
        crate::items::View { aid: self.id, id: v.get_id() }
    }
}

} // verus!
