//! Buttons.

use vstd::prelude::*;

use crate::activity::Activity;
use crate::items::{Visibility, CreateButtonRequest, CreateButtonResponse, Method, SetTextRequest, SetTextResponse};
use crate::terr::{Res, TguiErr};

verus! {

/// A button in an activity.
#[derive(Debug, Clone, Copy, PartialEq, Eq, Structural)]
pub struct Button {
    a: Activity,
    id: i32,
}

impl Activity {
    /// The request that creates a button showing `text` (in capitals
    /// where `allcaps`) at the top level of this activity.
    pub fn button_request(&self, text: String, allcaps: bool) -> (m: Method)
        ensures
            m == Method::CreateButton(
                CreateButtonRequest { data: Some(self.gen_create_spec()), allcaps, text },
            ),
            m matches Method::CreateButton(r) && r.data matches Some(c) && c.aid == self.id
                && c.parent == -1 && c.v == Visibility::Visible,
    {
        Method::CreateButton(CreateButtonRequest { data: Some(self.gen_create()), allcaps, text })
    }

    /// The button that the reply `res` names, in this activity.
    pub fn button_from_response(&self, res: CreateButtonResponse) -> (b: Button)
        ensures
            b.act() == *self,
            b.id() == res.id,
    {
        Button { a: *self, id: res.id }
    }
}

impl Button {
    /// The activity of the button.
    pub closed spec fn act(&self) -> Activity {
        self.a
    }

    /// The id that the service gave the button.
    pub closed spec fn id(&self) -> i32 {
        self.id
    }

    /// The request that sets the text of this button to `text`.
    pub fn set_text_request(&self, text: String) -> (m: Method)
        ensures
            m == Method::SetText(
                SetTextRequest {
                    v: Some(crate::items::View { aid: self.act().id, id: self.id() }),
                    text,
                },
            ),
    {
        Method::SetText(
            SetTextRequest { v: Some(crate::items::View { aid: self.a.id, id: self.id }), text },
        )
    }

    /// What the reply to a set-text request means: success, or the
    /// library's refusal `surface view: set hardware buffer` (the same text
    /// as the refusal of a set-buffer request).
    pub fn set_text_outcome(res: SetTextResponse) -> (r: Res<()>)
        ensures
            r == (if res.success {
                Ok::<(), TguiErr>(())
            } else {
                Err(TguiErr::Msg("surface view: set hardware buffer"))
            }),
    {
        if res.success {
            Ok(())
        } else {
            Err(TguiErr::Msg("surface view: set hardware buffer"))
        }
    }
}

impl crate::views::View for Button {
    open spec fn view_id(&self) -> i32 {
        self.id()
    }

    open spec fn view_act(&self) -> Activity {
        self.act()
    }

    fn get_id(&self) -> (id: i32) {
        self.id
    }

    fn get_act(&self) -> (a: &Activity) {
        &self.a
    }
}

} // verus!
