//! Desktop notifications, as the library hands them to whoever shows them.

use vstd::prelude::*;

verus! {

/// A notification for the user.
#[derive(Debug, Clone)]
pub struct Notice {
    pub summary: String,
    pub body: String,
    /// The name of the icon to show beside the text.
    pub icon: String,
}

/// The mathematical value of a [`Notice`].
#[verifier::ext_equal]
pub struct NoticeView {
    pub summary: Seq<char>,
    pub body: Seq<char>,
    pub icon: Seq<char>,
}

impl View for Notice {
    type V = NoticeView;

    open spec fn view(&self) -> NoticeView {
        NoticeView { summary: self.summary@, body: self.body@, icon: self.icon@ }
    }
}

} // verus!
