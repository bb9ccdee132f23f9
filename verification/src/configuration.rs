//! The settings that the core takes as they are.

use vstd::prelude::*;

verus! {

/// The credential and the identity under which the service is asked.
#[derive(Debug, PartialEq, Eq)]
pub struct ApplicationSettings {
    cookie: String,
    userid: i32,
}

/// The mathematical value of an [`ApplicationSettings`].
pub ghost struct ApplicationSettingsView {
    pub cookie: Seq<char>,
    pub userid: i32,
}

impl View for ApplicationSettings {
    type V = ApplicationSettingsView;

    closed spec fn view(&self) -> ApplicationSettingsView {
        ApplicationSettingsView { cookie: self.cookie@, userid: self.userid }
    }
}

impl ApplicationSettings {
    /// The settings that hold this cookie and this user.
    pub fn new(cookie: String, userid: i32) -> (settings: ApplicationSettings)
        ensures
            settings@ == (ApplicationSettingsView { cookie: cookie@, userid }),
    {
        ApplicationSettings { cookie, userid }
    }

    /// The cookie that goes with every session request.
    pub fn cookie(&self) -> (cookie: &str)
        ensures
            cookie@ == self@.cookie,
    {
        self.cookie.as_str()
    }

    /// The user in whose name queries are registered.
    pub fn userid(&self) -> (userid: i32)
        ensures
            userid == self@.userid,
    {
        self.userid
    }
}

} // verus!
