//! Session state of a signed-in player, and the HTTP poster handle.
//!
//! The token exchange itself is an external collaborator: it talks to
//! third-party endpoints and stays outside the library. What the library
//! owns is the session state those flows fill in.

use vstd::prelude::*;

verus! {

/// The state of a login session. A fresh session is signed out and empty.
pub struct Login {
    pub logged: bool,
    pub name: String,
    pub uuid: String,
    pub refresh_id: String,
}

impl Login {
    pub fn new() -> (r: Login)
        ensures
            !r.logged,
            r.name@ == Seq::<char>::empty(),
            r.uuid@ == Seq::<char>::empty(),
            r.refresh_id@ == Seq::<char>::empty(),
    {
        Login {
            logged: false,
            name: String::new(),
            uuid: String::new(),
            refresh_id: String::new(),
        }
    }
}

/// A handle for issuing HTTP requests. The requests themselves are I/O and
/// live outside the library; the handle only marks who may issue them.
pub struct Post {}

impl Post {
    pub fn new() -> Post {
        Post {  }
    }
}

} // verus!
