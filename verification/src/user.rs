//! The user the program acts as.
use vstd::prelude::*;

verus! {

/// A user account: its name and its user and group ids.
pub struct User {
    pub name: String,
    pub uid: u32,
    pub gid: u32,
}

/// The user named `name` with effective user id `uid` and group id `gid`.
pub fn get_user(name: String, uid: u32, gid: u32) -> (r: User)
    ensures
        r.name@ == name@,
        r.uid == uid,
        r.gid == gid,
{
    User { name, uid, gid }
}

} // verus!
