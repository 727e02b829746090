use vstd::prelude::*;

verus! {

/// A point in time: whole seconds since the Unix epoch, and the nanoseconds
/// past that second.
#[derive(Clone, Copy, Debug, PartialEq, Eq, Structural)]
pub struct Timestamp {
    pub secs: i64,
    pub nanos: u32,
}

/// A registered user.
#[derive(Debug)]
pub struct User {
    pub uid: usize,
    pub name: String,
    pub email: String,
    /// The pending one-time code of a registration or login, empty when none.
    pub code: String,
    /// What the pending code is for ("register", "login", ...).
    pub process: String,
    pub verified: bool,
    pub verification_date: Option<Timestamp>,
    pub github: String,
    pub gitlab: String,
    pub linkedin: String,
    pub about: String,
}

/// An event organised by a group.
#[derive(Debug)]
pub struct Event {
    pub eid: usize,
    pub title: String,
    pub group_id: usize,
}

/// A group of users.
#[derive(Debug)]
pub struct Group {
    pub gid: usize,
    pub name: String,
    pub location: String,
    pub description: String,
    /// The uid of the user who owns the group.
    pub owner: usize,
}

/// That a user belongs to a group, since when, and with which rights.
#[derive(Clone, Copy, Debug, PartialEq, Eq, Structural)]
pub struct Membership {
    pub uid: usize,
    pub gid: usize,
    pub join_date: Timestamp,
    pub admin: bool,
}

/// One line of the audit log.
#[derive(Debug)]
pub struct Audit {
    pub date: Timestamp,
    pub text: String,
}

/// A named counter, from which the service draws fresh ids.
#[derive(Debug)]
pub struct Counter {
    pub name: String,
    pub count: i64,
}

} // verus!
