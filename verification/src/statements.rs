use vstd::prelude::*;

use crate::clock::{is_clock_reading, read_clock, read_from_clock};
use crate::query::{Content, Create, Query, QueryView, Value, ValueView};
use crate::records::{Audit, Event, Group, Membership, Timestamp, User};

verus! {

/// Reads the user with a uid.
pub const USER_BY_ID: &'static str = "SELECT * FROM user WHERE uid=$uid;";

/// Reads the user with an email address.
pub const USER_BY_EMAIL: &'static str = "SELECT * FROM user WHERE email=$email;";

/// Reads every user.
pub const ALL_USERS: &'static str = "SELECT * FROM user;";

/// Reads every group.
pub const ALL_GROUPS: &'static str = "SELECT * FROM group;";

/// Reads every event.
pub const ALL_EVENTS: &'static str = "SELECT * FROM event;";

/// Reads the whole audit log.
pub const ALL_AUDIT: &'static str = "SELECT * FROM audit;";

/// Reads the group with a gid.
pub const GROUP_BY_GID: &'static str = "SELECT * FROM group WHERE gid=$gid;";

/// Reads the groups that a user owns.
pub const GROUPS_BY_OWNER: &'static str = "SELECT * FROM group WHERE owner=$uid;";

/// Reads the event with an eid.
pub const EVENT_BY_EID: &'static str = "SELECT * FROM event WHERE eid=$eid;";

/// Lists the memberships of a user.
pub const MEMBERSHIPS_OF_USER: &'static str = "SELECT * FROM membership WHERE uid=$uid;";

/// Lists the memberships in a group.
pub const MEMBERSHIPS_OF_GROUP: &'static str = "SELECT * FROM membership WHERE gid=$gid;";

/// Reads the membership of a user in a group.
pub const MEMBERSHIP_OF_USER_IN_GROUP: &'static str = "SELECT * FROM membership WHERE gid=$gid AND uid=$uid;";

/// Removes the membership of a user in a group.
pub const DELETE_MEMBERSHIP: &'static str = "DELETE membership WHERE uid=$uid AND gid=$gid";

/// Gives the user with an email address a pending code and its process.
pub const SET_LOGIN_CODE: &'static str = "UPDATE user SET code=$code, process=$process WHERE email=$email;";

/// Marks as verified the one user with a pending code and process, dates the
/// verification and clears the code.
pub const VERIFY_CODE: &'static str = "\n            UPDATE ONLY user\n                SET\n                    verified=$verified,\n                    code='',\n                    verification_date=$date\n                WHERE code=$code AND process=$process;";

/// Updates the name, location and description of a group.
pub const UPDATE_GROUP: &'static str = "\n            UPDATE group\n            SET\n                name=$name,\n                location=$location,\n                description=$description\n            WHERE gid=$gid;";

/// Updates the profile of a user.
pub const UPDATE_USER: &'static str = "\n            UPDATE user\n            SET\n                name=$name,\n                about=$about,\n                gitlab=$gitlab,\n                linkedin=$linkedin,\n                github=$github\n            WHERE uid=$uid;";

/// Makes user email addresses unique.
pub const USER_EMAIL_INDEX: &'static str = "DEFINE INDEX user_email ON TABLE user COLUMNS email UNIQUE";

/// Makes each (uid, gid) pair of memberships unique.
pub const MEMBERSHIP_INDEX: &'static str = "DEFINE INDEX member_ship ON TABLE membership COLUMNS uid, gid UNIQUE";

/// Makes counter names unique.
pub const COUNTER_NAME_INDEX: &'static str = "DEFINE INDEX counter_name ON TABLE counter COLUMNS name UNIQUE";

/// Creates a counter at the given count, or adds 1 to it when it exists.
pub const COUNTER_INCREMENT: &'static str = "\n            INSERT INTO counter (name, count)\n                VALUES ($name, $count) ON DUPLICATE KEY UPDATE count += 1;\n        ";

/// A statement with no parameters.
pub open spec fn plain_view(text: &'static str) -> QueryView {
    QueryView { text: text@, bindings: seq![] }
}

/// The statement that reads the user with the given uid.
pub open spec fn user_by_id_view(uid: usize) -> QueryView {
    QueryView { text: USER_BY_ID@, bindings: seq![("uid"@, ValueView::Usize(uid))] }
}

/// The statement that reads the user with the given email address.
pub open spec fn user_by_email_view(email: Seq<char>) -> QueryView {
    QueryView { text: USER_BY_EMAIL@, bindings: seq![("email"@, ValueView::Text(email))] }
}

/// The statement that reads the group with the given gid.
pub open spec fn group_by_gid_view(gid: usize) -> QueryView {
    QueryView { text: GROUP_BY_GID@, bindings: seq![("gid"@, ValueView::Usize(gid))] }
}

/// The statement that reads the groups that the user `uid` owns.
pub open spec fn groups_by_owner_view(uid: usize) -> QueryView {
    QueryView { text: GROUPS_BY_OWNER@, bindings: seq![("uid"@, ValueView::Usize(uid))] }
}

/// The statement that reads the event with the given eid.
pub open spec fn event_by_eid_view(eid: usize) -> QueryView {
    QueryView { text: EVENT_BY_EID@, bindings: seq![("eid"@, ValueView::Usize(eid))] }
}

/// The statement that lists the memberships of the user `uid`.
pub open spec fn memberships_of_user_view(uid: usize) -> QueryView {
    QueryView { text: MEMBERSHIPS_OF_USER@, bindings: seq![("uid"@, ValueView::Usize(uid))] }
}

/// The statement that lists the memberships in the group `gid`.
pub open spec fn memberships_of_group_view(gid: usize) -> QueryView {
    QueryView { text: MEMBERSHIPS_OF_GROUP@, bindings: seq![("gid"@, ValueView::Usize(gid))] }
}

/// The statement that reads the membership of the user `uid` in the group `gid`.
pub open spec fn membership_view(gid: usize, uid: usize) -> QueryView {
    QueryView {
        text: MEMBERSHIP_OF_USER_IN_GROUP@,
        bindings: seq![("gid"@, ValueView::Usize(gid)), ("uid"@, ValueView::Usize(uid))],
    }
}

/// The statement that removes the membership of the user `uid` in the group `gid`.
pub open spec fn leave_group_view(gid: usize, uid: usize) -> QueryView {
    QueryView {
        text: DELETE_MEMBERSHIP@,
        bindings: seq![("uid"@, ValueView::Usize(uid)), ("gid"@, ValueView::Usize(gid))],
    }
}

/// The statement that gives the user with the given email a pending `code`
/// for `process`.
pub open spec fn login_code_view(email: Seq<char>, process: Seq<char>, code: Seq<char>) -> QueryView {
    QueryView {
        text: SET_LOGIN_CODE@,
        bindings: seq![
            ("email"@, ValueView::Text(email)),
            ("process"@, ValueView::Text(process)),
            ("code"@, ValueView::Text(code)),
        ],
    }
}

/// The statement that marks as verified, at `date`, the user whose pending
/// code and process are `code` and `process`, and clears that code.
pub open spec fn verify_code_view(process: Seq<char>, code: Seq<char>, date: Timestamp) -> QueryView {
    QueryView {
        text: VERIFY_CODE@,
        bindings: seq![
            ("verified"@, ValueView::Bool(true)),
            ("code"@, ValueView::Text(code)),
            ("date"@, ValueView::Time(date)),
            ("process"@, ValueView::Text(process)),
        ],
    }
}

/// The statement that updates the name, location and description of the
/// group `gid`.
pub open spec fn update_group_view(
    gid: usize,
    name: Seq<char>,
    location: Seq<char>,
    description: Seq<char>,
) -> QueryView {
    QueryView {
        text: UPDATE_GROUP@,
        bindings: seq![
            ("name"@, ValueView::Text(name)),
            ("location"@, ValueView::Text(location)),
            ("description"@, ValueView::Text(description)),
            ("gid"@, ValueView::Usize(gid)),
        ],
    }
}

/// The statement that updates the profile of the user `uid`.
pub open spec fn update_user_view(
    uid: usize,
    name: Seq<char>,
    github: Seq<char>,
    gitlab: Seq<char>,
    linkedin: Seq<char>,
    about: Seq<char>,
) -> QueryView {
    QueryView {
        text: UPDATE_USER@,
        bindings: seq![
            ("name"@, ValueView::Text(name)),
            ("github"@, ValueView::Text(github)),
            ("gitlab"@, ValueView::Text(gitlab)),
            ("linkedin"@, ValueView::Text(linkedin)),
            ("uid"@, ValueView::Usize(uid)),
            ("about"@, ValueView::Text(about)),
        ],
    }
}

/// The statement that creates the counter `name` at 1, or adds 1 to it.
pub open spec fn counter_bump_view(name: Seq<char>) -> QueryView {
    QueryView {
        text: COUNTER_INCREMENT@,
        bindings: seq![("name"@, ValueView::Text(name)), ("count"@, ValueView::I32(1))],
    }
}

pub(crate) fn plain(text: &'static str) -> (q: Query<'static>)
    ensures
        q@ == plain_view(text),
{
    Query { text, bindings: Vec::new() }
}

pub(crate) fn with_one<'a>(text: &'static str, name: &'static str, value: Value<'a>) -> (q: Query<'a>)
    ensures
        q@ == (QueryView { text: text@, bindings: seq![(name@, value@)] }),
{
    let mut bindings = Vec::new();
    bindings.push((name, value));
    Query { text, bindings }
}

pub(crate) fn with_two<'a>(
    text: &'static str,
    name0: &'static str,
    value0: Value<'a>,
    name1: &'static str,
    value1: Value<'a>,
) -> (q: Query<'a>)
    ensures
        q@ == (QueryView { text: text@, bindings: seq![(name0@, value0@), (name1@, value1@)] }),
{
    let mut bindings = Vec::new();
    bindings.push((name0, value0));
    bindings.push((name1, value1));
    Query { text, bindings }
}

/// Stores a new user.
pub fn add_user<'a>(user: &'a User) -> (c: Create<'a>)
    ensures
        c.table@ == "user"@,
        c.content == Content::User(user),
{
    Create { table: "user", content: Content::User(user) }
}

/// Stores a new event.
pub fn add_event<'a>(event: &'a Event) -> (c: Create<'a>)
    ensures
        c.table@ == "event"@,
        c.content == Content::Event(event),
{
    Create { table: "event", content: Content::Event(event) }
}

/// Stores a new group.
pub fn add_group<'a>(group: &'a Group) -> (c: Create<'a>)
    ensures
        c.table@ == "group"@,
        c.content == Content::Group(group),
{
    Create { table: "group", content: Content::Group(group) }
}

/// Marks as verified, at `date`, the one user whose pending code and process
/// are the given ones, and clears that code.
pub fn verify_code_at<'a>(process: &'a str, code: &'a str, date: Timestamp) -> (q: Query<'a>)
    ensures
        q@ == verify_code_view(process@, code@, date),
{
    let mut bindings = Vec::new();
    bindings.push(("verified", Value::Bool(true)));
    bindings.push(("code", Value::Text(code)));
    bindings.push(("date", Value::Time(date)));
    bindings.push(("process", Value::Text(process)));
    Query { text: VERIFY_CODE, bindings }
}

/// `verify_code_at` with the current time as the verification date.
pub fn verify_code<'a>(process: &'a str, code: &'a str) -> (q: Query<'a>)
    ensures
        exists|date: Timestamp|
            is_clock_reading(date) && q@ == #[trigger] verify_code_view(process@, code@, date),
        exists|date: Timestamp| read_from_clock(date) && q@ == verify_code_view(process@, code@, date),
{
    verify_code_at(process, code, read_clock())
}

/// Updates the name, location and description of the group with the given gid.
pub fn update_group<'a>(gid: usize, name: &'a str, location: &'a str, description: &'a str) -> (q:
    Query<'a>)
    ensures
        q@ == update_group_view(gid, name@, location@, description@),
{
    let mut bindings = Vec::new();
    bindings.push(("name", Value::Text(name)));
    bindings.push(("location", Value::Text(location)));
    bindings.push(("description", Value::Text(description)));
    bindings.push(("gid", Value::Usize(gid)));
    Query { text: UPDATE_GROUP, bindings }
}

/// Updates the profile (name, links, about text) of the user with the given uid.
pub fn update_user<'a>(
    uid: usize,
    name: &'a str,
    github: &'a str,
    gitlab: &'a str,
    linkedin: &'a str,
    about: &'a str,
) -> (q: Query<'a>)
    ensures
        q@ == update_user_view(uid, name@, github@, gitlab@, linkedin@, about@),
{
    let mut bindings = Vec::new();
    bindings.push(("name", Value::Text(name)));
    bindings.push(("github", Value::Text(github)));
    bindings.push(("gitlab", Value::Text(gitlab)));
    bindings.push(("linkedin", Value::Text(linkedin)));
    bindings.push(("uid", Value::Usize(uid)));
    bindings.push(("about", Value::Text(about)));
    Query { text: UPDATE_USER, bindings }
}

/// Reads the user with the given uid.
pub fn get_user_by_id(uid: usize) -> (q: Query<'static>)
    ensures
        q@ == user_by_id_view(uid),
{
    with_one(USER_BY_ID, "uid", Value::Usize(uid))
}

/// Reads the user with the given email address.
pub fn get_user_by_email<'a>(email: &'a str) -> (q: Query<'a>)
    ensures
        q@ == user_by_email_view(email@),
{
    with_one(USER_BY_EMAIL, "email", Value::Text(email))
}

/// Gives the user with the given email address a pending code for `process`.
pub fn add_login_code_to_user<'a>(email: &'a str, process: &'a str, code: &'a str) -> (q: Query<'a>)
    ensures
        q@ == login_code_view(email@, process@, code@),
{
    let mut bindings = Vec::new();
    bindings.push(("email", Value::Text(email)));
    bindings.push(("process", Value::Text(process)));
    bindings.push(("code", Value::Text(code)));
    Query { text: SET_LOGIN_CODE, bindings }
}

/// Reads every user.
pub fn get_users() -> (q: Query<'static>)
    ensures
        q@ == plain_view(ALL_USERS),
{
    plain(ALL_USERS)
}

/// Reads every group.
pub fn get_groups() -> (q: Query<'static>)
    ensures
        q@ == plain_view(ALL_GROUPS),
{
    plain(ALL_GROUPS)
}

/// Reads the groups that the user with the given uid owns.
pub fn get_groups_by_owner_id(uid: usize) -> (q: Query<'static>)
    ensures
        q@ == groups_by_owner_view(uid),
{
    with_one(GROUPS_BY_OWNER, "uid", Value::Usize(uid))
}

/// Reads the group with the given gid.
pub fn get_group_by_gid(gid: usize) -> (q: Query<'static>)
    ensures
        q@ == group_by_gid_view(gid),
{
    with_one(GROUP_BY_GID, "gid", Value::Usize(gid))
}

/// Reads every event.
pub fn get_events() -> (q: Query<'static>)
    ensures
        q@ == plain_view(ALL_EVENTS),
{
    plain(ALL_EVENTS)
}

/// Reads the event with the given eid.
pub fn get_event_by_eid(eid: usize) -> (q: Query<'static>)
    ensures
        q@ == event_by_eid_view(eid),
{
    with_one(EVENT_BY_EID, "eid", Value::Usize(eid))
}

/// Removes the membership of the user `uid` in the group `gid`.
pub fn leave_group(gid: usize, uid: usize) -> (q: Query<'static>)
    ensures
        q@ == leave_group_view(gid, uid),
{
    with_two(DELETE_MEMBERSHIP, "uid", Value::Usize(uid), "gid", Value::Usize(gid))
}

/// Reads the membership of the user `uid` in the group `gid`.
pub fn get_membership(gid: usize, uid: usize) -> (q: Query<'static>)
    ensures
        q@ == membership_view(gid, uid),
{
    with_two(MEMBERSHIP_OF_USER_IN_GROUP, "gid", Value::Usize(gid), "uid", Value::Usize(uid))
}

/// Reads the whole audit log.
pub fn get_audit() -> (q: Query<'static>)
    ensures
        q@ == plain_view(ALL_AUDIT),
{
    plain(ALL_AUDIT)
}

/// The membership that a user gets on joining a group at `date`.
pub open spec fn new_membership(gid: usize, uid: usize, date: Timestamp) -> Membership {
    Membership { uid, gid, join_date: date, admin: false }
}

/// Stores that the user `uid` joined the group `gid` at `date`, without admin
/// rights.
pub fn join_group_at(gid: usize, uid: usize, date: Timestamp) -> (c: Create<'static>)
    ensures
        c.table@ == "membership"@,
        c.content == Content::Membership(new_membership(gid, uid, date)),
{
    Create { table: "membership", content: Content::Membership(Membership { uid, gid, join_date: date, admin: false }) }
}

/// `join_group_at` with the current time as the joining date.
pub fn join_group(gid: usize, uid: usize) -> (c: Create<'static>)
    ensures
        c.table@ == "membership"@,
        exists|date: Timestamp|
            is_clock_reading(date) && c.content == Content::Membership(
                #[trigger] new_membership(gid, uid, date),
            ),
        exists|date: Timestamp|
            read_from_clock(date) && c.content == Content::Membership(#[trigger] new_membership(gid, uid, date)),
{
    join_group_at(gid, uid, read_clock())
}

/// Appends `text`, dated `date`, to the audit log.
pub fn audit_at(text: String, date: Timestamp) -> (c: Create<'static>)
    ensures
        c.table@ == "audit"@,
        c.content == Content::Audit(Audit { date, text }),
{
    Create { table: "audit", content: Content::Audit(Audit { date, text }) }
}

/// `audit_at` with the current time as the date.
pub fn audit(text: String) -> (c: Create<'static>)
    ensures
        c.table@ == "audit"@,
        c.content matches Content::Audit(entry) && entry.text == text && is_clock_reading(entry.date),
        c.content matches Content::Audit(entry) && read_from_clock(entry.date),
{
    audit_at(text, read_clock())
}

} // verus!
