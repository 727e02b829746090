use vstd::prelude::*;

use crate::query::{
    binds_exactly_its_parameters, bound_names, name_end, parameters, parameters_from, ValueView,
};
use crate::records::Timestamp;
use crate::statements::{
    counter_bump_view, event_by_eid_view, group_by_gid_view, groups_by_owner_view, leave_group_view,
    login_code_view, membership_view, memberships_of_group_view, new_membership, memberships_of_user_view, plain_view,
    update_group_view, update_user_view, user_by_email_view, user_by_id_view, verify_code_view, ALL_AUDIT,
    ALL_EVENTS, ALL_GROUPS, ALL_USERS, COUNTER_INCREMENT, COUNTER_NAME_INDEX, DELETE_MEMBERSHIP,
    EVENT_BY_EID, GROUPS_BY_OWNER, GROUP_BY_GID, MEMBERSHIPS_OF_GROUP, MEMBERSHIPS_OF_USER,
    MEMBERSHIP_INDEX, MEMBERSHIP_OF_USER_IN_GROUP, SET_LOGIN_CODE, UPDATE_GROUP, UPDATE_USER,
    USER_BY_EMAIL, USER_BY_ID, USER_EMAIL_INDEX, VERIFY_CODE,
};

verus! {

/// The parameters that `USER_BY_ID` mentions.
proof fn lemma_user_by_id_parameters()
    ensures
        parameters(USER_BY_ID@) == seq!["uid"@],
{
    reveal_strlit("SELECT * FROM user WHERE uid=$uid;");
    reveal_strlit("uid");
    reveal_with_fuel(parameters_from, 26);
    reveal_with_fuel(name_end, 12);
    let t = USER_BY_ID@;
    assert(t.subrange(30, 33) =~= "uid"@);
    assert(parameters_from(t, 34) =~= Seq::<Seq<char>>::empty());
    assert(parameters_from(t, 10) =~= seq!["uid"@]);
    assert(parameters_from(t, 0) =~= seq!["uid"@]);
}

proof fn lemma_user_by_id_binds_its_parameters(uid: usize)
    ensures
        binds_exactly_its_parameters(user_by_id_view(uid)),
{
    lemma_user_by_id_parameters();
    reveal_strlit("uid");
    let q = user_by_id_view(uid);
    assert(bound_names(q) =~= seq!["uid"@]);
    assert(bound_names(q)[0] == "uid"@);
    assert(parameters(q.text)[0] == "uid"@);
}

/// The parameters that `USER_BY_EMAIL` mentions.
proof fn lemma_user_by_email_parameters()
    ensures
        parameters(USER_BY_EMAIL@) == seq!["email"@],
{
    reveal_strlit("SELECT * FROM user WHERE email=$email;");
    reveal_strlit("email");
    reveal_with_fuel(parameters_from, 26);
    reveal_with_fuel(name_end, 12);
    let t = USER_BY_EMAIL@;
    assert(t.subrange(32, 37) =~= "email"@);
    assert(parameters_from(t, 38) =~= Seq::<Seq<char>>::empty());
    assert(parameters_from(t, 14) =~= seq!["email"@]);
    assert(parameters_from(t, 0) =~= seq!["email"@]);
}

proof fn lemma_user_by_email_binds_its_parameters(email: Seq<char>)
    ensures
        binds_exactly_its_parameters(user_by_email_view(email)),
{
    lemma_user_by_email_parameters();
    reveal_strlit("email");
    let q = user_by_email_view(email);
    assert(bound_names(q) =~= seq!["email"@]);
    assert(bound_names(q)[0] == "email"@);
    assert(parameters(q.text)[0] == "email"@);
}

/// The parameters that `ALL_USERS` mentions.
proof fn lemma_all_users_parameters()
    ensures
        parameters(ALL_USERS@) == Seq::<Seq<char>>::empty(),
{
    reveal_strlit("SELECT * FROM user;");
    reveal_with_fuel(parameters_from, 26);
    reveal_with_fuel(name_end, 12);
    let t = ALL_USERS@;
    assert(parameters_from(t, 19) =~= Seq::<Seq<char>>::empty());
    assert(parameters_from(t, 0) =~= Seq::<Seq<char>>::empty());
}

proof fn lemma_all_users_binds_its_parameters()
    ensures
        binds_exactly_its_parameters(plain_view(ALL_USERS)),
{
    lemma_all_users_parameters();
    let q = plain_view(ALL_USERS);
    assert(bound_names(q) =~= Seq::<Seq<char>>::empty());
}

/// The parameters that `ALL_GROUPS` mentions.
proof fn lemma_all_groups_parameters()
    ensures
        parameters(ALL_GROUPS@) == Seq::<Seq<char>>::empty(),
{
    reveal_strlit("SELECT * FROM group;");
    reveal_with_fuel(parameters_from, 26);
    reveal_with_fuel(name_end, 12);
    let t = ALL_GROUPS@;
    assert(parameters_from(t, 20) =~= Seq::<Seq<char>>::empty());
    assert(parameters_from(t, 0) =~= Seq::<Seq<char>>::empty());
}

proof fn lemma_all_groups_binds_its_parameters()
    ensures
        binds_exactly_its_parameters(plain_view(ALL_GROUPS)),
{
    lemma_all_groups_parameters();
    let q = plain_view(ALL_GROUPS);
    assert(bound_names(q) =~= Seq::<Seq<char>>::empty());
}

/// The parameters that `ALL_EVENTS` mentions.
proof fn lemma_all_events_parameters()
    ensures
        parameters(ALL_EVENTS@) == Seq::<Seq<char>>::empty(),
{
    reveal_strlit("SELECT * FROM event;");
    reveal_with_fuel(parameters_from, 26);
    reveal_with_fuel(name_end, 12);
    let t = ALL_EVENTS@;
    assert(parameters_from(t, 20) =~= Seq::<Seq<char>>::empty());
    assert(parameters_from(t, 0) =~= Seq::<Seq<char>>::empty());
}

proof fn lemma_all_events_binds_its_parameters()
    ensures
        binds_exactly_its_parameters(plain_view(ALL_EVENTS)),
{
    lemma_all_events_parameters();
    let q = plain_view(ALL_EVENTS);
    assert(bound_names(q) =~= Seq::<Seq<char>>::empty());
}

/// The parameters that `ALL_AUDIT` mentions.
proof fn lemma_all_audit_parameters()
    ensures
        parameters(ALL_AUDIT@) == Seq::<Seq<char>>::empty(),
{
    reveal_strlit("SELECT * FROM audit;");
    reveal_with_fuel(parameters_from, 26);
    reveal_with_fuel(name_end, 12);
    let t = ALL_AUDIT@;
    assert(parameters_from(t, 20) =~= Seq::<Seq<char>>::empty());
    assert(parameters_from(t, 0) =~= Seq::<Seq<char>>::empty());
}

proof fn lemma_all_audit_binds_its_parameters()
    ensures
        binds_exactly_its_parameters(plain_view(ALL_AUDIT)),
{
    lemma_all_audit_parameters();
    let q = plain_view(ALL_AUDIT);
    assert(bound_names(q) =~= Seq::<Seq<char>>::empty());
}

/// The parameters that `GROUP_BY_GID` mentions.
proof fn lemma_group_by_gid_parameters()
    ensures
        parameters(GROUP_BY_GID@) == seq!["gid"@],
{
    reveal_strlit("SELECT * FROM group WHERE gid=$gid;");
    reveal_strlit("gid");
    reveal_with_fuel(parameters_from, 26);
    reveal_with_fuel(name_end, 12);
    let t = GROUP_BY_GID@;
    assert(t.subrange(31, 34) =~= "gid"@);
    assert(parameters_from(t, 35) =~= Seq::<Seq<char>>::empty());
    assert(parameters_from(t, 11) =~= seq!["gid"@]);
    assert(parameters_from(t, 0) =~= seq!["gid"@]);
}

proof fn lemma_group_by_gid_binds_its_parameters(gid: usize)
    ensures
        binds_exactly_its_parameters(group_by_gid_view(gid)),
{
    lemma_group_by_gid_parameters();
    reveal_strlit("gid");
    let q = group_by_gid_view(gid);
    assert(bound_names(q) =~= seq!["gid"@]);
    assert(bound_names(q)[0] == "gid"@);
    assert(parameters(q.text)[0] == "gid"@);
}

/// The parameters that `GROUPS_BY_OWNER` mentions.
proof fn lemma_groups_by_owner_parameters()
    ensures
        parameters(GROUPS_BY_OWNER@) == seq!["uid"@],
{
    reveal_strlit("SELECT * FROM group WHERE owner=$uid;");
    reveal_strlit("uid");
    reveal_with_fuel(parameters_from, 26);
    reveal_with_fuel(name_end, 12);
    let t = GROUPS_BY_OWNER@;
    assert(t.subrange(33, 36) =~= "uid"@);
    assert(parameters_from(t, 37) =~= Seq::<Seq<char>>::empty());
    assert(parameters_from(t, 13) =~= seq!["uid"@]);
    assert(parameters_from(t, 0) =~= seq!["uid"@]);
}

proof fn lemma_groups_by_owner_binds_its_parameters(uid: usize)
    ensures
        binds_exactly_its_parameters(groups_by_owner_view(uid)),
{
    lemma_groups_by_owner_parameters();
    reveal_strlit("uid");
    let q = groups_by_owner_view(uid);
    assert(bound_names(q) =~= seq!["uid"@]);
    assert(bound_names(q)[0] == "uid"@);
    assert(parameters(q.text)[0] == "uid"@);
}

/// The parameters that `EVENT_BY_EID` mentions.
proof fn lemma_event_by_eid_parameters()
    ensures
        parameters(EVENT_BY_EID@) == seq!["eid"@],
{
    reveal_strlit("SELECT * FROM event WHERE eid=$eid;");
    reveal_strlit("eid");
    reveal_with_fuel(parameters_from, 26);
    reveal_with_fuel(name_end, 12);
    let t = EVENT_BY_EID@;
    assert(t.subrange(31, 34) =~= "eid"@);
    assert(parameters_from(t, 35) =~= Seq::<Seq<char>>::empty());
    assert(parameters_from(t, 11) =~= seq!["eid"@]);
    assert(parameters_from(t, 0) =~= seq!["eid"@]);
}

proof fn lemma_event_by_eid_binds_its_parameters(eid: usize)
    ensures
        binds_exactly_its_parameters(event_by_eid_view(eid)),
{
    lemma_event_by_eid_parameters();
    reveal_strlit("eid");
    let q = event_by_eid_view(eid);
    assert(bound_names(q) =~= seq!["eid"@]);
    assert(bound_names(q)[0] == "eid"@);
    assert(parameters(q.text)[0] == "eid"@);
}

/// The parameters that `MEMBERSHIPS_OF_USER` mentions.
proof fn lemma_memberships_of_user_parameters()
    ensures
        parameters(MEMBERSHIPS_OF_USER@) == seq!["uid"@],
{
    reveal_strlit("SELECT * FROM membership WHERE uid=$uid;");
    reveal_strlit("uid");
    reveal_with_fuel(parameters_from, 26);
    reveal_with_fuel(name_end, 12);
    let t = MEMBERSHIPS_OF_USER@;
    assert(t.subrange(36, 39) =~= "uid"@);
    assert(parameters_from(t, 40) =~= Seq::<Seq<char>>::empty());
    assert(parameters_from(t, 16) =~= seq!["uid"@]);
    assert(parameters_from(t, 0) =~= seq!["uid"@]);
}

proof fn lemma_memberships_of_user_binds_its_parameters(uid: usize)
    ensures
        binds_exactly_its_parameters(memberships_of_user_view(uid)),
{
    lemma_memberships_of_user_parameters();
    reveal_strlit("uid");
    let q = memberships_of_user_view(uid);
    assert(bound_names(q) =~= seq!["uid"@]);
    assert(bound_names(q)[0] == "uid"@);
    assert(parameters(q.text)[0] == "uid"@);
}

/// The parameters that `MEMBERSHIPS_OF_GROUP` mentions.
proof fn lemma_memberships_of_group_parameters()
    ensures
        parameters(MEMBERSHIPS_OF_GROUP@) == seq!["gid"@],
{
    reveal_strlit("SELECT * FROM membership WHERE gid=$gid;");
    reveal_strlit("gid");
    reveal_with_fuel(parameters_from, 26);
    reveal_with_fuel(name_end, 12);
    let t = MEMBERSHIPS_OF_GROUP@;
    assert(t.subrange(36, 39) =~= "gid"@);
    assert(parameters_from(t, 40) =~= Seq::<Seq<char>>::empty());
    assert(parameters_from(t, 16) =~= seq!["gid"@]);
    assert(parameters_from(t, 0) =~= seq!["gid"@]);
}

proof fn lemma_memberships_of_group_binds_its_parameters(gid: usize)
    ensures
        binds_exactly_its_parameters(memberships_of_group_view(gid)),
{
    lemma_memberships_of_group_parameters();
    reveal_strlit("gid");
    let q = memberships_of_group_view(gid);
    assert(bound_names(q) =~= seq!["gid"@]);
    assert(bound_names(q)[0] == "gid"@);
    assert(parameters(q.text)[0] == "gid"@);
}

/// The parameters that `MEMBERSHIP_OF_USER_IN_GROUP` mentions.
proof fn lemma_membership_parameters()
    ensures
        parameters(MEMBERSHIP_OF_USER_IN_GROUP@) == seq!["gid"@, "uid"@],
{
    reveal_strlit("SELECT * FROM membership WHERE gid=$gid AND uid=$uid;");
    reveal_strlit("gid");
    reveal_strlit("uid");
    reveal_with_fuel(parameters_from, 26);
    reveal_with_fuel(name_end, 12);
    let t = MEMBERSHIP_OF_USER_IN_GROUP@;
    assert(t.subrange(36, 39) =~= "gid"@);
    assert(t.subrange(49, 52) =~= "uid"@);
    assert(parameters_from(t, 53) =~= Seq::<Seq<char>>::empty());
    assert(parameters_from(t, 29) =~= seq!["gid"@, "uid"@]);
    assert(parameters_from(t, 5) =~= seq!["gid"@, "uid"@]);
    assert(parameters_from(t, 0) =~= seq!["gid"@, "uid"@]);
}

proof fn lemma_membership_binds_its_parameters(gid: usize, uid: usize)
    ensures
        binds_exactly_its_parameters(membership_view(gid, uid)),
{
    lemma_membership_parameters();
    reveal_strlit("gid");
    reveal_strlit("uid");
    let q = membership_view(gid, uid);
    assert(bound_names(q) =~= seq!["gid"@, "uid"@]);
    assert("gid"@[0] != "uid"@[0]);
    assert(bound_names(q)[0] == "gid"@);
    assert(bound_names(q)[1] == "uid"@);
    assert(parameters(q.text)[0] == "gid"@);
    assert(parameters(q.text)[1] == "uid"@);
}

/// The parameters that `DELETE_MEMBERSHIP` mentions.
proof fn lemma_leave_group_parameters()
    ensures
        parameters(DELETE_MEMBERSHIP@) == seq!["uid"@, "gid"@],
{
    reveal_strlit("DELETE membership WHERE uid=$uid AND gid=$gid");
    reveal_strlit("gid");
    reveal_strlit("uid");
    reveal_with_fuel(parameters_from, 26);
    reveal_with_fuel(name_end, 12);
    let t = DELETE_MEMBERSHIP@;
    assert(t.subrange(29, 32) =~= "uid"@);
    assert(t.subrange(42, 45) =~= "gid"@);
    assert(parameters_from(t, 45) =~= Seq::<Seq<char>>::empty());
    assert(parameters_from(t, 21) =~= seq!["uid"@, "gid"@]);
    assert(parameters_from(t, 0) =~= seq!["uid"@, "gid"@]);
}

proof fn lemma_leave_group_binds_its_parameters(gid: usize, uid: usize)
    ensures
        binds_exactly_its_parameters(leave_group_view(gid, uid)),
{
    lemma_leave_group_parameters();
    reveal_strlit("gid");
    reveal_strlit("uid");
    let q = leave_group_view(gid, uid);
    assert(bound_names(q) =~= seq!["uid"@, "gid"@]);
    assert("uid"@[0] != "gid"@[0]);
    assert(bound_names(q)[0] == "uid"@);
    assert(bound_names(q)[1] == "gid"@);
    assert(parameters(q.text)[0] == "uid"@);
    assert(parameters(q.text)[1] == "gid"@);
}

/// The parameters that `SET_LOGIN_CODE` mentions.
proof fn lemma_login_code_parameters()
    ensures
        parameters(SET_LOGIN_CODE@) == seq!["code"@, "process"@, "email"@],
{
    reveal_strlit("UPDATE user SET code=$code, process=$process WHERE email=$email;");
    reveal_strlit("code");
    reveal_strlit("email");
    reveal_strlit("process");
    reveal_with_fuel(parameters_from, 26);
    reveal_with_fuel(name_end, 12);
    let t = SET_LOGIN_CODE@;
    assert(t.subrange(22, 26) =~= "code"@);
    assert(t.subrange(37, 44) =~= "process"@);
    assert(t.subrange(58, 63) =~= "email"@);
    assert(parameters_from(t, 64) =~= Seq::<Seq<char>>::empty());
    assert(parameters_from(t, 40) =~= seq!["email"@]);
    assert(parameters_from(t, 16) =~= seq!["code"@, "process"@, "email"@]);
    assert(parameters_from(t, 0) =~= seq!["code"@, "process"@, "email"@]);
}

proof fn lemma_login_code_binds_its_parameters(code: Seq<char>, email: Seq<char>, process: Seq<char>)
    ensures
        binds_exactly_its_parameters(login_code_view(email, process, code)),
{
    lemma_login_code_parameters();
    reveal_strlit("code");
    reveal_strlit("email");
    reveal_strlit("process");
    let q = login_code_view(email, process, code);
    assert(bound_names(q) =~= seq!["email"@, "process"@, "code"@]);
    assert("email"@.len() != "process"@.len());
    assert("email"@.len() != "code"@.len());
    assert("process"@.len() != "code"@.len());
    assert(bound_names(q)[2] == "code"@);
    assert(bound_names(q)[1] == "process"@);
    assert(bound_names(q)[0] == "email"@);
    assert(parameters(q.text)[2] == "email"@);
    assert(parameters(q.text)[1] == "process"@);
    assert(parameters(q.text)[0] == "code"@);
}

/// The parameters that `VERIFY_CODE` mentions.
proof fn lemma_verify_code_parameters()
    ensures
        parameters(VERIFY_CODE@) == seq!["verified"@, "date"@, "code"@, "process"@],
{
    reveal_strlit("\n            UPDATE ONLY user\n                SET\n                    verified=$verified,\n                    code='',\n                    verification_date=$date\n                WHERE code=$code AND process=$process;");
    reveal_strlit("code");
    reveal_strlit("date");
    reveal_strlit("process");
    reveal_strlit("verified");
    reveal_with_fuel(parameters_from, 26);
    reveal_with_fuel(name_end, 12);
    let t = VERIFY_CODE@;
    assert(t.subrange(80, 88) =~= "verified"@);
    assert(t.subrange(158, 162) =~= "date"@);
    assert(t.subrange(191, 195) =~= "code"@);
    assert(t.subrange(209, 216) =~= "process"@);
    assert(parameters_from(t, 217) =~= Seq::<Seq<char>>::empty());
    assert(parameters_from(t, 193) =~= seq!["process"@]);
    assert(parameters_from(t, 169) =~= seq!["code"@, "process"@]);
    assert(parameters_from(t, 145) =~= seq!["date"@, "code"@, "process"@]);
    assert(parameters_from(t, 121) =~= seq!["date"@, "code"@, "process"@]);
    assert(parameters_from(t, 97) =~= seq!["date"@, "code"@, "process"@]);
    assert(parameters_from(t, 73) =~= seq!["verified"@, "date"@, "code"@, "process"@]);
    assert(parameters_from(t, 49) =~= seq!["verified"@, "date"@, "code"@, "process"@]);
    assert(parameters_from(t, 25) =~= seq!["verified"@, "date"@, "code"@, "process"@]);
    assert(parameters_from(t, 1) =~= seq!["verified"@, "date"@, "code"@, "process"@]);
    assert(parameters_from(t, 0) =~= seq!["verified"@, "date"@, "code"@, "process"@]);
}

proof fn lemma_verify_code_binds_its_parameters(code: Seq<char>, date: Timestamp, process: Seq<char>)
    ensures
        binds_exactly_its_parameters(verify_code_view(process, code, date)),
{
    lemma_verify_code_parameters();
    reveal_strlit("code");
    reveal_strlit("date");
    reveal_strlit("process");
    reveal_strlit("verified");
    let q = verify_code_view(process, code, date);
    assert(bound_names(q) =~= seq!["verified"@, "code"@, "date"@, "process"@]);
    assert("verified"@.len() != "code"@.len());
    assert("verified"@.len() != "date"@.len());
    assert("verified"@.len() != "process"@.len());
    assert("code"@[0] != "date"@[0]);
    assert("code"@.len() != "process"@.len());
    assert("date"@.len() != "process"@.len());
    assert(bound_names(q)[0] == "verified"@);
    assert(bound_names(q)[2] == "date"@);
    assert(bound_names(q)[1] == "code"@);
    assert(bound_names(q)[3] == "process"@);
    assert(parameters(q.text)[0] == "verified"@);
    assert(parameters(q.text)[2] == "code"@);
    assert(parameters(q.text)[1] == "date"@);
    assert(parameters(q.text)[3] == "process"@);
}

/// The parameters that `UPDATE_GROUP` mentions.
proof fn lemma_update_group_parameters()
    ensures
        parameters(UPDATE_GROUP@) == seq!["name"@, "location"@, "description"@, "gid"@],
{
    reveal_strlit("\n            UPDATE group\n            SET\n                name=$name,\n                location=$location,\n                description=$description\n            WHERE gid=$gid;");
    reveal_strlit("description");
    reveal_strlit("gid");
    reveal_strlit("location");
    reveal_strlit("name");
    reveal_with_fuel(parameters_from, 26);
    reveal_with_fuel(name_end, 12);
    let t = UPDATE_GROUP@;
    assert(t.subrange(64, 68) =~= "name"@);
    assert(t.subrange(96, 104) =~= "location"@);
    assert(t.subrange(135, 146) =~= "description"@);
    assert(t.subrange(170, 173) =~= "gid"@);
    assert(parameters_from(t, 174) =~= Seq::<Seq<char>>::empty());
    assert(parameters_from(t, 150) =~= seq!["gid"@]);
    assert(parameters_from(t, 126) =~= seq!["description"@, "gid"@]);
    assert(parameters_from(t, 102) =~= seq!["description"@, "gid"@]);
    assert(parameters_from(t, 78) =~= seq!["location"@, "description"@, "gid"@]);
    assert(parameters_from(t, 54) =~= seq!["name"@, "location"@, "description"@, "gid"@]);
    assert(parameters_from(t, 30) =~= seq!["name"@, "location"@, "description"@, "gid"@]);
    assert(parameters_from(t, 6) =~= seq!["name"@, "location"@, "description"@, "gid"@]);
    assert(parameters_from(t, 0) =~= seq!["name"@, "location"@, "description"@, "gid"@]);
}

proof fn lemma_update_group_binds_its_parameters(description: Seq<char>, gid: usize, location: Seq<char>, name: Seq<char>)
    ensures
        binds_exactly_its_parameters(update_group_view(gid, name, location, description)),
{
    lemma_update_group_parameters();
    reveal_strlit("description");
    reveal_strlit("gid");
    reveal_strlit("location");
    reveal_strlit("name");
    let q = update_group_view(gid, name, location, description);
    assert(bound_names(q) =~= seq!["name"@, "location"@, "description"@, "gid"@]);
    assert("name"@.len() != "location"@.len());
    assert("name"@.len() != "description"@.len());
    assert("name"@.len() != "gid"@.len());
    assert("location"@.len() != "description"@.len());
    assert("location"@.len() != "gid"@.len());
    assert("description"@.len() != "gid"@.len());
    assert(bound_names(q)[0] == "name"@);
    assert(bound_names(q)[1] == "location"@);
    assert(bound_names(q)[2] == "description"@);
    assert(bound_names(q)[3] == "gid"@);
    assert(parameters(q.text)[0] == "name"@);
    assert(parameters(q.text)[1] == "location"@);
    assert(parameters(q.text)[2] == "description"@);
    assert(parameters(q.text)[3] == "gid"@);
}

/// The parameters that `UPDATE_USER` mentions.
proof fn lemma_update_user_parameters()
    ensures
        parameters(UPDATE_USER@) == seq!["name"@, "about"@, "gitlab"@, "linkedin"@, "github"@, "uid"@],
{
    reveal_strlit("\n            UPDATE user\n            SET\n                name=$name,\n                about=$about,\n                gitlab=$gitlab,\n                linkedin=$linkedin,\n                github=$github\n            WHERE uid=$uid;");
    reveal_strlit("about");
    reveal_strlit("github");
    reveal_strlit("gitlab");
    reveal_strlit("linkedin");
    reveal_strlit("name");
    reveal_strlit("uid");
    reveal_with_fuel(parameters_from, 26);
    reveal_with_fuel(name_end, 12);
    let t = UPDATE_USER@;
    assert(t.subrange(63, 67) =~= "name"@);
    assert(t.subrange(92, 97) =~= "about"@);
    assert(t.subrange(123, 129) =~= "gitlab"@);
    assert(t.subrange(157, 165) =~= "linkedin"@);
    assert(t.subrange(191, 197) =~= "github"@);
    assert(t.subrange(221, 224) =~= "uid"@);
    assert(parameters_from(t, 225) =~= Seq::<Seq<char>>::empty());
    assert(parameters_from(t, 201) =~= seq!["uid"@]);
    assert(parameters_from(t, 177) =~= seq!["github"@, "uid"@]);
    assert(parameters_from(t, 153) =~= seq!["linkedin"@, "github"@, "uid"@]);
    assert(parameters_from(t, 129) =~= seq!["linkedin"@, "github"@, "uid"@]);
    assert(parameters_from(t, 105) =~= seq!["gitlab"@, "linkedin"@, "github"@, "uid"@]);
    assert(parameters_from(t, 81) =~= seq!["about"@, "gitlab"@, "linkedin"@, "github"@, "uid"@]);
    assert(parameters_from(t, 57) =~= seq!["name"@, "about"@, "gitlab"@, "linkedin"@, "github"@, "uid"@]);
    assert(parameters_from(t, 33) =~= seq!["name"@, "about"@, "gitlab"@, "linkedin"@, "github"@, "uid"@]);
    assert(parameters_from(t, 9) =~= seq!["name"@, "about"@, "gitlab"@, "linkedin"@, "github"@, "uid"@]);
    assert(parameters_from(t, 0) =~= seq!["name"@, "about"@, "gitlab"@, "linkedin"@, "github"@, "uid"@]);
}

proof fn lemma_update_user_binds_its_parameters(about: Seq<char>, github: Seq<char>, gitlab: Seq<char>, linkedin: Seq<char>, name: Seq<char>, uid: usize)
    ensures
        binds_exactly_its_parameters(update_user_view(uid, name, github, gitlab, linkedin, about)),
{
    lemma_update_user_parameters();
    reveal_strlit("about");
    reveal_strlit("github");
    reveal_strlit("gitlab");
    reveal_strlit("linkedin");
    reveal_strlit("name");
    reveal_strlit("uid");
    let q = update_user_view(uid, name, github, gitlab, linkedin, about);
    assert(bound_names(q) =~= seq!["name"@, "github"@, "gitlab"@, "linkedin"@, "uid"@, "about"@]);
    assert("name"@.len() != "github"@.len());
    assert("name"@.len() != "gitlab"@.len());
    assert("name"@.len() != "linkedin"@.len());
    assert("name"@.len() != "uid"@.len());
    assert("name"@.len() != "about"@.len());
    assert("github"@[3] != "gitlab"@[3]);
    assert("github"@.len() != "linkedin"@.len());
    assert("github"@.len() != "uid"@.len());
    assert("github"@.len() != "about"@.len());
    assert("gitlab"@.len() != "linkedin"@.len());
    assert("gitlab"@.len() != "uid"@.len());
    assert("gitlab"@.len() != "about"@.len());
    assert("linkedin"@.len() != "uid"@.len());
    assert("linkedin"@.len() != "about"@.len());
    assert("uid"@.len() != "about"@.len());
    assert(bound_names(q)[0] == "name"@);
    assert(bound_names(q)[5] == "about"@);
    assert(bound_names(q)[2] == "gitlab"@);
    assert(bound_names(q)[3] == "linkedin"@);
    assert(bound_names(q)[1] == "github"@);
    assert(bound_names(q)[4] == "uid"@);
    assert(parameters(q.text)[0] == "name"@);
    assert(parameters(q.text)[4] == "github"@);
    assert(parameters(q.text)[2] == "gitlab"@);
    assert(parameters(q.text)[3] == "linkedin"@);
    assert(parameters(q.text)[5] == "uid"@);
    assert(parameters(q.text)[1] == "about"@);
}

/// The parameters that `USER_EMAIL_INDEX` mentions.
proof fn lemma_user_email_index_parameters()
    ensures
        parameters(USER_EMAIL_INDEX@) == Seq::<Seq<char>>::empty(),
{
    reveal_strlit("DEFINE INDEX user_email ON TABLE user COLUMNS email UNIQUE");
    reveal_with_fuel(parameters_from, 26);
    reveal_with_fuel(name_end, 12);
    let t = USER_EMAIL_INDEX@;
    assert(parameters_from(t, 58) =~= Seq::<Seq<char>>::empty());
    assert(parameters_from(t, 34) =~= Seq::<Seq<char>>::empty());
    assert(parameters_from(t, 10) =~= Seq::<Seq<char>>::empty());
    assert(parameters_from(t, 0) =~= Seq::<Seq<char>>::empty());
}

proof fn lemma_user_email_index_binds_its_parameters()
    ensures
        binds_exactly_its_parameters(plain_view(USER_EMAIL_INDEX)),
{
    lemma_user_email_index_parameters();
    let q = plain_view(USER_EMAIL_INDEX);
    assert(bound_names(q) =~= Seq::<Seq<char>>::empty());
}

/// The parameters that `MEMBERSHIP_INDEX` mentions.
proof fn lemma_membership_index_parameters()
    ensures
        parameters(MEMBERSHIP_INDEX@) == Seq::<Seq<char>>::empty(),
{
    reveal_strlit("DEFINE INDEX member_ship ON TABLE membership COLUMNS uid, gid UNIQUE");
    reveal_with_fuel(parameters_from, 26);
    reveal_with_fuel(name_end, 12);
    let t = MEMBERSHIP_INDEX@;
    assert(parameters_from(t, 68) =~= Seq::<Seq<char>>::empty());
    assert(parameters_from(t, 44) =~= Seq::<Seq<char>>::empty());
    assert(parameters_from(t, 20) =~= Seq::<Seq<char>>::empty());
    assert(parameters_from(t, 0) =~= Seq::<Seq<char>>::empty());
}

proof fn lemma_membership_index_binds_its_parameters()
    ensures
        binds_exactly_its_parameters(plain_view(MEMBERSHIP_INDEX)),
{
    lemma_membership_index_parameters();
    let q = plain_view(MEMBERSHIP_INDEX);
    assert(bound_names(q) =~= Seq::<Seq<char>>::empty());
}

/// The parameters that `COUNTER_NAME_INDEX` mentions.
proof fn lemma_counter_name_index_parameters()
    ensures
        parameters(COUNTER_NAME_INDEX@) == Seq::<Seq<char>>::empty(),
{
    reveal_strlit("DEFINE INDEX counter_name ON TABLE counter COLUMNS name UNIQUE");
    reveal_with_fuel(parameters_from, 26);
    reveal_with_fuel(name_end, 12);
    let t = COUNTER_NAME_INDEX@;
    assert(parameters_from(t, 62) =~= Seq::<Seq<char>>::empty());
    assert(parameters_from(t, 38) =~= Seq::<Seq<char>>::empty());
    assert(parameters_from(t, 14) =~= Seq::<Seq<char>>::empty());
    assert(parameters_from(t, 0) =~= Seq::<Seq<char>>::empty());
}

proof fn lemma_counter_name_index_binds_its_parameters()
    ensures
        binds_exactly_its_parameters(plain_view(COUNTER_NAME_INDEX)),
{
    lemma_counter_name_index_parameters();
    let q = plain_view(COUNTER_NAME_INDEX);
    assert(bound_names(q) =~= Seq::<Seq<char>>::empty());
}

/// The parameters that `COUNTER_INCREMENT` mentions.
proof fn lemma_counter_bump_parameters()
    ensures
        parameters(COUNTER_INCREMENT@) == seq!["name"@, "count"@],
{
    reveal_strlit("\n            INSERT INTO counter (name, count)\n                VALUES ($name, $count) ON DUPLICATE KEY UPDATE count += 1;\n        ");
    reveal_strlit("count");
    reveal_strlit("name");
    reveal_with_fuel(parameters_from, 26);
    reveal_with_fuel(name_end, 12);
    let t = COUNTER_INCREMENT@;
    assert(t.subrange(72, 76) =~= "name"@);
    assert(t.subrange(79, 84) =~= "count"@);
    assert(parameters_from(t, 130) =~= Seq::<Seq<char>>::empty());
    assert(parameters_from(t, 106) =~= Seq::<Seq<char>>::empty());
    assert(parameters_from(t, 82) =~= Seq::<Seq<char>>::empty());
    assert(parameters_from(t, 58) =~= seq!["name"@, "count"@]);
    assert(parameters_from(t, 34) =~= seq!["name"@, "count"@]);
    assert(parameters_from(t, 10) =~= seq!["name"@, "count"@]);
    assert(parameters_from(t, 0) =~= seq!["name"@, "count"@]);
}

proof fn lemma_counter_bump_binds_its_parameters(name: Seq<char>)
    ensures
        binds_exactly_its_parameters(counter_bump_view(name)),
{
    lemma_counter_bump_parameters();
    reveal_strlit("count");
    reveal_strlit("name");
    let q = counter_bump_view(name);
    assert(bound_names(q) =~= seq!["name"@, "count"@]);
    assert("name"@.len() != "count"@.len());
    assert(bound_names(q)[0] == "name"@);
    assert(bound_names(q)[1] == "count"@);
    assert(parameters(q.text)[0] == "name"@);
    assert(parameters(q.text)[1] == "count"@);
}
/// Every statement that the library sends binds exactly the parameters that
/// its text mentions, whatever the values: no `$name` of a statement is left
/// unbound, no binding is for a name the statement does not mention, and no
/// name is bound twice.
pub proof fn law_statements_bind_exactly_their_parameters(
    uid: usize,
    gid: usize,
    eid: usize,
    email: Seq<char>,
    process: Seq<char>,
    code: Seq<char>,
    date: Timestamp,
    name: Seq<char>,
    location: Seq<char>,
    description: Seq<char>,
    github: Seq<char>,
    gitlab: Seq<char>,
    linkedin: Seq<char>,
    about: Seq<char>,
)
    ensures
        binds_exactly_its_parameters(user_by_id_view(uid)),
        binds_exactly_its_parameters(user_by_email_view(email)),
        binds_exactly_its_parameters(plain_view(ALL_USERS)),
        binds_exactly_its_parameters(plain_view(ALL_GROUPS)),
        binds_exactly_its_parameters(plain_view(ALL_EVENTS)),
        binds_exactly_its_parameters(plain_view(ALL_AUDIT)),
        binds_exactly_its_parameters(group_by_gid_view(gid)),
        binds_exactly_its_parameters(groups_by_owner_view(uid)),
        binds_exactly_its_parameters(event_by_eid_view(eid)),
        binds_exactly_its_parameters(memberships_of_user_view(uid)),
        binds_exactly_its_parameters(memberships_of_group_view(gid)),
        binds_exactly_its_parameters(membership_view(gid, uid)),
        binds_exactly_its_parameters(leave_group_view(gid, uid)),
        binds_exactly_its_parameters(login_code_view(email, process, code)),
        binds_exactly_its_parameters(verify_code_view(process, code, date)),
        binds_exactly_its_parameters(update_group_view(gid, name, location, description)),
        binds_exactly_its_parameters(update_user_view(uid, name, github, gitlab, linkedin, about)),
        binds_exactly_its_parameters(plain_view(USER_EMAIL_INDEX)),
        binds_exactly_its_parameters(plain_view(MEMBERSHIP_INDEX)),
        binds_exactly_its_parameters(plain_view(COUNTER_NAME_INDEX)),
        binds_exactly_its_parameters(counter_bump_view(name)),
{
    lemma_user_by_id_binds_its_parameters(uid);
    lemma_user_by_email_binds_its_parameters(email);
    lemma_all_users_binds_its_parameters();
    lemma_all_groups_binds_its_parameters();
    lemma_all_events_binds_its_parameters();
    lemma_all_audit_binds_its_parameters();
    lemma_group_by_gid_binds_its_parameters(gid);
    lemma_groups_by_owner_binds_its_parameters(uid);
    lemma_event_by_eid_binds_its_parameters(eid);
    lemma_memberships_of_user_binds_its_parameters(uid);
    lemma_memberships_of_group_binds_its_parameters(gid);
    lemma_membership_binds_its_parameters(gid, uid);
    lemma_leave_group_binds_its_parameters(gid, uid);
    lemma_login_code_binds_its_parameters(code, email, process);
    lemma_verify_code_binds_its_parameters(code, date, process);
    lemma_update_group_binds_its_parameters(description, gid, location, name);
    lemma_update_user_binds_its_parameters(about, github, gitlab, linkedin, name, uid);
    lemma_user_email_index_binds_its_parameters();
    lemma_membership_index_binds_its_parameters();
    lemma_counter_name_index_binds_its_parameters();
    lemma_counter_bump_binds_its_parameters(name);
}

/// The membership that `join_group` stores for a gid and a uid is the one that
/// `get_membership` and `leave_group` address for that gid and uid: both
/// statements bind its gid to `$gid` and its uid to `$uid`. It carries no
/// admin rights.
pub proof fn law_joined_membership_is_addressed_by_its_keys(gid: usize, uid: usize, date: Timestamp)
    ensures
        ({
            let m = new_membership(gid, uid, date);
            &&& membership_view(gid, uid).bindings.contains(("gid"@, ValueView::Usize(m.gid)))
            &&& membership_view(gid, uid).bindings.contains(("uid"@, ValueView::Usize(m.uid)))
            &&& leave_group_view(gid, uid).bindings.contains(("gid"@, ValueView::Usize(m.gid)))
            &&& leave_group_view(gid, uid).bindings.contains(("uid"@, ValueView::Usize(m.uid)))
            &&& !m.admin
        }),
{
    assert(membership_view(gid, uid).bindings[0] == ("gid"@, ValueView::Usize(gid)));
    assert(membership_view(gid, uid).bindings[1] == ("uid"@, ValueView::Usize(uid)));
    assert(leave_group_view(gid, uid).bindings[1] == ("gid"@, ValueView::Usize(gid)));
    assert(leave_group_view(gid, uid).bindings[0] == ("uid"@, ValueView::Usize(uid)));
}

/// The code and process that `add_login_code_to_user` gives a user are the
/// ones that `verify_code` looks for: both statements bind the same code to
/// `$code` and the same process to `$process`, and the verification sets
/// `$verified` to true.
pub proof fn law_verification_looks_for_the_given_code(
    email: Seq<char>,
    process: Seq<char>,
    code: Seq<char>,
    date: Timestamp,
)
    ensures
        login_code_view(email, process, code).bindings.contains(("code"@, ValueView::Text(code))),
        login_code_view(email, process, code).bindings.contains(("process"@, ValueView::Text(process))),
        verify_code_view(process, code, date).bindings.contains(("code"@, ValueView::Text(code))),
        verify_code_view(process, code, date).bindings.contains(("process"@, ValueView::Text(process))),
        verify_code_view(process, code, date).bindings.contains(("verified"@, ValueView::Bool(true))),
{
    assert(login_code_view(email, process, code).bindings[2] == ("code"@, ValueView::Text(code)));
    assert(login_code_view(email, process, code).bindings[1] == ("process"@, ValueView::Text(process)));
    assert(verify_code_view(process, code, date).bindings[1] == ("code"@, ValueView::Text(code)));
    assert(verify_code_view(process, code, date).bindings[3] == ("process"@, ValueView::Text(process)));
    assert(verify_code_view(process, code, date).bindings[0] == ("verified"@, ValueView::Bool(true)));
}

/// Every statement binds each of its parameters to the argument of that name,
/// unchanged (and `$verified` to true, `$count` to 1): whatever the values,
/// the uid, gid, eid, texts and date given to a statement are the ones it
/// sends.
pub proof fn law_statements_bind_their_arguments(
    uid: usize,
    gid: usize,
    eid: usize,
    email: Seq<char>,
    process: Seq<char>,
    code: Seq<char>,
    date: Timestamp,
    name: Seq<char>,
    location: Seq<char>,
    description: Seq<char>,
    github: Seq<char>,
    gitlab: Seq<char>,
    linkedin: Seq<char>,
    about: Seq<char>,
)
    ensures
        user_by_id_view(uid).bindings.contains(("uid"@, ValueView::Usize(uid))),
        user_by_email_view(email).bindings.contains(("email"@, ValueView::Text(email))),
        group_by_gid_view(gid).bindings.contains(("gid"@, ValueView::Usize(gid))),
        groups_by_owner_view(uid).bindings.contains(("uid"@, ValueView::Usize(uid))),
        event_by_eid_view(eid).bindings.contains(("eid"@, ValueView::Usize(eid))),
        memberships_of_user_view(uid).bindings.contains(("uid"@, ValueView::Usize(uid))),
        memberships_of_group_view(gid).bindings.contains(("gid"@, ValueView::Usize(gid))),
        membership_view(gid, uid).bindings.contains(("gid"@, ValueView::Usize(gid))),
        membership_view(gid, uid).bindings.contains(("uid"@, ValueView::Usize(uid))),
        leave_group_view(gid, uid).bindings.contains(("uid"@, ValueView::Usize(uid))),
        leave_group_view(gid, uid).bindings.contains(("gid"@, ValueView::Usize(gid))),
        login_code_view(email, process, code).bindings.contains(("email"@, ValueView::Text(email))),
        login_code_view(email, process, code).bindings.contains(("process"@, ValueView::Text(process))),
        login_code_view(email, process, code).bindings.contains(("code"@, ValueView::Text(code))),
        verify_code_view(process, code, date).bindings.contains(("verified"@, ValueView::Bool(true))),
        verify_code_view(process, code, date).bindings.contains(("code"@, ValueView::Text(code))),
        verify_code_view(process, code, date).bindings.contains(("date"@, ValueView::Time(date))),
        verify_code_view(process, code, date).bindings.contains(("process"@, ValueView::Text(process))),
        update_group_view(gid, name, location, description).bindings.contains(("name"@, ValueView::Text(name))),
        update_group_view(gid, name, location, description).bindings.contains(("location"@, ValueView::Text(location))),
        update_group_view(gid, name, location, description).bindings.contains(("description"@, ValueView::Text(description))),
        update_group_view(gid, name, location, description).bindings.contains(("gid"@, ValueView::Usize(gid))),
        update_user_view(uid, name, github, gitlab, linkedin, about).bindings.contains(("name"@, ValueView::Text(name))),
        update_user_view(uid, name, github, gitlab, linkedin, about).bindings.contains(("github"@, ValueView::Text(github))),
        update_user_view(uid, name, github, gitlab, linkedin, about).bindings.contains(("gitlab"@, ValueView::Text(gitlab))),
        update_user_view(uid, name, github, gitlab, linkedin, about).bindings.contains(("linkedin"@, ValueView::Text(linkedin))),
        update_user_view(uid, name, github, gitlab, linkedin, about).bindings.contains(("uid"@, ValueView::Usize(uid))),
        update_user_view(uid, name, github, gitlab, linkedin, about).bindings.contains(("about"@, ValueView::Text(about))),
        counter_bump_view(name).bindings.contains(("name"@, ValueView::Text(name))),
        counter_bump_view(name).bindings.contains(("count"@, ValueView::I32(1))),
{
    assert(user_by_id_view(uid).bindings[0] == ("uid"@, ValueView::Usize(uid)));
    assert(user_by_email_view(email).bindings[0] == ("email"@, ValueView::Text(email)));
    assert(group_by_gid_view(gid).bindings[0] == ("gid"@, ValueView::Usize(gid)));
    assert(groups_by_owner_view(uid).bindings[0] == ("uid"@, ValueView::Usize(uid)));
    assert(event_by_eid_view(eid).bindings[0] == ("eid"@, ValueView::Usize(eid)));
    assert(memberships_of_user_view(uid).bindings[0] == ("uid"@, ValueView::Usize(uid)));
    assert(memberships_of_group_view(gid).bindings[0] == ("gid"@, ValueView::Usize(gid)));
    assert(membership_view(gid, uid).bindings[0] == ("gid"@, ValueView::Usize(gid)));
    assert(membership_view(gid, uid).bindings[1] == ("uid"@, ValueView::Usize(uid)));
    assert(leave_group_view(gid, uid).bindings[0] == ("uid"@, ValueView::Usize(uid)));
    assert(leave_group_view(gid, uid).bindings[1] == ("gid"@, ValueView::Usize(gid)));
    assert(login_code_view(email, process, code).bindings[0] == ("email"@, ValueView::Text(email)));
    assert(login_code_view(email, process, code).bindings[1] == ("process"@, ValueView::Text(process)));
    assert(login_code_view(email, process, code).bindings[2] == ("code"@, ValueView::Text(code)));
    assert(verify_code_view(process, code, date).bindings[0] == ("verified"@, ValueView::Bool(true)));
    assert(verify_code_view(process, code, date).bindings[1] == ("code"@, ValueView::Text(code)));
    assert(verify_code_view(process, code, date).bindings[2] == ("date"@, ValueView::Time(date)));
    assert(verify_code_view(process, code, date).bindings[3] == ("process"@, ValueView::Text(process)));
    assert(update_group_view(gid, name, location, description).bindings[0] == ("name"@, ValueView::Text(name)));
    assert(update_group_view(gid, name, location, description).bindings[1] == ("location"@, ValueView::Text(location)));
    assert(update_group_view(gid, name, location, description).bindings[2] == ("description"@, ValueView::Text(description)));
    assert(update_group_view(gid, name, location, description).bindings[3] == ("gid"@, ValueView::Usize(gid)));
    assert(update_user_view(uid, name, github, gitlab, linkedin, about).bindings[0] == ("name"@, ValueView::Text(name)));
    assert(update_user_view(uid, name, github, gitlab, linkedin, about).bindings[1] == ("github"@, ValueView::Text(github)));
    assert(update_user_view(uid, name, github, gitlab, linkedin, about).bindings[2] == ("gitlab"@, ValueView::Text(gitlab)));
    assert(update_user_view(uid, name, github, gitlab, linkedin, about).bindings[3] == ("linkedin"@, ValueView::Text(linkedin)));
    assert(update_user_view(uid, name, github, gitlab, linkedin, about).bindings[4] == ("uid"@, ValueView::Usize(uid)));
    assert(update_user_view(uid, name, github, gitlab, linkedin, about).bindings[5] == ("about"@, ValueView::Text(about)));
    assert(counter_bump_view(name).bindings[0] == ("name"@, ValueView::Text(name)));
    assert(counter_bump_view(name).bindings[1] == ("count"@, ValueView::I32(1)));
}

} // verus!
