use meet_os::query::{Content, Query, Value};
use meet_os::records::{Event, Group, Timestamp, User};
use meet_os::statements::{
    add_event, add_group, add_login_code_to_user, add_user, audit, audit_at, get_audit, get_event_by_eid,
    get_events, get_group_by_gid, get_groups, get_groups_by_owner_id, get_membership, get_user_by_email,
    get_user_by_id, get_users, join_group, join_group_at, leave_group, update_group, update_user,
    verify_code, verify_code_at,
};

fn text_of(q: &Query) -> &'static str {
    q.text
}

fn names(q: &Query) -> Vec<&'static str> {
    q.bindings.iter().map(|(n, _)| *n).collect()
}

fn usize_at(q: &Query, i: usize) -> usize {
    match q.bindings[i].1 {
        Value::Usize(n) => n,
        ref other => panic!("not a number: {:?}", other),
    }
}

fn text_at<'a>(q: &Query<'a>, i: usize) -> &'a str {
    match q.bindings[i].1 {
        Value::Text(s) => s,
        ref other => panic!("not a text: {:?}", other),
    }
}

fn sample_user() -> User {
    User {
        uid: 7,
        name: "Foo Bar".to_string(),
        email: "foo@meet-os.com".to_string(),
        code: "abc".to_string(),
        process: "register".to_string(),
        verified: false,
        verification_date: None,
        github: String::new(),
        gitlab: String::new(),
        linkedin: String::new(),
        about: String::new(),
    }
}

#[test]
fn user_by_id_binds_the_uid() {
    let q = get_user_by_id(42);
    assert_eq!(text_of(&q), "SELECT * FROM user WHERE uid=$uid;");
    assert_eq!(names(&q), vec!["uid"]);
    assert_eq!(usize_at(&q, 0), 42);
}

#[test]
fn user_by_email_binds_the_email() {
    let q = get_user_by_email("foo@meet-os.com");
    assert_eq!(text_of(&q), "SELECT * FROM user WHERE email=$email;");
    assert_eq!(names(&q), vec!["email"]);
    assert_eq!(text_at(&q, 0), "foo@meet-os.com");
}

#[test]
fn login_code_binds_email_process_and_code() {
    let q = add_login_code_to_user("foo@meet-os.com", "login", "xyz");
    assert_eq!(text_of(&q), "UPDATE user SET code=$code, process=$process WHERE email=$email;");
    assert_eq!(names(&q), vec!["email", "process", "code"]);
    assert_eq!(text_at(&q, 0), "foo@meet-os.com");
    assert_eq!(text_at(&q, 1), "login");
    assert_eq!(text_at(&q, 2), "xyz");
}

#[test]
fn listing_statements_bind_nothing() {
    for (q, text) in [
        (get_users(), "SELECT * FROM user;"),
        (get_groups(), "SELECT * FROM group;"),
        (get_events(), "SELECT * FROM event;"),
        (get_audit(), "SELECT * FROM audit;"),
    ] {
        assert_eq!(q.text, text);
        assert!(q.bindings.is_empty());
    }
}

#[test]
fn group_lookups_bind_their_keys() {
    let q = get_group_by_gid(3);
    assert_eq!(q.text, "SELECT * FROM group WHERE gid=$gid;");
    assert_eq!(names(&q), vec!["gid"]);
    assert_eq!(usize_at(&q, 0), 3);

    let q = get_groups_by_owner_id(9);
    assert_eq!(q.text, "SELECT * FROM group WHERE owner=$uid;");
    assert_eq!(names(&q), vec!["uid"]);
    assert_eq!(usize_at(&q, 0), 9);

    let q = get_event_by_eid(11);
    assert_eq!(q.text, "SELECT * FROM event WHERE eid=$eid;");
    assert_eq!(names(&q), vec!["eid"]);
    assert_eq!(usize_at(&q, 0), 11);
}

#[test]
fn membership_statements_keep_gid_and_uid_apart() {
    let q = get_membership(5, 8);
    assert_eq!(q.text, "SELECT * FROM membership WHERE gid=$gid AND uid=$uid;");
    assert_eq!(names(&q), vec!["gid", "uid"]);
    assert_eq!(usize_at(&q, 0), 5);
    assert_eq!(usize_at(&q, 1), 8);

    let q = leave_group(5, 8);
    assert_eq!(q.text, "DELETE membership WHERE uid=$uid AND gid=$gid");
    assert_eq!(names(&q), vec!["uid", "gid"]);
    assert_eq!(usize_at(&q, 0), 8);
    assert_eq!(usize_at(&q, 1), 5);
}

#[test]
fn update_group_binds_every_field() {
    let q = update_group(4, "Rust", "Budapest", "Rustaceans");
    assert_eq!(
        q.text,
        "\n            UPDATE group\n            SET\n                name=$name,\n                location=$location,\n                description=$description\n            WHERE gid=$gid;"
    );
    assert_eq!(names(&q), vec!["name", "location", "description", "gid"]);
    assert_eq!(text_at(&q, 0), "Rust");
    assert_eq!(text_at(&q, 1), "Budapest");
    assert_eq!(text_at(&q, 2), "Rustaceans");
    assert_eq!(usize_at(&q, 3), 4);
}

#[test]
fn update_user_binds_every_field() {
    let q = update_user(2, "Foo", "foo-gh", "foo-gl", "foo-li", "about foo");
    assert_eq!(
        q.text,
        "\n            UPDATE user\n            SET\n                name=$name,\n                about=$about,\n                gitlab=$gitlab,\n                linkedin=$linkedin,\n                github=$github\n            WHERE uid=$uid;"
    );
    assert_eq!(names(&q), vec!["name", "github", "gitlab", "linkedin", "uid", "about"]);
    assert_eq!(text_at(&q, 0), "Foo");
    assert_eq!(text_at(&q, 1), "foo-gh");
    assert_eq!(text_at(&q, 2), "foo-gl");
    assert_eq!(text_at(&q, 3), "foo-li");
    assert_eq!(usize_at(&q, 4), 2);
    assert_eq!(text_at(&q, 5), "about foo");
}

#[test]
fn verify_code_at_sets_verified_and_date() {
    let date = Timestamp { secs: 1_700_000_000, nanos: 5 };
    let q = verify_code_at("register", "abc", date);
    assert_eq!(
        q.text,
        "\n            UPDATE ONLY user\n                SET\n                    verified=$verified,\n                    code='',\n                    verification_date=$date\n                WHERE code=$code AND process=$process;"
    );
    assert_eq!(names(&q), vec!["verified", "code", "date", "process"]);
    assert!(matches!(q.bindings[0].1, Value::Bool(true)));
    assert_eq!(text_at(&q, 1), "abc");
    assert!(matches!(q.bindings[2].1, Value::Time(t) if t == date));
    assert_eq!(text_at(&q, 3), "register");
}

#[test]
fn verify_code_dates_with_the_clock() {
    let q = verify_code("login", "123");
    assert_eq!(names(&q), vec!["verified", "code", "date", "process"]);
    match q.bindings[2].1 {
        Value::Time(t) => {
            assert!(t.secs > 1_600_000_000);
            assert!(t.nanos < 1_000_000_000);
        }
        ref other => panic!("not a date: {:?}", other),
    }
    assert_eq!(text_at(&q, 1), "123");
    assert_eq!(text_at(&q, 3), "login");
}

#[test]
fn creations_go_to_their_tables() {
    let user = sample_user();
    let c = add_user(&user);
    assert_eq!(c.table, "user");
    assert!(matches!(c.content, Content::User(u) if u.email == "foo@meet-os.com"));

    let event = Event { eid: 1, title: "Meetup".to_string(), group_id: 2 };
    let c = add_event(&event);
    assert_eq!(c.table, "event");
    assert!(matches!(c.content, Content::Event(e) if e.title == "Meetup" && e.group_id == 2));

    let group = Group {
        gid: 2,
        name: "Rust".to_string(),
        location: "Budapest".to_string(),
        description: String::new(),
        owner: 7,
    };
    let c = add_group(&group);
    assert_eq!(c.table, "group");
    assert!(matches!(c.content, Content::Group(g) if g.gid == 2 && g.owner == 7));
}

#[test]
fn joining_never_grants_admin() {
    let date = Timestamp { secs: 10, nanos: 20 };
    let c = join_group_at(3, 8, date);
    assert_eq!(c.table, "membership");
    match c.content {
        Content::Membership(m) => {
            assert_eq!(m.gid, 3);
            assert_eq!(m.uid, 8);
            assert_eq!(m.join_date, date);
            assert!(!m.admin);
        }
        other => panic!("not a membership: {:?}", other),
    }

    let c = join_group(4, 9);
    match c.content {
        Content::Membership(m) => {
            assert_eq!((m.gid, m.uid, m.admin), (4, 9, false));
            assert!(m.join_date.secs > 1_600_000_000);
        }
        other => panic!("not a membership: {:?}", other),
    }
}

#[test]
fn audit_entries_keep_their_text() {
    let date = Timestamp { secs: 1, nanos: 2 };
    let c = audit_at("user 7 joined group 3".to_string(), date);
    assert_eq!(c.table, "audit");
    match c.content {
        Content::Audit(a) => {
            assert_eq!(a.text, "user 7 joined group 3");
            assert_eq!(a.date, date);
        }
        other => panic!("not an audit entry: {:?}", other),
    }

    let c = audit("login".to_string());
    match c.content {
        Content::Audit(a) => {
            assert_eq!(a.text, "login");
            assert!(a.date.nanos < 1_000_000_000);
        }
        other => panic!("not an audit entry: {:?}", other),
    }
}
