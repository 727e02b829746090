use meet_os::counters::increment;
use meet_os::events::get_events_by_group_id;
use meet_os::query::{Content, Query, Value};
use meet_os::records::{Event, Timestamp};
use meet_os::setup::get_database;
use meet_os::statements::{
    add_login_code_to_user, get_audit, get_event_by_eid, get_events, get_group_by_gid, get_groups,
    get_groups_by_owner_id, get_membership, get_user_by_email, get_user_by_id, get_users, join_group_at,
    leave_group, update_group, update_user, verify_code_at,
};
use meet_os::walk::get_groups_by_membership_id;

/// The `$` parameters of a statement's text, in order.
fn parameters(text: &str) -> Vec<String> {
    let chars: Vec<char> = text.chars().collect();
    let mut names = Vec::new();
    for (i, c) in chars.iter().enumerate() {
        if *c == '$' {
            let name: String =
                chars[i + 1..].iter().take_while(|c| c.is_ascii_alphanumeric() || **c == '_').collect();
            names.push(name);
        }
    }
    names
}

fn assert_binds_exactly_its_parameters(q: &Query) {
    let mut mentioned = parameters(q.text);
    let mut bound: Vec<String> = q.bindings.iter().map(|(n, _)| n.to_string()).collect();
    let count = bound.len();
    mentioned.sort();
    bound.sort();
    bound.dedup();
    assert_eq!(bound.len(), count, "a name is bound twice in {:?}", q.text);
    assert_eq!(mentioned, bound, "statement {:?}", q.text);
}

#[test]
fn every_statement_binds_exactly_its_parameters() {
    let date = Timestamp { secs: 1, nanos: 0 };
    let statements = vec![
        get_user_by_id(1),
        get_user_by_email("a@b.c"),
        get_users(),
        get_groups(),
        get_events(),
        get_audit(),
        get_group_by_gid(2),
        get_groups_by_owner_id(3),
        get_event_by_eid(4),
        get_membership(5, 6),
        leave_group(5, 6),
        add_login_code_to_user("a@b.c", "login", "123"),
        verify_code_at("login", "123", date),
        update_group(2, "n", "l", "d"),
        update_user(1, "n", "gh", "gl", "li", "ab"),
    ];
    for q in &statements {
        assert_binds_exactly_its_parameters(q);
    }
    let inc = increment("user");
    assert_binds_exactly_its_parameters(&inc.define_index);
    assert_binds_exactly_its_parameters(&inc.bump);
    for q in &get_database("db", "ns").indexes {
        assert_binds_exactly_its_parameters(q);
    }
    let walk = get_groups_by_membership_id(9);
    assert_binds_exactly_its_parameters(&walk.next_query().unwrap());
}

fn bound<'a, 'b>(q: &'b Query<'a>, name: &str) -> &'b Value<'a> {
    &q.bindings.iter().find(|(n, _)| *n == name).expect("bound").1
}

#[test]
fn a_joined_membership_is_addressed_by_its_keys() {
    let c = join_group_at(12, 34, Timestamp { secs: 5, nanos: 6 });
    let m = match c.content {
        Content::Membership(m) => m,
        other => panic!("not a membership: {:?}", other),
    };
    assert!(!m.admin);
    for q in [get_membership(12, 34), leave_group(12, 34)] {
        assert!(matches!(bound(&q, "gid"), Value::Usize(g) if *g == m.gid));
        assert!(matches!(bound(&q, "uid"), Value::Usize(u) if *u == m.uid));
    }
}

#[test]
fn verification_looks_for_the_given_code() {
    let given = add_login_code_to_user("foo@meet-os.com", "register", "c0de");
    let check = verify_code_at("register", "c0de", Timestamp { secs: 7, nanos: 8 });
    assert!(matches!(bound(&given, "code"), Value::Text("c0de")));
    assert!(matches!(bound(&check, "code"), Value::Text("c0de")));
    assert!(matches!(bound(&given, "process"), Value::Text("register")));
    assert!(matches!(bound(&check, "process"), Value::Text("register")));
    assert!(matches!(bound(&check, "verified"), Value::Bool(true)));
}

#[test]
fn kept_events_are_exactly_the_events_of_the_group() {
    let all: Vec<Event> = (0..10).map(|i| Event { eid: i, title: String::new(), group_id: i % 3 }).collect();
    let eids_of_group: Vec<usize> = all.iter().filter(|e| e.group_id == 1).map(|e| e.eid).collect();
    let kept = get_events_by_group_id::<()>(Ok(all), 1);
    assert!(kept.iter().all(|e| e.group_id == 1));
    assert_eq!(kept.iter().map(|e| e.eid).collect::<Vec<_>>(), eids_of_group);
    assert_eq!(eids_of_group, vec![1, 4, 7]);
}
