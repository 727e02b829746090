use meet_os::counters::{counter_value, increment};
use meet_os::events::get_events_by_group_id;
use meet_os::query::Value;
use meet_os::records::{Counter, Event, Group, Membership, Timestamp, User};
use meet_os::setup::get_database;
use meet_os::walk::{get_groups_by_membership_id, get_members_of_group};

fn event(eid: usize, group_id: usize) -> Event {
    Event { eid, title: format!("event {eid}"), group_id }
}

fn group(gid: usize, name: &str) -> Group {
    Group { gid, name: name.to_string(), location: String::new(), description: String::new(), owner: 1 }
}

fn member(uid: usize, gid: usize) -> Membership {
    Membership { uid, gid, join_date: Timestamp { secs: 0, nanos: 0 }, admin: false }
}

fn user(uid: usize, name: &str) -> User {
    User {
        uid,
        name: name.to_string(),
        email: format!("{name}@meet-os.com"),
        code: String::new(),
        process: String::new(),
        verified: true,
        verification_date: None,
        github: String::new(),
        gitlab: String::new(),
        linkedin: String::new(),
        about: String::new(),
    }
}

fn bound_usize(v: &Value) -> usize {
    match v {
        Value::Usize(n) => *n,
        other => panic!("not a number: {:?}", other),
    }
}

#[test]
fn events_of_a_group_keep_their_order() {
    let all: Result<Vec<Event>, ()> = Ok(vec![event(1, 2), event(2, 3), event(3, 2), event(4, 2), event(5, 1)]);
    let kept = get_events_by_group_id(all, 2);
    assert_eq!(kept.iter().map(|e| e.eid).collect::<Vec<_>>(), vec![1, 3, 4]);
}

#[test]
fn events_of_a_group_without_any() {
    let all: Result<Vec<Event>, ()> = Ok(vec![event(1, 2), event(2, 3)]);
    assert!(get_events_by_group_id(all, 9).is_empty());
    let none: Result<Vec<Event>, ()> = Ok(vec![]);
    assert!(get_events_by_group_id(none, 2).is_empty());
}

#[test]
fn events_of_a_group_after_a_failed_read() {
    let failed: Result<Vec<Event>, String> = Err("connection lost".to_string());
    assert!(get_events_by_group_id(failed, 2).is_empty());
}

#[test]
fn increment_defines_the_index_and_bumps_by_one() {
    let inc = increment("user");
    assert_eq!(inc.define_index.text, "DEFINE INDEX counter_name ON TABLE counter COLUMNS name UNIQUE");
    assert!(inc.define_index.bindings.is_empty());
    assert_eq!(
        inc.bump.text,
        "\n            INSERT INTO counter (name, count)\n                VALUES ($name, $count) ON DUPLICATE KEY UPDATE count += 1;\n        "
    );
    assert_eq!(inc.bump.bindings.len(), 2);
    assert_eq!(inc.bump.bindings[0].0, "name");
    assert!(matches!(inc.bump.bindings[0].1, Value::Text("user")));
    assert_eq!(inc.bump.bindings[1].0, "count");
    assert!(matches!(inc.bump.bindings[1].1, Value::I32(1)));
}

#[test]
fn counter_value_is_the_first_count() {
    let entries = vec![Counter { name: "user".to_string(), count: 5 }, Counter { name: "x".to_string(), count: 9 }];
    assert_eq!(counter_value(entries), 5);
    assert_eq!(counter_value(vec![Counter { name: "group".to_string(), count: 0 }]), 0);
}

#[test]
fn database_setup_declares_the_unique_indexes() {
    let setup = get_database("meet-os", "main");
    assert_eq!(setup.address, "127.0.0.1:8000");
    assert_eq!(setup.database, "meet-os");
    assert_eq!(setup.namespace, "main");
    assert_eq!(setup.indexes.len(), 2);
    assert_eq!(setup.indexes[0].text, "DEFINE INDEX user_email ON TABLE user COLUMNS email UNIQUE");
    assert_eq!(setup.indexes[1].text, "DEFINE INDEX member_ship ON TABLE membership COLUMNS uid, gid UNIQUE");
    assert!(setup.indexes.iter().all(|q| q.bindings.is_empty()));
}

#[test]
fn groups_of_a_user_walk_through_each_membership() {
    let mut walk = get_groups_by_membership_id(7);
    let first = walk.next_query().expect("the memberships come first");
    assert_eq!(first.text, "SELECT * FROM membership WHERE uid=$uid;");
    assert_eq!(first.bindings[0].0, "uid");
    assert_eq!(bound_usize(&first.bindings[0].1), 7);

    walk.receive_memberships(vec![member(7, 3), member(7, 5)]);

    let q = walk.next_query().expect("the group of the first membership");
    assert_eq!(q.text, "SELECT * FROM group WHERE gid=$gid;");
    assert_eq!(bound_usize(&q.bindings[0].1), 3);
    walk.receive_entries(vec![group(3, "Rust"), group(3, "duplicate")]);

    let q = walk.next_query().expect("the group of the second membership");
    assert_eq!(bound_usize(&q.bindings[0].1), 5);
    walk.receive_entries(vec![group(5, "Python")]);

    assert!(walk.next_query().is_none());
    let pairs = walk.finish();
    assert_eq!(pairs.len(), 2);
    assert_eq!((pairs[0].0.name.as_str(), pairs[0].1.gid), ("Rust", 3));
    assert_eq!((pairs[1].0.name.as_str(), pairs[1].1.gid), ("Python", 5));
}

#[test]
fn members_of_a_group_walk_through_each_membership() {
    let mut walk = get_members_of_group(3);
    let first = walk.next_query().expect("the memberships come first");
    assert_eq!(first.text, "SELECT * FROM membership WHERE gid=$gid;");
    assert_eq!(first.bindings[0].0, "gid");
    assert_eq!(bound_usize(&first.bindings[0].1), 3);

    walk.receive_memberships(vec![member(8, 3)]);
    let q = walk.next_query().expect("the user of the membership");
    assert_eq!(q.text, "SELECT * FROM user WHERE uid=$uid;");
    assert_eq!(bound_usize(&q.bindings[0].1), 8);
    walk.receive_entries(vec![user(8, "peti")]);

    assert!(walk.next_query().is_none());
    let pairs = walk.finish();
    assert_eq!(pairs.len(), 1);
    assert_eq!(pairs[0].0.email, "peti@meet-os.com");
    assert_eq!(pairs[0].1.uid, 8);
}

#[test]
fn a_walk_without_memberships_ends_at_once() {
    let mut walk = get_groups_by_membership_id(1);
    assert!(walk.next_query().is_some());
    walk.receive_memberships(vec![]);
    assert!(walk.next_query().is_none());
    assert!(walk.finish().is_empty());
}
