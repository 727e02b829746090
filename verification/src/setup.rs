use vstd::prelude::*;

use crate::query::Query;
use crate::statements::{plain_view, MEMBERSHIP_INDEX, USER_EMAIL_INDEX};

verus! {

/// Where the database server listens.
pub const DATABASE_ADDRESS: &'static str = "127.0.0.1:8000";

/// How to reach and prepare the database: the server's address, the
/// namespace and database to use, and the statements that declare the unique
/// indexes.
#[derive(Debug)]
pub struct DatabaseSetup<'a> {
    pub address: &'static str,
    pub namespace: &'a str,
    pub database: &'a str,
    pub indexes: Vec<Query<'static>>,
}

/// The setup of the database `db_name` in the namespace `db_namespace`: user
/// emails are unique, and so is each (uid, gid) pair of memberships.
pub fn get_database<'a>(db_name: &'a str, db_namespace: &'a str) -> (s: DatabaseSetup<'a>)
    ensures
        s.address@ == DATABASE_ADDRESS@,
        s.namespace == db_namespace,
        s.database == db_name,
        s.indexes@.len() == 2,
        s.indexes[0]@ == plain_view(USER_EMAIL_INDEX),
        s.indexes[1]@ == plain_view(MEMBERSHIP_INDEX),
{
    let mut indexes = Vec::new();
    indexes.push(Query { text: USER_EMAIL_INDEX, bindings: Vec::new() });
    indexes.push(Query { text: MEMBERSHIP_INDEX, bindings: Vec::new() });
    DatabaseSetup { address: DATABASE_ADDRESS, namespace: db_namespace, database: db_name, indexes }
}

} // verus!
