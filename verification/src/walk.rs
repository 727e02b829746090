use vstd::prelude::*;

use crate::query::{Query, QueryView, Value};
use crate::records::{Group, Membership, User};
use crate::statements::{
    get_group_by_gid, get_user_by_id, group_by_gid_view, memberships_of_group_view,
    memberships_of_user_view, user_by_id_view, with_one, MEMBERSHIPS_OF_GROUP, MEMBERSHIPS_OF_USER,
};

verus! {

/// Which side of the memberships a walk looks up.
#[derive(Debug, Clone, Copy, PartialEq, Eq, Structural)]
pub enum LookupKind {
    /// The memberships of one user (its key is a uid), each with its group.
    GroupsOfUser,
    /// The memberships of one group (its key is a gid), each with its user.
    MembersOfGroup,
}

/// The statement that lists the memberships of `key` for a walk of `kind`.
pub open spec fn memberships_view(kind: LookupKind, key: usize) -> QueryView {
    match kind {
        LookupKind::GroupsOfUser => memberships_of_user_view(key),
        LookupKind::MembersOfGroup => memberships_of_group_view(key),
    }
}

/// The statement that reads the other side of the membership `m`.
pub open spec fn lookup_view(kind: LookupKind, m: Membership) -> QueryView {
    match kind {
        LookupKind::GroupsOfUser => group_by_gid_view(m.gid),
        LookupKind::MembersOfGroup => user_by_id_view(m.uid),
    }
}

/// A walk over the memberships of one user or one group, which pairs each
/// membership with the record on its other side.
///
/// It first asks for the memberships, then, one after the other in their
/// order, for the record behind each of them, and keeps the first record of
/// each answer.
pub struct MembershipWalk<T> {
    kind: LookupKind,
    key: usize,
    memberships: Option<Vec<Membership>>,
    found: Vec<(T, Membership)>,
}

impl<T> MembershipWalk<T> {
    pub closed spec fn kind(&self) -> LookupKind {
        self.kind
    }

    /// The uid or gid whose memberships the walk goes through.
    pub closed spec fn key(&self) -> usize {
        self.key
    }

    /// The memberships, once they have been received.
    pub closed spec fn listed(&self) -> Option<Seq<Membership>> {
        match self.memberships {
            Some(ms) => Some(ms@),
            None => None,
        }
    }

    /// The pairs found so far, in the order of the memberships.
    pub closed spec fn found(&self) -> Seq<(T, Membership)> {
        self.found@
    }

    /// Whether every membership has been paired.
    pub open spec fn complete(&self) -> bool {
        &&& self.listed() is Some
        &&& self.found().len() == self.listed()->0.len()
    }

    /// What every step keeps: nothing is found before the memberships are
    /// known, and the i-th pair holds the i-th membership.
    #[verifier::type_invariant]
    spec fn well_formed(self) -> bool {
        match self.memberships {
            None => self.found@.len() == 0,
            Some(ms) => {
                &&& self.found@.len() <= ms@.len()
                &&& forall|i: int| 0 <= i < self.found@.len() ==> #[trigger] self.found@[i].1 == ms@[i]
            },
        }
    }

    fn start(kind: LookupKind, key: usize) -> (w: Self)
        ensures
            w.kind() == kind,
            w.key() == key,
            w.listed() is None,
            w.found().len() == 0,
    {
        MembershipWalk { kind, key, memberships: None, found: Vec::new() }
    }

    /// The statement to run next: the list of memberships first, then the
    /// lookup behind the first membership not yet paired; `None` once every
    /// membership is paired.
    pub fn next_query(&self) -> (q: Option<Query<'static>>)
        ensures
            self.listed() is None ==> (q matches Some(first) && first@ == memberships_view(self.kind(), self.key())),
            self.listed() matches Some(ms) ==> {
                if self.found().len() < ms.len() {
                    q matches Some(lookup) && lookup@ == lookup_view(self.kind(), ms[self.found().len() as int])
                } else {
                    q is None
                }
            },
    {
        proof {
            use_type_invariant(self);
        }
        match &self.memberships {
            None => {
                match self.kind {
                    LookupKind::GroupsOfUser => Some(with_one(MEMBERSHIPS_OF_USER, "uid", Value::Usize(self.key))),
                    LookupKind::MembersOfGroup => Some(with_one(MEMBERSHIPS_OF_GROUP, "gid", Value::Usize(self.key))),
                }
            },
            Some(ms) => {
                let i = self.found.len();
                if i < ms.len() {
                    let m = ms[i];
                    match self.kind {
                        LookupKind::GroupsOfUser => Some(get_group_by_gid(m.gid)),
                        LookupKind::MembersOfGroup => Some(get_user_by_id(m.uid)),
                    }
                } else {
                    None
                }
            },
        }
    }

    /// Takes in the memberships that the first statement returned.
    pub fn receive_memberships(&mut self, memberships: Vec<Membership>)
        requires
            old(self).listed() is None,
        ensures
            final(self).kind() == old(self).kind(),
            final(self).key() == old(self).key(),
            final(self).listed() == Some(memberships@),
            final(self).found().len() == 0,
    {
        proof {
            use_type_invariant(&*self);
        }
        self.memberships = Some(memberships);
    }

    /// Takes in the records that the lookup of the next membership returned,
    /// and pairs their first one with that membership.
    pub fn receive_entries(&mut self, entries: Vec<T>)
        requires
            old(self).listed() matches Some(ms) && old(self).found().len() < ms.len(),
            entries.len() > 0,
        ensures
            final(self).kind() == old(self).kind(),
            final(self).key() == old(self).key(),
            final(self).listed() == old(self).listed(),
            final(self).found() == old(self).found().push(
                (entries[0], old(self).listed()->0[old(self).found().len() as int]),
            ),
    {
        proof {
            use_type_invariant(&*self);
        }
        let mut entries = entries;
        let first = entries.swap_remove(0);
        let i = self.found.len();
        let m = match &self.memberships {
            Some(ms) => ms[i],
            None => {
                return;
            },
        };
        let mut found = Vec::new();
        std::mem::swap(&mut found, &mut self.found);
        found.push((first, m));
        self.found = found;
    }

    /// The pairs of a complete walk: each membership, in order, with the
    /// record found for it.
    pub fn finish(self) -> (pairs: Vec<(T, Membership)>)
        requires
            self.complete(),
        ensures
            pairs@ == self.found(),
            pairs@.len() == self.listed()->0.len(),
            forall|i: int| 0 <= i < pairs@.len() ==> #[trigger] pairs@[i].1 == self.listed()->0[i],
    {
        proof {
            use_type_invariant(&self);
        }
        self.found
    }
}

/// The walk that finds the groups of the user `uid`, each with the user's
/// membership in it.
pub fn get_groups_by_membership_id(uid: usize) -> (w: MembershipWalk<Group>)
    ensures
        w.kind() == LookupKind::GroupsOfUser,
        w.key() == uid,
        w.listed() is None,
        w.found().len() == 0,
{
    MembershipWalk::start(LookupKind::GroupsOfUser, uid)
}

/// The walk that finds the members of the group `gid`, each with their
/// membership in it.
pub fn get_members_of_group(gid: usize) -> (w: MembershipWalk<User>)
    ensures
        w.kind() == LookupKind::MembersOfGroup,
        w.key() == gid,
        w.listed() is None,
        w.found().len() == 0,
{
    MembershipWalk::start(LookupKind::MembersOfGroup, gid)
}

} // verus!
