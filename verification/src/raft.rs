//! What a node knows of its raft group.

use crate::ids::RaftLogId;
use crate::text;
use vstd::prelude::*;

verus! {

/// A node of the group and where it is reached.
#[derive(Debug)]
pub struct RaftMember {
    pub node_id: u64,
    pub address: String,
}

/// What a node knows of its group at one time.
#[derive(Debug)]
pub struct RaftView {
    pub is_leader: bool,
    pub leader_id: Option<u64>,
    pub members: Option<Vec<RaftMember>>,
    pub last_applied: Option<RaftLogId>,
}

/// The address of the first member with this identity, from a place on.
pub open spec fn address_from(members: Seq<RaftMember>, node_id: u64, from: int) -> Option<Seq<char>>
    decreases members.len() - from,
{
    if from >= members.len() {
        None
    } else if members[from].node_id == node_id {
        Some(members[from].address@)
    } else {
        address_from(members, node_id, from + 1)
    }
}

impl RaftView {
    /// Where the leader is reached, where leader and members are known and it is one of them.
    pub open spec fn spec_leader_address(&self) -> Option<Seq<char>> {
        match (self.leader_id, self.members) {
            (Some(leader), Some(members)) => address_from(members@, leader, 0),
            _ => None,
        }
    }

    /// Where the leader is reached.
    pub fn leader_address(&self) -> (address: Option<String>)
        ensures
            text::shown(address) == self.spec_leader_address(),
    {
        let leader: u64 = match self.leader_id {
            Some(leader) => leader,
            None => {
                return None;
            },
        };
        match &self.members {
            None => None,
            Some(members) => {
                let mut i: usize = 0;
                while i < members.len()
                    invariant
                        i <= members@.len(),
                        self.leader_id == Some(leader),
                        self.members == Some(*members),
                        address_from(members@, leader, 0) == address_from(members@, leader, i as int),
                    decreases members@.len() - i,
                {
                    if members[i].node_id == leader {
                        return Some(members[i].address.clone());
                    }
                    i += 1;
                }
                None
            },
        }
    }
}

/// The leader is reached at the address of the first member with its identity; it is not known
/// where leader or members are not known, or the leader is none of them.
pub proof fn law_leaders_are_reached_at_their_address(view: RaftView)
    ensures
        view.leader_id is None || view.members is None ==> view.spec_leader_address() is None,
        view.leader_id is Some && view.members is Some ==> {
            let leader = view.leader_id->0;
            let members = view.members->0@;
            &&& (forall|i: int| 0 <= i < members.len() ==> (#[trigger] members[i]).node_id != leader)
                ==> view.spec_leader_address() is None
            &&& forall|i: int|
                0 <= i < members.len() && (#[trigger] members[i]).node_id == leader && (forall|j: int|
                    0 <= j < i ==> (#[trigger] members[j]).node_id != leader) ==> view.spec_leader_address() == Some(
                    members[i].address@,
                )
        },
{
    if view.leader_id is Some && view.members is Some {
        lemma_address_from(view.members->0@, view.leader_id->0, 0);
    }
}

proof fn lemma_address_from(members: Seq<RaftMember>, node_id: u64, from: int)
    requires
        0 <= from,
    ensures
        (forall|i: int| from <= i < members.len() ==> (#[trigger] members[i]).node_id != node_id) ==> address_from(
            members,
            node_id,
            from,
        ) is None,
        forall|i: int|
            from <= i < members.len() && (#[trigger] members[i]).node_id == node_id && (forall|j: int|
                from <= j < i ==> (#[trigger] members[j]).node_id != node_id) ==> address_from(members, node_id, from)
                == Some(members[i].address@),
    decreases members.len() - from,
{
    if from < members.len() && members[from].node_id != node_id {
        lemma_address_from(members, node_id, from + 1);
    }
}

} // verus!
