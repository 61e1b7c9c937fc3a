//! Identifiers of the metadata domain: plain integers and names with a type of their own.

use crate::text;
use vstd::prelude::*;
use vstd::string::*;

verus! {

/// Identity of a worker process host, unique within one metadata group.
#[derive(Clone, Copy, Debug, PartialEq, Eq, Hash, Structural)]
pub struct WorkerId {
    pub raw: u64,
}

impl WorkerId {
    pub fn new(raw: u64) -> (id: Self)
        ensures
            id.raw == raw,
    {
        WorkerId { raw }
    }

    pub fn as_raw(&self) -> (raw: u64)
        ensures
            raw == self.raw,
    {
        self.raw
    }
}

/// Identity of one file's data in the block layer.
#[derive(Clone, Copy, Debug, PartialEq, Eq, Hash, Structural)]
pub struct DataHandleId {
    pub raw: u64,
}

impl DataHandleId {
    pub fn new(raw: u64) -> (id: Self)
        ensures
            id.raw == raw,
    {
        DataHandleId { raw }
    }

    pub fn as_raw(&self) -> (raw: u64)
        ensures
            raw == self.raw,
    {
        self.raw
    }
}

/// Position of a block within its data handle.
#[derive(Clone, Copy, Debug, PartialEq, Eq, Hash, Structural)]
pub struct BlockIndex {
    pub raw: u32,
}

impl BlockIndex {
    pub fn new(raw: u32) -> (index: Self)
        ensures
            index.raw == raw,
    {
        BlockIndex { raw }
    }

    pub fn as_raw(&self) -> (raw: u32)
        ensures
            raw == self.raw,
    {
        self.raw
    }
}

/// A block: the data handle it belongs to and its position there.
#[derive(Clone, Copy, Debug, PartialEq, Eq, Hash, Structural)]
pub struct BlockId {
    pub data_handle_id: DataHandleId,
    pub index: BlockIndex,
}

impl BlockId {
    pub fn new(data_handle_id: DataHandleId, index: BlockIndex) -> (id: Self)
        ensures
            id.data_handle_id == data_handle_id,
            id.index == index,
    {
        BlockId { data_handle_id, index }
    }

    /// The data handle and the position, with a colon between them.
    pub open spec fn spec_text(self) -> Seq<char> {
        text::decimal(self.data_handle_id.raw as nat) + ":"@ + text::decimal(self.index.raw as nat)
    }

    /// The data handle and the position, with a colon between them.
    pub fn to_text(&self) -> (text: String)
        ensures
            text@ == self.spec_text(),
    {
        let mut text = String::new();
        text::push_decimal(&mut text, self.data_handle_id.raw);
        text.append(":");
        text::push_decimal(&mut text, self.index.raw as u64);
        assert(text@ =~= self.spec_text());
        text
    }
}

/// Identity of an inode in the namespace.
#[derive(Clone, Copy, Debug, PartialEq, Eq, Hash, Structural)]
pub struct InodeId {
    pub raw: u64,
}

impl InodeId {
    pub fn new(raw: u64) -> (id: Self)
        ensures
            id.raw == raw,
    {
        InodeId { raw }
    }

    pub fn as_raw(&self) -> (raw: u64)
        ensures
            raw == self.raw,
    {
        self.raw
    }
}

/// Identity of a mount.
#[derive(Clone, Copy, Debug, PartialEq, Eq, Hash, Structural)]
pub struct MountId {
    pub raw: u64,
}

impl MountId {
    pub fn new(raw: u64) -> (id: Self)
        ensures
            id.raw == raw,
    {
        MountId { raw }
    }
}

/// Identity of a client process. Zero stands for a client that gave none.
#[derive(Clone, Copy, Debug, PartialEq, Eq, Hash, Structural)]
pub struct ClientId {
    pub raw: u128,
}

impl ClientId {
    pub fn new(raw: u128) -> (id: Self)
        ensures
            id.raw == raw,
    {
        ClientId { raw }
    }
}

/// Identity of one client call.
#[derive(Clone, Copy, Debug, PartialEq, Eq, Hash, Structural)]
pub struct CallId {
    pub raw: u128,
}

/// Identity of a write lease.
#[derive(Clone, Copy, Debug, PartialEq, Eq, Hash, Structural)]
pub struct LeaseId {
    pub raw: u128,
}

impl LeaseId {
    pub fn new(raw: u128) -> (id: Self)
        ensures
            id.raw == raw,
    {
        LeaseId { raw }
    }
}

/// Numeric identity of a metadata group.
#[derive(Clone, Copy, Debug, PartialEq, Eq, Hash, Structural)]
pub struct ShardGroupId {
    pub raw: u64,
}

impl ShardGroupId {
    pub fn new(raw: u64) -> (id: Self)
        ensures
            id.raw == raw,
    {
        ShardGroupId { raw }
    }
}

/// Version of one mount's routing, as clients present it.
#[derive(Clone, Copy, Debug, PartialEq, Eq, Hash, Structural)]
pub struct MountEpoch {
    pub raw: u64,
}

impl MountEpoch {
    pub fn new(raw: u64) -> (epoch: Self)
        ensures
            epoch.raw == raw,
    {
        MountEpoch { raw }
    }

    pub fn as_u64(&self) -> (raw: u64)
        ensures
            raw == self.raw,
    {
        self.raw
    }
}

/// One start of a worker process: a 128-bit identifier drawn at startup.
#[derive(Clone, Copy, Debug, PartialEq, Eq, Hash, Structural)]
pub struct WorkerRunId {
    pub raw: u128,
}

impl WorkerRunId {
    pub fn new(raw: u128) -> (id: Self)
        ensures
            id.raw == raw,
    {
        WorkerRunId { raw }
    }
}

/// Position in a group's replicated log, ordered by term, then leader, then index.
#[derive(Clone, Copy, Debug, PartialEq, Eq, Hash, Structural)]
pub struct RaftLogId {
    pub term: u64,
    pub leader_node_id: u64,
    pub index: u64,
}

impl RaftLogId {
    pub fn new(term: u64, leader_node_id: u64, index: u64) -> (id: Self)
        ensures
            id.term == term,
            id.leader_node_id == leader_node_id,
            id.index == index,
    {
        RaftLogId { term, leader_node_id, index }
    }

    /// Whether this position lies before the other.
    pub open spec fn precedes(self, other: RaftLogId) -> bool {
        self.term < other.term || (self.term == other.term && (self.leader_node_id < other.leader_node_id || (
        self.leader_node_id == other.leader_node_id && self.index < other.index)))
    }

    /// Whether this position lies before the other.
    pub fn is_before(&self, other: &RaftLogId) -> (before: bool)
        ensures
            before == self.precedes(*other),
    {
        self.term < other.term || (self.term == other.term && (self.leader_node_id < other.leader_node_id || (
        self.leader_node_id == other.leader_node_id && self.index < other.index)))
    }

    /// Whether this position is the other or lies behind it.
    pub fn has_reached(&self, required: &RaftLogId) -> (reached: bool)
        ensures
            reached == !self.precedes(*required),
    {
        !self.is_before(required)
    }
}

/// Name of a metadata group. Two names are the same group when their text is.
#[derive(Debug)]
pub struct GroupName {
    pub name: String,
}

impl View for GroupName {
    type V = Seq<char>;

    open spec fn view(&self) -> Seq<char> {
        self.name@
    }
}

impl GroupName {
    pub fn new(name: String) -> (group: Self)
        ensures
            group.name == name,
            group@ == name@,
    {
        GroupName { name }
    }

    /// Whether both names denote the same group.
    pub fn same(&self, other: &GroupName) -> (same: bool)
        ensures
            same == (self@ == other@),
    {
        self.name == other.name
    }
}

impl Clone for GroupName {
    fn clone(&self) -> (copy: Self)
        ensures
            copy == *self,
    {
        GroupName { name: self.name.clone() }
    }
}

impl PartialEq for GroupName {
    fn eq(&self, other: &Self) -> (same: bool) {
        self.name == other.name
    }
}

impl vstd::std_specs::cmp::PartialEqSpecImpl for GroupName {
    open spec fn obeys_eq_spec() -> bool {
        true
    }

    open spec fn eq_spec(&self, other: &Self) -> bool {
        self@ == other@
    }
}

impl Eq for GroupName {

}

/// Positions are in line: none lies before itself, of two different ones exactly one lies before
/// the other, and what lies before a position lies before all behind it. A later term goes before
/// all else, and under one leader the index counts.
pub proof fn law_positions_are_in_line(a: RaftLogId, b: RaftLogId, c: RaftLogId)
    ensures
        !a.precedes(a),
        a != b ==> (a.precedes(b) <==> !b.precedes(a)),
        a.precedes(b) && b.precedes(c) ==> a.precedes(c),
        a.term < b.term ==> a.precedes(b),
        a.term == b.term && a.leader_node_id < b.leader_node_id ==> a.precedes(b),
        a.term == b.term && a.leader_node_id == b.leader_node_id ==> (a.precedes(b) <==> a.index < b.index),
{
}

/// Blocks with the same text are the same block.
pub proof fn law_texts_tell_blocks_apart(a: BlockId, b: BlockId)
    requires
        a.spec_text() == b.spec_text(),
    ensures
        a == b,
{
    reveal_strlit(":");
    let (da, ia) = (text::decimal(a.data_handle_id.raw as nat), text::decimal(a.index.raw as nat));
    let (db, ib) = (text::decimal(b.data_handle_id.raw as nat), text::decimal(b.index.raw as nat));
    text::law_decimals_come_back(a.data_handle_id.raw as nat);
    text::law_decimals_come_back(b.data_handle_id.raw as nat);
    let whole = a.spec_text();
    assert(whole[da.len() as int] == ':');
    assert(b.spec_text()[db.len() as int] == ':');
    if da.len() < db.len() {
        assert(b.spec_text()[da.len() as int] == db[da.len() as int]);
        assert(false);
    }
    if db.len() < da.len() {
        assert(whole[db.len() as int] == da[db.len() as int]);
        assert(false);
    }
    assert(da =~= whole.take(da.len() as int));
    assert(db =~= b.spec_text().take(da.len() as int));
    assert(ia =~= whole.skip(da.len() as int + 1));
    assert(ib =~= b.spec_text().skip(da.len() as int + 1));
    text::law_decimals_tell_numbers_apart(a.data_handle_id.raw as nat, b.data_handle_id.raw as nat);
    text::law_decimals_tell_numbers_apart(a.index.raw as nat, b.index.raw as nat);
}

} // verus!
