//! What the core gave, as answers tell it.

use crate::ids::{DataHandleId, InodeId, LeaseId};
use crate::service::fs_types::InodeKind;
use crate::service::wire;
use crate::service::wire::{FileAttrs, WireDirEntry, WireFileAttrs};
use crate::write_target::{FencingToken, WriteTarget};
use vstd::prelude::*;

verus! {

/// A lease identity, as the wire tells it: in two halves.
#[derive(Clone, Copy, Debug, PartialEq, Eq, Structural)]
pub struct WireLeaseId {
    pub high: u64,
    pub low: u64,
}

pub open spec fn lease_id_to_tell(id: LeaseId) -> WireLeaseId {
    WireLeaseId {
        high: (id.raw / 0x1_0000_0000_0000_0000) as u64,
        low: (id.raw % 0x1_0000_0000_0000_0000) as u64,
    }
}

pub open spec fn lease_id_told(id: WireLeaseId) -> LeaseId {
    LeaseId { raw: (id.high * 0x1_0000_0000_0000_0000 + id.low) as u128 }
}

/// A lease identity for the wire.
pub fn lease_id_to_proto(id: LeaseId) -> (told: WireLeaseId)
    ensures
        told == lease_id_to_tell(id),
{
    WireLeaseId {
        high: (id.raw / 0x1_0000_0000_0000_0000) as u64,
        low: (id.raw % 0x1_0000_0000_0000_0000) as u64,
    }
}

/// The lease identity that the wire tells.
pub fn lease_id_from_proto(id: WireLeaseId) -> (told: LeaseId)
    ensures
        told == lease_id_told(id),
{
    LeaseId { raw: id.high as u128 * 0x1_0000_0000_0000_0000 + id.low as u128 }
}

/// A lease identity that is told and read again is the same.
pub proof fn law_lease_ids_come_back(id: LeaseId, wire: WireLeaseId)
    ensures
        lease_id_told(lease_id_to_tell(id)) == id,
        lease_id_to_tell(lease_id_told(wire)) == wire,
{
    let raw = id.raw as int;
    assert(raw == (raw / 0x1_0000_0000_0000_0000) * 0x1_0000_0000_0000_0000 + raw % 0x1_0000_0000_0000_0000);
    assert(raw / 0x1_0000_0000_0000_0000 <= u64::MAX);
}

/// What the core knows a write session by.
#[derive(Clone, Copy, Debug, PartialEq, Eq, Structural)]
pub struct SessionKey {
    pub file_handle: u64,
    pub lease_id: LeaseId,
    pub lease_epoch: u64,
    pub open_epoch: u64,
    pub fencing_token: FencingToken,
}

/// What a client shows to go on with a write.
#[derive(Clone, Copy, Debug, PartialEq, Eq, Structural)]
pub struct WriteHandle {
    pub handle_id: u64,
    pub lease_id: Option<WireLeaseId>,
    pub lease_epoch: u64,
    pub open_epoch: u64,
    pub fencing_token: Option<FencingToken>,
}

pub open spec fn handle_for(key: SessionKey) -> WriteHandle {
    WriteHandle {
        handle_id: key.file_handle,
        lease_id: Some(lease_id_to_tell(key.lease_id)),
        lease_epoch: key.lease_epoch,
        open_epoch: key.open_epoch,
        fencing_token: Some(key.fencing_token),
    }
}

/// What the client of a session shows to go on with it.
pub fn write_handle_from_key(key: &SessionKey) -> (handle: WriteHandle)
    ensures
        handle == handle_for(*key),
{
    WriteHandle {
        handle_id: key.file_handle,
        lease_id: Some(lease_id_to_proto(key.lease_id)),
        lease_epoch: key.lease_epoch,
        open_epoch: key.open_epoch,
        fencing_token: Some(key.fencing_token),
    }
}

/// A file that was opened to be written.
#[derive(Debug)]
pub struct OpenedWrite {
    pub session_key: SessionKey,
    pub inode_id: InodeId,
    pub data_handle_id: DataHandleId,
    pub base_size: u64,
    pub expires_at_ms: u64,
    pub write_targets: Vec<WriteTarget>,
}

/// What a client is told that opened a file by its inode. All of it is empty where that failed.
#[derive(Debug)]
pub struct OpenWriteReply {
    pub file_handle: u64,
    pub lease_id: Option<WireLeaseId>,
    pub fencing_token: Option<FencingToken>,
    pub write_targets: Vec<WriteTarget>,
    pub base_size: u64,
    pub open_epoch: u64,
    pub lease_epoch: u64,
    pub expires_at_ms: u64,
}

/// What a client is told that opened a file by its inode.
pub fn open_write_reply(opened: Option<OpenedWrite>) -> (reply: OpenWriteReply)
    ensures
        opened matches Some(o) ==> reply == (OpenWriteReply {
            file_handle: o.session_key.file_handle,
            lease_id: Some(lease_id_to_tell(o.session_key.lease_id)),
            fencing_token: Some(o.session_key.fencing_token),
            write_targets: o.write_targets,
            base_size: o.base_size,
            open_epoch: o.session_key.open_epoch,
            lease_epoch: o.session_key.lease_epoch,
            expires_at_ms: o.expires_at_ms,
        }),
        opened is None ==> reply.write_targets@.len() == 0 && reply == (OpenWriteReply {
            file_handle: 0,
            lease_id: None,
            fencing_token: None,
            write_targets: reply.write_targets,
            base_size: 0,
            open_epoch: 0,
            lease_epoch: 0,
            expires_at_ms: 0,
        }),
{
    match opened {
        Some(opened) => OpenWriteReply {
            file_handle: opened.session_key.file_handle,
            lease_id: Some(lease_id_to_proto(opened.session_key.lease_id)),
            fencing_token: Some(opened.session_key.fencing_token),
            write_targets: opened.write_targets,
            base_size: opened.base_size,
            open_epoch: opened.session_key.open_epoch,
            lease_epoch: opened.session_key.lease_epoch,
            expires_at_ms: opened.expires_at_ms,
        },
        None => OpenWriteReply {
            file_handle: 0,
            lease_id: None,
            fencing_token: None,
            write_targets: Vec::new(),
            base_size: 0,
            open_epoch: 0,
            lease_epoch: 0,
            expires_at_ms: 0,
        },
    }
}

/// What a client is told that opened a file by its path. Blocks are asked for one by one.
#[derive(Clone, Copy, Debug, PartialEq, Eq, Structural)]
pub struct OpenedByPath {
    pub write_handle: WriteHandle,
    pub inode_id: u64,
    pub data_handle_id: u64,
    pub base_size: u64,
    pub expires_at_ms: u64,
}

/// What a client is told that opened a file by its path.
pub fn opened_by_path(opened: &OpenedWrite) -> (reply: OpenedByPath)
    ensures
        reply == (OpenedByPath {
            write_handle: handle_for(opened.session_key),
            inode_id: opened.inode_id.raw,
            data_handle_id: opened.data_handle_id.raw,
            base_size: opened.base_size,
            expires_at_ms: opened.expires_at_ms,
        }),
{
    OpenedByPath {
        write_handle: write_handle_from_key(&opened.session_key),
        inode_id: opened.inode_id.raw,
        data_handle_id: opened.data_handle_id.raw,
        base_size: opened.base_size,
        expires_at_ms: opened.expires_at_ms,
    }
}

/// A file that was closed.
#[derive(Clone, Copy, Debug, PartialEq, Eq, Structural)]
pub struct ClosedWrite {
    pub committed_size: u64,
    pub file_version: Option<u64>,
}

/// What a client is told that closed a file. All of it is empty where that failed.
pub fn close_write_reply(closed: Option<ClosedWrite>) -> (reply: ClosedWrite)
    ensures
        reply == (match closed {
            Some(c) => c,
            None => ClosedWrite { committed_size: 0, file_version: None },
        }),
{
    match closed {
        Some(closed) => closed,
        None => ClosedWrite { committed_size: 0, file_version: None },
    }
}

/// An inode that was made, as far as it is told: a directory is told to hold entries.
#[derive(Clone, Copy, Debug, PartialEq, Eq, Structural)]
pub struct MadeInode {
    pub inode_id: u64,
    pub kind: InodeKind,
    pub attrs: Option<WireFileAttrs>,
    pub holds_entries: bool,
}

/// What a client is told that made an inode.
#[derive(Clone, Copy, Debug, PartialEq, Eq, Structural)]
pub struct MadeReply {
    pub inode: Option<MadeInode>,
    pub attrs: Option<WireFileAttrs>,
    /// The data of a new file, 0 where there is none.
    pub data_handle_id: u64,
}

pub open spec fn some_attrs_to_tell(attrs: Option<FileAttrs>) -> Option<WireFileAttrs> {
    match attrs {
        Some(a) => Some(wire::attrs_to_tell(a)),
        None => None,
    }
}

fn tell_attrs(attrs: Option<FileAttrs>) -> (told: Option<WireFileAttrs>)
    ensures
        told == some_attrs_to_tell(attrs),
{
    match attrs {
        Some(a) => Some(wire::file_attrs_to_proto(&a)),
        None => None,
    }
}

/// What a client is told that made a file or a directory.
pub fn made_reply(
    kind: InodeKind,
    inode_id: Option<InodeId>,
    attrs: Option<FileAttrs>,
    data_handle_id: Option<DataHandleId>,
) -> (reply: MadeReply)
    ensures
        reply == (MadeReply {
            inode: match inode_id {
                Some(id) => Some(
                    MadeInode {
                        inode_id: id.raw,
                        kind,
                        attrs: some_attrs_to_tell(attrs),
                        holds_entries: kind == InodeKind::Dir,
                    },
                ),
                None => None,
            },
            attrs: some_attrs_to_tell(attrs),
            data_handle_id: match data_handle_id {
                Some(id) => id.raw,
                None => 0,
            },
        }),
{
    let told = tell_attrs(attrs);
    MadeReply {
        inode: match inode_id {
            Some(id) => Some(
                MadeInode { inode_id: id.raw, kind, attrs: told, holds_entries: kind == InodeKind::Dir },
            ),
            None => None,
        },
        attrs: told,
        data_handle_id: match data_handle_id {
            Some(id) => id.raw,
            None => 0,
        },
    }
}

/// An entry of a directory, as the core lists it.
#[derive(Debug)]
pub struct ListedEntry {
    pub name: String,
    pub inode_id: InodeId,
    pub kind: Option<InodeKind>,
    pub attrs: Option<FileAttrs>,
}

/// The entry is told as it was listed.
pub open spec fn is_told(entry: WireDirEntry, listed: ListedEntry) -> bool {
    &&& entry.name == listed.name
    &&& entry.inode_id == listed.inode_id.raw
    &&& entry.kind == listed.kind
    &&& entry.attrs == some_attrs_to_tell(listed.attrs)
}

/// A page of a directory, for the wire.
pub fn entries_to_proto(listed: &Vec<ListedEntry>) -> (entries: Vec<WireDirEntry>)
    ensures
        entries@.len() == listed@.len(),
        forall|i: int| 0 <= i < listed@.len() ==> is_told(#[trigger] entries@[i], listed@[i]),
{
    let mut entries: Vec<WireDirEntry> = Vec::new();
    let mut i: usize = 0;
    while i < listed.len()
        invariant
            i <= listed@.len(),
            entries@.len() == i,
            forall|k: int| 0 <= k < i ==> is_told(#[trigger] entries@[k], listed@[k]),
        decreases listed@.len() - i,
    {
        let entry = &listed[i];
        entries.push(
            WireDirEntry {
                name: entry.name.clone(),
                inode_id: entry.inode_id.raw,
                kind: entry.kind,
                attrs: tell_attrs(entry.attrs),
            },
        );
        i += 1;
    }
    entries
}

/// A lease identity is told in its two halves, the high one first.
pub proof fn law_lease_ids_are_told_in_halves(id: LeaseId, wire: WireLeaseId)
    ensures
        lease_id_to_tell(id).high * 0x1_0000_0000_0000_0000 + lease_id_to_tell(id).low == id.raw,
        lease_id_told(wire).raw == wire.high * 0x1_0000_0000_0000_0000 + wire.low,
{
    let raw = id.raw as int;
    assert(raw == (raw / 0x1_0000_0000_0000_0000) * 0x1_0000_0000_0000_0000 + raw % 0x1_0000_0000_0000_0000);
    assert(raw / 0x1_0000_0000_0000_0000 <= u64::MAX);
}

/// What a client shows to go on with a write is what its session is known by.
pub proof fn law_handles_show_their_session(key: SessionKey)
    ensures
        ({
            let handle = handle_for(key);
            &&& handle.handle_id == key.file_handle
            &&& handle.lease_epoch == key.lease_epoch
            &&& handle.open_epoch == key.open_epoch
            &&& handle.fencing_token == Some(key.fencing_token)
            &&& handle.lease_id matches Some(told) && told.high * 0x1_0000_0000_0000_0000 + told.low
                == key.lease_id.raw
        }),
{
    law_lease_ids_are_told_in_halves(key.lease_id, WireLeaseId { high: 0, low: 0 });
}

/// Attributes are told as they are, where there are any.
pub proof fn law_attributes_are_told_as_they_are(attrs: Option<FileAttrs>)
    ensures
        some_attrs_to_tell(attrs) is Some <==> attrs is Some,
        some_attrs_to_tell(attrs) matches Some(told) ==> told.mode == attrs->0.mode && told.uid == attrs->0.uid
            && told.gid == attrs->0.gid && told.size == attrs->0.size && told.atime_ms == attrs->0.atime_ms
            && told.mtime_ms == attrs->0.mtime_ms && told.ctime_ms == attrs->0.ctime_ms && told.nlink
            == attrs->0.nlink,
{
}

/// An entry of a directory is told with its name, its inode, its kind and its attributes.
pub proof fn law_entries_are_told_as_listed(entry: WireDirEntry, listed: ListedEntry)
    requires
        is_told(entry, listed),
    ensures
        entry.name@ == listed.name@,
        entry.inode_id == listed.inode_id.raw,
        entry.kind == listed.kind,
        entry.attrs is Some <==> listed.attrs is Some,
        entry.attrs matches Some(told) ==> told.mode == listed.attrs->0.mode && told.uid == listed.attrs->0.uid
            && told.gid == listed.attrs->0.gid && told.size == listed.attrs->0.size && told.mtime_ms
            == listed.attrs->0.mtime_ms,
{
    law_attributes_are_told_as_they_are(listed.attrs);
}

} // verus!
