//! Inodes and their attributes, as requests and answers carry them.

use crate::error::{ErrorKind, MetadataError, MetadataResult};
use crate::ids::{BlockId, InodeId, MountId};
use crate::service::fs_types::InodeKind;
use crate::text;
use vstd::prelude::*;

verus! {

/// Attributes of an inode.
#[derive(Clone, Copy, Debug, PartialEq, Eq, Structural)]
pub struct FileAttrs {
    pub mode: u32,
    pub uid: u32,
    pub gid: u32,
    pub size: u64,
    pub atime_ms: u64,
    pub mtime_ms: u64,
    pub ctime_ms: u64,
    pub nlink: u32,
}

/// Attributes of an inode, as the wire tells them.
#[derive(Clone, Copy, Debug, PartialEq, Eq, Structural)]
pub struct WireFileAttrs {
    pub mode: u32,
    pub uid: u32,
    pub gid: u32,
    pub size: u64,
    pub atime_ms: u64,
    pub mtime_ms: u64,
    pub ctime_ms: u64,
    pub nlink: u32,
}

pub open spec fn attrs_told(attrs: WireFileAttrs) -> FileAttrs {
    FileAttrs {
        mode: attrs.mode,
        uid: attrs.uid,
        gid: attrs.gid,
        size: attrs.size,
        atime_ms: attrs.atime_ms,
        mtime_ms: attrs.mtime_ms,
        ctime_ms: attrs.ctime_ms,
        nlink: attrs.nlink,
    }
}

pub open spec fn attrs_to_tell(attrs: FileAttrs) -> WireFileAttrs {
    WireFileAttrs {
        mode: attrs.mode,
        uid: attrs.uid,
        gid: attrs.gid,
        size: attrs.size,
        atime_ms: attrs.atime_ms,
        mtime_ms: attrs.mtime_ms,
        ctime_ms: attrs.ctime_ms,
        nlink: attrs.nlink,
    }
}

/// The attributes that the wire tells.
pub fn proto_to_file_attrs(attrs: Option<WireFileAttrs>) -> (told: MetadataResult<FileAttrs>)
    ensures
        match (attrs, told) {
            (Some(w), Ok(a)) => a == attrs_told(w),
            (None, Err(e)) => e.says(ErrorKind::InvalidArgument, "Missing FileAttrs"@),
            _ => false,
        },
{
    match attrs {
        Some(w) => Ok(
            FileAttrs {
                mode: w.mode,
                uid: w.uid,
                gid: w.gid,
                size: w.size,
                atime_ms: w.atime_ms,
                mtime_ms: w.mtime_ms,
                ctime_ms: w.ctime_ms,
                nlink: w.nlink,
            },
        ),
        None => Err(MetadataError::InvalidArgument(text::literal("Missing FileAttrs"))),
    }
}

/// The attributes for the wire.
pub fn file_attrs_to_proto(attrs: &FileAttrs) -> (told: WireFileAttrs)
    ensures
        told == attrs_to_tell(*attrs),
{
    WireFileAttrs {
        mode: attrs.mode,
        uid: attrs.uid,
        gid: attrs.gid,
        size: attrs.size,
        atime_ms: attrs.atime_ms,
        mtime_ms: attrs.mtime_ms,
        ctime_ms: attrs.ctime_ms,
        nlink: attrs.nlink,
    }
}

/// A part of a file and the part of a block that it lies in.
#[derive(Clone, Copy, Debug, PartialEq, Eq, Structural)]
pub struct FileExtent {
    pub file_offset: u64,
    pub block_id: BlockId,
    pub block_offset: u64,
    pub len: u64,
    pub file_version: u64,
    pub block_stamp: u64,
}

/// What an inode holds.
#[derive(Debug)]
#[allow(inconsistent_fields)]
pub enum InodeData {
    File { extents: Vec<FileExtent>, lease_epoch: u64 },
    Dir,
    Symlink { target: Option<String> },
}

/// A named value of an inode.
#[derive(Debug)]
pub struct Xattr {
    pub name: String,
    pub value: Vec<u8>,
}

/// An inode as it is stored.
#[derive(Debug)]
pub struct Inode {
    pub inode_id: InodeId,
    pub mount_id: MountId,
    pub kind: InodeKind,
    pub attrs: FileAttrs,
    pub data: InodeData,
    pub xattrs: Vec<Xattr>,
}

/// What an inode holds, as the wire tells it. The lease of a file is never told.
#[derive(Debug)]
#[allow(inconsistent_fields)]
pub enum WireInodeData {
    File { extents: Vec<FileExtent>, lease_epoch: u64, lease_id: Option<u128> },
    Dir,
    Symlink { target: Option<String> },
}

/// An inode, as the wire tells it.
#[derive(Debug)]
pub struct WireInode {
    pub inode_id: u64,
    pub mount_id: u64,
    pub kind: InodeKind,
    pub attrs: WireFileAttrs,
    pub data: Option<WireInodeData>,
    pub xattrs: Vec<Xattr>,
}

#[allow(inconsistent_fields)]
pub ghost enum DataModel {
    File { extents: Seq<FileExtent>, lease_epoch: u64, lease_id: Option<u128> },
    Dir,
    Symlink { target: Option<Seq<char>> },
}

pub ghost struct WireInodeModel {
    pub inode_id: u64,
    pub mount_id: u64,
    pub kind: InodeKind,
    pub attrs: WireFileAttrs,
    pub data: Option<DataModel>,
    pub xattrs: Seq<(Seq<char>, Seq<u8>)>,
}

/// The names and values of a list.
pub open spec fn xattr_views(xattrs: Seq<Xattr>) -> Seq<(Seq<char>, Seq<u8>)> {
    Seq::new(xattrs.len(), |i: int| (xattrs[i].name@, xattrs[i].value@))
}

impl View for WireInodeData {
    type V = DataModel;

    open spec fn view(&self) -> DataModel {
        match self {
            WireInodeData::File { extents, lease_epoch, lease_id } => DataModel::File {
                extents: extents@,
                lease_epoch: *lease_epoch,
                lease_id: *lease_id,
            },
            WireInodeData::Dir => DataModel::Dir,
            WireInodeData::Symlink { target } => DataModel::Symlink { target: text::shown(*target) },
        }
    }
}

impl View for WireInode {
    type V = WireInodeModel;

    open spec fn view(&self) -> WireInodeModel {
        WireInodeModel {
            inode_id: self.inode_id,
            mount_id: self.mount_id,
            kind: self.kind,
            attrs: self.attrs,
            data: match self.data {
                Some(data) => Some(data@),
                None => None,
            },
            xattrs: xattr_views(self.xattrs@),
        }
    }
}

/// What is told of what an inode holds.
pub open spec fn data_to_tell(data: InodeData) -> DataModel {
    match data {
        InodeData::File { extents, lease_epoch } => DataModel::File { extents: extents@, lease_epoch, lease_id: None },
        InodeData::Dir => DataModel::Dir,
        InodeData::Symlink { target } => DataModel::Symlink { target: text::shown(target) },
    }
}

/// What is told of an inode.
pub open spec fn inode_to_tell(inode: Inode) -> WireInodeModel {
    WireInodeModel {
        inode_id: inode.inode_id.raw,
        mount_id: inode.mount_id.raw,
        kind: inode.kind,
        attrs: attrs_to_tell(inode.attrs),
        data: Some(data_to_tell(inode.data)),
        xattrs: xattr_views(inode.xattrs@),
    }
}

/// What a lookup tells of an inode: of a symlink without a target, nothing of what it holds.
pub open spec fn looked_up(inode: Inode) -> WireInodeModel {
    WireInodeModel {
        data: if inode.data == (InodeData::Symlink { target: None }) {
            None
        } else {
            Some(data_to_tell(inode.data))
        },
        ..inode_to_tell(inode)
    }
}

fn copy_extents(extents: &Vec<FileExtent>) -> (copy: Vec<FileExtent>)
    ensures
        copy@ == extents@,
{
    let mut copy: Vec<FileExtent> = Vec::new();
    let mut i: usize = 0;
    while i < extents.len()
        invariant
            i <= extents@.len(),
            copy@ == extents@.take(i as int),
        decreases extents@.len() - i,
    {
        copy.push(extents[i]);
        i += 1;
        assert(extents@.take(i as int) =~= extents@.take(i - 1).push(extents@[i - 1]));
    }
    assert(extents@.take(i as int) =~= extents@);
    copy
}

fn copy_xattrs(xattrs: &Vec<Xattr>) -> (copy: Vec<Xattr>)
    ensures
        xattr_views(copy@) == xattr_views(xattrs@),
{
    let mut copy: Vec<Xattr> = Vec::new();
    let mut i: usize = 0;
    while i < xattrs.len()
        invariant
            i <= xattrs@.len(),
            copy@.len() == i,
            forall|k: int|
                0 <= k < i ==> (#[trigger] copy@[k]).name@ == xattrs@[k].name@ && copy@[k].value@ == xattrs@[k].value@,
        decreases xattrs@.len() - i,
    {
        let xattr = &xattrs[i];
        let mut value: Vec<u8> = Vec::new();
        let mut j: usize = 0;
        while j < xattr.value.len()
            invariant
                j <= xattr.value@.len(),
                value@ == xattr.value@.take(j as int),
            decreases xattr.value@.len() - j,
        {
            value.push(xattr.value[j]);
            j += 1;
            assert(xattr.value@.take(j as int) =~= xattr.value@.take(j - 1).push(xattr.value@[j - 1]));
        }
        assert(xattr.value@.take(j as int) =~= xattr.value@);
        copy.push(Xattr { name: xattr.name.clone(), value });
        i += 1;
    }
    assert(xattr_views(copy@) =~= xattr_views(xattrs@));
    copy
}

/// The value of an extended attribute, if there is one of that name.
pub open spec fn value_of(xattrs: Seq<Xattr>, name: Seq<char>) -> Option<Seq<u8>>
    decreases xattrs.len(),
{
    if xattrs.len() == 0 {
        None
    } else if xattrs[0].name@ == name {
        Some(xattrs[0].value@)
    } else {
        value_of(xattrs.skip(1), name)
    }
}

/// The value of an extended attribute, if there is one of that name.
pub fn xattr_value<'a>(xattrs: &'a Vec<Xattr>, name: &str) -> (value: Option<&'a Vec<u8>>)
    ensures
        match value {
            Some(v) => value_of(xattrs@, name@) == Some(v@),
            None => value_of(xattrs@, name@) is None,
        },
{
    let mut i: usize = 0;
    assert(xattrs@.skip(0) =~= xattrs@);
    while i < xattrs.len()
        invariant
            i <= xattrs@.len(),
            value_of(xattrs@, name@) == value_of(xattrs@.skip(i as int), name@),
        decreases xattrs@.len() - i,
    {
        let xattr = &xattrs[i];
        if text::same(xattr.name.as_str(), name) {
            return Some(&xattr.value);
        }
        assert(xattrs@.skip(i as int).skip(1) =~= xattrs@.skip(i + 1));
        i += 1;
    }
    None
}

/// The names of the extended attributes.
pub fn xattr_names(xattrs: &Vec<Xattr>) -> (names: Vec<String>)
    ensures
        names@.len() == xattrs@.len(),
        forall|i: int| 0 <= i < xattrs@.len() ==> (#[trigger] names@[i]) == xattrs@[i].name,
{
    let mut names: Vec<String> = Vec::new();
    let mut i: usize = 0;
    while i < xattrs.len()
        invariant
            i <= xattrs@.len(),
            names@.len() == i,
            forall|k: int| 0 <= k < i ==> (#[trigger] names@[k]) == xattrs@[k].name,
        decreases xattrs@.len() - i,
    {
        names.push(xattrs[i].name.clone());
        i += 1;
    }
    names
}

/// An inode for the wire.
pub fn inode_to_proto(inode: &Inode) -> (told: WireInode)
    ensures
        told@ == inode_to_tell(*inode),
{
    let data = match &inode.data {
        InodeData::File { extents, lease_epoch } => WireInodeData::File {
            extents: copy_extents(extents),
            lease_epoch: *lease_epoch,
            lease_id: None,
        },
        InodeData::Dir => WireInodeData::Dir,
        InodeData::Symlink { target } => WireInodeData::Symlink {
            target: match target {
                Some(t) => Some(t.clone()),
                None => None,
            },
        },
    };
    WireInode {
        inode_id: inode.inode_id.raw,
        mount_id: inode.mount_id.raw,
        kind: inode.kind,
        attrs: file_attrs_to_proto(&inode.attrs),
        data: Some(data),
        xattrs: copy_xattrs(&inode.xattrs),
    }
}

/// An inode that was looked up, for the wire.
pub fn looked_up_inode_to_proto(inode: &Inode) -> (told: WireInode)
    ensures
        told@ == looked_up(*inode),
{
    let mut told = inode_to_proto(inode);
    match &inode.data {
        InodeData::Symlink { target } => {
            if target.is_none() {
                told.data = None;
            }
        },
        _ => {},
    }
    told
}

/// An entry of a directory, as the wire tells it. Of an inode that could not be read neither the
/// kind nor the attributes are told.
#[derive(Debug)]
pub struct WireDirEntry {
    pub name: String,
    pub inode_id: u64,
    pub kind: Option<InodeKind>,
    pub attrs: Option<WireFileAttrs>,
}

/// An entry of a directory, for the wire.
pub fn dir_entry_to_proto(name: String, inode_id: InodeId, child: &Option<Inode>) -> (entry: WireDirEntry)
    ensures
        entry.name == name,
        entry.inode_id == inode_id.raw,
        entry.kind == (match *child {
            Some(inode) => Some(inode.kind),
            None => None,
        }),
        entry.attrs == (match *child {
            Some(inode) => Some(attrs_to_tell(inode.attrs)),
            None => None,
        }),
{
    match child {
        Some(inode) => WireDirEntry {
            name,
            inode_id: inode_id.raw,
            kind: Some(inode.kind),
            attrs: Some(file_attrs_to_proto(&inode.attrs)),
        },
        None => WireDirEntry { name, inode_id: inode_id.raw, kind: None, attrs: None },
    }
}

/// Attributes that are told and read again are the same.
pub proof fn law_attributes_come_back(attrs: FileAttrs, wire: WireFileAttrs)
    ensures
        attrs_told(attrs_to_tell(attrs)) == attrs,
        attrs_to_tell(attrs_told(wire)) == wire,
{
}

/// Inodes that are told alike are alike.
pub proof fn law_inodes_are_told_apart(one: Inode, other: Inode)
    requires
        inode_to_tell(one) == inode_to_tell(other),
    ensures
        one.inode_id == other.inode_id,
        one.mount_id == other.mount_id,
        one.kind == other.kind,
        one.attrs == other.attrs,
        data_to_tell(one.data) == data_to_tell(other.data),
        xattr_views(one.xattrs@) == xattr_views(other.xattrs@),
{
    assert(attrs_told(attrs_to_tell(one.attrs)) == attrs_told(attrs_to_tell(other.attrs)));
}

/// An inode is told as it is stored: its identities, its kind, its attributes, what it holds and its
/// extended attributes. The lease of a file is not told, and a lookup tells nothing of what a symlink
/// without a target holds.
pub proof fn law_inodes_are_told_as_stored(inode: Inode)
    ensures
        ({
            let told = inode_to_tell(inode);
            let looked = looked_up(inode);
            &&& told.inode_id == inode.inode_id.raw
            &&& told.mount_id == inode.mount_id.raw
            &&& told.kind == inode.kind
            &&& told.attrs.mode == inode.attrs.mode && told.attrs.uid == inode.attrs.uid && told.attrs.gid
                == inode.attrs.gid && told.attrs.size == inode.attrs.size && told.attrs.atime_ms
                == inode.attrs.atime_ms && told.attrs.mtime_ms == inode.attrs.mtime_ms && told.attrs.ctime_ms
                == inode.attrs.ctime_ms && told.attrs.nlink == inode.attrs.nlink
            &&& told.xattrs.len() == inode.xattrs@.len()
            &&& forall|i: int|
                0 <= i < inode.xattrs@.len() ==> (#[trigger] told.xattrs[i]).0 == inode.xattrs@[i].name@
                    && told.xattrs[i].1 == inode.xattrs@[i].value@
            &&& match (inode.data, told.data) {
                (InodeData::File { extents, lease_epoch }, Some(DataModel::File {
                    extents: e,
                    lease_epoch: l,
                    lease_id,
                })) => e == extents@ && l == lease_epoch && lease_id is None,
                (InodeData::Dir, Some(DataModel::Dir)) => true,
                (InodeData::Symlink { target }, Some(DataModel::Symlink { target: t })) => (t is Some <==> target
                    is Some) && (t is Some ==> t->0 == target->0@),
                _ => false,
            }
            &&& looked.inode_id == told.inode_id && looked.mount_id == told.mount_id && looked.kind == told.kind
                && looked.attrs == told.attrs && looked.xattrs == told.xattrs
            &&& looked.data is None <==> (inode.data matches InodeData::Symlink { target } && target is None)
            &&& looked.data is Some ==> looked.data == told.data
        }),
{
}

/// The value of an extended attribute is that of the first one with its name.
pub proof fn law_the_first_value_of_a_name_counts(xattrs: Seq<Xattr>, name: Seq<char>)
    ensures
        (forall|i: int| 0 <= i < xattrs.len() ==> (#[trigger] xattrs[i]).name@ != name) ==> value_of(xattrs, name)
            is None,
        forall|i: int|
            0 <= i < xattrs.len() && (#[trigger] xattrs[i]).name@ == name && (forall|j: int|
                0 <= j < i ==> (#[trigger] xattrs[j]).name@ != name) ==> value_of(xattrs, name) == Some(
                xattrs[i].value@,
            ),
    decreases xattrs.len(),
{
    if xattrs.len() > 0 && xattrs[0].name@ != name {
        let rest = xattrs.skip(1);
        law_the_first_value_of_a_name_counts(rest, name);
        if forall|i: int| 0 <= i < xattrs.len() ==> (#[trigger] xattrs[i]).name@ != name {
            assert forall|i: int| 0 <= i < rest.len() implies (#[trigger] rest[i]).name@ != name by {
                assert(xattrs[i + 1] == rest[i]);
            }
        }
        assert forall|i: int|
            0 <= i < xattrs.len() && (#[trigger] xattrs[i]).name@ == name && (forall|j: int|
                0 <= j < i ==> (#[trigger] xattrs[j]).name@ != name) implies value_of(xattrs, name) == Some(
            xattrs[i].value@,
        ) by {
            assert(rest[i - 1] == xattrs[i]);
            assert forall|j: int| 0 <= j < i - 1 implies (#[trigger] rest[j]).name@ != name by {
                assert(xattrs[j + 1] == rest[j]);
            }
        }
    }
}

} // verus!
