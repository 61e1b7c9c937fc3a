//! Requests that are passed on to the file systems under the mounts: which one a path lies in, and
//! how a rename is carried out.

use crate::error::{ErrorKind, MetadataError, MetadataResult};
use crate::ids::MountId;
use crate::text;
use vstd::prelude::*;
use vstd::string::*;

verus! {

/// Where a path lies: in a mount of a file system, under a path of its own. Several mounts can be of
/// the same file system.
#[derive(Debug)]
pub struct MountedPath {
    pub mount_id: MountId,
    pub ufs_uri: String,
    pub relative_path: String,
}

/// Where the first slash of a text stands from a place on, or its end.
pub open spec fn slash_from(s: Seq<char>, from: int) -> int
    decreases s.len() - from,
{
    if from >= s.len() {
        s.len() as int
    } else if s[from] == '/' {
        from
    } else {
        slash_from(s, from + 1)
    }
}

/// The text before its first slash.
pub open spec fn before_slash(s: Seq<char>) -> Seq<char> {
    s.take(slash_from(s, 0))
}

/// The file system that a URI names, where it names one: the bucket, the name node, or the local
/// one.
pub open spec fn ufs_named(uri: Seq<char>) -> Option<Seq<char>> {
    if "s3://"@.is_prefix_of(uri) {
        Some(before_slash(uri.skip("s3://"@.len() as int)))
    } else if "hdfs://"@.is_prefix_of(uri) {
        Some(before_slash(uri.skip("hdfs://"@.len() as int)))
    } else if "fs://"@.is_prefix_of(uri) {
        Some("local-fs"@)
    } else {
        None
    }
}

fn text_before_slash(s: &str) -> (head: String)
    ensures
        head@ == before_slash(s@),
{
    let n = s.unicode_len();
    let mut i: usize = 0;
    while i < n && s.get_char(i) != '/'
        invariant
            i <= n,
            n == s@.len(),
            slash_from(s@, 0) == slash_from(s@, i as int),
        decreases n - i,
    {
        i += 1;
    }
    let head = s.substring_char(0, i);
    assert(head@ =~= s@.take(i as int));
    text::literal(head)
}

/// The file system that a URI names.
pub fn ufs_id(uri: &str) -> (id: MetadataResult<String>)
    ensures
        match id {
            Ok(name) => ufs_named(uri@) == Some(name@),
            Err(e) => ufs_named(uri@) is None && e.says(
                ErrorKind::InvalidArgument,
                "Unsupported UFS URI format: "@ + uri@,
            ),
        },
{
    proof {
        reveal_strlit("s3://");
        reveal_strlit("hdfs://");
    }
    if text::starts_with(uri, "s3://") {
        Ok(text_before_slash(text::without_first(uri, 5)))
    } else if text::starts_with(uri, "hdfs://") {
        Ok(text_before_slash(text::without_first(uri, 7)))
    } else if text::starts_with(uri, "fs://") {
        Ok(text::literal("local-fs"))
    } else {
        Err(MetadataError::InvalidArgument(text::join("Unsupported UFS URI format: ", uri)))
    }
}

/// Why a path cannot be resolved, where it cannot.
pub open spec fn resolve_refusal(path: Seq<char>, mounted: Option<MountedPath>) -> Option<(ErrorKind, Seq<char>)> {
    match mounted {
        None => Some((ErrorKind::NotFound, "No mount found for path: "@ + path)),
        Some(m) => if ufs_named(m.ufs_uri@) is None {
            Some((ErrorKind::InvalidArgument, "Unsupported UFS URI format: "@ + m.ufs_uri@))
        } else {
            None
        },
    }
}

/// Where a path lies: the file system's name and the path in it.
#[derive(Debug)]
pub struct UfsPath {
    pub ufs_id: String,
    pub relative_path: String,
}

/// Whether the file systems of a rename are there: success, or how the name of the missing one is
/// shown. Nothing stands for one that was not looked for.
#[derive(Debug)]
pub struct RenameSeen {
    pub source: Option<Result<(), String>>,
    pub destination: Option<Result<(), String>>,
}

/// What comes next in a rename.
#[derive(Debug)]
#[allow(inconsistent_fields)]
pub enum RenameStep {
    /// Look for the file system of the source.
    FindSource(String),
    /// Look for the file system of the destination.
    FindDestination(String),
    /// The file system of the source renames.
    Native { ufs_id: String, from: String, to: String },
    /// The file is read, written on the other side, and then deleted here. Where the deletion
    /// fails, the rename counts as done.
    CopyAndDelete { from: UfsPath, to: UfsPath },
    Refuse(MetadataError),
}

pub ghost enum RenameModel {
    FindSource(Seq<char>),
    FindDestination(Seq<char>),
    Native { ufs_id: Seq<char>, from: Seq<char>, to: Seq<char> },
    CopyAndDelete { from_ufs: Seq<char>, from: Seq<char>, to_ufs: Seq<char>, to: Seq<char> },
    Refuse(ErrorKind, Seq<char>),
}

impl View for RenameStep {
    type V = RenameModel;

    open spec fn view(&self) -> RenameModel {
        match self {
            RenameStep::FindSource(ufs_id) => RenameModel::FindSource(ufs_id@),
            RenameStep::FindDestination(ufs_id) => RenameModel::FindDestination(ufs_id@),
            RenameStep::Native { ufs_id, from, to } => RenameModel::Native { ufs_id: ufs_id@, from: from@, to: to@ },
            RenameStep::CopyAndDelete { from, to } => RenameModel::CopyAndDelete {
                from_ufs: from.ufs_id@,
                from: from.relative_path@,
                to_ufs: to.ufs_id@,
                to: to.relative_path@,
            },
            RenameStep::Refuse(e) => RenameModel::Refuse(e.spec_kind(), e.spec_text()),
        }
    }
}

pub open spec fn missing_text(shown: Seq<char>) -> Seq<char> {
    "UFS instance not found: "@ + shown
}

/// The error where a file system is not there, given how its name is shown.
pub fn missing_ufs(shown: &str) -> (error: MetadataError)
    ensures
        error.says(ErrorKind::NotFound, missing_text(shown@)),
{
    MetadataError::NotFound(text::join("UFS instance not found: ", shown))
}

pub open spec fn unsupported_text(uri: Seq<char>) -> Seq<char> {
    "Unsupported UFS URI format: "@ + uri
}

/// What comes next in a rename. Both paths must be mounted. The source is resolved before the
/// destination, each down to its file system. Within one mount the file system renames; from one
/// mount to another the file is copied and deleted.
pub open spec fn rename_next(from: Option<MountedPath>, to: Option<MountedPath>, seen: RenameSeen) -> RenameModel {
    match (from, to) {
        (Some(f), Some(t)) => match ufs_named(f.ufs_uri@) {
            None => RenameModel::Refuse(ErrorKind::InvalidArgument, unsupported_text(f.ufs_uri@)),
            Some(from_ufs) => match seen.source {
                None => RenameModel::FindSource(from_ufs),
                Some(Err(shown)) => RenameModel::Refuse(ErrorKind::NotFound, missing_text(shown@)),
                Some(Ok(_)) => match ufs_named(t.ufs_uri@) {
                    None => RenameModel::Refuse(ErrorKind::InvalidArgument, unsupported_text(t.ufs_uri@)),
                    Some(to_ufs) => match seen.destination {
                        None => RenameModel::FindDestination(to_ufs),
                        Some(Err(shown)) => RenameModel::Refuse(ErrorKind::NotFound, missing_text(shown@)),
                        Some(Ok(_)) => if f.mount_id == t.mount_id {
                            RenameModel::Native { ufs_id: from_ufs, from: f.relative_path@, to: t.relative_path@ }
                        } else {
                            RenameModel::CopyAndDelete {
                                from_ufs,
                                from: f.relative_path@,
                                to_ufs,
                                to: t.relative_path@,
                            }
                        },
                    },
                },
            },
        },
        _ => RenameModel::Refuse(ErrorKind::InvalidArgument, "Both paths must be mounted"@),
    }
}

/// Requests that a file system carries out.
#[derive(Clone, Copy, Debug, PartialEq, Eq, Structural)]
pub enum UfsWork {
    Stat,
    List,
    Rename,
    ReadSource,
    WriteDestination,
    Delete,
    Exists,
}

pub open spec fn work_text(work: UfsWork) -> Seq<char> {
    match work {
        UfsWork::Stat => "UFS stat failed: "@,
        UfsWork::List => "UFS list failed: "@,
        UfsWork::Rename => "UFS rename failed: "@,
        UfsWork::ReadSource => "Failed to read from source UFS: "@,
        UfsWork::WriteDestination => "Failed to write to destination UFS: "@,
        UfsWork::Delete => "UFS delete failed: "@,
        UfsWork::Exists => "UFS exists check failed: "@,
    }
}

/// The error that a failure of a file system is told as.
pub fn work_error(work: UfsWork, failure: &str) -> (error: MetadataError)
    ensures
        error.says(ErrorKind::Internal, work_text(work) + failure@),
{
    let what = match work {
        UfsWork::Stat => "UFS stat failed: ",
        UfsWork::List => "UFS list failed: ",
        UfsWork::Rename => "UFS rename failed: ",
        UfsWork::ReadSource => "Failed to read from source UFS: ",
        UfsWork::WriteDestination => "Failed to write to destination UFS: ",
        UfsWork::Delete => "UFS delete failed: ",
        UfsWork::Exists => "UFS exists check failed: ",
    };
    MetadataError::Internal(text::join(what, failure))
}

/// Passes requests on to mounted file systems.
#[derive(Debug)]
pub struct UfsMetadataProxy {}

impl UfsMetadataProxy {
    pub fn new() -> (proxy: Self)
        ensures
            proxy == (UfsMetadataProxy {}),
    {
        UfsMetadataProxy {}
    }

    /// Where a path lies, given what the mount table says of it.
    pub fn resolve_ufs(&self, path: &str, mounted: Option<MountedPath>) -> (resolved: MetadataResult<UfsPath>)
        ensures
            match resolved {
                Ok(at) => mounted is Some && ufs_named(mounted->0.ufs_uri@) == Some(at.ufs_id@) && at.relative_path@
                    == mounted->0.relative_path@,
                Err(e) => resolve_refusal(path@, mounted) == Some((e.spec_kind(), e.spec_text())),
            },
    {
        match mounted {
            None => Err(MetadataError::NotFound(text::join("No mount found for path: ", path))),
            Some(m) => match ufs_id(m.ufs_uri.as_str()) {
                Ok(id) => Ok(UfsPath { ufs_id: id, relative_path: m.relative_path }),
                Err(error) => Err(error),
            },
        }
    }

    /// A rename, given what the mount table says of both paths.
    pub fn rename(&self, from: &Option<MountedPath>, to: &Option<MountedPath>, seen: &RenameSeen) -> (step: RenameStep)
        ensures
            step@ == rename_next(*from, *to, *seen),
    {
        let (f, t) = match (from, to) {
            (Some(f), Some(t)) => (f, t),
            _ => {
                return RenameStep::Refuse(
                    MetadataError::InvalidArgument(text::literal("Both paths must be mounted")),
                );
            },
        };
        let from_ufs = match ufs_id(f.ufs_uri.as_str()) {
            Ok(id) => id,
            Err(error) => {
                return RenameStep::Refuse(error);
            },
        };
        match &seen.source {
            None => {
                return RenameStep::FindSource(from_ufs);
            },
            Some(Err(shown)) => {
                return RenameStep::Refuse(missing_ufs(shown.as_str()));
            },
            Some(Ok(_)) => {},
        }
        let to_ufs = match ufs_id(t.ufs_uri.as_str()) {
            Ok(id) => id,
            Err(error) => {
                return RenameStep::Refuse(error);
            },
        };
        match &seen.destination {
            None => {
                return RenameStep::FindDestination(to_ufs);
            },
            Some(Err(shown)) => {
                return RenameStep::Refuse(missing_ufs(shown.as_str()));
            },
            Some(Ok(_)) => {},
        }
        if f.mount_id == t.mount_id {
            RenameStep::Native { ufs_id: from_ufs, from: f.relative_path.clone(), to: t.relative_path.clone() }
        } else {
            RenameStep::CopyAndDelete {
                from: UfsPath { ufs_id: from_ufs, relative_path: f.relative_path.clone() },
                to: UfsPath { ufs_id: to_ufs, relative_path: t.relative_path.clone() },
            }
        }
    }
}

/// What comes next in a rename from one mount to another.
#[derive(Debug)]
pub enum CopyStep {
    Read,
    Write,
    DeleteSource,
    Done(MetadataResult<()>),
}

/// What came of the steps so far: the failure, or success. Nothing stands for a step not taken.
#[derive(Debug)]
pub struct CopySeen {
    pub read: Option<Result<(), String>>,
    pub written: Option<Result<(), String>>,
    pub deleted: Option<Result<(), String>>,
}

pub ghost enum CopyModel {
    Read,
    Write,
    DeleteSource,
    Done(Option<(ErrorKind, Seq<char>)>),
}

impl View for CopyStep {
    type V = CopyModel;

    open spec fn view(&self) -> CopyModel {
        match self {
            CopyStep::Read => CopyModel::Read,
            CopyStep::Write => CopyModel::Write,
            CopyStep::DeleteSource => CopyModel::DeleteSource,
            CopyStep::Done(Ok(_)) => CopyModel::Done(None),
            CopyStep::Done(Err(e)) => CopyModel::Done(Some((e.spec_kind(), e.spec_text()))),
        }
    }
}

/// Read, write, delete, in this order. The source is deleted only once the destination is
/// written; where the deletion fails, the rename counts as done.
pub open spec fn copy_next(seen: CopySeen) -> CopyModel {
    match seen.read {
        None => CopyModel::Read,
        Some(Err(e)) => CopyModel::Done(Some((ErrorKind::Internal, work_text(UfsWork::ReadSource) + e@))),
        Some(Ok(_)) => match seen.written {
            None => CopyModel::Write,
            Some(Err(e)) => CopyModel::Done(Some((ErrorKind::Internal, work_text(UfsWork::WriteDestination) + e@))),
            Some(Ok(_)) => match seen.deleted {
                None => CopyModel::DeleteSource,
                Some(_) => CopyModel::Done(None),
            },
        },
    }
}

/// A rename from one mount to another.
pub fn rename_cross_mount(seen: &CopySeen) -> (step: CopyStep)
    ensures
        step@ == copy_next(*seen),
{
    match &seen.read {
        None => CopyStep::Read,
        Some(Err(e)) => CopyStep::Done(Err(work_error(UfsWork::ReadSource, e.as_str()))),
        Some(Ok(_)) => match &seen.written {
            None => CopyStep::Write,
            Some(Err(e)) => CopyStep::Done(Err(work_error(UfsWork::WriteDestination, e.as_str()))),
            Some(Ok(_)) => match &seen.deleted {
                None => CopyStep::DeleteSource,
                Some(_) => CopyStep::Done(Ok(())),
            },
        },
    }
}

/// Nothing is lost by a rename from one mount to another: the source is deleted only after the
/// destination was written.
pub proof fn law_copies_before_it_deletes(seen: CopySeen)
    requires
        copy_next(seen) == CopyModel::DeleteSource,
    ensures
        seen.read is Some && seen.read->0 is Ok,
        seen.written is Some && seen.written->0 is Ok,
{
}

/// A rename is left to the file system exactly where both paths lie in the same mount; two mounts
/// of one file system are two.
pub proof fn law_native_rename_within_a_mount(from: MountedPath, to: MountedPath, seen: RenameSeen)
    requires
        ufs_named(from.ufs_uri@) is Some,
        ufs_named(to.ufs_uri@) is Some,
        seen.source is Some && seen.source->0 is Ok,
        seen.destination is Some && seen.destination->0 is Ok,
    ensures
        rename_next(Some(from), Some(to), seen) is Native <==> from.mount_id == to.mount_id,
        rename_next(Some(from), Some(to), seen) is CopyAndDelete <==> from.mount_id != to.mount_id,
{
}

/// Nothing is renamed or copied before both file systems were found, and the destination is not
/// looked at before that of the source was.
pub proof fn law_source_is_resolved_first(from: Option<MountedPath>, to: Option<MountedPath>, seen: RenameSeen)
    ensures
        rename_next(from, to, seen) is Native || rename_next(from, to, seen) is CopyAndDelete ==> seen.source is Some
            && seen.source->0 is Ok && seen.destination is Some && seen.destination->0 is Ok,
        rename_next(from, to, seen) is FindDestination ==> seen.source is Some && seen.source->0 is Ok,
        from is Some && to is Some && ufs_named(from->0.ufs_uri@) is Some && seen.source is Some && seen.source->0 is Err
            ==> rename_next(from, to, seen) is Refuse && rename_next(from, to, seen)->Refuse_0 == ErrorKind::NotFound,
{
}

proof fn lemma_slash_from(s: Seq<char>, from: int)
    requires
        0 <= from <= s.len(),
    ensures
        from <= slash_from(s, from) <= s.len(),
        forall|i: int| from <= i < slash_from(s, from) ==> #[trigger] s[i] != '/',
        slash_from(s, from) < s.len() ==> s[slash_from(s, from)] == '/',
    decreases s.len() - from,
{
    if from < s.len() && s[from] != '/' {
        lemma_slash_from(s, from + 1);
    }
}

/// A file system is known by the first part of its address: the bucket of an object store, the
/// authority of a distributed one. All local ones are one, and other addresses name none.
pub proof fn law_file_systems_are_known_by_their_first_part(name: Seq<char>, rest: Seq<char>)
    requires
        forall|i: int| 0 <= i < name.len() ==> #[trigger] name[i] != '/',
        rest.len() > 0 ==> rest[0] == '/',
    ensures
        ufs_named("s3://"@ + name + rest) == Some(name),
        ufs_named("hdfs://"@ + name + rest) == Some(name),
        ufs_named("fs://"@ + name + rest) == Some("local-fs"@),
{
    reveal_strlit("s3://");
    reveal_strlit("hdfs://");
    reveal_strlit("fs://");
    let whole = name + rest;
    lemma_slash_from(whole, 0);
    let at = slash_from(whole, 0);
    if at < name.len() {
        assert(whole[at] == name[at]);
    }
    if at > name.len() {
        assert(whole[name.len() as int] == rest[0]);
    }
    assert(at == name.len());
    assert(whole.take(at) =~= name);
    let s3 = "s3://"@ + name + rest;
    assert(s3.skip(5) =~= whole);
    assert(s3.take(5) =~= "s3://"@);
    assert("s3://"@.is_prefix_of(s3));
    let hdfs = "hdfs://"@ + name + rest;
    assert(hdfs.skip(7) =~= whole);
    assert(hdfs.take(7) =~= "hdfs://"@);
    assert("hdfs://"@.is_prefix_of(hdfs));
    assert(hdfs[0] == 'h');
    assert(!"s3://"@.is_prefix_of(hdfs)) by {
        if "s3://"@.is_prefix_of(hdfs) {
            assert("s3://"@[0] == hdfs[0]);
        }
    }
    let local = "fs://"@ + name + rest;
    assert(local.take(5) =~= "fs://"@);
    assert("fs://"@.is_prefix_of(local));
    assert(local[0] == 'f');
    assert(!"s3://"@.is_prefix_of(local)) by {
        if "s3://"@.is_prefix_of(local) {
            assert("s3://"@[0] == local[0]);
        }
    }
    assert(!"hdfs://"@.is_prefix_of(local)) by {
        if "hdfs://"@.is_prefix_of(local) {
            assert("hdfs://"@[0] == local[0]);
        }
    }
}

/// Only addresses of an object store, of a distributed file system or of a local one name a file
/// system.
pub proof fn law_other_addresses_name_nothing(uri: Seq<char>)
    ensures
        ufs_named(uri) is Some <==> "s3://"@.is_prefix_of(uri) || "hdfs://"@.is_prefix_of(uri) || "fs://"@.is_prefix_of(
            uri,
        ),
{
}

/// A rename goes from the path in its own mount to the other path in its own: the file systems
/// that are looked for, and those between which a file is copied, are those of the source and of
/// the destination, and so are the paths.
pub proof fn law_renames_go_from_source_to_destination(from: MountedPath, to: MountedPath, seen: RenameSeen)
    ensures
        match rename_next(Some(from), Some(to), seen) {
            RenameModel::FindSource(name) => ufs_named(from.ufs_uri@) == Some(name) && seen.source is None,
            RenameModel::FindDestination(name) => ufs_named(to.ufs_uri@) == Some(name) && seen.destination is None,
            RenameModel::Native { ufs_id, from: f, to: t } => ufs_named(from.ufs_uri@) == Some(ufs_id) && f
                == from.relative_path@ && t == to.relative_path@ && from.mount_id == to.mount_id,
            RenameModel::CopyAndDelete { from_ufs, from: f, to_ufs, to: t } => ufs_named(from.ufs_uri@) == Some(
                from_ufs,
            ) && ufs_named(to.ufs_uri@) == Some(to_ufs) && f == from.relative_path@ && t == to.relative_path@
                && from.mount_id != to.mount_id,
            RenameModel::Refuse(kind, _) => (kind == ErrorKind::InvalidArgument && (ufs_named(from.ufs_uri@) is None
                || ufs_named(to.ufs_uri@) is None)) || (kind == ErrorKind::NotFound && ((seen.source is Some
                && seen.source->0 is Err) || (seen.destination is Some && seen.destination->0 is Err))),
        },
        ufs_named(from.ufs_uri@) is Some && seen.source is None ==> rename_next(Some(from), Some(to), seen)
            is FindSource,
        ufs_named(from.ufs_uri@) is Some && ufs_named(to.ufs_uri@) is Some && seen.source is Some && seen.source->0 is Ok
            && seen.destination is None ==> rename_next(Some(from), Some(to), seen) is FindDestination,
{
}

/// A rename of a path that no mount holds, or onto one, is turned down.
pub proof fn law_renames_stay_in_mounts(from: Option<MountedPath>, to: Option<MountedPath>, seen: RenameSeen)
    ensures
        from is None || to is None ==> (rename_next(from, to, seen) matches RenameModel::Refuse(kind, _) && kind
            == ErrorKind::InvalidArgument),
{
}

/// A file is copied by reading it, writing it and deleting it, in this order, and no step is taken
/// after one before it failed. Once it is written the copy counts as done, whatever comes of the
/// deletion; before that it counts as done only with a failure.
pub proof fn law_copies_read_write_and_delete(seen: CopySeen)
    ensures
        ({
            let step = copy_next(seen);
            let was_read = seen.read is Some && seen.read->0 is Ok;
            let was_written = was_read && seen.written is Some && seen.written->0 is Ok;
            &&& step is Read <==> seen.read is None
            &&& step is Write <==> was_read && seen.written is None
            &&& step is DeleteSource <==> was_written && seen.deleted is None
            &&& step == CopyModel::Done(None) <==> was_written && seen.deleted is Some
            &&& seen.read is Some && seen.read->0 is Err ==> (step matches CopyModel::Done(Some((kind, _))) && kind
                == ErrorKind::Internal)
            &&& was_read && seen.written is Some && seen.written->0 is Err ==> (step matches CopyModel::Done(
                Some((kind, _)),
            ) && kind == ErrorKind::Internal)
        }),
{
}

/// A path is resolved exactly if it is in a mount whose file system can be named. What stands in
/// the way is told: no mount, or an address that names no file system.
pub proof fn law_paths_are_resolved_in_mounts(path: Seq<char>, mounted: Option<MountedPath>)
    ensures
        resolve_refusal(path, mounted) is None <==> (mounted matches Some(m) && ufs_named(m.ufs_uri@) is Some),
        mounted is None ==> (resolve_refusal(path, mounted) matches Some((kind, said)) && kind == ErrorKind::NotFound
            && said == "No mount found for path: "@ + path),
        (mounted matches Some(m) && ufs_named(m.ufs_uri@) is None) ==> (resolve_refusal(path, mounted) matches Some(
            (kind, said),
        ) && kind == ErrorKind::InvalidArgument && said == "Unsupported UFS URI format: "@ + mounted->0.ufs_uri@),
{
}

} // verus!
