//! What each request by inode asks, does and answers, told by what it carries and what was seen.

use crate::ids::InodeId;
use crate::service::fs_effects;
use crate::service::fs_types::{AuthzOp, AuthzTarget, DataIoOp, Field};
use crate::service::inode_service;
use crate::service::inode_service::{
    BarrierKind, InodeAnswer, InodeFault, InodeGuardCall, InodeOp, InodeRequest, InodeSeen, InodeStep, InodeWork,
};
use crate::service::inputs::{Barrier, FileLayout, Freshness, HeaderEpochs, WireLayout};
use crate::service::wire::{FileAttrs, WireFileAttrs};
use vstd::prelude::*;

verus! {

/// The request changes nothing.
pub open spec fn changes_nothing(op: InodeOp) -> bool {
    ||| op is Lookup
    ||| op is GetAttr
    ||| op is ReadDir
    ||| op is Open
    ||| op is GetFileLayout
    ||| op is StatFs
    ||| op is Access
    ||| op is Readlink
    ||| op is GetXattr
    ||| op is ListXattr
}

/// The request is about a handle and names no inode.
pub open spec fn is_by_handle(op: InodeOp) -> bool {
    op is Release || op is CloseWrite || op is RenewInodeLease
}

/// The request names two inodes.
pub open spec fn names_two(op: InodeOp) -> bool {
    op is Rename || op is Link
}

/// The request is a barrier.
pub open spec fn is_barrier(op: InodeOp) -> bool {
    op is Fsync || op is Hsync || op is Hflush
}

/// The request is about the data of the inode that it names.
pub open spec fn is_about_data(op: InodeOp) -> bool {
    is_barrier(op) || op is OpenWrite || op is GetFileLayout || op is Truncate
}

/// The right that the request needs, by what it does.
pub open spec fn needs_right(op: InodeOp, right: AuthzOp) -> bool {
    match right {
        AuthzOp::Delete => op is Unlink || op is Rmdir,
        AuthzOp::Rename => op is Rename,
        AuthzOp::Xattr => op is SetXattr || op is GetXattr || op is ListXattr || op is RemoveXattr,
        AuthzOp::Read => changes_nothing(op) && !(op is GetXattr || op is ListXattr),
        AuthzOp::Write => !changes_nothing(op) && !(op is Unlink || op is Rmdir || op is Rename || op is SetXattr
            || op is RemoveXattr),
        AuthzOp::Sticky => false,
    }
}

/// The data operation that the request is, where it is one.
pub open spec fn is_data_op(op: InodeOp, data_io: DataIoOp) -> bool {
    match data_io {
        DataIoOp::OpenWrite => op is OpenWrite,
        DataIoOp::Read => op is GetFileLayout,
        DataIoOp::Truncate => op is Truncate,
        DataIoOp::Fsync => is_barrier(op),
        DataIoOp::CloseWrite => op is Release || op is CloseWrite,
        DataIoOp::RenewLease => op is RenewInodeLease,
        DataIoOp::Write => false,
    }
}

/// The target is this inode and nothing else.
pub open spec fn is_inode(target: Option<AuthzTarget>, inode_id: Option<InodeId>) -> bool {
    &&& target is Some <==> inode_id is Some
    &&& target is Some ==> target->0.inode_id == inode_id && target->0.parent_inode_id is None
        && target->0.file_handle is None
}

/// The target is this entry of this directory, where there is an entry.
pub open spec fn is_entry(target: Option<AuthzTarget>, parent: InodeId, entry: Option<InodeId>) -> bool {
    &&& target is Some <==> entry is Some
    &&& target is Some ==> target->0.inode_id == entry && target->0.parent_inode_id == Some(parent)
        && target->0.file_handle is None
}

/// The epochs are those of the header.
pub open spec fn is_fresh_by(freshness: Freshness, epochs: Option<HeaderEpochs>) -> bool {
    &&& freshness.worker_epoch is None
    &&& epochs is None ==> freshness.mount_epoch is None && freshness.route_epoch is None
    &&& epochs is Some ==> freshness.mount_epoch == epochs->0.mount_epoch && freshness.route_epoch
        == epochs->0.route_epoch
}

/// The attributes are those that were sent.
pub open spec fn are_sent(attrs: FileAttrs, sent: Option<WireFileAttrs>) -> bool {
    sent is Some && fs_effects::are_as_sent(attrs, sent->0)
}

/// The layout is the one that was sent, the number of copies cut to a byte.
pub open spec fn is_sent(layout: FileLayout, sent: Option<WireLayout>) -> bool {
    sent is Some && layout.block_size == sent->0.block_size && layout.chunk_size == sent->0.chunk_size
        && layout.replication == sent->0.replication % 256
}

/// The body of a barrier.
pub open spec fn has_body(op: InodeOp, barrier: Barrier) -> bool {
    match op {
        InodeOp::Fsync(b) => b == barrier,
        InodeOp::Hsync(b) => b == Some(barrier),
        InodeOp::Hflush(b) => b == Some(barrier),
        _ => false,
    }
}

/// The core is asked for exactly what the request asks for: the same work, on the inodes that it
/// names, with all that it carries and with the epochs of its header.
pub open spec fn does(work: InodeWork, req: InodeRequest) -> bool {
    let one = req.first;
    let two = req.second;
    match (req.op, work) {
        (InodeOp::Lookup { name }, InodeWork::Lookup { parent_inode_id: i, name: n }) => one == Some(i) && n == name,
        (InodeOp::GetAttr, InodeWork::GetAttr { inode_id: i }) => one == Some(i),
        (InodeOp::SetAttr { mask, attrs }, InodeWork::SetAttr { inode_id: i, mask: m, attrs: a, freshness }) => one
            == Some(i) && m == mask && are_sent(a, attrs) && is_fresh_by(freshness, req.epochs),
        (InodeOp::Mkdir { name, attrs }, InodeWork::Mkdir { parent_inode_id: i, name: n, attrs: a, freshness }) => one
            == Some(i) && n == name && are_sent(a, attrs) && is_fresh_by(freshness, req.epochs),
        (InodeOp::Create { name, attrs, layout }, InodeWork::Create {
            parent_inode_id: i,
            name: n,
            attrs: a,
            layout: l,
            freshness,
        }) => one == Some(i) && n == name && are_sent(a, attrs) && is_sent(l, layout) && is_fresh_by(
            freshness,
            req.epochs,
        ),
        (InodeOp::ReadDir { cursor_key, max_entries }, InodeWork::ReadDir {
            parent_inode_id: i,
            cursor_key: c,
            max_entries: m,
        }) => one == Some(i) && (c is Some <==> cursor_key@.len() > 0) && (c is Some ==> c->0@ == cursor_key@) && (
        m is Some <==> max_entries > 0) && (m is Some ==> m->0 == max_entries),
        (InodeOp::Unlink { name }, InodeWork::Unlink { parent_inode_id: i, name: n, freshness }) => one == Some(i) && n
            == name && is_fresh_by(freshness, req.epochs),
        (InodeOp::Rmdir { name }, InodeWork::Rmdir { parent_inode_id: i, name: n, freshness }) => one == Some(i) && n
            == name && is_fresh_by(freshness, req.epochs),
        (InodeOp::Rename { src_name, dst_name, flags }, InodeWork::Rename {
            src_parent_inode_id,
            src_name: s,
            dst_parent_inode_id,
            dst_name: d,
            flags: f,
            freshness,
        }) => one == Some(src_parent_inode_id) && two == Some(dst_parent_inode_id) && s == src_name && d == dst_name
            && f == flags && is_fresh_by(freshness, req.epochs),
        (InodeOp::Open { flags }, InodeWork::Open { inode_id: i, flags: f }) => one == Some(i) && (flags <= i32::MAX
            ==> f == flags),
        (InodeOp::Release { file_handle }, InodeWork::Release { file_handle: h }) => h == file_handle,
        (InodeOp::Fsync(b), InodeWork::Fsync { kind, .. }) => kind == BarrierKind::Fsync && holds_back(
            work,
            one,
            b,
            req.epochs,
        ),
        (InodeOp::Hsync(Some(b)), InodeWork::Fsync { kind, .. }) => kind == BarrierKind::Hsync && holds_back(
            work,
            one,
            b,
            req.epochs,
        ),
        (InodeOp::Hflush(Some(b)), InodeWork::Fsync { kind, .. }) => kind == BarrierKind::Hflush && holds_back(
            work,
            one,
            b,
            req.epochs,
        ),
        (InodeOp::OpenWrite { desired_len, mode }, InodeWork::OpenWrite {
            inode_id: i,
            desired_len: d,
            mode: m,
            freshness,
        }) => one == Some(i) && d == desired_len && m == mode && is_fresh_by(freshness, req.epochs),
        (InodeOp::CloseWrite { file_handle, lease, final_size, extents_ok }, InodeWork::CloseWrite {
            file_handle: h,
            lease: l,
            final_size: s,
            freshness,
        }) => extents_ok && h == file_handle && l == lease && s == final_size && is_fresh_by(freshness, req.epochs),
        (InodeOp::GetFileLayout { range }, InodeWork::GetFileLayout { inode_id: i, range: r, freshness }) => one
            == Some(i) && (r is Some <==> range is Some) && (r is Some ==> r->0.offset == range->0.offset && r->0.len
            == range->0.len) && is_fresh_by(freshness, req.epochs),
        (InodeOp::RenewInodeLease { file_handle, lease_id, lease_epoch }, InodeWork::RenewLease {
            file_handle: h,
            lease_id: l,
            lease_epoch: e,
            freshness,
        }) => h == file_handle && l == lease_id && e == lease_epoch && is_fresh_by(freshness, req.epochs),
        (InodeOp::Truncate { new_size, lease_id, lease_epoch }, InodeWork::Truncate {
            inode_id: i,
            new_size: s,
            lease_id: l,
            lease_epoch: e,
            freshness,
        }) => one == Some(i) && s == new_size && l == lease_id && e == lease_epoch && is_fresh_by(
            freshness,
            req.epochs,
        ),
        (InodeOp::StatFs, InodeWork::StatFs { inode_id: i }) => one == Some(i),
        (InodeOp::Access { mode }, InodeWork::Access { inode_id: i, mode: m }) => one == Some(i) && m == mode,
        (InodeOp::Symlink { name, target, attrs }, InodeWork::Symlink {
            parent_inode_id: i,
            name: n,
            target: t,
            attrs: a,
            freshness,
        }) => one == Some(i) && n == name && t == target && are_sent(a, attrs) && is_fresh_by(freshness, req.epochs),
        (InodeOp::Readlink, InodeWork::Readlink { inode_id: i }) => one == Some(i),
        (InodeOp::Link { dst_name }, InodeWork::Link { src_inode_id, dst_parent_inode_id, dst_name: d, freshness }) =>
            one == Some(src_inode_id) && two == Some(dst_parent_inode_id) && d == dst_name && is_fresh_by(
            freshness,
            req.epochs,
        ),
        (InodeOp::SetXattr { name, value, create, replace }, InodeWork::SetXattr {
            inode_id: i,
            name: n,
            value: v,
            create: c,
            replace: r,
            freshness,
        }) => one == Some(i) && n == name && v == value && c == create && r == replace && is_fresh_by(
            freshness,
            req.epochs,
        ),
        (InodeOp::GetXattr { name }, InodeWork::GetXattr { inode_id: i, name: n }) => one == Some(i) && n == name,
        (InodeOp::ListXattr, InodeWork::ListXattr { inode_id: i }) => one == Some(i),
        (InodeOp::RemoveXattr { name }, InodeWork::RemoveXattr { inode_id: i, name: n, freshness }) => one == Some(i)
            && n == name && is_fresh_by(freshness, req.epochs),
        _ => false,
    }
}

/// The barrier is the one that was sent. What it says of routes goes before what the header says.
pub open spec fn holds_back(
    work: InodeWork,
    inode_id: Option<InodeId>,
    barrier: Barrier,
    epochs: Option<HeaderEpochs>,
) -> bool {
    &&& work matches InodeWork::Fsync {
        kind: _,
        inode_id: i,
        file_handle,
        lease_id,
        lease_epoch,
        fencing_token,
        target_size,
        flags,
        freshness,
    }
    &&& inode_id == Some(i)
    &&& file_handle == barrier.file_handle
    &&& lease_id == barrier.lease_id
    &&& lease_epoch == barrier.lease_epoch
    &&& fencing_token == barrier.fencing_token
    &&& target_size == barrier.target_size
    &&& barrier.flags <= i32::MAX ==> flags == barrier.flags
    &&& freshness.worker_epoch == barrier.worker_epoch
    &&& barrier.route_epoch is Some ==> freshness.route_epoch == barrier.route_epoch
    &&& barrier.route_epoch is None ==> freshness.route_epoch == (match epochs {
        Some(e) => e.route_epoch,
        None => None,
    })
    &&& freshness.mount_epoch == (match epochs {
        Some(e) => e.mount_epoch,
        None => None,
    })
}

/// The core is asked for exactly what the request asks for, and only after the node and the guard
/// let it through.
pub proof fn law_the_core_does_what_was_asked(req: InodeRequest, seen: InodeSeen)
    ensures
        inode_service::serve_next(req, seen) matches InodeStep::Execute(work) ==> does(work, req) && seen.node == Some(
            true,
        ) && seen.guard == Some(true),
{
}

/// What the guard is asked of the inodes and handles that the request is about.
pub open spec fn is_asked_of(call: InodeGuardCall, req: InodeRequest, seen: InodeSeen) -> bool {
    if req.op is Unlink || req.op is Rmdir {
        &&& seen.removal matches Some(Some(plan))
        &&& is_inode(call.target, Some(plan.parent_inode_id))
        &&& is_entry(call.sticky, plan.parent_inode_id, plan.target_inode_id)
        &&& call.second_target is None && call.second_sticky is None
    } else if req.op is Rename {
        &&& seen.renaming matches Some(Some(plan))
        &&& is_inode(call.target, Some(plan.src_parent_inode_id))
        &&& is_inode(call.second_target, Some(plan.dst_parent_inode_id))
        &&& is_entry(call.sticky, plan.src_parent_inode_id, plan.src_inode_id)
        &&& is_entry(call.second_sticky, plan.dst_parent_inode_id, plan.dst_inode_id)
    } else if req.op is Link {
        &&& is_inode(call.target, req.first)
        &&& is_inode(call.second_target, req.second)
        &&& call.sticky is None && call.second_sticky is None
    } else if is_by_handle(req.op) {
        &&& seen.session matches Some(Some(plan))
        &&& is_inode(call.target, plan.inode_id)
        &&& call.second_target is None && call.sticky is None && call.second_sticky is None
    } else if is_barrier(req.op) {
        &&& call.second_target is None && call.sticky is None && call.second_sticky is None
        &&& exists|barrier: Barrier| #[trigger] has_body(req.op, barrier) && (if barrier.file_handle is Some {
            seen.session is Some && seen.session->0 is Some && (if seen.session->0->0.inode_id is Some {
                is_inode(call.target, seen.session->0->0.inode_id)
            } else {
                is_inode(call.target, req.first)
            })
        } else {
            is_inode(call.target, req.first)
        })
    } else {
        &&& is_inode(call.target, req.first)
        &&& call.second_target is None && call.sticky is None && call.second_sticky is None
    }
}

/// The guard is asked once the node was found able: for readiness and authorization, for the
/// leader where the request changes something, for the right that the request needs on what it is
/// about, and, where it is about data, for the data operation that it is on the mount that the
/// data lies in.
pub proof fn law_the_guard_is_asked_for_the_request(req: InodeRequest, seen: InodeSeen)
    ensures
        inode_service::serve_next(req, seen) matches InodeStep::AskGuard(call) ==> {
            &&& seen.node == Some(true)
            &&& call.spec.readiness && call.spec.authz
            &&& call.spec.leader <==> !changes_nothing(req.op)
            &&& needs_right(req.op, call.op)
            &&& is_asked_of(call, req, seen)
            &&& call.spec.data_io is Some ==> is_data_op(req.op, call.spec.data_io->0) && call.mount_id is Some
            &&& is_about_data(req.op) ==> call.spec.data_io is Some && seen.mount == Some(call.mount_id)
            &&& is_by_handle(req.op) ==> (call.spec.data_io is Some <==> call.mount_id is Some) && call.mount_id
                == seen.session->0->0.mount_id
            &&& !is_about_data(req.op) && !is_by_handle(req.op) ==> call.spec.data_io is None && call.mount_id is None
        },
{
    let step = inode_service::serve_next(req, seen);
    if step is AskGuard && is_barrier(req.op) {
        let barrier = inode_service::barrier_of(req.op)->0;
        assert(has_body(req.op, barrier));
    }
}

/// The core is asked to plan for what the request names: a removal by its parent and name, a
/// rename by both of each, a handle, and the mount of the inode whose data it is about. The node
/// is asked to lead where the request changes something.
pub proof fn law_plans_are_for_the_request(req: InodeRequest, seen: InodeSeen)
    ensures
        match inode_service::serve_next(req, seen) {
            InodeStep::CheckNode { leader } => leader <==> !changes_nothing(req.op),
            InodeStep::PlanUnlink(parent, n) => seen.node == Some(true) && req.first == Some(parent) && (
            req.op matches InodeOp::Unlink { name } && n == name),
            InodeStep::PlanRmdir(parent, n) => seen.node == Some(true) && req.first == Some(parent) && (
            req.op matches InodeOp::Rmdir { name } && n == name),
            InodeStep::PlanRename { src, src_name: s, dst, dst_name: d } => seen.node == Some(true) && req.first
                == Some(src) && req.second == Some(dst) && (req.op matches InodeOp::Rename { src_name, dst_name, .. }
                && s == src_name && d == dst_name),
            InodeStep::PlanSession(handle) => seen.node == Some(true) && (match req.op {
                InodeOp::Release { file_handle } => handle == file_handle,
                InodeOp::CloseWrite { file_handle, .. } => handle == file_handle,
                InodeOp::RenewInodeLease { file_handle, .. } => handle == file_handle,
                InodeOp::Fsync(b) => b.file_handle == Some(handle),
                InodeOp::Hsync(b) => b is Some && b->0.file_handle == Some(handle),
                InodeOp::Hflush(b) => b is Some && b->0.file_handle == Some(handle),
                _ => false,
            }),
            InodeStep::PlanMount(inode_id) => seen.node == Some(true) && is_about_data(req.op) && req.first == Some(
                inode_id,
            ),
            _ => true,
        },
{
}

/// The field is missing in the request.
pub open spec fn lacks(req: InodeRequest, field: Field) -> bool {
    match field {
        Field::ParentInodeId => req.first is None && (req.op is Lookup || req.op is Mkdir || req.op is Create
            || req.op is ReadDir || req.op is Unlink || req.op is Rmdir || req.op is Symlink),
        Field::InodeId => req.first is None && !is_by_handle(req.op) && !names_two(req.op),
        Field::SrcParentInodeId => req.first is None && req.op is Rename,
        Field::SrcInodeId => req.first is None && req.op is Link,
        Field::DstParentInodeId => req.second is None && names_two(req.op),
        Field::FileAttrs => match req.op {
            InodeOp::SetAttr { attrs, .. } => attrs is None,
            InodeOp::Mkdir { attrs, .. } => attrs is None,
            InodeOp::Create { attrs, .. } => attrs is None,
            InodeOp::Symlink { attrs, .. } => attrs is None,
            _ => false,
        },
        Field::FileLayout => match req.op {
            InodeOp::Create { layout, .. } => layout is None,
            _ => false,
        },
        Field::LeaseId => false,
    }
}

/// The request carries all that it needs.
pub open spec fn is_complete(req: InodeRequest) -> bool {
    &&& !is_by_handle(req.op) ==> req.first is Some
    &&& names_two(req.op) ==> req.second is Some
    &&& !lacks(req, Field::FileAttrs)
    &&& !lacks(req, Field::FileLayout)
    &&& match req.op {
        InodeOp::Hsync(b) => b is Some,
        InodeOp::Hflush(b) => b is Some,
        InodeOp::CloseWrite { extents_ok, .. } => extents_ok,
        _ => true,
    }
}

/// Every fault has its cause: something that the request lacks, a node or a guard that refused, or
/// a failure of the core. A request that lacks something does no more than say so.
pub proof fn law_faults_have_their_cause(req: InodeRequest, seen: InodeSeen)
    ensures
        inode_service::serve_next(req, seen) matches InodeStep::Answer(answer) ==> (answer.fault matches Some(fault)
            ==> (match fault {
            InodeFault::Missing(field) => lacks(req, field),
            InodeFault::MissingFsyncBody => req.op == InodeOp::Hsync(None) || req.op == InodeOp::Hflush(None),
            InodeFault::BadExtent => req.op matches InodeOp::CloseWrite { extents_ok, .. } && !extents_ok,
            InodeFault::GuardRefused => seen.node == Some(false) || seen.guard == Some(false),
            InodeFault::CoreFailed => {
                ||| seen.done == Some(false)
                ||| seen.removal is Some && seen.removal->0 is None
                ||| seen.renaming is Some && seen.renaming->0 is None
                ||| seen.session is Some && seen.session->0 is None
                ||| seen.mount is Some && seen.mount->0 is None
            },
        })),
        !is_complete(req) && !is_barrier(req.op) ==> (inode_service::serve_next(req, seen)
            matches InodeStep::Answer(answer) && (answer.fault matches Some(fault) && (fault is Missing
            || fault is BadExtent))),
        !is_complete(req) && seen.node == Some(true) ==> (inode_service::serve_next(req, seen)
            matches InodeStep::Answer(answer) && (answer.fault matches Some(fault) && (fault is Missing
            || fault is MissingFsyncBody || fault is BadExtent))),
{
}

/// All that was planned succeeded.
pub open spec fn is_planned(req: InodeRequest, seen: InodeSeen) -> bool {
    &&& req.op is Unlink || req.op is Rmdir ==> seen.removal is Some && seen.removal->0 is Some
    &&& req.op is Rename ==> seen.renaming is Some && seen.renaming->0 is Some
    &&& is_by_handle(req.op) ==> seen.session is Some && seen.session->0 is Some
    &&& is_about_data(req.op) ==> seen.mount is Some && seen.mount->0 is Some
    &&& forall|barrier: Barrier| #[trigger]
        has_body(req.op, barrier) && barrier.file_handle is Some ==> seen.session is Some && seen.session->0 is Some
}

/// A complete request gets as far as what was seen lets it: the node is checked, the guard is
/// asked, the core does the work, and the work is answered with what it did. A guard that refuses
/// ends it, and so does a core that fails.
pub proof fn law_complete_requests_are_served(req: InodeRequest, seen: InodeSeen)
    requires
        is_complete(req),
    ensures
        seen.node is None ==> inode_service::serve_next(req, seen) is CheckNode,
        seen.node == Some(false) ==> inode_service::serve_next(req, seen) == InodeStep::Answer(
            InodeAnswer { fault: Some(InodeFault::GuardRefused), invalidate: None },
        ),
        seen.node == Some(true) && is_planned(req, seen) ==> {
            let step = inode_service::serve_next(req, seen);
            &&& seen.guard is None ==> step is AskGuard
            &&& seen.guard == Some(false) ==> step == InodeStep::Answer(
                InodeAnswer { fault: Some(InodeFault::GuardRefused), invalidate: None },
            )
            &&& seen.guard == Some(true) && seen.done is None ==> step is Execute
            &&& seen.guard == Some(true) && seen.done == Some(false) ==> step == InodeStep::Answer(
                InodeAnswer { fault: Some(InodeFault::CoreFailed), invalidate: None },
            )
            &&& seen.guard == Some(true) && seen.done == Some(true) ==> (step matches InodeStep::Answer(answer)
                && answer.fault is None && (answer.invalidate is Some <==> (req.op is SetAttr || req.op is SetXattr
                || req.op is RemoveXattr)) && (answer.invalidate is Some ==> answer.invalidate == req.first))
        },
        inode_service::serve_next(req, seen) matches InodeStep::Answer(answer) ==> (answer.fault is None ==> seen.node
            == Some(true) && seen.guard == Some(true) && seen.done == Some(true)),
{
    if is_barrier(req.op) {
        let barrier = inode_service::barrier_of(req.op)->0;
        assert(has_body(req.op, barrier));
    }
}

/// The step turns the request down with this fault.
pub open spec fn turns_down(step: InodeStep, fault: InodeFault) -> bool {
    step == InodeStep::Answer(InodeAnswer { fault: Some(fault), invalidate: None })
}

/// The first thing that a request lacks is told: the inode that it names first, whatever else it
/// lacks, then the second, or the attributes, and the layout last.
pub proof fn law_the_first_lack_is_told(req: InodeRequest, other: Option<InodeId>, seen: InodeSeen)
    ensures
        ({
            let step = inode_service::serve_next(req, seen);
            let named = !is_by_handle(req.op) && !is_barrier(req.op);
            &&& named && req.first is None ==> (step matches InodeStep::Answer(answer) && answer.invalidate is None && (
            answer.fault matches Some(InodeFault::Missing(field)) && field != Field::FileAttrs && field
                != Field::FileLayout)) && step == inode_service::serve_next(
                InodeRequest { second: other, ..req },
                seen,
            )
            &&& named && req.first is Some ==> {
                &&& (req.op matches InodeOp::SetAttr { attrs, .. } && attrs is None) ==> turns_down(
                    step,
                    InodeFault::Missing(Field::FileAttrs),
                )
                &&& (req.op matches InodeOp::Mkdir { attrs, .. } && attrs is None) ==> turns_down(
                    step,
                    InodeFault::Missing(Field::FileAttrs),
                )
                &&& (req.op matches InodeOp::Symlink { attrs, .. } && attrs is None) ==> turns_down(
                    step,
                    InodeFault::Missing(Field::FileAttrs),
                )
                &&& (req.op matches InodeOp::Create { attrs, .. } && attrs is None) ==> turns_down(
                    step,
                    InodeFault::Missing(Field::FileAttrs),
                )
                &&& (req.op matches InodeOp::Create { attrs, layout, .. } && attrs is Some && layout is None)
                    ==> turns_down(step, InodeFault::Missing(Field::FileLayout))
            }
            &&& (req.op matches InodeOp::CloseWrite { extents_ok, .. } && !extents_ok) ==> turns_down(
                step,
                InodeFault::BadExtent,
            )
            &&& req.op == InodeOp::Hsync(None) || req.op == InodeOp::Hflush(None) ==> turns_down(
                step,
                InodeFault::MissingFsyncBody,
            )
        }),
{
}

/// A complete request is planned where it has to be before the guard is asked: a removal, a rename,
/// a request on a handle, one on data. What cannot be planned is turned down.
pub proof fn law_requests_are_planned_first(req: InodeRequest, seen: InodeSeen)
    requires
        is_complete(req),
        seen.node == Some(true),
    ensures
        ({
            let step = inode_service::serve_next(req, seen);
            &&& req.op is Unlink && seen.removal is None ==> step is PlanUnlink
            &&& req.op is Rmdir && seen.removal is None ==> step is PlanRmdir
            &&& (req.op is Unlink || req.op is Rmdir) && seen.removal is Some && seen.removal->0 is None ==> turns_down(
                step,
                InodeFault::CoreFailed,
            )
            &&& req.op is Rename && seen.renaming is None ==> step is PlanRename
            &&& req.op is Rename && seen.renaming is Some && seen.renaming->0 is None ==> turns_down(
                step,
                InodeFault::CoreFailed,
            )
            &&& is_by_handle(req.op) && seen.session is None ==> step is PlanSession
            &&& is_by_handle(req.op) && seen.session is Some && seen.session->0 is None ==> turns_down(
                step,
                InodeFault::CoreFailed,
            )
            &&& is_about_data(req.op) && !is_barrier(req.op) && seen.mount is None ==> step is PlanMount
            &&& is_about_data(req.op) && !is_barrier(req.op) && seen.mount is Some && seen.mount->0 is None
                ==> turns_down(step, InodeFault::CoreFailed)
            &&& forall|barrier: Barrier| #[trigger]
                has_body(req.op, barrier) ==> {
                    let by_handle = barrier.file_handle is Some;
                    &&& by_handle && seen.session is None ==> step is PlanSession
                    &&& by_handle && seen.session is Some && seen.session->0 is None ==> turns_down(
                        step,
                        InodeFault::CoreFailed,
                    )
                    &&& (by_handle ==> seen.session is Some && seen.session->0 is Some) && seen.mount is None
                        ==> step is PlanMount
                    &&& (by_handle ==> seen.session is Some && seen.session->0 is Some) && seen.mount is Some
                        && seen.mount->0 is None ==> turns_down(step, InodeFault::CoreFailed)
                }
        }),
{
}

} // verus!
