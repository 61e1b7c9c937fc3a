//! Write sessions that end by themselves: by handle, with their writer and the time at which they
//! were started.

use crate::clock;
use crate::ids::{BlockId, CallId, ClientId, DataHandleId, InodeId, LeaseId, MountId};
use crate::session_registry::SessionModel;
use crate::table;
use crate::table::Table;
use crate::write_target;
use crate::write_target::{FencingToken, WriteMode, WriteTarget};
use vstd::prelude::*;

verus! {

/// How long a session lasts, unless told otherwise: one hour.
pub const DEFAULT_SESSION_TTL_MS: u64 = 3_600_000;

/// Who writes.
#[derive(Clone, Copy, Debug, PartialEq, Eq, Structural)]
pub struct WriterIdentity {
    pub client_id: ClientId,
    pub call_id: CallId,
}

/// A piece of a file that was written.
#[derive(Clone, Copy, Debug, PartialEq, Eq, Structural)]
pub struct Extent {
    pub file_offset: u64,
    pub len: u64,
    pub block_id: BlockId,
}

/// A write in progress.
#[derive(Debug)]
pub struct WriteSession {
    pub inode_id: InodeId,
    pub mount_id: MountId,
    pub data_handle_id: DataHandleId,
    pub lease_id: LeaseId,
    pub lease_epoch: u64,
    pub fencing_token: FencingToken,
    pub open_epoch: u64,
    /// The size of the file when it was opened.
    pub base_size: u64,
    pub mode: WriteMode,
    /// What was written and not yet closed.
    pub pending_extents: Vec<Extent>,
    pub pending_size: u64,
    /// The blocks that can be written.
    pub write_targets: Vec<WriteTarget>,
    /// The blocks that the client was given.
    pub issued_targets: Vec<WriteTarget>,
    pub next_target_index: usize,
    pub writer_identity: WriterIdentity,
    pub created_at_ms: u64,
}

/// What a write in progress starts from.
#[derive(Debug)]
pub struct CreateSessionInput {
    pub inode_id: InodeId,
    pub mount_id: MountId,
    pub data_handle_id: DataHandleId,
    pub lease_id: LeaseId,
    pub lease_epoch: u64,
    pub fencing_token: FencingToken,
    pub open_epoch: u64,
    pub base_size: u64,
    pub mode: WriteMode,
    pub write_targets: Vec<WriteTarget>,
    pub writer_identity: WriterIdentity,
}

pub ghost struct TimedSessionModel {
    pub write: SessionModel,
    pub pending_extents: Seq<Extent>,
    pub pending_size: u64,
    pub writer_identity: WriterIdentity,
    pub created_at_ms: u64,
}

impl View for WriteSession {
    type V = TimedSessionModel;

    open spec fn view(&self) -> TimedSessionModel {
        TimedSessionModel {
            write: SessionModel {
                inode_id: self.inode_id,
                mount_id: self.mount_id,
                data_handle_id: self.data_handle_id,
                lease_id: self.lease_id,
                lease_epoch: self.lease_epoch,
                fencing_token: self.fencing_token,
                open_epoch: self.open_epoch,
                base_size: self.base_size,
                mode: self.mode,
                targets: self.write_targets@,
                issued: self.issued_targets@,
                next: self.next_target_index as nat,
            },
            pending_extents: self.pending_extents@,
            pending_size: self.pending_size,
            writer_identity: self.writer_identity,
            created_at_ms: self.created_at_ms,
        }
    }
}

fn copy_extents(extents: &Vec<Extent>) -> (copy: Vec<Extent>)
    ensures
        copy@ == extents@,
{
    let mut copy: Vec<Extent> = Vec::new();
    let mut i: usize = 0;
    while i < extents.len()
        invariant
            i <= extents@.len(),
            copy@ == extents@.take(i as int),
        decreases extents@.len() - i,
    {
        copy.push(extents[i]);
        i += 1;
        assert(extents@.take(i as int) =~= extents@.take(i - 1).push(extents@[i - 1]));
    }
    assert(extents@.take(i as int) =~= extents@);
    copy
}

impl Clone for WriteSession {
    fn clone(&self) -> (copy: Self)
        ensures
            copy@ == self@,
    {
        WriteSession {
            inode_id: self.inode_id,
            mount_id: self.mount_id,
            data_handle_id: self.data_handle_id,
            lease_id: self.lease_id,
            lease_epoch: self.lease_epoch,
            fencing_token: self.fencing_token,
            open_epoch: self.open_epoch,
            base_size: self.base_size,
            mode: self.mode,
            pending_extents: copy_extents(&self.pending_extents),
            pending_size: self.pending_size,
            write_targets: write_target::copy_targets(&self.write_targets),
            issued_targets: write_target::copy_targets(&self.issued_targets),
            next_target_index: self.next_target_index,
            writer_identity: self.writer_identity,
            created_at_ms: self.created_at_ms,
        }
    }
}

/// The session that an input starts at this time.
pub open spec fn started_at(input: CreateSessionInput, now_ms: u64) -> TimedSessionModel {
    TimedSessionModel {
        write: SessionModel {
            inode_id: input.inode_id,
            mount_id: input.mount_id,
            data_handle_id: input.data_handle_id,
            lease_id: input.lease_id,
            lease_epoch: input.lease_epoch,
            fencing_token: input.fencing_token,
            open_epoch: input.open_epoch,
            base_size: input.base_size,
            mode: input.mode,
            targets: input.write_targets@,
            issued: Seq::empty(),
            next: 0,
        },
        pending_extents: Seq::empty(),
        pending_size: 0,
        writer_identity: input.writer_identity,
        created_at_ms: now_ms,
    }
}

/// The session has lasted longer than it may.
pub open spec fn outlived(session: TimedSessionModel, ttl_ms: u64, now_ms: u64) -> bool {
    now_ms - session.created_at_ms > ttl_ms
}

/// The sessions of this leader, by handle.
pub struct WriteSessionManager {
    sessions: Table<u64, WriteSession>,
    next_file_handle: u64,
    session_ttl_ms: u64,
}

#[verifier::ext_equal]
pub ghost struct ManagerModel {
    pub sessions: Map<u64, TimedSessionModel>,
    pub next_file_handle: u64,
    pub session_ttl_ms: u64,
}

impl View for WriteSessionManager {
    type V = ManagerModel;

    closed spec fn view(&self) -> ManagerModel {
        ManagerModel {
            sessions: self.sessions@.map_values(|s: WriteSession| s@),
            next_file_handle: self.next_file_handle,
            session_ttl_ms: self.session_ttl_ms,
        }
    }
}

impl ManagerModel {
    /// Handles are given out in order, and every session is in order.
    pub open spec fn wf(self) -> bool {
        &&& self.next_file_handle > 0
        &&& forall|h: u64| #[trigger]
            self.sessions.contains_key(h) ==> 0 < h < self.next_file_handle && self.sessions[h].write.wf()
    }

    /// The state with a session started at this time.
    pub open spec fn with_started(self, input: CreateSessionInput, now_ms: u64) -> ManagerModel {
        ManagerModel {
            sessions: self.sessions.insert(self.next_file_handle, started_at(input, now_ms)),
            next_file_handle: (self.next_file_handle + 1) as u64,
            ..self
        }
    }

    /// The next block of a session.
    pub open spec fn offered(self, file_handle: u64, desired_len: Option<u64>) -> Option<WriteTarget> {
        if self.sessions.contains_key(file_handle) {
            self.sessions[file_handle].write.offered(desired_len)
        } else {
            None
        }
    }

    /// The state once a block of a session was issued.
    pub open spec fn with_issued(self, file_handle: u64, target: WriteTarget) -> ManagerModel {
        let session = self.sessions[file_handle];
        ManagerModel {
            sessions: self.sessions.insert(
                file_handle,
                TimedSessionModel { write: session.write.with_issued(target), ..session },
            ),
            ..self
        }
    }

    /// The handles of sessions that have lasted longer than they may.
    pub open spec fn outlived(self, now_ms: u64) -> Set<u64> {
        Set::new(|h: u64| self.sessions.contains_key(h) && outlived(self.sessions[h], self.session_ttl_ms, now_ms))
    }

    /// The state without them.
    pub open spec fn cleaned(self, now_ms: u64) -> ManagerModel {
        ManagerModel { sessions: self.sessions.remove_keys(self.outlived(now_ms)), ..self }
    }

    /// The handles of the sessions of an inode.
    pub open spec fn on_inode(self, inode_id: InodeId) -> Set<u64> {
        Set::new(|h: u64| self.sessions.contains_key(h) && self.sessions[h].write.inode_id == inode_id)
    }
}

impl WriteSessionManager {
    pub open spec fn inv(&self) -> bool {
        self@.wf()
    }

    /// No sessions; those to come last so long.
    pub fn new(session_ttl_ms: u64) -> (manager: Self)
        ensures
            manager.inv(),
            manager@ == (ManagerModel { sessions: Map::empty(), next_file_handle: 1, session_ttl_ms }),
    {
        let manager = WriteSessionManager { sessions: Table::new(), next_file_handle: 1, session_ttl_ms };
        assert(manager@ =~= (ManagerModel { sessions: Map::empty(), next_file_handle: 1, session_ttl_ms }));
        manager
    }

    /// Starts a session at this time and gives its handle.
    pub fn create_session_at(&mut self, input: CreateSessionInput, now_ms: u64) -> (file_handle: u64)
        requires
            old(self).inv(),
            old(self)@.next_file_handle < u64::MAX,
        ensures
            final(self).inv(),
            file_handle == old(self)@.next_file_handle,
            final(self)@ == old(self)@.with_started(input, now_ms),
    {
        let file_handle: u64 = self.next_file_handle;
        self.next_file_handle = file_handle + 1;
        let session = WriteSession {
            inode_id: input.inode_id,
            mount_id: input.mount_id,
            data_handle_id: input.data_handle_id,
            lease_id: input.lease_id,
            lease_epoch: input.lease_epoch,
            fencing_token: input.fencing_token,
            open_epoch: input.open_epoch,
            base_size: input.base_size,
            mode: input.mode,
            pending_extents: Vec::new(),
            pending_size: 0,
            write_targets: input.write_targets,
            issued_targets: Vec::new(),
            next_target_index: 0,
            writer_identity: input.writer_identity,
            created_at_ms: now_ms,
        };
        assert(session@.write.issued =~= Seq::empty());
        assert(session@.pending_extents =~= Seq::empty());
        self.sessions.insert(file_handle, session);
        assert(self@.sessions =~= old(self)@.with_started(input, now_ms).sessions);
        file_handle
    }

    /// Starts a session and gives its handle.
    pub fn create_session(&mut self, input: CreateSessionInput) -> (file_handle: u64)
        requires
            old(self).inv(),
            old(self)@.next_file_handle < u64::MAX,
        ensures
            final(self).inv(),
            file_handle == old(self)@.next_file_handle,
            exists|now_ms: u64| final(self)@ == #[trigger] old(self)@.with_started(input, now_ms),
    {
        let now_ms: u64 = clock::unix_millis();
        self.create_session_at(input, now_ms)
    }

    /// Issues the next block of a session.
    pub fn allocate_target(&mut self, file_handle: u64, desired_len: Option<u64>) -> (target: Option<WriteTarget>)
        requires
            old(self).inv(),
        ensures
            final(self).inv(),
            target == old(self)@.offered(file_handle, desired_len),
            final(self)@ == (match target {
                Some(t) => old(self)@.with_issued(file_handle, t),
                None => old(self)@,
            }),
    {
        let ghost before = self@;
        match self.sessions.get(&file_handle) {
            None => {
                return None;
            },
            Some(session) => {
                assert(before.sessions.contains_key(file_handle));
                assert(session@ == before.sessions[file_handle]);
                let target = match write_target::prepare_target(
                    &session.write_targets,
                    &session.issued_targets,
                    session.next_target_index,
                    session.base_size,
                    desired_len,
                ) {
                    None => {
                        return None;
                    },
                    Some(target) => target,
                };
                let mut updated = session.clone();
                proof {
                    write_target::law_blocks_are_issued_in_line(
                        session@.write.targets,
                        session@.write.issued,
                        session@.write.next,
                        session@.write.base_size,
                        desired_len,
                    );
                }
                let planned: usize = updated.write_targets.len();
                assert(updated.next_target_index < planned);
                updated.issued_targets.push(target);
                updated.next_target_index = updated.next_target_index + 1;
                assert(updated@.write == before.sessions[file_handle].write.with_issued(target));
                self.sessions.insert(file_handle, updated);
                assert(self@.sessions =~= before.with_issued(file_handle, target).sessions);
                Some(target)
            },
        }
    }

    /// A copy of a session.
    pub fn get_session(&self, file_handle: u64) -> (session: Option<WriteSession>)
        ensures
            match session {
                Some(s) => self@.sessions.contains_key(file_handle) && s@ == self@.sessions[file_handle],
                None => !self@.sessions.contains_key(file_handle),
            },
    {
        match self.sessions.get(&file_handle) {
            Some(session) => Some(session.clone()),
            None => None,
        }
    }

    /// Ends a session.
    pub fn remove_session(&mut self, file_handle: u64) -> (session: Option<WriteSession>)
        requires
            old(self).inv(),
        ensures
            final(self).inv(),
            final(self)@ == (ManagerModel { sessions: old(self)@.sessions.remove(file_handle), ..old(self)@ }),
            match session {
                Some(s) => old(self)@.sessions.contains_key(file_handle) && s@ == old(self)@.sessions[file_handle],
                None => !old(self)@.sessions.contains_key(file_handle),
            },
    {
        let session = self.sessions.remove(&file_handle);
        assert(self@.sessions =~= old(self)@.sessions.remove(file_handle));
        session
    }

    /// Ends the sessions that have lasted longer than they may at this time, and tells how many.
    pub fn cleanup_expired_at(&mut self, now_ms: u64) -> (count: usize)
        requires
            old(self).inv(),
        ensures
            final(self).inv(),
            final(self)@ == old(self)@.cleaned(now_ms),
            count == old(self)@.outlived(now_ms).len(),
    {
        let ghost before = self@;
        let ttl_ms: u64 = self.session_ttl_ms;
        let test = |h: &u64, s: &WriteSession| -> (gone: bool)
            ensures
                gone == outlived(s@, ttl_ms, now_ms),
            { now_ms >= s.created_at_ms && now_ms - s.created_at_ms > ttl_ms };
        let ghost leaves = |h: u64, s: WriteSession| outlived(s@, ttl_ms, now_ms);
        let gone = table::keys_where(&self.sessions, test, Ghost(leaves));
        let ghost out = before.outlived(now_ms);
        proof {
            assert(table::keys_meeting(self.sessions@, leaves) =~= out);
            table::lemma_lists_len(gone@, out);
        }
        table::remove_all(&mut self.sessions, &gone);
        proof {
            let left = before.cleaned(now_ms).sessions;
            assert forall|h: u64| #[trigger] self@.sessions.contains_key(h) == left.contains_key(h) by {
                assert(out.contains(h) <==> table::among(gone@, h));
            }
            assert(self@.sessions =~= left);
        }
        gone.len()
    }

    /// Ends the sessions that have lasted longer than they may, and tells how many.
    pub fn cleanup_expired(&mut self) -> (count: usize)
        requires
            old(self).inv(),
        ensures
            final(self).inv(),
            exists|now_ms: u64|
                final(self)@ == #[trigger] old(self)@.cleaned(now_ms) && count == old(self)@.outlived(now_ms).len(),
    {
        let now_ms: u64 = clock::unix_millis();
        self.cleanup_expired_at(now_ms)
    }

    /// The handles of the sessions of an inode, in no promised order.
    pub fn get_sessions_for_inode(&self, inode_id: InodeId) -> (handles: Vec<u64>)
        ensures
            table::lists(handles@, self@.on_inode(inode_id)),
    {
        let test = |h: &u64, s: &WriteSession| -> (on: bool)
            ensures
                on == (s@.write.inode_id == inode_id),
            { s.inode_id == inode_id };
        let ghost on = |h: u64, s: WriteSession| s@.write.inode_id == inode_id;
        let handles = table::keys_where(&self.sessions, test, Ghost(on));
        assert(table::keys_meeting(self.sessions@, on) =~= self@.on_inode(inode_id));
        handles
    }

    /// Whether an inode has a session.
    pub fn has_active_session(&self, inode_id: InodeId) -> (has: bool)
        ensures
            has == (exists|h: u64| #[trigger] self@.on_inode(inode_id).contains(h)),
    {
        let handles = self.get_sessions_for_inode(inode_id);
        if handles.len() > 0 {
            proof {
                table::lemma_listed(handles@, self@.on_inode(inode_id), 0);
            }
            true
        } else {
            proof {
                assert forall|h: u64| !#[trigger] self@.on_inode(inode_id).contains(h) by {
                    assert(!table::among(handles@, h));
                }
            }
            false
        }
    }
}

impl Default for WriteSessionManager {
    fn default() -> (manager: Self)
        ensures
            manager.inv(),
            manager@ == (ManagerModel {
                sessions: Map::empty(),
                next_file_handle: 1,
                session_ttl_ms: DEFAULT_SESSION_TTL_MS,
            }),
    {
        Self::new(DEFAULT_SESSION_TTL_MS)
    }
}

/// Cleaning up spares every session that has not lasted longer than it may, and leaves none that
/// has.
pub proof fn law_cleaning_up_spares_the_young(manager: ManagerModel, now_ms: u64, file_handle: u64)
    requires
        manager.sessions.contains_key(file_handle),
    ensures
        manager.cleaned(now_ms).sessions.contains_key(file_handle) <==> !outlived(
            manager.sessions[file_handle],
            manager.session_ttl_ms,
            now_ms,
        ),
        manager.cleaned(now_ms).sessions.contains_key(file_handle) ==> manager.cleaned(now_ms).sessions[file_handle]
            == manager.sessions[file_handle],
        manager.cleaned(now_ms).outlived(now_ms) =~= Set::<u64>::empty(),
{
}

/// What one session is given does not touch another.
pub proof fn law_sessions_are_independent(
    manager: ManagerModel,
    file_handle: u64,
    other: u64,
    target: WriteTarget,
)
    requires
        file_handle != other,
        manager.sessions.contains_key(other),
    ensures
        manager.with_issued(file_handle, target).sessions.contains_key(other),
        manager.with_issued(file_handle, target).sessions[other] == manager.sessions[other],
{
}

/// The session was started so long ago that it has lasted longer than it may. One that lasts for
/// exactly as long as it may is kept, and so is one that starts in the future.
pub proof fn law_sessions_last_for_their_time(manager: ManagerModel, file_handle: u64, now_ms: u64)
    requires
        manager.sessions.contains_key(file_handle),
    ensures
        ({
            let session = manager.sessions[file_handle];
            let left = manager.cleaned(now_ms).sessions;
            &&& left.contains_key(file_handle) <==> now_ms <= session.created_at_ms + manager.session_ttl_ms
            &&& left.contains_key(file_handle) ==> left[file_handle] == session
            &&& manager.outlived(now_ms).contains(file_handle) <==> now_ms > session.created_at_ms
                + manager.session_ttl_ms
            &&& forall|h: u64| #[trigger] left.contains_key(h) ==> manager.sessions.contains_key(h)
            &&& manager.cleaned(now_ms).next_file_handle == manager.next_file_handle
            &&& manager.cleaned(now_ms).session_ttl_ms == manager.session_ttl_ms
        }),
{
}

/// A session starts under a handle that no session has, at the time at which it is started, with
/// what it was asked to write; nothing is pending, and no other session changes.
pub proof fn law_sessions_start_under_a_new_handle(manager: ManagerModel, input: CreateSessionInput, now_ms: u64)
    requires
        manager.wf(),
        manager.next_file_handle < u64::MAX,
    ensures
        ({
            let handle = manager.next_file_handle;
            let after = manager.with_started(input, now_ms);
            let session = after.sessions[handle];
            &&& !manager.sessions.contains_key(handle)
            &&& after.sessions.contains_key(handle)
            &&& after.next_file_handle > handle
            &&& after.session_ttl_ms == manager.session_ttl_ms
            &&& session.created_at_ms == now_ms
            &&& session.writer_identity == input.writer_identity
            &&& session.pending_extents.len() == 0 && session.pending_size == 0
            &&& session.write.inode_id == input.inode_id && session.write.mount_id == input.mount_id
                && session.write.data_handle_id == input.data_handle_id && session.write.lease_id == input.lease_id
                && session.write.lease_epoch == input.lease_epoch && session.write.fencing_token
                == input.fencing_token && session.write.open_epoch == input.open_epoch && session.write.base_size
                == input.base_size && session.write.mode == input.mode && session.write.targets
                == input.write_targets@ && session.write.issued.len() == 0
            &&& session.write.wf()
            &&& forall|h: u64|
                h != handle ==> (#[trigger] after.sessions.contains_key(h) <==> manager.sessions.contains_key(h))
            &&& forall|h: u64|
                h != handle && manager.sessions.contains_key(h) ==> #[trigger] after.sessions[h] == manager.sessions[h]
            &&& after.on_inode(input.inode_id).contains(handle)
            &&& input.write_targets@.len() > 0 ==> (after.offered(handle, None) matches Some(target)
                && target.file_offset == input.base_size && target.block_id == input.write_targets@[0].block_id)
        }),
{
}

/// A block is offered only by a session that is there, and giving it moves that session on by one
/// block: the next one that it offers starts behind it, while that is an offset.
pub proof fn law_managed_sessions_give_block_after_block(
    manager: ManagerModel,
    file_handle: u64,
    one: Option<u64>,
    two: Option<u64>,
)
    requires
        manager.wf(),
    ensures
        !manager.sessions.contains_key(file_handle) ==> manager.offered(file_handle, one) is None,
        manager.sessions.contains_key(file_handle) ==> {
            let session = manager.sessions[file_handle];
            let at = session.write.issued.len() as int;
            &&& manager.offered(file_handle, one) is Some <==> at < session.write.targets.len()
            &&& manager.offered(file_handle, one) matches Some(given) ==> {
                let after = manager.with_issued(file_handle, given);
                let next = after.offered(file_handle, two);
                &&& given.block_id == session.write.targets[at].block_id
                &&& at == 0 ==> given.file_offset == session.write.base_size
                &&& at > 0 && session.write.issued[at - 1].file_offset + session.write.issued[at - 1].effective_len
                    <= u64::MAX ==> given.file_offset == session.write.issued[at - 1].file_offset
                    + session.write.issued[at - 1].effective_len
                &&& after.sessions[file_handle].write.issued.len() == at + 1
                &&& after.sessions[file_handle].write.issued[at] == given
                &&& after.sessions[file_handle].created_at_ms == session.created_at_ms
                &&& after.sessions[file_handle].pending_extents == session.pending_extents
                &&& after.sessions[file_handle].pending_size == session.pending_size
                &&& next is Some <==> at + 1 < session.write.targets.len()
                &&& next is Some && given.file_offset + given.effective_len <= u64::MAX ==> next->0.file_offset
                    == given.file_offset + given.effective_len
            }
        },
{
    if manager.sessions.contains_key(file_handle) {
        let session = manager.sessions[file_handle].write;
        if session.issued.len() < session.targets.len() {
            crate::session_registry::law_sessions_give_block_after_block(session, one, two);
            let after = manager.with_issued(file_handle, manager.offered(file_handle, one)->0);
            assert(after.sessions[file_handle].write == session.with_issued(session.offered(one)->0));
        }
    }
}

/// The sessions of an inode are those whose inode it is.
pub proof fn law_sessions_are_found_by_their_inode(manager: ManagerModel, inode_id: InodeId, file_handle: u64)
    ensures
        manager.on_inode(inode_id).contains(file_handle) <==> manager.sessions.contains_key(file_handle)
            && manager.sessions[file_handle].write.inode_id == inode_id,
{
}

} // verus!
