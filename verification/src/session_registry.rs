//! The write sessions of this leader, by handle. Whether a write may go on is for its lease to
//! say; the registry holds what is needed to go on with it.

use crate::ids::{DataHandleId, InodeId, LeaseId, MountId};
use crate::table;
use crate::table::{Table, TableKey};
use crate::write_target;
use crate::write_target::{FencingToken, WriteMode, WriteTarget};
use vstd::prelude::*;

verus! {

/// A write in progress.
#[derive(Debug)]
pub struct WriteSession {
    pub inode_id: InodeId,
    pub mount_id: MountId,
    pub data_handle_id: DataHandleId,
    pub lease_id: LeaseId,
    pub lease_epoch: u64,
    pub fencing_token: FencingToken,
    pub open_epoch: u64,
    /// The size of the file when it was opened.
    pub base_size: u64,
    pub mode: WriteMode,
    /// The blocks that can be written.
    pub write_targets: Vec<WriteTarget>,
    /// The blocks that the client was given.
    pub issued_targets: Vec<WriteTarget>,
    pub next_target_index: usize,
}

/// What a write in progress starts from.
#[derive(Debug)]
pub struct CreateSessionInput {
    pub inode_id: InodeId,
    pub mount_id: MountId,
    pub data_handle_id: DataHandleId,
    pub lease_id: LeaseId,
    pub lease_epoch: u64,
    pub fencing_token: FencingToken,
    pub open_epoch: u64,
    pub base_size: u64,
    pub mode: WriteMode,
    pub write_targets: Vec<WriteTarget>,
}

pub ghost struct SessionModel {
    pub inode_id: InodeId,
    pub mount_id: MountId,
    pub data_handle_id: DataHandleId,
    pub lease_id: LeaseId,
    pub lease_epoch: u64,
    pub fencing_token: FencingToken,
    pub open_epoch: u64,
    pub base_size: u64,
    pub mode: WriteMode,
    pub targets: Seq<WriteTarget>,
    pub issued: Seq<WriteTarget>,
    pub next: nat,
}

impl View for WriteSession {
    type V = SessionModel;

    open spec fn view(&self) -> SessionModel {
        SessionModel {
            inode_id: self.inode_id,
            mount_id: self.mount_id,
            data_handle_id: self.data_handle_id,
            lease_id: self.lease_id,
            lease_epoch: self.lease_epoch,
            fencing_token: self.fencing_token,
            open_epoch: self.open_epoch,
            base_size: self.base_size,
            mode: self.mode,
            targets: self.write_targets@,
            issued: self.issued_targets@,
            next: self.next_target_index as nat,
        }
    }
}

impl Clone for WriteSession {
    fn clone(&self) -> (copy: Self)
        ensures
            copy@ == self@,
    {
        WriteSession {
            inode_id: self.inode_id,
            mount_id: self.mount_id,
            data_handle_id: self.data_handle_id,
            lease_id: self.lease_id,
            lease_epoch: self.lease_epoch,
            fencing_token: self.fencing_token,
            open_epoch: self.open_epoch,
            base_size: self.base_size,
            mode: self.mode,
            write_targets: write_target::copy_targets(&self.write_targets),
            issued_targets: write_target::copy_targets(&self.issued_targets),
            next_target_index: self.next_target_index,
        }
    }
}

impl TableKey for u64 {
    fn same_key(&self, other: &Self) -> (same: bool) {
        *self == *other
    }

    fn copy_key(&self) -> (key: Self) {
        *self
    }
}

/// The session that an input starts.
pub open spec fn started(input: CreateSessionInput) -> SessionModel {
    SessionModel {
        inode_id: input.inode_id,
        mount_id: input.mount_id,
        data_handle_id: input.data_handle_id,
        lease_id: input.lease_id,
        lease_epoch: input.lease_epoch,
        fencing_token: input.fencing_token,
        open_epoch: input.open_epoch,
        base_size: input.base_size,
        mode: input.mode,
        targets: input.write_targets@,
        issued: Seq::empty(),
        next: 0,
    }
}

impl SessionModel {
    /// Blocks were issued in the order of the targets, one behind the other in the file.
    pub open spec fn wf(self) -> bool {
        &&& self.next == self.issued.len()
        &&& self.next <= self.targets.len()
        &&& write_target::contiguous(self.issued, self.base_size)
    }

    /// The next block that can be issued.
    pub open spec fn offered(self, desired_len: Option<u64>) -> Option<WriteTarget> {
        write_target::next_target(self.targets, self.issued, self.next, self.base_size, desired_len)
    }

    /// The session with one more block issued.
    pub open spec fn with_issued(self, target: WriteTarget) -> SessionModel {
        SessionModel { issued: self.issued.push(target), next: self.next + 1, ..self }
    }
}

/// A lease that is in force.
#[derive(Clone, Copy, Debug, PartialEq, Eq, Structural)]
pub struct ActiveLease {
    pub inode_id: InodeId,
    pub lease_id: LeaseId,
    pub lease_epoch: u64,
}

/// The lease of the session.
pub open spec fn lease_of(session: SessionModel) -> ActiveLease {
    ActiveLease { inode_id: session.inode_id, lease_id: session.lease_id, lease_epoch: session.lease_epoch }
}

/// The session is of another inode, or its lease is in force.
pub open spec fn stays(session: SessionModel, inode_id: InodeId, active: Seq<ActiveLease>) -> bool {
    session.inode_id != inode_id || active.contains(lease_of(session))
}

/// The sessions of this leader, by handle.
pub struct SessionRegistry {
    sessions: Table<u64, WriteSession>,
    next_file_handle: u64,
}

#[verifier::ext_equal]
pub ghost struct RegistryModel {
    pub sessions: Map<u64, SessionModel>,
    pub next_file_handle: u64,
}

impl View for SessionRegistry {
    type V = RegistryModel;

    closed spec fn view(&self) -> RegistryModel {
        RegistryModel {
            sessions: self.sessions@.map_values(|s: WriteSession| s@),
            next_file_handle: self.next_file_handle,
        }
    }
}

impl RegistryModel {
    /// Handles are given out in order, and every session is in order.
    pub open spec fn wf(self) -> bool {
        &&& self.next_file_handle > 0
        &&& forall|h: u64| #[trigger]
            self.sessions.contains_key(h) ==> 0 < h < self.next_file_handle && self.sessions[h].wf()
    }
}

fn has_lease(active: &Vec<ActiveLease>, inode_id: InodeId, lease_id: LeaseId, lease_epoch: u64) -> (found: bool)
    ensures
        found == active@.contains(ActiveLease { inode_id, lease_id, lease_epoch }),
{
    let lease = ActiveLease { inode_id, lease_id, lease_epoch };
    let mut i: usize = 0;
    while i < active.len()
        invariant
            i <= active@.len(),
            lease == (ActiveLease { inode_id, lease_id, lease_epoch }),
            forall|j: int| 0 <= j < i ==> active@[j] != lease,
        decreases active@.len() - i,
    {
        if active[i] == lease {
            assert(active@[i as int] == lease);
            return true;
        }
        i += 1;
    }
    false
}

impl SessionRegistry {
    pub open spec fn inv(&self) -> bool {
        self@.wf()
    }

    /// No sessions.
    pub fn new() -> (registry: Self)
        ensures
            registry.inv(),
            registry@ == (RegistryModel { sessions: Map::empty(), next_file_handle: 1 }),
    {
        let registry = SessionRegistry { sessions: Table::new(), next_file_handle: 1 };
        assert(registry@ =~= (RegistryModel { sessions: Map::empty(), next_file_handle: 1 }));
        registry
    }

    /// Starts a session and gives its handle.
    pub fn create_session(&mut self, input: CreateSessionInput) -> (file_handle: u64)
        requires
            old(self).inv(),
            old(self)@.next_file_handle < u64::MAX,
        ensures
            final(self).inv(),
            file_handle == old(self)@.next_file_handle,
            final(self)@ == (RegistryModel {
                sessions: old(self)@.sessions.insert(file_handle, started(input)),
                next_file_handle: (file_handle + 1) as u64,
            }),
    {
        let file_handle: u64 = self.next_file_handle;
        self.next_file_handle = file_handle + 1;
        let session = WriteSession {
            inode_id: input.inode_id,
            mount_id: input.mount_id,
            data_handle_id: input.data_handle_id,
            lease_id: input.lease_id,
            lease_epoch: input.lease_epoch,
            fencing_token: input.fencing_token,
            open_epoch: input.open_epoch,
            base_size: input.base_size,
            mode: input.mode,
            write_targets: input.write_targets,
            issued_targets: Vec::new(),
            next_target_index: 0,
        };
        assert(session@.issued =~= Seq::empty());
        self.sessions.insert(file_handle, session);
        assert(self@.sessions =~= old(self)@.sessions.insert(file_handle, started(input)));
        file_handle
    }

    /// Issues the next block of a session, where its shape is in order. What shapes are is for
    /// the caller to say.
    pub fn allocate_target<F: Fn(&WriteTarget) -> bool>(
        &mut self,
        file_handle: u64,
        desired_len: Option<u64>,
        shape_is_valid: F,
    ) -> (target: Option<WriteTarget>)
        requires
            old(self).inv(),
            forall|t: &WriteTarget| #[trigger] shape_is_valid.requires((t,)),
        ensures
            final(self).inv(),
            ({
                let sessions = old(self)@.sessions;
                let offered = if sessions.contains_key(file_handle) {
                    sessions[file_handle].offered(desired_len)
                } else {
                    None
                };
                match target {
                    Some(t) => offered == Some(t) && shape_is_valid.ensures((&t,), true) && final(self)@ == (
                    RegistryModel {
                        sessions: sessions.insert(file_handle, sessions[file_handle].with_issued(t)),
                        ..old(self)@
                    }),
                    None => final(self)@ == old(self)@ && (offered is Some ==> shape_is_valid.ensures(
                        (&offered->0,),
                        false,
                    )),
                }
            }),
    {
        let ghost before = self@;
        match self.sessions.get(&file_handle) {
            None => {
                return None;
            },
            Some(session) => {
                assert(before.sessions.contains_key(file_handle));
                assert(session@ == before.sessions[file_handle]);
                let target = match write_target::prepare_target(
                    &session.write_targets,
                    &session.issued_targets,
                    session.next_target_index,
                    session.base_size,
                    desired_len,
                ) {
                    None => {
                        return None;
                    },
                    Some(target) => target,
                };
                if !shape_is_valid(&target) {
                    return None;
                }
                let mut updated = session.clone();
                proof {
                    write_target::law_blocks_are_issued_in_line(
                        session@.targets,
                        session@.issued,
                        session@.next,
                        session@.base_size,
                        desired_len,
                    );
                }
                let planned: usize = updated.write_targets.len();
                assert(updated.next_target_index < planned);
                updated.issued_targets.push(target);
                updated.next_target_index = updated.next_target_index + 1;
                assert(updated@ == before.sessions[file_handle].with_issued(target));
                self.sessions.insert(file_handle, updated);
                assert(self@.sessions =~= before.sessions.insert(
                    file_handle,
                    before.sessions[file_handle].with_issued(target),
                ));
                Some(target)
            },
        }
    }

    /// A copy of a session.
    pub fn get_session(&self, file_handle: u64) -> (session: Option<WriteSession>)
        ensures
            match session {
                Some(s) => self@.sessions.contains_key(file_handle) && s@ == self@.sessions[file_handle],
                None => !self@.sessions.contains_key(file_handle),
            },
    {
        match self.sessions.get(&file_handle) {
            Some(session) => Some(session.clone()),
            None => None,
        }
    }

    /// Ends a session.
    pub fn remove_session(&mut self, file_handle: u64) -> (session: Option<WriteSession>)
        requires
            old(self).inv(),
        ensures
            final(self).inv(),
            final(self)@ == (RegistryModel { sessions: old(self)@.sessions.remove(file_handle), ..old(self)@ }),
            match session {
                Some(s) => old(self)@.sessions.contains_key(file_handle) && s@ == old(self)@.sessions[file_handle],
                None => !old(self)@.sessions.contains_key(file_handle),
            },
    {
        let session = self.sessions.remove(&file_handle);
        assert(self@.sessions =~= old(self)@.sessions.remove(file_handle));
        session
    }

    /// Ends the sessions of an inode whose leases are not in force, and tells how many.
    pub fn remove_inactive_for_inode(&mut self, inode_id: InodeId, active: &Vec<ActiveLease>) -> (count: usize)
        requires
            old(self).inv(),
        ensures
            final(self).inv(),
            final(self)@ == (RegistryModel {
                sessions: old(self)@.sessions.restrict(
                    Set::new(
                        |h: u64|
                            old(self)@.sessions.contains_key(h) && stays(old(self)@.sessions[h], inode_id, active@),
                    ),
                ),
                ..old(self)@
            }),
            count == Set::new(
                |h: u64|
                    old(self)@.sessions.contains_key(h) && !stays(old(self)@.sessions[h], inode_id, active@),
            ).len(),
    {
        let ghost before = self@;
        let test = |h: &u64, s: &WriteSession| -> (gone: bool)
            ensures
                gone == !stays(s@, inode_id, active@),
            { s.inode_id == inode_id && !has_lease(active, s.inode_id, s.lease_id, s.lease_epoch) };
        let ghost leaves = |h: u64, s: WriteSession| !stays(s@, inode_id, active@);
        let gone = table::keys_where(&self.sessions, test, Ghost(leaves));
        let ghost out = Set::new(
            |h: u64| before.sessions.contains_key(h) && !stays(before.sessions[h], inode_id, active@),
        );
        proof {
            assert(table::keys_meeting(self.sessions@, leaves) =~= out);
            table::lemma_lists_len(gone@, out);
        }
        table::remove_all(&mut self.sessions, &gone);
        proof {
            let left = before.sessions.restrict(
                Set::new(|h: u64| before.sessions.contains_key(h) && stays(before.sessions[h], inode_id, active@)),
            );
            assert forall|h: u64| #[trigger] self@.sessions.contains_key(h) == left.contains_key(h) by {
                assert(out.contains(h) <==> table::among(gone@, h));
            }
            assert(self@.sessions =~= left);
        }
        gone.len()
    }
}

impl Default for SessionRegistry {
    fn default() -> (registry: Self)
        ensures
            registry.inv(),
            registry@ == (RegistryModel { sessions: Map::empty(), next_file_handle: 1 }),
    {
        Self::new()
    }
}

/// A new session gets a handle that no session has.
pub proof fn law_handles_are_fresh(registry: RegistryModel)
    requires
        registry.wf(),
    ensures
        !registry.sessions.contains_key(registry.next_file_handle),
{
}

/// What was started is found under its handle, and is gone once it was ended.
pub proof fn law_sessions_last_until_ended(registry: RegistryModel, input: CreateSessionInput)
    ensures
        ({
            let h = registry.next_file_handle;
            let sessions = registry.sessions.insert(h, started(input));
            &&& sessions.contains_key(h) && sessions[h] == started(input)
            &&& !sessions.remove(h).contains_key(h)
            &&& forall|other: u64| other != h ==> (#[trigger] sessions.contains_key(other)
                <==> registry.sessions.contains_key(other))
        }),
{
}

/// The blocks of a session lie one behind the other in the file: the first starts at the size that
/// the file had when it was opened, each later one where the one before it ends, while that is an
/// offset.
pub proof fn law_blocks_of_a_session_leave_no_gap(session: SessionModel)
    requires
        session.wf(),
    ensures
        session.issued.len() <= session.targets.len(),
        session.issued.len() > 0 ==> session.issued[0].file_offset == session.base_size,
        forall|i: int|
            0 < i < session.issued.len() && session.issued[i - 1].file_offset + session.issued[i - 1].effective_len
                <= u64::MAX ==> (#[trigger] session.issued[i]).file_offset == session.issued[i - 1].file_offset
                + session.issued[i - 1].effective_len,
{
    if session.issued.len() > 0 {
        assert(session.issued.take(0).len() == 0);
        assert(session.issued[0].file_offset == write_target::next_offset(session.issued.take(0), session.base_size));
    }
    assert forall|i: int|
        0 < i < session.issued.len() && session.issued[i - 1].file_offset + session.issued[i - 1].effective_len
            <= u64::MAX implies (#[trigger] session.issued[i]).file_offset == session.issued[i - 1].file_offset
        + session.issued[i - 1].effective_len by {
        assert(session.issued.take(i).last() == session.issued[i - 1]);
    }
}

/// Two blocks that a session gives one after the other are two planned blocks in a row, and the
/// second starts where the first ends, while that is an offset. Giving one changes nothing else of
/// the session.
pub proof fn law_sessions_give_block_after_block(session: SessionModel, one: Option<u64>, two: Option<u64>)
    requires
        session.wf(),
        session.issued.len() < session.targets.len(),
    ensures
        session.offered(one) is Some,
        ({
            let at = session.issued.len() as int;
            let given = session.offered(one)->0;
            let after = session.with_issued(given);
            let next = after.offered(two);
            &&& given.block_id == session.targets[at].block_id
            &&& after.issued.len() == at + 1
            &&& after.issued[at] == given
            &&& forall|i: int| 0 <= i < at ==> #[trigger] after.issued[i] == session.issued[i]
            &&& after.wf()
            &&& next is Some <==> at + 1 < session.targets.len()
            &&& next is Some ==> next->0.block_id == session.targets[at + 1].block_id
            &&& next is Some && given.file_offset + given.effective_len <= u64::MAX ==> next->0.file_offset
                == given.file_offset + given.effective_len
            &&& after.inode_id == session.inode_id && after.mount_id == session.mount_id && after.data_handle_id
                == session.data_handle_id && after.lease_id == session.lease_id && after.lease_epoch
                == session.lease_epoch && after.fencing_token == session.fencing_token && after.open_epoch
                == session.open_epoch && after.base_size == session.base_size && after.mode == session.mode
                && after.targets == session.targets
        }),
{
    write_target::law_blocks_are_issued_in_line(
        session.targets,
        session.issued,
        session.next,
        session.base_size,
        one,
    );
    let after = session.with_issued(session.offered(one)->0);
    assert(after.issued.last() == session.offered(one)->0);
}

/// A session starts with what it was asked to write, and with no block given.
pub proof fn law_sessions_start_as_asked(input: CreateSessionInput)
    ensures
        started(input).inode_id == input.inode_id,
        started(input).mount_id == input.mount_id,
        started(input).data_handle_id == input.data_handle_id,
        started(input).lease_id == input.lease_id,
        started(input).lease_epoch == input.lease_epoch,
        started(input).fencing_token == input.fencing_token,
        started(input).open_epoch == input.open_epoch,
        started(input).base_size == input.base_size,
        started(input).mode == input.mode,
        started(input).targets == input.write_targets@,
        started(input).issued.len() == 0,
        started(input).wf(),
        input.write_targets@.len() > 0 ==> started(input).offered(None) is Some && started(input).offered(
            None,
        )->0.file_offset == input.base_size && started(input).offered(None)->0.effective_len
            == input.write_targets@[0].effective_len,
{
}

/// A session stays under its inode exactly as long as its own lease is in force: same inode, same
/// lease, same epoch. Those of other inodes stay in any case.
pub proof fn law_sessions_stay_with_their_lease(session: SessionModel, inode_id: InodeId, active: Seq<ActiveLease>)
    ensures
        session.inode_id != inode_id ==> stays(session, inode_id, active),
        session.inode_id == inode_id ==> (stays(session, inode_id, active) <==> exists|i: int|
            0 <= i < active.len() && (#[trigger] active[i]).inode_id == session.inode_id && active[i].lease_id
                == session.lease_id && active[i].lease_epoch == session.lease_epoch),
{
    let own = lease_of(session);
    if active.contains(own) {
        let i = choose|i: int| 0 <= i < active.len() && active[i] == own;
        assert(active[i].inode_id == session.inode_id);
    }
    if exists|i: int|
        0 <= i < active.len() && (#[trigger] active[i]).inode_id == session.inode_id && active[i].lease_id
            == session.lease_id && active[i].lease_epoch == session.lease_epoch {
        let i = choose|i: int|
            0 <= i < active.len() && (#[trigger] active[i]).inode_id == session.inode_id && active[i].lease_id
                == session.lease_id && active[i].lease_epoch == session.lease_epoch;
        assert(active[i] == own);
    }
}

} // verus!
