//! Leases for full block reports: only so many workers of a group report in full at a time.

use crate::clock;
use crate::ids::{MountEpoch, ShardGroupId, WorkerId};
use vstd::prelude::*;

verus! {

/// The leave of a worker to report in full.
#[derive(Clone, Copy, Debug, PartialEq, Eq, Structural)]
pub struct FullReportLease {
    pub worker_id: WorkerId,
    /// The epoch of the leader that gave the lease.
    pub target_metadata_epoch: u64,
    pub mount_epoch: Option<MountEpoch>,
    pub expire_ms: u64,
}

impl FullReportLease {
    pub open spec fn expired(self, now_ms: u64) -> bool {
        now_ms >= self.expire_ms
    }

    /// The lease holds under these epochs at this time. A mount epoch that is not told, on either
    /// side, is not held against it.
    pub open spec fn holds(self, metadata_epoch: u64, mount_epoch: Option<MountEpoch>, now_ms: u64) -> bool {
        &&& !self.expired(now_ms)
        &&& self.target_metadata_epoch == metadata_epoch
        &&& self.mount_epoch is Some && mount_epoch is Some ==> self.mount_epoch->0.raw == mount_epoch->0.raw
    }

    pub fn is_expired(&self, now_ms: u64) -> (expired: bool)
        ensures
            expired == self.expired(now_ms),
    {
        now_ms >= self.expire_ms
    }

    /// Whether the lease holds under these epochs at this time.
    pub fn is_valid(&self, metadata_epoch: u64, mount_epoch: Option<MountEpoch>, now_ms: u64) -> (valid: bool)
        ensures
            valid == self.holds(metadata_epoch, mount_epoch, now_ms),
    {
        if self.is_expired(now_ms) {
            return false;
        }
        if self.target_metadata_epoch != metadata_epoch {
            return false;
        }
        match (self.mount_epoch, mount_epoch) {
            (Some(held), Some(current)) => held.as_u64() == current.as_u64(),
            _ => true,
        }
    }
}

/// A lease that was given, with its token and the group it counts for.
#[derive(Clone, Copy, Debug, PartialEq, Eq, Structural)]
pub struct GivenLease {
    pub token: u64,
    pub shard_group_id: Option<ShardGroupId>,
    pub lease: FullReportLease,
}

/// Leases that were given and not given back.
#[derive(Debug)]
pub struct FullReportLeaseManager {
    leases: Vec<GivenLease>,
    next_token: u64,
    max_concurrent: usize,
    lease_ttl_ms: u64,
}

#[verifier::ext_equal]
pub ghost struct LeasesModel {
    pub leases: Seq<GivenLease>,
    pub next_token: u64,
    pub max_concurrent: usize,
    pub lease_ttl_ms: u64,
}

impl View for FullReportLeaseManager {
    type V = LeasesModel;

    closed spec fn view(&self) -> LeasesModel {
        LeasesModel {
            leases: self.leases@,
            next_token: self.next_token,
            max_concurrent: self.max_concurrent,
            lease_ttl_ms: self.lease_ttl_ms,
        }
    }
}

/// The leases that have not expired.
pub open spec fn unexpired(leases: Seq<GivenLease>, now_ms: u64) -> Seq<GivenLease>
    decreases leases.len(),
{
    if leases.len() == 0 {
        Seq::empty()
    } else if leases.last().lease.expired(now_ms) {
        unexpired(leases.drop_last(), now_ms)
    } else {
        unexpired(leases.drop_last(), now_ms).push(leases.last())
    }
}

/// How many leases count for the group.
pub open spec fn given_to(leases: Seq<GivenLease>, group: Option<ShardGroupId>) -> nat
    decreases leases.len(),
{
    if leases.len() == 0 {
        0
    } else {
        given_to(leases.drop_last(), group) + if leases.last().shard_group_id == group {
            1nat
        } else {
            0nat
        }
    }
}

/// Where the worker's lease stands from a place on, or -1.
pub open spec fn lease_of(leases: Seq<GivenLease>, worker_id: WorkerId, from: int) -> int
    decreases leases.len() - from,
{
    if from >= leases.len() {
        -1
    } else if leases[from].lease.worker_id == worker_id {
        from
    } else {
        lease_of(leases, worker_id, from + 1)
    }
}

/// Where the lease with the token stands from a place on, or -1.
pub open spec fn with_token(leases: Seq<GivenLease>, token: u64, from: int) -> int
    decreases leases.len() - from,
{
    if from >= leases.len() {
        -1
    } else if leases[from].token == token {
        from
    } else {
        with_token(leases, token, from + 1)
    }
}

pub open spec fn saturating_add(a: u64, b: u64) -> u64 {
    if a + b > u64::MAX {
        u64::MAX
    } else {
        (a + b) as u64
    }
}

impl LeasesModel {
    /// Tokens are given out in order and belong to one lease each; a worker has one lease.
    pub open spec fn wf(self) -> bool {
        &&& 0 < self.next_token
        &&& forall|i: int| 0 <= i < self.leases.len() ==> 0 < (#[trigger] self.leases[i]).token < self.next_token
        &&& forall|i: int, j: int|
            0 <= i < j < self.leases.len() ==> (#[trigger] self.leases[i]).token != (#[trigger] self.leases[j]).token
        &&& forall|i: int, j: int|
            0 <= i < j < self.leases.len() ==> (#[trigger] self.leases[i]).lease.worker_id != (
            #[trigger] self.leases[j]).lease.worker_id
    }

    /// The state once expired leases are dropped, and the worker's own where it no longer holds
    /// under these epochs.
    pub open spec fn tidied(
        self,
        worker_id: WorkerId,
        metadata_epoch: u64,
        mount_epoch: Option<MountEpoch>,
        now_ms: u64,
    ) -> LeasesModel {
        let left = unexpired(self.leases, now_ms);
        let at = lease_of(left, worker_id, 0);
        if at >= 0 && !left[at].lease.holds(metadata_epoch, mount_epoch, now_ms) {
            LeasesModel { leases: left.remove(at), ..self }
        } else {
            LeasesModel { leases: left, ..self }
        }
    }

    /// What asking for a lease gives: the token of the one that the worker has, a new one, or
    /// none where the group has as many as it may.
    pub open spec fn asked(
        self,
        worker_id: WorkerId,
        group: Option<ShardGroupId>,
        metadata_epoch: u64,
        mount_epoch: Option<MountEpoch>,
        now_ms: u64,
    ) -> Option<u64> {
        let tidy = self.tidied(worker_id, metadata_epoch, mount_epoch, now_ms);
        let at = lease_of(tidy.leases, worker_id, 0);
        if at >= 0 {
            Some(tidy.leases[at].token)
        } else if given_to(tidy.leases, group) >= self.max_concurrent || self.next_token == u64::MAX {
            None
        } else {
            Some(self.next_token)
        }
    }

    /// The state once a lease was asked for.
    pub open spec fn after_asking(
        self,
        worker_id: WorkerId,
        group: Option<ShardGroupId>,
        metadata_epoch: u64,
        mount_epoch: Option<MountEpoch>,
        now_ms: u64,
    ) -> LeasesModel {
        let tidy = self.tidied(worker_id, metadata_epoch, mount_epoch, now_ms);
        if lease_of(tidy.leases, worker_id, 0) >= 0 || self.asked(
            worker_id,
            group,
            metadata_epoch,
            mount_epoch,
            now_ms,
        ) is None {
            tidy
        } else {
            LeasesModel {
                leases: tidy.leases.push(
                    GivenLease {
                        token: self.next_token,
                        shard_group_id: group,
                        lease: FullReportLease {
                            worker_id,
                            target_metadata_epoch: metadata_epoch,
                            mount_epoch,
                            expire_ms: saturating_add(now_ms, self.lease_ttl_ms),
                        },
                    },
                ),
                next_token: (self.next_token + 1) as u64,
                ..tidy
            }
        }
    }

    /// Whether giving a lease back is accepted: it is the worker's own and holds.
    pub open spec fn released(
        self,
        token: u64,
        worker_id: WorkerId,
        metadata_epoch: u64,
        mount_epoch: Option<MountEpoch>,
        now_ms: u64,
    ) -> bool {
        let at = with_token(self.leases, token, 0);
        at >= 0 && self.leases[at].lease.worker_id == worker_id && self.leases[at].lease.holds(
            metadata_epoch,
            mount_epoch,
            now_ms,
        )
    }

    /// The state once a lease was given back. The worker's own is gone, whether it held or not;
    /// another's stays.
    pub open spec fn after_release(self, token: u64, worker_id: WorkerId) -> LeasesModel {
        let at = with_token(self.leases, token, 0);
        if at >= 0 && self.leases[at].lease.worker_id == worker_id {
            LeasesModel { leases: self.leases.remove(at), ..self }
        } else {
            self
        }
    }
}

proof fn lemma_lease_of(leases: Seq<GivenLease>, worker_id: WorkerId, from: int)
    requires
        0 <= from,
    ensures
        ({
            let at = lease_of(leases, worker_id, from);
            if at >= 0 {
                from <= at < leases.len() && leases[at].lease.worker_id == worker_id
            } else {
                at == -1 && forall|i: int|
                    from <= i < leases.len() ==> (#[trigger] leases[i]).lease.worker_id != worker_id
            }
        }),
    decreases leases.len() - from,
{
    if from < leases.len() && leases[from].lease.worker_id != worker_id {
        lemma_lease_of(leases, worker_id, from + 1);
    }
}

proof fn lemma_with_token(leases: Seq<GivenLease>, token: u64, from: int)
    requires
        0 <= from,
    ensures
        ({
            let at = with_token(leases, token, from);
            if at >= 0 {
                from <= at < leases.len() && leases[at].token == token
            } else {
                at == -1 && forall|i: int| from <= i < leases.len() ==> (#[trigger] leases[i]).token != token
            }
        }),
    decreases leases.len() - from,
{
    if from < leases.len() && leases[from].token != token {
        lemma_with_token(leases, token, from + 1);
    }
}

/// What is left after dropping expired leases was there before, in the same order.
proof fn lemma_unexpired(leases: Seq<GivenLease>, now_ms: u64)
    ensures
        forall|i: int|
            0 <= i < unexpired(leases, now_ms).len() ==> leases.contains(#[trigger] unexpired(leases, now_ms)[i])
                && !unexpired(leases, now_ms)[i].lease.expired(now_ms),
        (forall|i: int, j: int| 0 <= i < j < leases.len() ==> (#[trigger] leases[i]).token != (#[trigger] leases[j]).token)
            ==> (forall|i: int, j: int|
            0 <= i < j < unexpired(leases, now_ms).len() ==> (#[trigger] unexpired(leases, now_ms)[i]).token != (
            #[trigger] unexpired(leases, now_ms)[j]).token),
        (forall|i: int, j: int|
            0 <= i < j < leases.len() ==> (#[trigger] leases[i]).lease.worker_id != (
            #[trigger] leases[j]).lease.worker_id) ==> (forall|i: int, j: int|
            0 <= i < j < unexpired(leases, now_ms).len() ==> (#[trigger] unexpired(leases, now_ms)[i]).lease.worker_id
                != (#[trigger] unexpired(leases, now_ms)[j]).lease.worker_id),
    decreases leases.len(),
{
    if leases.len() > 0 {
        let rest = leases.drop_last();
        lemma_unexpired(rest, now_ms);
        let left = unexpired(rest, now_ms);
        assert forall|i: int| 0 <= i < left.len() implies leases.contains(#[trigger] left[i]) by {
            let j = choose|j: int| 0 <= j < rest.len() && rest[j] == left[i];
            assert(leases[j] == left[i]);
        }
        if !leases.last().lease.expired(now_ms) {
            assert(leases[leases.len() - 1] == leases.last());
            assert forall|i: int| 0 <= i < left.len() implies exists|j: int|
                0 <= j < leases.len() - 1 && leases[j] == #[trigger] left[i] by {
                let j = choose|j: int| 0 <= j < rest.len() && rest[j] == left[i];
                assert(leases[j] == left[i]);
            }
        }
    }
}

impl FullReportLeaseManager {
    pub open spec fn inv(&self) -> bool {
        self@.wf()
    }

    /// No leases. So many may be given for a group at a time, each for so long.
    pub fn new(max_concurrent: usize, lease_ttl_ms: u64) -> (manager: Self)
        ensures
            manager.inv(),
            manager@ == (LeasesModel { leases: Seq::empty(), next_token: 1, max_concurrent, lease_ttl_ms }),
    {
        let manager = FullReportLeaseManager { leases: Vec::new(), next_token: 1, max_concurrent, lease_ttl_ms };
        assert(manager@.leases =~= Seq::<GivenLease>::empty());
        manager
    }

    fn position_of_worker(&self, worker_id: WorkerId) -> (at: Option<usize>)
        ensures
            lease_of(self@.leases, worker_id, 0) == (match at {
                Some(i) => i as int,
                None => -1,
            }),
            at is Some ==> at->0 < self.leases@.len(),
    {
        let mut i: usize = 0;
        while i < self.leases.len()
            invariant
                i <= self.leases@.len(),
                lease_of(self@.leases, worker_id, 0) == lease_of(self@.leases, worker_id, i as int),
            decreases self.leases@.len() - i,
        {
            if self.leases[i].lease.worker_id == worker_id {
                return Some(i);
            }
            i += 1;
        }
        None
    }

    fn position_of_token(&self, token: u64) -> (at: Option<usize>)
        ensures
            with_token(self@.leases, token, 0) == (match at {
                Some(i) => i as int,
                None => -1,
            }),
            at is Some ==> at->0 < self.leases@.len(),
    {
        let mut i: usize = 0;
        while i < self.leases.len()
            invariant
                i <= self.leases@.len(),
                with_token(self@.leases, token, 0) == with_token(self@.leases, token, i as int),
            decreases self.leases@.len() - i,
        {
            if self.leases[i].token == token {
                return Some(i);
            }
            i += 1;
        }
        None
    }

    fn count_for(&self, group: Option<ShardGroupId>) -> (n: usize)
        ensures
            n == given_to(self@.leases, group),
    {
        let mut n: usize = 0;
        let mut i: usize = 0;
        assert(self.leases@.take(0) =~= Seq::<GivenLease>::empty());
        while i < self.leases.len()
            invariant
                i <= self.leases@.len(),
                n <= i,
                n == given_to(self.leases@.take(i as int), group),
            decreases self.leases@.len() - i,
        {
            assert(self.leases@.take(i + 1).drop_last() =~= self.leases@.take(i as int));
            if self.leases[i].shard_group_id == group {
                n += 1;
            }
            i += 1;
        }
        assert(self.leases@.take(i as int) =~= self.leases@);
        n
    }

    fn drop_expired(&mut self, now_ms: u64)
        requires
            old(self).inv(),
        ensures
            final(self).inv(),
            final(self)@ == (LeasesModel { leases: unexpired(old(self)@.leases, now_ms), ..old(self)@ }),
    {
        let mut left: Vec<GivenLease> = Vec::new();
        let mut i: usize = 0;
        assert(self.leases@.take(0) =~= Seq::<GivenLease>::empty());
        while i < self.leases.len()
            invariant
                i <= self.leases@.len(),
                *self == *old(self),
                left@ == unexpired(self.leases@.take(i as int), now_ms),
            decreases self.leases@.len() - i,
        {
            assert(self.leases@.take(i + 1).drop_last() =~= self.leases@.take(i as int));
            if !self.leases[i].lease.is_expired(now_ms) {
                left.push(self.leases[i]);
            }
            i += 1;
        }
        proof {
            assert(self.leases@.take(i as int) =~= self.leases@);
            lemma_unexpired(self.leases@, now_ms);
        }
        self.leases = left;
        proof {
            assert forall|k: int| 0 <= k < self@.leases.len() implies 0 < (#[trigger] self@.leases[k]).token
                < self@.next_token by {
                let j = choose|j: int| 0 <= j < old(self)@.leases.len() && old(self)@.leases[j] == self@.leases[k];
                assert(0 < old(self)@.leases[j].token < old(self)@.next_token);
            }
        }
    }

    /// Asks for a lease at this time. A worker that has one is told its token again.
    pub fn try_allocate_at(
        &mut self,
        worker_id: WorkerId,
        shard_group_id: Option<ShardGroupId>,
        metadata_epoch: u64,
        mount_epoch: Option<MountEpoch>,
        now_ms: u64,
    ) -> (token: Option<u64>)
        requires
            old(self).inv(),
        ensures
            final(self).inv(),
            token == old(self)@.asked(worker_id, shard_group_id, metadata_epoch, mount_epoch, now_ms),
            final(self)@ == old(self)@.after_asking(worker_id, shard_group_id, metadata_epoch, mount_epoch, now_ms),
    {
        let ghost before = self@;
        self.drop_expired(now_ms);
        let ghost left = self@.leases;
        proof {
            lemma_lease_of(left, worker_id, 0);
        }
        match self.position_of_worker(worker_id) {
            Some(at) => {
                if self.leases[at].lease.is_valid(metadata_epoch, mount_epoch, now_ms) {
                    assert(self@ =~= before.tidied(worker_id, metadata_epoch, mount_epoch, now_ms));
                    return Some(self.leases[at].token);
                }
                self.leases.remove(at);
                assert(self@.leases =~= left.remove(at as int));
                proof {
                    lemma_lease_of(self@.leases, worker_id, 0);
                }
            },
            None => {},
        }
        assert(self@ =~= before.tidied(worker_id, metadata_epoch, mount_epoch, now_ms));
        assert(lease_of(self@.leases, worker_id, 0) < 0);
        if self.count_for(shard_group_id) >= self.max_concurrent || self.next_token == u64::MAX {
            return None;
        }
        let token: u64 = self.next_token;
        let expire_ms: u64 = match now_ms.checked_add(self.lease_ttl_ms) {
            Some(t) => t,
            None => u64::MAX,
        };
        self.leases.push(
            GivenLease {
                token,
                shard_group_id,
                lease: FullReportLease { worker_id, target_metadata_epoch: metadata_epoch, mount_epoch, expire_ms },
            },
        );
        self.next_token = token + 1;
        proof {
            lemma_lease_of(before.tidied(worker_id, metadata_epoch, mount_epoch, now_ms).leases, worker_id, 0);
            assert(self@ =~= before.after_asking(worker_id, shard_group_id, metadata_epoch, mount_epoch, now_ms));
        }
        Some(token)
    }

    /// Asks for a lease. A worker that has one is told its token again.
    pub fn try_allocate(
        &mut self,
        worker_id: WorkerId,
        shard_group_id: Option<ShardGroupId>,
        metadata_epoch: u64,
        mount_epoch: Option<MountEpoch>,
    ) -> (token: Option<u64>)
        requires
            old(self).inv(),
        ensures
            final(self).inv(),
            exists|now_ms: u64|
                token == old(self)@.asked(worker_id, shard_group_id, metadata_epoch, mount_epoch, now_ms) && final(self)@
                    == #[trigger] old(self)@.after_asking(
                    worker_id,
                    shard_group_id,
                    metadata_epoch,
                    mount_epoch,
                    now_ms,
                ),
    {
        let now_ms: u64 = clock::unix_millis();
        self.try_allocate_at(worker_id, shard_group_id, metadata_epoch, mount_epoch, now_ms)
    }

    /// Gives a lease back at this time, and tells whether it held.
    pub fn verify_and_release_at(
        &mut self,
        token: u64,
        worker_id: WorkerId,
        metadata_epoch: u64,
        mount_epoch: Option<MountEpoch>,
        now_ms: u64,
    ) -> (released: bool)
        requires
            old(self).inv(),
        ensures
            final(self).inv(),
            released == old(self)@.released(token, worker_id, metadata_epoch, mount_epoch, now_ms),
            final(self)@ == old(self)@.after_release(token, worker_id),
    {
        let ghost before = self@;
        proof {
            lemma_with_token(before.leases, token, 0);
        }
        match self.position_of_token(token) {
            None => false,
            Some(at) => {
                let lease = self.leases[at].lease;
                if lease.worker_id != worker_id {
                    return false;
                }
                let valid = lease.is_valid(metadata_epoch, mount_epoch, now_ms);
                self.leases.remove(at);
                assert(self@ =~= before.after_release(token, worker_id));
                valid
            },
        }
    }

    /// Gives a lease back, and tells whether it held.
    pub fn verify_and_release(
        &mut self,
        token: u64,
        worker_id: WorkerId,
        metadata_epoch: u64,
        mount_epoch: Option<MountEpoch>,
    ) -> (released: bool)
        requires
            old(self).inv(),
        ensures
            final(self).inv(),
            exists|now_ms: u64|
                released == #[trigger] old(self)@.released(token, worker_id, metadata_epoch, mount_epoch, now_ms),
            final(self)@ == old(self)@.after_release(token, worker_id),
    {
        let now_ms: u64 = clock::unix_millis();
        self.verify_and_release_at(token, worker_id, metadata_epoch, mount_epoch, now_ms)
    }

    /// Drops all leases, as a new leader does.
    pub fn invalidate_all(&mut self)
        requires
            old(self).inv(),
        ensures
            final(self).inv(),
            final(self)@ == (LeasesModel { leases: Seq::empty(), ..old(self)@ }),
    {
        self.leases = Vec::new();
        assert(self@.leases =~= Seq::<GivenLease>::empty());
    }

    /// How many leases were given and not given back.
    pub fn active_lease_count(&self) -> (n: usize)
        ensures
            n == self@.leases.len(),
    {
        self.leases.len()
    }
}

/// A group never has more leases than it may, however often it is asked.
pub proof fn law_groups_stay_within_their_limit(
    leases: LeasesModel,
    worker_id: WorkerId,
    group: Option<ShardGroupId>,
    metadata_epoch: u64,
    mount_epoch: Option<MountEpoch>,
    now_ms: u64,
    other: Option<ShardGroupId>,
)
    requires
        leases.wf(),
        given_to(leases.leases, other) <= leases.max_concurrent,
    ensures
        given_to(
            leases.after_asking(worker_id, group, metadata_epoch, mount_epoch, now_ms).leases,
            other,
        ) <= leases.max_concurrent,
{
    let left = unexpired(leases.leases, now_ms);
    lemma_unexpired_fewer(leases.leases, now_ms, other);
    let at = lease_of(left, worker_id, 0);
    lemma_lease_of(left, worker_id, 0);
    if at >= 0 {
        lemma_remove_fewer(left, at, other);
    }
    let tidy = leases.tidied(worker_id, metadata_epoch, mount_epoch, now_ms);
    let after = leases.after_asking(worker_id, group, metadata_epoch, mount_epoch, now_ms);
    if after.leases != tidy.leases {
        assert(after.leases.drop_last() =~= tidy.leases);
    }
}

proof fn lemma_unexpired_fewer(leases: Seq<GivenLease>, now_ms: u64, group: Option<ShardGroupId>)
    ensures
        given_to(unexpired(leases, now_ms), group) <= given_to(leases, group),
    decreases leases.len(),
{
    if leases.len() > 0 {
        lemma_unexpired_fewer(leases.drop_last(), now_ms, group);
        let rest = unexpired(leases.drop_last(), now_ms);
        assert(rest.push(leases.last()).drop_last() =~= rest);
    }
}

proof fn lemma_remove_fewer(leases: Seq<GivenLease>, at: int, group: Option<ShardGroupId>)
    requires
        0 <= at < leases.len(),
    ensures
        given_to(leases.remove(at), group) <= given_to(leases, group),
    decreases leases.len(),
{
    if at == leases.len() - 1 {
        assert(leases.remove(at) =~= leases.drop_last());
    } else {
        lemma_remove_fewer(leases.drop_last(), at, group);
        assert(leases.remove(at).drop_last() =~= leases.drop_last().remove(at));
        assert(leases.remove(at).last() == leases.last());
    }
}

/// Asking again under the same epochs, while the lease holds, gives the same token and changes
/// nothing.
pub proof fn law_asking_again_gives_the_same_lease(
    leases: LeasesModel,
    worker_id: WorkerId,
    group: Option<ShardGroupId>,
    metadata_epoch: u64,
    mount_epoch: Option<MountEpoch>,
    now_ms: u64,
)
    requires
        leases.wf(),
        leases.lease_ttl_ms > 0,
        now_ms < u64::MAX,
        leases.asked(worker_id, group, metadata_epoch, mount_epoch, now_ms) is Some,
    ensures
        ({
            let after = leases.after_asking(worker_id, group, metadata_epoch, mount_epoch, now_ms);
            &&& after.asked(worker_id, group, metadata_epoch, mount_epoch, now_ms) == leases.asked(
                worker_id,
                group,
                metadata_epoch,
                mount_epoch,
                now_ms,
            )
            &&& after.after_asking(worker_id, group, metadata_epoch, mount_epoch, now_ms) == after
        }),
{
    let left = unexpired(leases.leases, now_ms);
    let tidy = leases.tidied(worker_id, metadata_epoch, mount_epoch, now_ms);
    let after = leases.after_asking(worker_id, group, metadata_epoch, mount_epoch, now_ms);
    lemma_unexpired(leases.leases, now_ms);
    lemma_lease_of(left, worker_id, 0);
    lemma_lease_of(tidy.leases, worker_id, 0);
    lemma_lease_of(after.leases, worker_id, 0);
    assert forall|i: int| 0 <= i < after.leases.len() implies !(#[trigger] after.leases[i]).lease.expired(now_ms) by {
        let at = lease_of(left, worker_id, 0);
        if i < tidy.leases.len() {
            assert(after.leases[i] == tidy.leases[i]);
            if at >= 0 && tidy.leases != left {
                assert(tidy.leases[i] == left[if i < at {
                    i
                } else {
                    i + 1
                }]);
            }
        }
    }
    lemma_all_unexpired(after.leases, now_ms);
    let at = lease_of(after.leases, worker_id, 0);
    if lease_of(tidy.leases, worker_id, 0) < 0 {
        assert(after.leases.last().lease.worker_id == worker_id);
        assert(at == after.leases.len() - 1) by {
            if at < tidy.leases.len() {
                assert(tidy.leases[at].lease.worker_id == worker_id);
            }
        }
    }
    assert(after.leases[at].lease.holds(metadata_epoch, mount_epoch, now_ms));
    assert(after.tidied(worker_id, metadata_epoch, mount_epoch, now_ms) =~= after);
}

proof fn lemma_all_unexpired(leases: Seq<GivenLease>, now_ms: u64)
    requires
        forall|i: int| 0 <= i < leases.len() ==> !(#[trigger] leases[i]).lease.expired(now_ms),
    ensures
        unexpired(leases, now_ms) == leases,
    decreases leases.len(),
{
    if leases.len() > 0 {
        lemma_all_unexpired(leases.drop_last(), now_ms);
        assert(leases.drop_last().push(leases.last()) =~= leases);
    }
}

/// A lease can be given back once: after that, or after all leases were dropped, its token is
/// worth nothing.
pub proof fn law_leases_are_given_back_once(
    leases: LeasesModel,
    token: u64,
    worker_id: WorkerId,
    metadata_epoch: u64,
    mount_epoch: Option<MountEpoch>,
    now_ms: u64,
)
    requires
        leases.wf(),
    ensures
        !leases.after_release(token, worker_id).released(token, worker_id, metadata_epoch, mount_epoch, now_ms),
        !(LeasesModel { leases: Seq::empty(), ..leases }).released(
            token,
            worker_id,
            metadata_epoch,
            mount_epoch,
            now_ms,
        ),
{
    lemma_with_token(leases.leases, token, 0);
    lemma_with_token(leases.after_release(token, worker_id).leases, token, 0);
}

/// The lease is not over, was given under this epoch, and under this mount epoch where both are
/// known.
pub open spec fn is_good(lease: FullReportLease, metadata_epoch: u64, mount_epoch: Option<MountEpoch>, now_ms: u64) -> bool {
    &&& now_ms < lease.expire_ms
    &&& lease.target_metadata_epoch == metadata_epoch
    &&& lease.mount_epoch is None || mount_epoch is None || lease.mount_epoch == mount_epoch
}

/// A lease holds until it expires, under the epochs that it was given under.
pub proof fn law_leases_hold_under_their_epochs(
    lease: FullReportLease,
    metadata_epoch: u64,
    mount_epoch: Option<MountEpoch>,
    now_ms: u64,
)
    ensures
        lease.expired(now_ms) <==> lease.expire_ms <= now_ms,
        lease.holds(metadata_epoch, mount_epoch, now_ms) <==> is_good(lease, metadata_epoch, mount_epoch, now_ms),
{
}

proof fn lemma_unexpired_each(leases: Seq<GivenLease>, now_ms: u64)
    ensures
        forall|l: GivenLease| #[trigger]
            unexpired(leases, now_ms).contains(l) <==> leases.contains(l) && now_ms < l.lease.expire_ms,
    decreases leases.len(),
{
    let left = unexpired(leases, now_ms);
    if leases.len() > 0 {
        let rest = leases.drop_last();
        let before = unexpired(rest, now_ms);
        lemma_unexpired_each(rest, now_ms);
        assert forall|l: GivenLease| #[trigger] left.contains(l) <==> leases.contains(l) && now_ms
            < l.lease.expire_ms by {
            assert(before.contains(l) <==> rest.contains(l) && now_ms < l.lease.expire_ms);
            if rest.contains(l) {
                let i = choose|i: int| 0 <= i < rest.len() && rest[i] == l;
                assert(leases[i] == l);
            }
            if leases.contains(l) && l != leases.last() {
                let i = choose|i: int| 0 <= i < leases.len() && leases[i] == l;
                assert(rest[i] == l);
            }
            if before.contains(l) {
                let i = choose|i: int| 0 <= i < before.len() && before[i] == l;
                assert(left[i] == l);
            }
            if left.contains(l) && l != leases.last() {
                let i = choose|i: int| 0 <= i < left.len() && left[i] == l;
                assert(before[i] == l);
            }
            if l == leases.last() {
                assert(leases[leases.len() - 1] == l);
                if now_ms < l.lease.expire_ms {
                    assert(left[left.len() - 1] == l);
                } else if left.contains(l) {
                    let i = choose|i: int| 0 <= i < left.len() && left[i] == l;
                    assert(before[i] == l);
                }
            }
        }
    }
}

proof fn lemma_given_to(leases: Seq<GivenLease>, group: Option<ShardGroupId>)
    ensures
        given_to(leases, group) == leases.filter(|l: GivenLease| l.shard_group_id == group).len(),
    decreases leases.len(),
{
    reveal(Seq::filter);
    if leases.len() > 0 {
        lemma_given_to(leases.drop_last(), group);
    }
}

/// A worker whose lease is good is told its token, and nothing is given. Any other is given a
/// lease under its group and the epochs of now, for as long as was set, under a token that was
/// never given, unless its group has as many as it may or no token is left. What is over is
/// dropped, and so is a lease of the worker that is no longer good; every other lease stays.
pub proof fn law_leases_are_given_while_there_is_room(
    held: LeasesModel,
    worker_id: WorkerId,
    group: Option<ShardGroupId>,
    metadata_epoch: u64,
    mount_epoch: Option<MountEpoch>,
    now_ms: u64,
)
    requires
        held.wf(),
    ensures
        ({
            let got = held.asked(worker_id, group, metadata_epoch, mount_epoch, now_ms);
            let after = held.after_asking(worker_id, group, metadata_epoch, mount_epoch, now_ms);
            let own = exists|i: int|
                0 <= i < held.leases.len() && (#[trigger] held.leases[i]).lease.worker_id == worker_id && is_good(
                    held.leases[i].lease,
                    metadata_epoch,
                    mount_epoch,
                    now_ms,
                );
            let count = after.leases.filter(|l: GivenLease| l.shard_group_id == group).len();
            &&& after.max_concurrent == held.max_concurrent && after.lease_ttl_ms == held.lease_ttl_ms
            &&& forall|i: int|
                0 <= i < held.leases.len() && (#[trigger] held.leases[i]).lease.worker_id == worker_id && is_good(
                    held.leases[i].lease,
                    metadata_epoch,
                    mount_epoch,
                    now_ms,
                ) ==> got == Some(held.leases[i].token)
            &&& forall|l: GivenLease|
                l.token != held.next_token ==> (#[trigger] after.leases.contains(l) <==> held.leases.contains(l)
                    && now_ms < l.lease.expire_ms && (l.lease.worker_id == worker_id ==> is_good(
                    l.lease,
                    metadata_epoch,
                    mount_epoch,
                    now_ms,
                )))
            &&& !own && got is None ==> count >= held.max_concurrent || held.next_token == u64::MAX
            &&& !own && got is Some ==> {
                let new = after.leases.last();
                &&& got == Some(held.next_token)
                &&& count <= held.max_concurrent
                &&& after.leases.len() > 0
                &&& after.next_token == held.next_token + 1
                &&& new.token == held.next_token
                &&& new.shard_group_id == group
                &&& new.lease.worker_id == worker_id
                &&& new.lease.target_metadata_epoch == metadata_epoch
                &&& new.lease.mount_epoch == mount_epoch
                &&& now_ms + held.lease_ttl_ms <= u64::MAX ==> new.lease.expire_ms == now_ms + held.lease_ttl_ms
                &&& now_ms + held.lease_ttl_ms > u64::MAX ==> new.lease.expire_ms == u64::MAX
            }
            &&& own || got is None ==> after.next_token == held.next_token
        }),
{
    let tidy = held.tidied(worker_id, metadata_epoch, mount_epoch, now_ms);
    let after = held.after_asking(worker_id, group, metadata_epoch, mount_epoch, now_ms);
    let left = unexpired(held.leases, now_ms);
    lemma_unexpired(held.leases, now_ms);
    lemma_unexpired_each(held.leases, now_ms);
    lemma_lease_of(left, worker_id, 0);
    lemma_lease_of(tidy.leases, worker_id, 0);
    let at = lease_of(left, worker_id, 0);
    assert forall|l: GivenLease| #[trigger] tidy.leases.contains(l) <==> held.leases.contains(l) && now_ms
        < l.lease.expire_ms && (l.lease.worker_id == worker_id ==> is_good(
        l.lease,
        metadata_epoch,
        mount_epoch,
        now_ms,
    )) by {
        assert(left.contains(l) <==> held.leases.contains(l) && now_ms < l.lease.expire_ms);
        if left.contains(l) {
            let i = choose|i: int| 0 <= i < left.len() && left[i] == l;
            if l.lease.worker_id == worker_id {
                assert(i == at) by {
                    if i < at {
                        assert(left[i].lease.worker_id != left[at].lease.worker_id);
                    }
                    if at < i {
                        assert(left[at].lease.worker_id != left[i].lease.worker_id);
                    }
                }
                if tidy.leases != left && tidy.leases.contains(l) {
                    let j = choose|j: int| 0 <= j < tidy.leases.len() && tidy.leases[j] == l;
                    let k = if j < at {
                        j
                    } else {
                        j + 1
                    };
                    assert(left[k] == l);
                    if k < at {
                        assert(left[k].lease.worker_id != left[at].lease.worker_id);
                    } else {
                        assert(left[at].lease.worker_id != left[k].lease.worker_id);
                    }
                }
            } else if tidy.leases != left {
                if i < at {
                    assert(tidy.leases[i] == l);
                } else {
                    assert(tidy.leases[i - 1] == l);
                }
            }
        }
        if tidy.leases.contains(l) && tidy.leases != left {
            let j = choose|j: int| 0 <= j < tidy.leases.len() && tidy.leases[j] == l;
            if j < at {
                assert(left[j] == l);
            } else {
                assert(left[j + 1] == l);
            }
        }
    }
    assert forall|i: int|
        0 <= i < held.leases.len() && (#[trigger] held.leases[i]).lease.worker_id == worker_id && is_good(
            held.leases[i].lease,
            metadata_epoch,
            mount_epoch,
            now_ms,
        ) implies held.asked(worker_id, group, metadata_epoch, mount_epoch, now_ms) == Some(held.leases[i].token) by {
        assert(held.leases.contains(held.leases[i]));
        assert(tidy.leases.contains(held.leases[i]));
        let j = choose|j: int| 0 <= j < tidy.leases.len() && tidy.leases[j] == held.leases[i];
        let found = lease_of(tidy.leases, worker_id, 0);
        assert(tidy.leases.contains(tidy.leases[found]));
        let k = choose|k: int| 0 <= k < held.leases.len() && held.leases[k] == tidy.leases[found];
        if k < i {
            assert(held.leases[k].lease.worker_id != held.leases[i].lease.worker_id);
        }
        if i < k {
            assert(held.leases[i].lease.worker_id != held.leases[k].lease.worker_id);
        }
    }
    let found = lease_of(tidy.leases, worker_id, 0);
    if found >= 0 {
        assert(tidy.leases.contains(tidy.leases[found]));
        let k = choose|k: int| 0 <= k < held.leases.len() && held.leases[k] == tidy.leases[found];
        assert(held.leases[k].lease.worker_id == worker_id);
    }
    lemma_given_to(tidy.leases, group);
    lemma_given_to(after.leases, group);
    if after.leases != tidy.leases {
        assert(after.leases.drop_last() =~= tidy.leases);
        assert forall|l: GivenLease| l.token != held.next_token implies (#[trigger] after.leases.contains(l)
            <==> tidy.leases.contains(l)) by {
            if tidy.leases.contains(l) {
                let i = choose|i: int| 0 <= i < tidy.leases.len() && tidy.leases[i] == l;
                assert(after.leases[i] == l);
            }
            if after.leases.contains(l) {
                let i = choose|i: int| 0 <= i < after.leases.len() && after.leases[i] == l;
                assert(tidy.leases[i] == l);
            }
        }
    }
}

/// A lease is given back by the worker that has it: accepted while it is good, and gone in either
/// case. Another worker's lease, and every other lease, stays.
pub proof fn law_own_leases_are_given_back(
    held: LeasesModel,
    i: int,
    worker_id: WorkerId,
    metadata_epoch: u64,
    mount_epoch: Option<MountEpoch>,
    now_ms: u64,
)
    requires
        held.wf(),
        0 <= i < held.leases.len(),
    ensures
        ({
            let lease = held.leases[i];
            let after = held.after_release(lease.token, worker_id);
            &&& held.released(lease.token, worker_id, metadata_epoch, mount_epoch, now_ms) <==> lease.lease.worker_id
                == worker_id && is_good(lease.lease, metadata_epoch, mount_epoch, now_ms)
            &&& lease.lease.worker_id == worker_id ==> after.leases == held.leases.remove(i)
            &&& lease.lease.worker_id != worker_id ==> after.leases == held.leases
            &&& after.next_token == held.next_token && after.max_concurrent == held.max_concurrent
                && after.lease_ttl_ms == held.lease_ttl_ms
        }),
{
    let token = held.leases[i].token;
    lemma_with_token(held.leases, token, 0);
    let at = with_token(held.leases, token, 0);
    if at < i {
        assert(held.leases[at].token != held.leases[i].token);
    }
    if i < at {
        assert(held.leases[i].token != held.leases[at].token);
    }
}

/// A token that no lease has gives nothing back.
pub proof fn law_unknown_tokens_give_nothing_back(
    held: LeasesModel,
    token: u64,
    worker_id: WorkerId,
    metadata_epoch: u64,
    mount_epoch: Option<MountEpoch>,
    now_ms: u64,
)
    requires
        forall|i: int| 0 <= i < held.leases.len() ==> (#[trigger] held.leases[i]).token != token,
    ensures
        !held.released(token, worker_id, metadata_epoch, mount_epoch, now_ms),
        held.after_release(token, worker_id) == held,
{
    lemma_with_token(held.leases, token, 0);
}

} // verus!
