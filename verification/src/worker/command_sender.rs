//! Pushing commands to workers. Workers fetch their commands with their heartbeats, so nothing is
//! pushed; what is left is where workers are reached and how often a push would be tried.

use crate::error::MetadataResult;
use crate::ids::WorkerId;
use crate::table::{Table, TableKey};
use crate::worker::command_router::WorkerCommand;
use vstd::arithmetic::power2::pow2;
use vstd::prelude::*;

verus! {

impl View for WorkerId {
    type V = WorkerId;

    open spec fn view(&self) -> WorkerId {
        *self
    }
}

impl TableKey for WorkerId {
    fn same_key(&self, other: &Self) -> (same: bool) {
        *self == *other
    }

    fn copy_key(&self) -> (key: Self) {
        *self
    }
}

/// What comes after an attempt.
#[derive(Clone, Copy, Debug, PartialEq, Eq, Structural)]
pub enum RetryStep {
    Done,
    /// Wait so long, then try again.
    WaitMs(u64),
    GiveUp,
}

/// Where workers are reached, and how often a push is tried.
pub struct CommandSender {
    worker_addresses: Table<WorkerId, String>,
    max_retries: u32,
    retry_backoff_ms: u64,
}

pub ghost struct SenderModel {
    pub addresses: Map<WorkerId, String>,
    pub max_retries: u32,
    pub retry_backoff_ms: u64,
}

impl View for CommandSender {
    type V = SenderModel;

    closed spec fn view(&self) -> SenderModel {
        SenderModel {
            addresses: self.worker_addresses@,
            max_retries: self.max_retries,
            retry_backoff_ms: self.retry_backoff_ms,
        }
    }
}

/// What comes after an attempt, counted from 0. The wait doubles with each attempt.
pub open spec fn step_after(sender: SenderModel, attempt: u32, sent: bool) -> RetryStep {
    if sent {
        RetryStep::Done
    } else if attempt < sender.max_retries {
        RetryStep::WaitMs((sender.retry_backoff_ms * pow2(attempt as nat)) as u64)
    } else {
        RetryStep::GiveUp
    }
}

fn two_to(n: u32) -> (power: u64)
    requires
        n < 64,
    ensures
        power == pow2(n as nat),
{
    let mut power: u64 = 1;
    let mut i: u32 = 0;
    proof {
        vstd::arithmetic::power2::lemma2_to64();
    }
    while i < n
        invariant
            i <= n < 64,
            power == pow2(i as nat),
        decreases n - i,
    {
        proof {
            vstd::arithmetic::power2::lemma_pow2_unfold((i + 1) as nat);
            vstd::arithmetic::power2::lemma2_to64();
            vstd::arithmetic::power2::lemma_pow2_strictly_increases((i + 1) as nat, 64);
        }
        power = power * 2;
        i += 1;
    }
    power
}

impl CommandSender {
    pub fn new(max_retries: u32, retry_backoff_ms: u64) -> (sender: Self)
        ensures
            sender@ == (SenderModel { addresses: Map::empty(), max_retries, retry_backoff_ms }),
    {
        CommandSender { worker_addresses: Table::new(), max_retries, retry_backoff_ms }
    }

    pub fn update_worker_address(&mut self, worker_id: WorkerId, address: String)
        ensures
            final(self)@ == (SenderModel { addresses: old(self)@.addresses.insert(worker_id, address), ..old(self)@ }),
    {
        self.worker_addresses.insert(worker_id, address);
    }

    pub fn remove_worker_address(&mut self, worker_id: WorkerId)
        ensures
            final(self)@ == (SenderModel { addresses: old(self)@.addresses.remove(worker_id), ..old(self)@ }),
    {
        self.worker_addresses.remove(&worker_id);
    }

    /// Where a worker is reached.
    pub fn worker_address(&self, worker_id: WorkerId) -> (address: Option<String>)
        ensures
            address == self@.addresses.get(worker_id),
    {
        match self.worker_addresses.get(&worker_id) {
            Some(address) => Some(address.clone()),
            None => None,
        }
    }

    /// Pushes nothing: the worker fetches its commands with its heartbeats. So it always succeeds.
    pub fn send_command(&self, worker_id: WorkerId, command: &WorkerCommand) -> (result: MetadataResult<()>)
        ensures
            result is Ok,
    {
        Ok(())
    }

    /// What comes after an attempt, counted from 0.
    pub fn after_attempt(&self, attempt: u32, sent: bool) -> (step: RetryStep)
        requires
            !sent && attempt < self@.max_retries ==> attempt < 64 && self@.retry_backoff_ms * pow2(attempt as nat)
                <= u64::MAX,
        ensures
            step == step_after(self@, attempt, sent),
    {
        if sent {
            RetryStep::Done
        } else if attempt < self.max_retries {
            RetryStep::WaitMs(self.retry_backoff_ms * two_to(attempt))
        } else {
            RetryStep::GiveUp
        }
    }

    /// Pushes nothing, as often as needed: the first attempt succeeds.
    pub fn send_command_with_retry(&self, worker_id: WorkerId, command: &WorkerCommand) -> (result: MetadataResult<()>)
        ensures
            result is Ok,
    {
        self.send_command(worker_id, command)
    }
}

/// A push is tried once and then at most as often again as was set: only attempts before that end
/// in a wait.
pub proof fn law_retries_are_bounded(sender: SenderModel, attempt: u32, sent: bool)
    ensures
        step_after(sender, attempt, sent) is WaitMs ==> attempt < sender.max_retries,
        step_after(sender, sender.max_retries, false) == RetryStep::GiveUp,
        sent ==> step_after(sender, attempt, sent) == RetryStep::Done,
{
}

/// A push that was not sent is tried again after a wait that starts with the one that was set and
/// doubles with each attempt, until it was tried once and as often again as was set.
pub proof fn law_waits_double(sender: SenderModel, attempt: u32)
    requires
        attempt < sender.max_retries,
        sender.retry_backoff_ms * pow2(attempt as nat) <= u64::MAX,
    ensures
        step_after(sender, 0, false) == RetryStep::WaitMs(sender.retry_backoff_ms),
        step_after(sender, attempt, false) matches RetryStep::WaitMs(wait) && wait == sender.retry_backoff_ms * pow2(
            attempt as nat,
        ) && (attempt + 1 < sender.max_retries && 2 * wait <= u64::MAX ==> step_after(
            sender,
            (attempt + 1) as u32,
            false,
        ) == RetryStep::WaitMs((2 * wait) as u64)),
{
    vstd::arithmetic::power2::lemma2_to64();
    vstd::arithmetic::power2::lemma_pow2_unfold((attempt + 1) as nat);
    let p = pow2(attempt as nat) as int;
    let b = sender.retry_backoff_ms as int;
    assert(pow2((attempt + 1) as nat) == 2 * p);
    assert(b * (2 * p) == 2 * (b * p)) by (nonlinear_arith);
    assert(b * 1 == b);
}

} // verus!
