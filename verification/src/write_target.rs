//! Where a writer puts its next block.

use crate::ids::{BlockId, ClientId};
use crate::placement::BlockFormatId;
use vstd::prelude::*;

verus! {

/// How a file is written.
#[derive(Clone, Copy, Debug, PartialEq, Eq, Structural)]
pub enum WriteMode {
    Write,
    Append,
}

/// What a worker checks before it takes a write.
#[derive(Clone, Copy, Debug, PartialEq, Eq, Structural)]
pub struct FencingToken {
    pub block_id: BlockId,
    pub owner: ClientId,
    pub epoch: u64,
}

/// A block to write, its place in the file, and its shape.
#[derive(Clone, Copy, Debug, PartialEq, Eq, Structural)]
pub struct WriteTarget {
    pub block_id: BlockId,
    pub file_offset: u64,
    pub effective_len: u64,
    pub block_format_id: BlockFormatId,
    pub block_size: u64,
    pub chunk_size: u64,
}

/// Where the next block starts: behind the last one that was issued, or at the size that the file
/// had when it was opened.
pub open spec fn next_offset(issued: Seq<WriteTarget>, base_size: u64) -> u64 {
    if issued.len() > 0 && issued.last().file_offset + issued.last().effective_len <= u64::MAX {
        (issued.last().file_offset + issued.last().effective_len) as u64
    } else {
        base_size
    }
}

/// The length of the next block: no more than it can hold, no more than is wanted, at least 1
/// where a length is wanted.
pub open spec fn clipped(len: u64, desired_len: Option<u64>) -> u64 {
    match desired_len {
        None => len,
        Some(desired) => if desired == 0 || len == 0 {
            1
        } else if desired < len {
            desired
        } else {
            len
        },
    }
}

/// The next block that can be issued, if one is left.
pub open spec fn next_target(
    targets: Seq<WriteTarget>,
    issued: Seq<WriteTarget>,
    next: nat,
    base_size: u64,
    desired_len: Option<u64>,
) -> Option<WriteTarget> {
    if next < targets.len() {
        Some(
            WriteTarget {
                file_offset: next_offset(issued, base_size),
                effective_len: clipped(targets[next as int].effective_len, desired_len),
                ..targets[next as int]
            },
        )
    } else {
        None
    }
}

/// The blocks stand one behind the other in the file, from its size when it was opened, as far as
/// offsets reach.
pub open spec fn contiguous(issued: Seq<WriteTarget>, base_size: u64) -> bool {
    forall|i: int| 0 <= i < issued.len() ==> (#[trigger] issued[i]).file_offset == next_offset(issued.take(i), base_size)
}

/// The next block that can be issued.
pub fn prepare_target(
    targets: &Vec<WriteTarget>,
    issued: &Vec<WriteTarget>,
    next: usize,
    base_size: u64,
    desired_len: Option<u64>,
) -> (target: Option<WriteTarget>)
    ensures
        target == next_target(targets@, issued@, next as nat, base_size, desired_len),
{
    if next >= targets.len() {
        return None;
    }
    let planned = targets[next];
    let file_offset: u64 = if issued.len() > 0 {
        let last = issued[issued.len() - 1];
        match last.file_offset.checked_add(last.effective_len) {
            Some(offset) => offset,
            None => base_size,
        }
    } else {
        base_size
    };
    let effective_len: u64 = match desired_len {
        None => planned.effective_len,
        Some(desired) => {
            let len: u64 = if desired < planned.effective_len {
                desired
            } else {
                planned.effective_len
            };
            if len < 1 {
                1
            } else {
                len
            }
        },
    };
    Some(
        WriteTarget {
            block_id: planned.block_id,
            file_offset,
            effective_len,
            block_format_id: planned.block_format_id,
            block_size: planned.block_size,
            chunk_size: planned.chunk_size,
        },
    )
}

/// A copy of a list of targets.
pub fn copy_targets(targets: &Vec<WriteTarget>) -> (copy: Vec<WriteTarget>)
    ensures
        copy@ == targets@,
{
    let mut copy: Vec<WriteTarget> = Vec::new();
    let mut i: usize = 0;
    while i < targets.len()
        invariant
            i <= targets@.len(),
            copy@ == targets@.take(i as int),
        decreases targets@.len() - i,
    {
        copy.push(targets[i]);
        i += 1;
        assert(targets@.take(i as int) =~= targets@.take(i - 1).push(targets@[i - 1]));
    }
    assert(targets@.take(i as int) =~= targets@);
    copy
}

/// Issuing the next block keeps the blocks one behind the other, and never makes a block longer
/// than it was planned, but for a block of length 0 that is asked for.
pub proof fn law_blocks_are_issued_in_line(
    targets: Seq<WriteTarget>,
    issued: Seq<WriteTarget>,
    next: nat,
    base_size: u64,
    desired_len: Option<u64>,
)
    requires
        contiguous(issued, base_size),
        next_target(targets, issued, next, base_size, desired_len) is Some,
    ensures
        contiguous(issued.push(next_target(targets, issued, next, base_size, desired_len)->0), base_size),
        targets[next as int].effective_len > 0 ==> 0 < next_target(
            targets,
            issued,
            next,
            base_size,
            desired_len,
        )->0.effective_len <= targets[next as int].effective_len,
{
    let more = issued.push(next_target(targets, issued, next, base_size, desired_len)->0);
    assert forall|i: int| 0 <= i < more.len() implies (#[trigger] more[i]).file_offset == next_offset(
        more.take(i),
        base_size,
    ) by {
        if i < issued.len() {
            assert(more.take(i) =~= issued.take(i));
        } else {
            assert(more.take(i) =~= issued);
        }
    }
}

/// A block is issued as long as one is planned. It starts where the file ended when it was opened,
/// if it is the first, and where the last one ends otherwise, while that is an offset; it is the
/// planned block, with the planned shape; and it is as long as planned, or as long as asked for
/// where that is less, but not empty where a length is asked for.
pub proof fn law_blocks_follow_each_other(
    targets: Seq<WriteTarget>,
    issued: Seq<WriteTarget>,
    next: nat,
    base_size: u64,
    desired_len: Option<u64>,
)
    ensures
        next_target(targets, issued, next, base_size, desired_len) is Some <==> next < targets.len(),
        next < targets.len() ==> ({
            let planned = targets[next as int];
            let target = next_target(targets, issued, next, base_size, desired_len)->0;
            let end = issued[issued.len() - 1].file_offset + issued[issued.len() - 1].effective_len;
            &&& issued.len() == 0 ==> target.file_offset == base_size
            &&& issued.len() > 0 && end <= u64::MAX ==> target.file_offset == end
            &&& issued.len() > 0 && end > u64::MAX ==> target.file_offset == base_size
            &&& target.block_id == planned.block_id
            &&& target.block_format_id == planned.block_format_id
            &&& target.block_size == planned.block_size
            &&& target.chunk_size == planned.chunk_size
            &&& desired_len is None ==> target.effective_len == planned.effective_len
            &&& desired_len is Some ==> target.effective_len >= 1
            &&& desired_len is Some && target.effective_len > 1 ==> target.effective_len <= desired_len->0
                && target.effective_len <= planned.effective_len
            &&& desired_len is Some && desired_len->0 > 0 && planned.effective_len > 0 ==> target.effective_len
                == desired_len->0 || target.effective_len == planned.effective_len
        }),
{
}

/// Blocks that were issued one after the other, with whatever lengths were asked for, lie one
/// behind the other in the file: the first starts at the size that the file had when it was
/// opened, and each later one where the one before it ends, while that is an offset.
pub proof fn law_issued_blocks_leave_no_gap(
    targets: Seq<WriteTarget>,
    issued: Seq<WriteTarget>,
    base_size: u64,
    desired: Seq<Option<u64>>,
)
    requires
        desired.len() == issued.len(),
        forall|i: int|
            0 <= i < issued.len() ==> Some(#[trigger] issued[i]) == next_target(
                targets,
                issued.take(i),
                i as nat,
                base_size,
                desired[i],
            ),
    ensures
        issued.len() > 0 ==> issued[0].file_offset == base_size,
        forall|i: int|
            0 < i < issued.len() && issued[i - 1].file_offset + issued[i - 1].effective_len <= u64::MAX ==> (
            #[trigger] issued[i]).file_offset == issued[i - 1].file_offset + issued[i - 1].effective_len,
        forall|i: int| 0 <= i < issued.len() ==> (#[trigger] issued[i]).block_id == targets[i].block_id,
        issued.len() <= targets.len(),
{
    if issued.len() > 0 {
        assert(issued.take(0).len() == 0);
        assert(Some(issued[0]) == next_target(targets, issued.take(0), 0, base_size, desired[0]));
        let n = issued.len() - 1;
        assert(Some(issued[n]) == next_target(targets, issued.take(n), n as nat, base_size, desired[n]));
    }
    assert forall|i: int|
        0 < i < issued.len() && issued[i - 1].file_offset + issued[i - 1].effective_len <= u64::MAX implies (
    #[trigger] issued[i]).file_offset == issued[i - 1].file_offset + issued[i - 1].effective_len by {
        assert(issued.take(i).last() == issued[i - 1]);
    }
}

} // verus!
