//! Statistics over a collection of command blocks.

use vstd::prelude::*;

use crate::command_block::BlockState;
use crate::command_block::CommandBlock;

verus! {

/// Statistics about the command history
#[derive(Debug, Clone)]
pub struct HistoryStats {
    pub total_blocks: usize,
    pub running: usize,
    pub successful: usize,
    pub failed: usize,
    /// The mean duration of the completed blocks, in milliseconds
    pub average_duration: Option<u64>,
}

/// How many blocks are in the given state.
pub open spec fn count_in_state(blocks: Seq<CommandBlock>, state: BlockState) -> int
    decreases blocks.len(),
{
    if blocks.len() == 0 {
        0
    } else {
        (if blocks[0].state == state {
            1int
        } else {
            0int
        }) + count_in_state(blocks.drop_first(), state)
    }
}

/// How many blocks carry a duration.
pub open spec fn completed_count(blocks: Seq<CommandBlock>) -> int
    decreases blocks.len(),
{
    if blocks.len() == 0 {
        0
    } else {
        (if blocks[0].duration is Some {
            1int
        } else {
            0int
        }) + completed_count(blocks.drop_first())
    }
}

/// The sum of the durations carried by the blocks, in milliseconds.
pub open spec fn total_duration(blocks: Seq<CommandBlock>) -> int
    decreases blocks.len(),
{
    if blocks.len() == 0 {
        0
    } else {
        (match blocks[0].duration {
            Some(d) => d as int,
            None => 0int,
        }) + total_duration(blocks.drop_first())
    }
}

proof fn lemma_stats_push(blocks: Seq<CommandBlock>, block: CommandBlock, state: BlockState)
    ensures
        count_in_state(blocks.push(block), state) == count_in_state(blocks, state) + (
        if block.state == state {
            1int
        } else {
            0int
        }),
        completed_count(blocks.push(block)) == completed_count(blocks) + (
        if block.duration is Some {
            1int
        } else {
            0int
        }),
        total_duration(blocks.push(block)) == total_duration(blocks) + (match block.duration {
            Some(d) => d as int,
            None => 0int,
        }),
    decreases blocks.len(),
{
    let pushed = blocks.push(block);
    if blocks.len() == 0 {
        assert(pushed[0] == block);
        assert(pushed.drop_first() =~= Seq::<CommandBlock>::empty());
        assert(count_in_state(pushed.drop_first(), state) == 0);
        assert(completed_count(pushed.drop_first()) == 0);
        assert(total_duration(pushed.drop_first()) == 0);
    } else {
        assert(pushed[0] == blocks[0]);
        assert(pushed.drop_first() =~= blocks.drop_first().push(block));
        lemma_stats_push(blocks.drop_first(), block, state);
    }
}

/// Compute the statistics of a history of blocks: the totals per state,
/// and the mean duration of the blocks that completed.
pub fn history_stats(blocks: &Vec<CommandBlock>) -> (stats: HistoryStats)
    ensures
        stats.total_blocks == blocks@.len(),
        stats.running == count_in_state(blocks@, BlockState::Running),
        stats.successful == count_in_state(blocks@, BlockState::Success),
        stats.failed == count_in_state(blocks@, BlockState::Failed),
        completed_count(blocks@) == 0 ==> stats.average_duration is None,
        completed_count(blocks@) > 0 ==> stats.average_duration == Some(
            (total_duration(blocks@) / completed_count(blocks@)) as u64,
        ),
{
    let mut running: usize = 0;
    let mut successful: usize = 0;
    let mut failed: usize = 0;
    let mut completed: usize = 0;
    let mut duration_sum: u128 = 0;
    let mut i: usize = 0;
    while i < blocks.len()
        invariant
            0 <= i <= blocks@.len(),
            running == count_in_state(blocks@.take(i as int), BlockState::Running),
            successful == count_in_state(blocks@.take(i as int), BlockState::Success),
            failed == count_in_state(blocks@.take(i as int), BlockState::Failed),
            completed == completed_count(blocks@.take(i as int)),
            duration_sum == total_duration(blocks@.take(i as int)),
            running <= i && successful <= i && failed <= i && completed <= i,
            duration_sum <= (completed as int) * (u64::MAX as int),
        decreases blocks@.len() - i,
    {
        let ghost prefix = blocks@.take(i as int);
        let block = &blocks[i];
        if block.state == BlockState::Running {
            running += 1;
        }
        if block.state == BlockState::Success {
            successful += 1;
        }
        if block.state == BlockState::Failed {
            failed += 1;
        }
        match block.duration {
            Some(ms) => {
                proof {
                    assert(duration_sum + ms <= ((completed + 1) as int) * (u64::MAX as int)) by {
                        assert((completed as int) * (u64::MAX as int) + (u64::MAX as int) == ((
                        completed + 1) as int) * (u64::MAX as int)) by (nonlinear_arith);
                    }
                    assert(((completed + 1) as int) * (u64::MAX as int) < u128::MAX)
                        by (nonlinear_arith)
                        requires
                            0 <= completed + 1 <= usize::MAX,
                    ;
                }
                duration_sum += ms as u128;
                completed += 1;
            },
            None => {},
        }
        proof {
            lemma_stats_push(prefix, blocks@[i as int], BlockState::Running);
            lemma_stats_push(prefix, blocks@[i as int], BlockState::Success);
            lemma_stats_push(prefix, blocks@[i as int], BlockState::Failed);
            assert(blocks@.take(i + 1) =~= prefix.push(blocks@[i as int]));
        }
        i += 1;
    }
    proof {
        assert(blocks@.take(blocks@.len() as int) =~= blocks@);
    }
    let average_duration: Option<u64> = if completed == 0 {
        None
    } else {
        proof {
            assert(duration_sum / (completed as u128) <= u64::MAX) by (nonlinear_arith)
                requires
                    completed >= 1,
                    duration_sum <= (completed as int) * (u64::MAX as int),
            ;
        }
        Some((duration_sum / (completed as u128)) as u64)
    };
    HistoryStats { total_blocks: blocks.len(), running, successful, failed, average_duration }
}

} // verus!
