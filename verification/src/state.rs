//! The accumulated, not-yet-replayed recording content of one command buffer.
//!
//! A `State` is a pair of ordered sequences: the recorded commands and the
//! recorded barriers.  It is append-only while a recorder holds it and is
//! drained exactly once, at submission time, into a replay plan.
//!
//! The plan interleaves barriers with commands: a barrier whose
//! `command_index_after` is `k` replays after exactly `k` commands, before the
//! command at index `k`.  Barriers recorded after the final command replay at
//! the very end.  Barriers that share a position keep their insertion order.

use vstd::prelude::*;

use crate::command::{Barrier, Command, ReplayStep};

verus! {

/// The ordered replay plan for `cmds` and `bars`, assuming `emitted` commands
/// have already been replayed.
///
/// Barriers are emitted as soon as their position is due: while the next
/// barrier's `command_index_after` is at most `emitted`, it precedes the next
/// command.  Once the commands are exhausted, the remaining barriers are
/// emitted in order.
pub open spec fn merge_plan(cmds: Seq<Command>, bars: Seq<Barrier>, emitted: int) -> Seq<ReplayStep>
    decreases cmds.len() + bars.len(),
{
    if bars.len() > 0 && (cmds.len() == 0 || bars[0].command_index_after <= emitted) {
        seq![ReplayStep::Barrier(bars[0])] + merge_plan(cmds, bars.drop_first(), emitted)
    } else if cmds.len() > 0 {
        seq![ReplayStep::Command(cmds[0])] + merge_plan(cmds.drop_first(), bars, emitted + 1)
    } else {
        Seq::empty()
    }
}

/// The commands of a replay plan, in plan order, barriers removed.
pub open spec fn commands_of(steps: Seq<ReplayStep>) -> Seq<Command>
    decreases steps.len(),
{
    if steps.len() == 0 {
        Seq::empty()
    } else {
        match steps[0] {
            ReplayStep::Command(c) => seq![c] + commands_of(steps.drop_first()),
            ReplayStep::Barrier(_) => commands_of(steps.drop_first()),
        }
    }
}

/// The barriers of a replay plan, in plan order, commands removed.
pub open spec fn barriers_of(steps: Seq<ReplayStep>) -> Seq<Barrier>
    decreases steps.len(),
{
    if steps.len() == 0 {
        Seq::empty()
    } else {
        match steps[0] {
            ReplayStep::Barrier(b) => seq![b] + barriers_of(steps.drop_first()),
            ReplayStep::Command(_) => barriers_of(steps.drop_first()),
        }
    }
}

/// Replaying a plan preserves the recorded command sequence exactly: the plan's
/// commands, read in plan order, are the recorded commands in insertion order.
pub proof fn lemma_plan_preserves_command_order(
    cmds: Seq<Command>,
    bars: Seq<Barrier>,
    emitted: int,
)
    ensures
        commands_of(merge_plan(cmds, bars, emitted)) == cmds,
    decreases cmds.len() + bars.len(),
{
    let plan = merge_plan(cmds, bars, emitted);
    if bars.len() > 0 && (cmds.len() == 0 || bars[0].command_index_after <= emitted) {
        lemma_plan_preserves_command_order(cmds, bars.drop_first(), emitted);
        assert(plan.drop_first() =~= merge_plan(cmds, bars.drop_first(), emitted));
    } else if cmds.len() > 0 {
        lemma_plan_preserves_command_order(cmds.drop_first(), bars, emitted + 1);
        assert(plan.drop_first() =~= merge_plan(cmds.drop_first(), bars, emitted + 1));
        assert(seq![cmds[0]] + cmds.drop_first() =~= cmds);
    } else {
        assert(plan =~= Seq::<ReplayStep>::empty());
    }
}

/// Replaying a plan loses no barrier and keeps their insertion order: the
/// plan's barriers, read in plan order, are the recorded barriers in insertion
/// order.
pub proof fn lemma_plan_preserves_barrier_order(
    cmds: Seq<Command>,
    bars: Seq<Barrier>,
    emitted: int,
)
    ensures
        barriers_of(merge_plan(cmds, bars, emitted)) == bars,
    decreases cmds.len() + bars.len(),
{
    let plan = merge_plan(cmds, bars, emitted);
    if bars.len() > 0 && (cmds.len() == 0 || bars[0].command_index_after <= emitted) {
        lemma_plan_preserves_barrier_order(cmds, bars.drop_first(), emitted);
        assert(plan.drop_first() =~= merge_plan(cmds, bars.drop_first(), emitted));
        assert(seq![bars[0]] + bars.drop_first() =~= bars);
    } else if cmds.len() > 0 {
        lemma_plan_preserves_barrier_order(cmds.drop_first(), bars, emitted + 1);
        assert(plan.drop_first() =~= merge_plan(cmds.drop_first(), bars, emitted + 1));
    } else {
        assert(plan =~= Seq::<ReplayStep>::empty());
        assert(bars =~= Seq::<Barrier>::empty());
    }
}

/// The number of command steps that precede the `j`-th barrier step of a
/// replay plan.
pub open spec fn commands_before_nth_barrier(steps: Seq<ReplayStep>, j: int) -> int
    decreases steps.len(),
{
    if steps.len() == 0 {
        0
    } else {
        match steps[0] {
            ReplayStep::Command(_) => 1 + commands_before_nth_barrier(steps.drop_first(), j),
            ReplayStep::Barrier(_) => if j == 0 {
                0
            } else {
                commands_before_nth_barrier(steps.drop_first(), j - 1)
            },
        }
    }
}

/// Barrier positions are non-decreasing in insertion order.
pub open spec fn barriers_sorted(bars: Seq<Barrier>) -> bool {
    forall|j: int, k: int|
        0 <= j <= k < bars.len() ==> #[trigger] bars[j].command_index_after
            <= #[trigger] bars[k].command_index_after
}

/// `x` clamped into the interval from 0 to `n`.
pub open spec fn clamped(x: int, n: int) -> int {
    if x < 0 {
        0
    } else if x > n {
        n
    } else {
        x
    }
}

/// Each barrier replays at its recorded position: in the plan of sorted
/// barriers, the `j`-th barrier step is preceded by exactly
/// `bars[j].command_index_after` command steps (clamped to the number of
/// commands there are).  Stated for any starting offset `emitted`; a
/// submission uses offset 0.
pub proof fn lemma_plan_places_barriers(
    cmds: Seq<Command>,
    bars: Seq<Barrier>,
    emitted: int,
    j: int,
)
    requires
        barriers_sorted(bars),
        0 <= j < bars.len(),
    ensures
        commands_before_nth_barrier(merge_plan(cmds, bars, emitted), j) == clamped(
            bars[j].command_index_after - emitted,
            cmds.len() as int,
        ),
    decreases cmds.len() + bars.len(),
{
    let plan = merge_plan(cmds, bars, emitted);
    if bars.len() > 0 && (cmds.len() == 0 || bars[0].command_index_after <= emitted) {
        assert(plan.drop_first() =~= merge_plan(cmds, bars.drop_first(), emitted));
        if j == 0 {
            assert(bars[0].command_index_after <= emitted || cmds.len() == 0);
        } else {
            let rest = bars.drop_first();
            assert forall|a: int, b: int|
                0 <= a <= b < rest.len() implies #[trigger] rest[a].command_index_after
                    <= #[trigger] rest[b].command_index_after by {
                assert(bars[a + 1].command_index_after <= bars[b + 1].command_index_after);
            }
            lemma_plan_places_barriers(cmds, rest, emitted, j - 1);
            assert(rest[j - 1] == bars[j]);
        }
    } else {
        assert(plan.drop_first() =~= merge_plan(cmds.drop_first(), bars, emitted + 1));
        assert(bars[0].command_index_after <= bars[j].command_index_after);
        lemma_plan_places_barriers(cmds.drop_first(), bars, emitted + 1, j);
    }
}

/// The recording content accumulated for one command buffer: the command
/// sequence (insertion order is execution order) and the barrier sequence.
#[derive(Debug, PartialEq, Eq)]
pub struct State {
    pub commands: Vec<Command>,
    pub barriers: Vec<Barrier>,
}

impl State {
    /// The recording discipline keeps barriers ordered by position: each
    /// barrier's `command_index_after` is at most the number of commands, and
    /// the positions are non-decreasing in insertion order.
    pub open spec fn wf(self) -> bool {
        &&& barriers_sorted(self.barriers@)
        &&& forall|j: int|
            0 <= j < self.barriers@.len() ==> #[trigger] self.barriers@[j].command_index_after
                <= self.commands@.len()
    }

    /// True when nothing has been recorded yet.
    pub open spec fn is_clear(self) -> bool {
        self.commands@.len() == 0 && self.barriers@.len() == 0
    }

    /// A fresh, empty recording state.
    pub fn new() -> (s: State)
        ensures
            s.is_clear(),
            s.wf(),
    {
        State { commands: Vec::new(), barriers: Vec::new() }
    }

    /// Drains the state into its replay plan: the ordered list of native
    /// recording steps that submission must perform, commands in insertion
    /// order with each barrier inserted at its recorded position.
    pub fn finish(self) -> (steps: Vec<ReplayStep>)
        ensures
            steps@ == merge_plan(self.commands@, self.barriers@, 0),
    {
        let State { mut commands, mut barriers } = self;
        let ghost orig_cmds = commands@;
        let ghost orig_bars = barriers@;
        let total_cmds: usize = commands.len();
        let mut steps: Vec<ReplayStep> = Vec::new();
        let mut emitted: usize = 0;
        while commands.len() > 0 || barriers.len() > 0
            invariant
                emitted + commands@.len() == total_cmds,
                orig_cmds.len() == total_cmds,
                steps@ + merge_plan(commands@, barriers@, emitted as int) == merge_plan(
                    orig_cmds,
                    orig_bars,
                    0,
                ),
            decreases commands@.len() + barriers@.len(),
        {
            let ghost pre_steps = steps@;
            let ghost pre_cmds = commands@;
            let ghost pre_bars = barriers@;
            let barrier_due = barriers.len() > 0 && (commands.len() == 0
                || barriers[0].command_index_after <= emitted);
            if barrier_due {
                let b = barriers.remove(0);
                steps.push(ReplayStep::Barrier(b));
                proof {
                    assert(pre_steps + merge_plan(pre_cmds, pre_bars, emitted as int) =~= steps@
                        + merge_plan(commands@, barriers@, emitted as int));
                }
            } else {
                let c = commands.remove(0);
                steps.push(ReplayStep::Command(c));
                emitted = emitted + 1;
                proof {
                    assert(pre_steps + merge_plan(pre_cmds, pre_bars, (emitted - 1) as int)
                        =~= steps@ + merge_plan(commands@, barriers@, emitted as int));
                }
            }
        }
        proof {
            assert(steps@ + merge_plan(commands@, barriers@, emitted as int) =~= steps@);
        }
        steps
    }
}

} // verus!
