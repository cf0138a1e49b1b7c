//! A pipeline as what it is on the device: an ordered list of stages, each
//! a program, the resources bound for it, and the grid it is dispatched over.

use vstd::prelude::*;
use crate::command::Command;
use crate::program::dispatch_commands;

verus! {

/// One stage of a pipeline.
#[derive(Debug)]
pub struct Stage {
    /// Handle of the compute program.
    pub program: u32,
    /// The bindings the program runs with, in the order they are made.
    pub bindings: Vec<Command>,
    /// Workgroup counts of the dispatch.
    pub grid: (u32, u32, u32),
}

/// A stage, as a value.
pub struct StageView {
    pub program: u32,
    pub bindings: Seq<Command>,
    pub grid: (u32, u32, u32),
}

impl View for Stage {
    type V = StageView;

    open spec fn view(&self) -> StageView {
        StageView { program: self.program, bindings: self.bindings@, grid: self.grid }
    }
}

/// The stages of a list, as values.
pub open spec fn stage_views(stages: Seq<Stage>) -> Seq<StageView> {
    Seq::new(stages.len(), |i: int| stages[i]@)
}

/// The commands of one stage: its bindings, then the dispatch with its barrier.
pub open spec fn stage_commands(s: StageView) -> Seq<Command> {
    s.bindings + dispatch_commands(s.program, s.grid.0, s.grid.1, s.grid.2)
}

/// The commands of a list of stages: stage after stage, in the order of
/// the list, none left out and none moved.
pub open spec fn schedule(stages: Seq<StageView>) -> Seq<Command>
    decreases stages.len(),
{
    if stages.len() == 0 {
        Seq::empty()
    } else {
        schedule(stages.drop_last()) + stage_commands(stages.last())
    }
}

/// The schedule of two lists in a row is the two schedules in a row.
pub proof fn lemma_schedule_concat(a: Seq<StageView>, b: Seq<StageView>)
    ensures
        schedule(a + b) == schedule(a) + schedule(b),
    decreases b.len(),
{
    if b.len() == 0 {
        assert(a + b =~= a);
        assert(schedule(a) + schedule(b) =~= schedule(a));
    } else {
        lemma_schedule_concat(a, b.drop_last());
        assert((a + b).drop_last() =~= a + b.drop_last());
        assert((a + b).last() == b.last());
        assert(schedule(a) + schedule(b.drop_last()) + stage_commands(b.last()) =~= schedule(a) + (
        schedule(b.drop_last()) + stage_commands(b.last())));
    }
}

/// In a schedule every dispatch is followed at once by a barrier.
pub open spec fn synchronized(cs: Seq<Command>) -> bool {
    forall|i: int|
        0 <= i < cs.len() && #[trigger] cs[i] is DispatchCompute ==> i + 1 < cs.len() && cs[i + 1]
            == Command::MemoryBarrier
}

/// The bindings of a stage are bindings: none of them launches anything.
pub open spec fn only_binds(s: StageView) -> bool {
    forall|i: int| 0 <= i < s.bindings.len() ==> !(#[trigger] s.bindings[i] is DispatchCompute)
}

/// Whatever the stages, as long as their bindings only bind, the schedule
/// leaves no dispatch without its barrier.
pub proof fn lemma_schedule_synchronized(stages: Seq<StageView>)
    requires
        forall|k: int| 0 <= k < stages.len() ==> only_binds(#[trigger] stages[k]),
    ensures
        synchronized(schedule(stages)),
    decreases stages.len(),
{
    if stages.len() > 0 {
        let head = schedule(stages.drop_last());
        let s = stages.last();
        let tail = stage_commands(s);
        assert forall|k: int| 0 <= k < stages.drop_last().len() implies only_binds(
            #[trigger] stages.drop_last()[k],
        ) by {
            assert(stages.drop_last()[k] == stages[k]);
        }
        lemma_schedule_synchronized(stages.drop_last());
        assert(only_binds(s));
        let cs = head + tail;
        assert forall|i: int| 0 <= i < cs.len() && #[trigger] cs[i] is DispatchCompute implies i + 1
            < cs.len() && cs[i + 1] == Command::MemoryBarrier by {
            if i < head.len() {
                assert(head[i] is DispatchCompute);
                assert(cs[i + 1] == head[i + 1]);
            } else {
                let j = i - head.len();
                assert(tail[j] == cs[i]);
                if j < s.bindings.len() {
                    assert(s.bindings[j] == tail[j]);
                } else {
                    assert(j == s.bindings.len() + 1);
                    assert(cs[i + 1] == tail[j + 1]);
                }
            }
        }
    }
}

impl Stage {
    /// Appends the stage's commands to `out`.
    pub fn emit(&self, out: &mut Vec<Command>)
        ensures
            final(out)@ == old(out)@ + stage_commands(self@),
    {
        let mut i: usize = 0;
        while i < self.bindings.len()
            invariant
                i <= self.bindings@.len(),
                out@ == old(out)@ + self.bindings@.subrange(0, i as int),
            decreases self.bindings@.len() - i,
        {
            out.push(self.bindings[i]);
            i = i + 1;
            proof {
                assert(out@ =~= old(out)@ + self.bindings@.subrange(0, i as int));
            }
        }
        out.push(Command::UseProgram { program: self.program });
        out.push(Command::DispatchCompute { x: self.grid.0, y: self.grid.1, z: self.grid.2 });
        out.push(Command::MemoryBarrier);
        proof {
            assert(self.bindings@.subrange(0, self.bindings@.len() as int) =~= self.bindings@);
            assert(out@ =~= old(out)@ + stage_commands(self@));
        }
    }
}

/// The commands that run `stages` in order, each dispatch closed by its barrier.
pub fn commands_of(stages: &Vec<Stage>) -> (cs: Vec<Command>)
    ensures
        cs@ == schedule(stage_views(stages@)),
{
    let mut out: Vec<Command> = Vec::new();
    let mut k: usize = 0;
    while k < stages.len()
        invariant
            k <= stages@.len(),
            out@ == schedule(stage_views(stages@).subrange(0, k as int)),
        decreases stages@.len() - k,
    {
        stages[k].emit(&mut out);
        k = k + 1;
        proof {
            let done = stage_views(stages@).subrange(0, k as int);
            assert(done.drop_last() =~= stage_views(stages@).subrange(0, k - 1));
            assert(done.last() == stages@[k - 1]@);
        }
    }
    proof {
        assert(stage_views(stages@).subrange(0, stages@.len() as int) =~= stage_views(stages@));
    }
    out
}

} // verus!
