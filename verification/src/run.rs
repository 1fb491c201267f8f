//! Plans on their way.
use crate::action::Action;
use crate::plan::{Plan, Step};
use crate::script::{Outcome, Script};
use vstd::prelude::*;

verus! {

/// Where a run stands.
#[derive(Clone, Copy, Debug, PartialEq, Eq)]
pub enum Progress {
    /// This action is to be performed, and its report handed to the run.
    Perform(Action),
    /// The run is over.
    Done(Outcome),
}

/// A plan on its way: what is left of it, block by block.
pub struct Run {
    /// The blocks that were entered and not yet left, the innermost last.
    blocks: Vec<Plan>,
    /// The outcome once every block is left.
    outcome: Outcome,
}

/// What blocks amount to, the innermost of them last.
spec fn blocks_script(blocks: Seq<Plan>, end: Script) -> Script
    decreases blocks.len(),
{
    if blocks.len() == 0 {
        end
    } else {
        blocks.last().script(blocks_script(blocks.drop_last(), end))
    }
}

/// How much work it can take at most to get through the steps from index `at` on.
spec fn weight(steps: Seq<Step>, at: int) -> nat
    decreases steps, steps.len() - at,
{
    if at < 0 || at >= steps.len() {
        0
    } else {
        let tail = weight(steps, at + 1);
        match steps[at] {
            Step::Call(plan) => 2 + weight(plan.steps@, 0) + tail,
            _ => 1 + tail,
        }
    }
}

spec fn blocks_weight(blocks: Seq<Plan>) -> nat
    decreases blocks.len(),
{
    if blocks.len() == 0 {
        0
    } else {
        1 + weight(blocks.last().steps@, 0) + blocks_weight(blocks.drop_last())
    }
}

proof fn lemma_weight_drop_first(steps: Seq<Step>, at: int)
    requires
        0 <= at,
        0 < steps.len(),
    ensures
        weight(steps.drop_first(), at) == weight(steps, at + 1),
    decreases steps.len() - at,
{
    if at < steps.drop_first().len() {
        lemma_weight_drop_first(steps, at + 1);
        assert(steps.drop_first()[at] == steps[at + 1]);
    }
}

/// Entering a block puts it before everything else.
proof fn lemma_enter(blocks: Seq<Plan>, block: Plan, end: Script)
    ensures
        blocks_script(blocks.push(block), end) == block.script(blocks_script(blocks, end)),
        blocks_weight(blocks.push(block)) == 1 + weight(block.steps@, 0) + blocks_weight(blocks),
{
    assert(blocks.push(block).drop_last() =~= blocks);
}

impl Run {
    /// What the run has yet to do.
    pub closed spec fn script(self) -> Script {
        blocks_script(self.blocks@, Script::End(self.outcome))
    }

    /// Whether the run is over, or the innermost block starts with an action.
    spec fn settled(self) -> bool {
        self.blocks.len() == 0 || {
            let steps = self.blocks@.last().steps@;
            steps.len() > 0 && match steps[0] {
                Step::Attempt(actions, _) => actions.len() > 0,
                Step::Call(_) => false,
                Step::Finish(_) => false,
                _ => true,
            }
        }
    }

    /// A run of the plan, with the given outcome where the plan does not end it before.
    pub fn start(plan: Plan, outcome: Outcome) -> (run: Run)
        ensures
            run.script() == plan.script(Script::End(outcome)),
    {
        let mut blocks: Vec<Plan> = Vec::new();
        blocks.push(plan);
        proof {
            lemma_enter(Seq::empty(), plan, Script::End(outcome));
            assert(blocks@ =~= Seq::empty().push(plan));
        }
        Run { blocks, outcome }
    }

    /// Leaves blocks that are done with and enters those that come next, up to the
    /// next action.
    fn settle(&mut self)
        ensures
            final(self).script() == old(self).script(),
            final(self).settled(),
    {
        while self.blocks.len() > 0
            invariant_except_break
                self.script() == old(self).script(),
            ensures
                self.script() == old(self).script(),
                self.settled(),
            decreases blocks_weight(self.blocks@),
        {
            let ghost before = self.blocks@;
            let ghost end = Script::End(self.outcome);
            let ghost rest = blocks_script(before.drop_last(), end);
            let mut block = match self.blocks.pop() {
                Some(block) => block,
                None => {
                    break ;
                },
            };
            if block.steps.len() == 0 {
                continue ;
            }
            let ghost steps = block.steps@;
            let passes = match &block.steps[0] {
                Step::Attempt(actions, _) => actions.len() == 0,
                Step::Call(_) | Step::Finish(_) => true,
                _ => false,
            };
            if !passes {
                self.blocks.push(block);
                assert(self.blocks@ =~= before);
                break ;
            }
            let step = block.steps.remove(0);
            proof {
                assert(block.steps@ =~= steps.drop_first());
                crate::plan::lemma_drop_first_step(steps, 0, rest);
                lemma_weight_drop_first(steps, 0);
            }
            match step {
                Step::Call(plan) => {
                    proof {
                        lemma_enter(self.blocks@, block, end);
                        lemma_enter(self.blocks@.push(block), plan, end);
                    }
                    self.blocks.push(block);
                    self.blocks.push(plan);
                },
                Step::Finish(outcome) => {
                    self.blocks.clear();
                    self.outcome = outcome;
                },
                _ => {
                    proof {
                        lemma_enter(self.blocks@, block, end);
                    }
                    self.blocks.push(block);
                },
            }
        }
    }

    /// The action that comes next, or the outcome.
    pub fn poll(&mut self) -> (r: Progress)
        ensures
            final(self).script() == old(self).script(),
            match old(self).script() {
                Script::Next(action, _, _) => r == Progress::Perform(action),
                Script::End(outcome) => r == Progress::Done(outcome),
            },
    {
        self.settle();
        if self.blocks.len() == 0 {
            return Progress::Done(self.outcome);
        }
        let block = &self.blocks[self.blocks.len() - 1];
        match &block.steps[0] {
            Step::Do(action) => Progress::Perform(*action),
            Step::Need(action) => Progress::Perform(*action),
            Step::Choose(action, _, _) => Progress::Perform(*action),
            Step::Attempt(actions, _) => Progress::Perform(actions[0]),
            _ => Progress::Done(self.outcome),
        }
    }

    /// Goes on with what the next action has reported. A run that is over stays as it
    /// is.
    pub fn resume(&mut self, reply: bool)
        ensures
            final(self).script() == old(self).script().after(reply),
    {
        self.settle();
        let ghost before = self.blocks@;
        let ghost end = Script::End(self.outcome);
        let ghost rest = blocks_script(before.drop_last(), end);
        if let Some(mut block) = self.blocks.pop() {
            let ghost steps = block.steps@;
            let step = block.steps.remove(0);
            proof {
                assert(block.steps@ =~= steps.drop_first());
                crate::plan::lemma_drop_first_step(steps, 0, rest);
            }
            match step {
                Step::Do(_) => {
                    proof {
                        lemma_enter(self.blocks@, block, end);
                    }
                    self.blocks.push(block);
                },
                Step::Need(_) => {
                    if reply {
                        proof {
                            lemma_enter(self.blocks@, block, end);
                        }
                        self.blocks.push(block);
                    }
                },
                Step::Choose(_, yes, no) => {
                    let chosen = if reply {
                        yes
                    } else {
                        no
                    };
                    proof {
                        lemma_enter(self.blocks@, block, end);
                        lemma_enter(self.blocks@.push(block), chosen, end);
                    }
                    self.blocks.push(block);
                    self.blocks.push(chosen);
                },
                Step::Attempt(mut actions, otherwise) => {
                    if reply {
                        let ghost later = block.steps@;
                        let ghost offered = actions@;
                        actions.remove(0);
                        assert(actions@ =~= offered.drop_first());
                        block.steps.insert(0, Step::Attempt(actions, otherwise));
                        proof {
                            assert(block.steps@.drop_first() =~= later);
                            crate::plan::lemma_drop_first_step(block.steps@, 0, rest);
                            lemma_enter(self.blocks@, block, end);
                        }
                        self.blocks.push(block);
                    } else {
                        proof {
                            lemma_enter(self.blocks@, block, end);
                            lemma_enter(self.blocks@.push(block), otherwise, end);
                        }
                        self.blocks.push(block);
                        self.blocks.push(otherwise);
                    }
                },
                _ => {},
            }
        }
    }
}

} // verus!
