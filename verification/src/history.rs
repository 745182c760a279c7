//! Runs of frames, and what holds along them.

use crate::state::{clicks_character, AppView, FrameInput, MESSAGE_COUNT};
use vstd::prelude::*;

verus! {

/// How many of the frames carry a click on the character.
pub open spec fn clicks_on_character(inputs: Seq<FrameInput>) -> nat
    decreases inputs.len(),
{
    if inputs.len() == 0 {
        0
    } else {
        clicks_on_character(inputs.drop_last()) + if clicks_character(inputs.last()) {
            1nat
        } else {
            0nat
        }
    }
}

impl AppView {
    /// The state after the frames of `inputs`, first to last.
    pub open spec fn run(self, inputs: Seq<FrameInput>) -> AppView
        decreases inputs.len(),
    {
        if inputs.len() == 0 {
            self
        } else {
            self.run(inputs.drop_last()).step(inputs.last())
        }
    }
}

/// Every state a run of frames reaches from a well-formed, coherent state is
/// well formed and coherent.
pub proof fn lemma_run_keeps_invariants(v: AppView, inputs: Seq<FrameInput>)
    ensures
        v.wf() ==> v.run(inputs).wf(),
        v.coherent() ==> v.run(inputs).coherent(),
    decreases inputs.len(),
{
    if inputs.len() > 0 {
        lemma_run_keeps_invariants(v, inputs.drop_last());
    }
}

/// The current message counts the clicks on the character, modulo the number
/// of messages: whatever else the frames of a run bring, the index moves on by
/// one for each click on the character and by nothing else.
pub proof fn lemma_index_counts_clicks(v: AppView, inputs: Seq<FrameInput>)
    requires
        v.wf(),
    ensures
        v.run(inputs).current_message_index == (v.current_message_index + clicks_on_character(
            inputs,
        )) % (MESSAGE_COUNT as nat),
    decreases inputs.len(),
{
    if inputs.len() > 0 {
        lemma_index_counts_clicks(v, inputs.drop_last());
    }
}

/// From startup, `n` clicks on the character bring up the message at
/// `n mod 10`.
pub proof fn lemma_clicks_cycle_messages(inputs: Seq<FrameInput>, n: nat)
    requires
        clicks_on_character(inputs) == n,
    ensures
        AppView::initial().run(inputs).current_message_index == n % 10,
{
    lemma_index_counts_clicks(AppView::initial(), inputs);
}

/// A run in which every frame is a click on the character counts its frames.
pub proof fn lemma_all_clicks(inputs: Seq<FrameInput>)
    requires
        forall|i: int| 0 <= i < inputs.len() ==> clicks_character(#[trigger] inputs[i]),
    ensures
        clicks_on_character(inputs) == inputs.len(),
        AppView::initial().run(inputs).current_message_index == inputs.len() % 10,
    decreases inputs.len(),
{
    if inputs.len() > 0 {
        lemma_all_clicks(inputs.drop_last());
    }
    lemma_index_counts_clicks(AppView::initial(), inputs);
}

/// The animation clock never runs backwards and is never reset: along any run
/// of frames it is at least what it was, and it is the sum of the frames'
/// time steps for as long as that sum can be held.
pub proof fn lemma_animation_time_only_grows(v: AppView, inputs: Seq<FrameInput>)
    ensures
        v.run(inputs).animation_time >= v.animation_time,
        v.run(inputs).animation_time == if v.animation_time + elapsed(inputs) > u64::MAX {
            u64::MAX as int
        } else {
            v.animation_time + elapsed(inputs)
        },
    decreases inputs.len(),
{
    if inputs.len() > 0 {
        lemma_animation_time_only_grows(v, inputs.drop_last());
    }
}

/// The time steps of the frames, added up.
pub open spec fn elapsed(inputs: Seq<FrameInput>) -> nat
    decreases inputs.len(),
{
    if inputs.len() == 0 {
        0
    } else {
        elapsed(inputs.drop_last()) + inputs.last().dt as nat
    }
}

} // verus!
