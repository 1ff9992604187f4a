//! Events reported by the piano engine and the dispatch of incoming ones.
use vstd::prelude::*;

verus! {

#[derive(Debug, Clone, PartialEq, Eq, Structural)]
pub enum EngineOutEvent {
    /// The voice of `key` fell silent (or was stolen) at sample `time` of the block.
    NoteEnd { time: usize, key: u8 },
}

/// Sample-accurate event dispatch: given the sample times of a block's events
/// (in the order they arrived) and the first event not yet dispatched at
/// `from`, the end of the run of events due at `sample`, i.e. with a time at
/// or before it. Dispatch stops at the first event that is not yet due.
pub fn due_events_end(times: &[usize], from: usize, sample: usize) -> (end: usize)
    requires
        from <= times.len(),
    ensures
        from <= end <= times.len(),
        forall|i: int| from <= i < end ==> times@[i] <= sample,
        end == times.len() || times@[end as int] > sample,
{
    let mut end = from;
    while end < times.len() && times[end] <= sample
        invariant
            from <= end <= times.len(),
            forall|i: int| from <= i < end ==> times@[i] <= sample,
        decreases times.len() - end,
    {
        end = end + 1;
    }
    end
}

} // verus!
