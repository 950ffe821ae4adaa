use vstd::prelude::*;

use crate::energy::{ComputationError, EdgeEvent, NrjEvent};
use crate::wall_time::WallTime;

verus! {

/// What the distribution loop does after feeding one pulse into the state.
#[derive(Clone, Copy, Debug)]
pub enum LoopAction {
    /// Publish this snapshot to the subscribers, replacing what they have not read yet.
    Publish(NrjEvent),
    /// Publish nothing: report the error and wait for the next pulse.
    Skip(ComputationError),
}

/// The action for a pulse with hardware timestamp `ns` seen at `now` in state `s`.
pub open spec fn action_for(s: NrjEvent, ns: u64, now: WallTime) -> LoopAction {
    match s.after_pulse(ns, now) {
        Ok(t) => LoopAction::Publish(t),
        Err(e) => LoopAction::Skip(e),
    }
}

/// One turn of the distribution loop: update the state with the pulse, then publish a copy of
/// the new state, or skip the pulse on error with the state unchanged.
pub fn process_pulse(state: &mut NrjEvent, event: &EdgeEvent, now: WallTime) -> (r: LoopAction)
    ensures
        r == action_for(*old(state), event.timestamp_ns, now),
        *final(state) == (match old(state).after_pulse(event.timestamp_ns, now) {
            Ok(t) => t,
            Err(_) => *old(state),
        }),
{
    match state.update(event, now) {
        Ok(()) => LoopAction::Publish(*state),
        Err(e) => LoopAction::Skip(e),
    }
}

} // verus!
