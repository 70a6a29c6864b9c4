//! What to tell the user when a run is over.

use vstd::prelude::*;
use crate::section::{TrackError, TrackResult};

verus! {

/// The text for each way a run can end.
pub open spec fn message_text(outcome: TrackResult<()>) -> Seq<char> {
    match outcome {
        Ok(()) => "Train completed the track!"@,
        Err(TrackError::Obstacle) => "Train hit an obstacle!"@,
        Err(TrackError::Signal) => "Train stopped at a signal!"@,
        Err(TrackError::BrokenRail) => "Train derailed!"@,
    }
}

/// The message that tells the user how a run ended.
pub fn outcome_message(outcome: TrackResult<()>) -> (message: &'static str)
    ensures
        message@ == message_text(outcome),
{
    match outcome {
        Ok(()) => "Train completed the track!",
        Err(TrackError::Obstacle) => "Train hit an obstacle!",
        Err(TrackError::Signal) => "Train stopped at a signal!",
        Err(TrackError::BrokenRail) => "Train derailed!",
    }
}

/// Runs that end differently are told differently: the message says how the
/// run ended.
pub proof fn lemma_messages_differ(first: TrackResult<()>, second: TrackResult<()>)
    requires
        first != second,
    ensures
        message_text(first) != message_text(second),
{
    reveal_strlit("Train completed the track!");
    reveal_strlit("Train hit an obstacle!");
    reveal_strlit("Train stopped at a signal!");
    reveal_strlit("Train derailed!");
    if first is Ok && second is Ok {
        assert(first->Ok_0 == second->Ok_0);
    }
    // The messages differ in length, but for two that differ in a letter.
    assert("Train completed the track!"@.len() == 26);
    assert("Train hit an obstacle!"@.len() == 22);
    assert("Train stopped at a signal!"@.len() == 26);
    assert("Train derailed!"@.len() == 15);
    assert("Train completed the track!"@[6] == 'c');
    assert("Train stopped at a signal!"@[6] == 's');
}

} // verus!
