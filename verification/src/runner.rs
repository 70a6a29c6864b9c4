//! A whole run: a train from the start of the line over a track.

use vstd::prelude::*;
use crate::section::{stop_at, TrackError, TrackResult, TrackSection};
use crate::train::{Train, TrainState};

verus! {

/// Whether the first `count` sections of `track` let a train through that
/// stands at `origin` before the first of them and moves forward one position
/// with each section.
pub open spec fn open_road(track: Seq<TrackSection>, origin: int, count: int) -> bool {
    forall|i: int| 0 <= i < count ==> stop_at(#[trigger] track[i], origin + i) is None
}

/// Whether section `at` of `track` is the first to stop such a train, and
/// stops it with `error`.
pub open spec fn first_stop(
    track: Seq<TrackSection>,
    origin: int,
    at: int,
    error: TrackError,
) -> bool {
    &&& 0 <= at < track.len()
    &&& open_road(track, origin, at)
    &&& stop_at(track[at], origin + at) == Some(error)
}

/// The journey of a train that runs forward one position per section.
///
/// Such a train stands `i` positions from where it began when it enters
/// section `i`. So the journey is settled by the first section that stops a
/// train at that position: the train rests before it with its error, or, where
/// there is none, behind the last section.
pub proof fn lemma_forward_journey(train: Train, track: Seq<TrackSection>)
    requires
        train.speed == 1,
        train.position + track.len() <= usize::MAX,
    ensures
        match train.travel(track).outcome {
            Ok(()) => {
                &&& open_road(track, train.position as int, track.len() as int)
                &&& train.travel(track).end == train.at(train.position + track.len())
            },
            Err(error) => exists|at: int|
                {
                    &&& #[trigger] first_stop(track, train.position as int, at, error)
                    &&& train.travel(track).end == train.at((train.position + at) as nat)
                },
        },
    decreases track.len(),
{
    let origin = train.position as int;
    if track.len() == 0 {
    } else {
        match train.enter(track.first()) {
            Err(error) => {
                assert(first_stop(track, origin, 0, error));
            },
            Ok(next) => {
                let rest = track.drop_first();
                lemma_forward_journey(next, rest);
                match next.travel(rest).outcome {
                    Ok(()) => {
                        assert forall|i: int| 0 <= i < track.len() implies stop_at(
                            #[trigger] track[i],
                            origin + i,
                        ) is None by {
                            if i > 0 {
                                assert(track[i] == rest[i - 1]);
                            }
                        }
                    },
                    Err(error) => {
                        let behind = choose|at: int|
                            {
                                &&& #[trigger] first_stop(rest, origin + 1, at, error)
                                &&& next.travel(rest).end == next.at((next.position + at) as nat)
                            };
                        assert forall|i: int| 0 <= i < behind + 1 implies stop_at(
                            #[trigger] track[i],
                            origin + i,
                        ) is None by {
                            if i > 0 {
                                assert(track[i] == rest[i - 1]);
                            }
                        }
                        assert(track[behind + 1] == rest[behind]);
                        assert(first_stop(track, origin, behind + 1, error));
                    },
                }
            },
        }
    }
}

/// Runs a train from the start of the line over `track`.
///
/// The train begins at position 0 with speed 1 and takes the sections in
/// order. The first section that stops it ends the run with that section's
/// error; no later section is entered. A track that stops it nowhere, the
/// empty track among them, gives `Ok`.
///
/// As the train stands at position `i` before section `i`, an obstacle or a
/// signal stops it wherever it lies, and a curve only as the first section.
pub fn run_train_on_track(track: Vec<TrackSection>) -> (result: TrackResult<()>)
    ensures
        result == Train::start().travel(track@).outcome,
        match result {
            Ok(()) => open_road(track@, 0, track@.len() as int),
            Err(error) => exists|at: int| #[trigger] first_stop(track@, 0, at, error),
        },
        track@.len() == 0 ==> result is Ok,
{
    let mut train = TrainState::new();
    proof {
        assert(track@.len() == track.len());
        lemma_forward_journey(train@, track@);
    }
    train.travel(track.as_slice())
}

} // verus!
