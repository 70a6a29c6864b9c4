//! The train: where it stands, how fast it runs, and how it takes a track.

use vstd::prelude::*;
use crate::mover::{landing, move_train};
use crate::section::{stop_at, TrackError, TrackResult, TrackSection};

verus! {

/// A train as contracts speak of it.
pub struct Train {
    /// Where the train stands.
    pub position: nat,
    /// How far the train moves in one section. The sign is its direction.
    pub speed: int,
}

/// What became of a train on a track.
pub struct Journey {
    /// The train where it came to rest.
    pub end: Train,
    /// `Ok` where the train took every section, else the error of the section
    /// that stopped it.
    pub outcome: TrackResult<()>,
}

impl Train {
    /// The train before its first section: at position 0, running forward one
    /// position per section.
    pub open spec fn start() -> Train {
        Train { position: 0, speed: 1 }
    }

    /// This train at `position`.
    pub open spec fn at(self, position: nat) -> Train {
        Train { position, speed: self.speed }
    }

    /// This train running the other way.
    pub open spec fn reversed(self) -> Train {
        Train { position: self.position, speed: -self.speed }
    }

    /// The train behind `section`, or the error with which the section stops
    /// it.
    pub open spec fn enter(self, section: TrackSection) -> TrackResult<Train> {
        match stop_at(section, self.position as int) {
            Some(error) => Err(error),
            None => Ok(self.at(landing(self.position as int, self.speed))),
        }
    }

    /// The train's journey over `track`, section by section. The first section
    /// that stops the train ends the journey, and the train rests before it.
    pub open spec fn travel(self, track: Seq<TrackSection>) -> Journey
        decreases track.len(),
    {
        if track.len() == 0 {
            Journey { end: self, outcome: Ok(()) }
        } else {
            match self.enter(track.first()) {
                Err(error) => Journey { end: self, outcome: Err(error) },
                Ok(next) => next.travel(track.drop_first()),
            }
        }
    }
}

/// No journey changes the speed of a train: no section blocks a train, and
/// only a blocked train turns round.
pub proof fn lemma_travel_keeps_speed(train: Train, track: Seq<TrackSection>)
    ensures
        train.travel(track).end.speed == train.speed,
    decreases track.len(),
{
    if track.len() > 0 {
        match train.enter(track.first()) {
            Err(_) => {},
            Ok(next) => {
                lemma_travel_keeps_speed(next, track.drop_first());
            },
        }
    }
}

/// A journey over two tracks laid end to end is the journey over the first
/// and then, from where that one ended, over the second. A train that was
/// stopped on the first never enters the second.
pub proof fn lemma_travel_in_parts(
    train: Train,
    first: Seq<TrackSection>,
    second: Seq<TrackSection>,
)
    ensures
        train.travel(first + second) == if train.travel(first).outcome is Err {
            train.travel(first)
        } else {
            train.travel(first).end.travel(second)
        },
    decreases first.len(),
{
    if first.len() == 0 {
        assert(first + second == second);
    } else {
        assert((first + second).first() == first.first());
        assert((first + second).drop_first() == first.drop_first() + second);
        match train.enter(first.first()) {
            Err(_) => {},
            Ok(next) => {
                lemma_travel_in_parts(next, first.drop_first(), second);
            },
        }
    }
}

/// The state of the one train on the line.
///
/// The speed is never 0, and it can always be reversed.
#[derive(Debug)]
pub struct TrainState {
    position: usize,
    speed: i32,
}

impl View for TrainState {
    type V = Train;

    closed spec fn view(&self) -> Train {
        Train { position: self.position as nat, speed: self.speed as int }
    }
}

impl TrainState {
    #[verifier::type_invariant]
    spec fn sound(self) -> bool {
        self.speed != 0 && self.speed != i32::MIN
    }

    /// A train at the start of the line.
    pub fn new() -> (train: TrainState)
        ensures
            train@ == Train::start(),
    {
        TrainState { position: 0, speed: 1 }
    }

    /// Where the train stands.
    pub fn position(&self) -> (position: usize)
        ensures
            position == self@.position,
    {
        self.position
    }

    /// How far the train moves in one section. Never 0.
    pub fn speed(&self) -> (speed: i32)
        ensures
            speed == self@.speed,
            speed != 0,
    {
        proof {
            use_type_invariant(self);
        }
        self.speed
    }

    /// Takes a section's answer to this train.
    ///
    /// With a new position the train moves there and the section is behind it:
    /// `Ok(true)`. Without one the train was blocked: it turns round where it
    /// stands, and the section is still to be taken: `Ok(false)`. An error
    /// leaves the train as it was and is handed on.
    pub fn settle(&mut self, outcome: TrackResult<Option<usize>>) -> (result: TrackResult<bool>)
        ensures
            match outcome {
                Ok(Some(position)) => {
                    &&& result == Ok::<bool, TrackError>(true)
                    &&& final(self)@ == old(self)@.at(position as nat)
                },
                Ok(None) => {
                    &&& result == Ok::<bool, TrackError>(false)
                    &&& final(self)@ == old(self)@.reversed()
                },
                Err(error) => {
                    &&& result == Err::<bool, TrackError>(error)
                    &&& final(self)@ == old(self)@
                },
            },
    {
        proof {
            use_type_invariant(&*self);
        }
        match outcome {
            Ok(Some(position)) => {
                self.position = position;
                Ok(true)
            },
            Ok(None) => {
                self.speed = -self.speed;
                Ok(false)
            },
            Err(error) => Err(error),
        }
    }

    /// Takes the train through one section.
    ///
    /// Where the section lets the train through, the train stands behind it
    /// and keeps its speed. Where it stops the train, its error is returned
    /// and the train stays as it was.
    pub fn enter(&mut self, section: TrackSection) -> (result: TrackResult<()>)
        ensures
            match old(self)@.enter(section) {
                Ok(next) => {
                    &&& result is Ok
                    &&& final(self)@ == next
                },
                Err(error) => {
                    &&& result == Err::<(), TrackError>(error)
                    &&& final(self)@ == old(self)@
                },
            },
    {
        let first = move_train(section, self.position, self.speed);
        match self.settle(first) {
            Err(error) => Err(error),
            Ok(true) => Ok(()),
            Ok(false) => {
                // The blocked train has turned round and takes the section
                // the other way; that attempt is final. No kind of section
                // blocks a train, so this arm is never taken: it stays for a
                // kind that would.
                let second = move_train(section, self.position, self.speed);
                match self.settle(second) {
                    Err(error) => Err(error),
                    Ok(true) => Ok(()),
                    Ok(false) => unreached(),
                }
            },
        }
    }

    /// Takes the train over `track`, section by section, up to the first
    /// section that stops it.
    ///
    /// Returns that section's error, with the train at rest before it, or
    /// `Ok` with the train behind the last section. An empty track leaves the
    /// train as it was.
    pub fn travel(&mut self, track: &[TrackSection]) -> (result: TrackResult<()>)
        ensures
            result == old(self)@.travel(track@).outcome,
            final(self)@ == old(self)@.travel(track@).end,
            final(self)@.speed == old(self)@.speed,
            track@.len() == 0 ==> result is Ok && final(self)@ == old(self)@,
    {
        proof {
            lemma_travel_keeps_speed(self@, track@);
        }
        let mut next: usize = 0;
        assert(track@.skip(0) == track@);
        while next < track.len()
            invariant
                next <= track@.len(),
                old(self)@.travel(track@) == self@.travel(track@.skip(next as int)),
                old(self)@.travel(track@).end.speed == old(self)@.speed,
            decreases track@.len() - next,
        {
            let ghost rest = track@.skip(next as int);
            assert(rest.first() == track@[next as int]);
            assert(rest.drop_first() == track@.skip(next + 1));
            match self.enter(track[next]) {
                Err(error) => {
                    return Err(error);
                },
                Ok(()) => {},
            }
            next = next + 1;
        }
        assert(track@.skip(next as int).len() == 0);
        Ok(())
    }
}

} // verus!
