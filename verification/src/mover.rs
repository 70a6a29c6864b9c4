//! The rule that takes a train through one section.

use vstd::prelude::*;
use crate::section::{stop_at, TrackError, TrackResult, TrackSection};

verus! {

/// Whether `target` is a position on the line. The line runs from 0 to
/// `usize::MAX`.
pub open spec fn on_line(target: int) -> bool {
    0 <= target <= usize::MAX
}

/// Where a train comes to stand that moves by `speed` from `position`.
///
/// A negative speed moves the train backwards. The train cannot leave the
/// line: a move that would carry it past either end stops at that end.
pub open spec fn landing(position: int, speed: int) -> nat {
    let target = position + speed;
    if target < 0 {
        0
    } else if target > usize::MAX {
        usize::MAX as nat
    } else {
        target as nat
    }
}

/// What a section answers to a train that enters it at `position` with
/// `speed`: the error with which it stops the train, or the position at which
/// the train leaves it.
pub open spec fn move_outcome(section: TrackSection, position: usize, speed: i32) -> TrackResult<
    Option<usize>,
> {
    match stop_at(section, position as int) {
        Some(error) => Err(error),
        None => Ok(Some(landing(position as int, speed as int) as usize)),
    }
}

/// Moves by `speed` from `position`, stopping at the ends of the line.
fn advance(position: usize, speed: i32) -> (end: usize)
    ensures
        end == landing(position as int, speed as int),
{
    match position.checked_add_signed(speed as isize) {
        Some(end) => end,
        None => if speed < 0 {
            0
        } else {
            usize::MAX
        },
    }
}

/// Takes a train that stands at `position` and runs at `speed` through one
/// section.
///
/// Returns `Ok(Some(end))` where the section lets the train through, `end`
/// being its new position, and the section's error where it stops the train.
/// A straight lets every train through, a curve every train but one at
/// position 0, which derails; an obstacle and a signal stop every train.
///
/// The new position is `position + speed` wherever that lies on the line. No
/// section answers `Ok(None)`, which would say that the train was blocked and
/// may try again the other way.
pub fn move_train(track_section: TrackSection, position: usize, speed: i32) -> (result: TrackResult<
    Option<usize>,
>)
    ensures
        result == move_outcome(track_section, position, speed),
        result != Ok::<Option<usize>, TrackError>(None),
        track_section is Straight ==> result == Ok::<Option<usize>, TrackError>(
            Some(landing(position as int, speed as int) as usize),
        ),
        track_section is Curve && position > 0 ==> result == Ok::<Option<usize>, TrackError>(
            Some(landing(position as int, speed as int) as usize),
        ),
        track_section is Curve && position == 0 ==> result == Err::<Option<usize>, TrackError>(
            TrackError::BrokenRail,
        ),
        track_section is Obstacle ==> result == Err::<Option<usize>, TrackError>(
            TrackError::Obstacle,
        ),
        track_section is Signal ==> result == Err::<Option<usize>, TrackError>(TrackError::Signal),
        result matches Ok(Some(end)) ==> on_line(position + speed) ==> end == position + speed,
{
    match track_section {
        TrackSection::Straight => Ok(Some(advance(position, speed))),
        TrackSection::Curve => {
            if position == 0 {
                Err(TrackError::BrokenRail)
            } else {
                Ok(Some(advance(position, speed)))
            }
        },
        TrackSection::Obstacle => Err(TrackError::Obstacle),
        TrackSection::Signal => Err(TrackError::Signal),
    }
}

} // verus!
