use railway::{run_train_on_track, TrackError, TrackSection};

#[test]
fn test_run_train_on_track() {
    let track = vec![
        TrackSection::Straight,
        TrackSection::Curve,
        TrackSection::Obstacle,
        TrackSection::Signal,
        TrackSection::Straight,
        TrackSection::Curve,
    ];
    assert_eq!(run_train_on_track(track), Err(TrackError::Obstacle));
}

#[test]
fn curve_alone_derails() {
    assert_eq!(run_train_on_track(vec![TrackSection::Curve]), Err(TrackError::BrokenRail));
}

#[test]
fn empty_track_succeeds() {
    assert_eq!(run_train_on_track(Vec::new()), Ok(()));
}

#[test]
fn two_straights_succeed() {
    assert_eq!(
        run_train_on_track(vec![TrackSection::Straight, TrackSection::Straight]),
        Ok(())
    );
}

#[test]
fn first_section_that_stops_the_train_decides() {
    assert_eq!(
        run_train_on_track(vec![TrackSection::Signal, TrackSection::Obstacle]),
        Err(TrackError::Signal)
    );
    assert_eq!(
        run_train_on_track(vec![TrackSection::Obstacle, TrackSection::Signal]),
        Err(TrackError::Obstacle)
    );
    assert_eq!(
        run_train_on_track(vec![TrackSection::Curve, TrackSection::Obstacle, TrackSection::Signal]),
        Err(TrackError::BrokenRail)
    );
    assert_eq!(
        run_train_on_track(vec![TrackSection::Straight, TrackSection::Signal, TrackSection::Curve]),
        Err(TrackError::Signal)
    );
}

#[test]
fn curve_stops_the_train_only_as_first_section() {
    assert_eq!(
        run_train_on_track(vec![TrackSection::Straight, TrackSection::Curve, TrackSection::Curve]),
        Ok(())
    );
    assert_eq!(
        run_train_on_track(vec![TrackSection::Curve, TrackSection::Straight]),
        Err(TrackError::BrokenRail)
    );
}

#[test]
fn obstacle_and_signal_stop_the_train_wherever_they_lie() {
    for at in 0..6 {
        let mut track = vec![TrackSection::Straight; 6];
        track[at] = TrackSection::Obstacle;
        assert_eq!(run_train_on_track(track), Err(TrackError::Obstacle));

        let mut track = vec![TrackSection::Straight; 6];
        track[at] = TrackSection::Signal;
        assert_eq!(run_train_on_track(track), Err(TrackError::Signal));
    }
}

#[test]
fn single_sections_give_their_own_outcome() {
    assert_eq!(run_train_on_track(vec![TrackSection::Straight]), Ok(()));
    assert_eq!(run_train_on_track(vec![TrackSection::Obstacle]), Err(TrackError::Obstacle));
    assert_eq!(run_train_on_track(vec![TrackSection::Signal]), Err(TrackError::Signal));
}
