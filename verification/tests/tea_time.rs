//! Tests for the tea model: the runtime's queue discipline and the
//! tea-brewing transition function.

use tea::model::{use_tea_model, TeaModel};
use tea::tea::{AppState, AppStatusUpdate, MakeTeaError, Status, TeaType};

fn state(status: Status) -> AppState {
    AppState { status }
}

#[test]
fn confirm_that_we_start_without_a_cup() {
    let app_state = AppState::default();
    assert_eq!(app_state.status, Status::FetchingCup);
}

#[test]
fn confirm_that_we_can_only_add_a_tea_bag_when_we_have_a_cup() {
    let mut app_state = AppState::default();
    app_state.update(AppStatusUpdate::AddTeaBag(TeaType::Black));
    assert_eq!(app_state.status, Status::Error(MakeTeaError::CupNotEmpty));

    app_state.update(AppStatusUpdate::CupFetched);
    app_state.update(AppStatusUpdate::AddTeaBag(TeaType::Black));
    assert_eq!(app_state.status, Status::TeaBag(TeaType::Black));
}

#[test]
fn fresh_handle_reads_the_default_state() {
    let handle = use_tea_model::<AppState>();
    assert_eq!(handle.read().status, Status::FetchingCup);
    assert_eq!(*handle.read(), AppState::default());
}

#[test]
fn send_alone_does_not_change_the_committed_state() {
    let mut handle = use_tea_model::<AppState>();
    handle.send(AppStatusUpdate::CupFetched);
    handle.send(AppStatusUpdate::AddTeaBag(TeaType::Green));
    assert_eq!(handle.read().status, Status::FetchingCup);
}

#[test]
fn step_on_an_empty_queue_changes_nothing() {
    let mut handle = use_tea_model::<AppState>();
    assert!(!handle.step());
    assert_eq!(handle.read().status, Status::FetchingCup);
}

#[test]
fn committed_states_follow_the_left_fold_of_sent_actions() {
    // A single producer sends four actions; the committed state after each
    // step is the fold of the transition function over the prefix so far.
    let mut handle = use_tea_model::<AppState>();
    let actions = [
        AppStatusUpdate::CupFetched,
        AppStatusUpdate::AddTeaBag(TeaType::Green),
        AppStatusUpdate::AddWater(75),
        AppStatusUpdate::Done,
    ];
    for action in actions {
        handle.send(action);
    }

    let mut replay = AppState::default();
    for action in actions {
        assert!(handle.step());
        replay.update(action);
        assert_eq!(*handle.read(), replay);
    }
    assert!(!handle.step());
    assert_eq!(handle.read().status, Status::TeaReady);
}

#[test]
fn replaying_the_same_actions_reaches_the_same_state() {
    let actions = [
        AppStatusUpdate::CupFetched,
        AppStatusUpdate::AddTeaBag(TeaType::Oolong),
        AppStatusUpdate::AddWater(90),
        AppStatusUpdate::Done,
    ];
    let mut first = use_tea_model::<AppState>();
    let mut second = use_tea_model::<AppState>();
    for action in actions {
        first.send(action);
        second.send(action);
    }
    first.drain();
    second.drain();
    assert_eq!(*first.read(), *second.read());
    assert_eq!(first.read().status, Status::TeaReady);
}

#[test]
fn drain_applies_every_pending_action_in_order() {
    let mut handle = use_tea_model::<AppState>();
    handle.send(AppStatusUpdate::CupFetched);
    handle.send(AppStatusUpdate::AddTeaBag(TeaType::Black));
    handle.send(AppStatusUpdate::AddWater(100));
    handle.drain();
    assert_eq!(handle.read().status, Status::Water(100));
    // the queue is empty again: a further step has nothing to apply
    assert!(!handle.step());
}

#[test]
fn cup_fetched_empties_the_cup_from_every_state() {
    let priors = [
        state(Status::FetchingCup),
        state(Status::EmptyCup),
        state(Status::TeaBag(TeaType::White)),
        state(Status::Water(80)),
        state(Status::TeaReady),
        state(Status::Error(MakeTeaError::MissingWater)),
    ];
    for prior in priors {
        let mut app_state = prior;
        app_state.update(AppStatusUpdate::CupFetched);
        assert_eq!(app_state.status, Status::EmptyCup);
    }
}

#[test]
fn cold_water_then_occupied_cup() {
    let mut app_state = state(Status::EmptyCup);
    app_state.update(AppStatusUpdate::AddTeaBag(TeaType::Green));
    assert_eq!(app_state.status, Status::TeaBag(TeaType::Green));
    app_state.update(AppStatusUpdate::AddWater(65));
    assert_eq!(app_state.status, Status::Error(MakeTeaError::WaterTooCold));
    app_state.update(AppStatusUpdate::AddTeaBag(TeaType::Green));
    assert_eq!(app_state.status, Status::Error(MakeTeaError::CupNotEmpty));
}

#[test]
fn black_tea_at_the_inclusive_boundary() {
    let mut app_state = state(Status::EmptyCup);
    app_state.update(AppStatusUpdate::AddTeaBag(TeaType::Black));
    assert_eq!(app_state.status, Status::TeaBag(TeaType::Black));
    app_state.update(AppStatusUpdate::AddWater(100));
    assert_eq!(app_state.status, Status::Water(100));
    app_state.update(AppStatusUpdate::Done);
    assert_eq!(app_state.status, Status::TeaReady);
}

#[test]
fn water_without_a_tea_bag() {
    let mut app_state = AppState::default();
    app_state.update(AppStatusUpdate::AddWater(90));
    assert_eq!(app_state.status, Status::Error(MakeTeaError::MissingTeaBag));
}

#[test]
fn tea_bag_into_a_cup_of_water() {
    let mut app_state = state(Status::Water(80));
    app_state.update(AppStatusUpdate::AddTeaBag(TeaType::Oolong));
    assert_eq!(app_state.status, Status::Error(MakeTeaError::CupNotEmpty));
}

#[test]
fn steeping_ranges_per_kind() {
    assert_eq!(TeaType::Black.temp_range(), (100, 100));
    assert_eq!(TeaType::Green.temp_range(), (70, 79));
    assert_eq!(TeaType::White.temp_range(), (70, 82));
    assert_eq!(TeaType::Oolong.temp_range(), (85, 93));
}

#[test]
fn water_temperature_boundaries_per_kind() {
    let cases = [
        (TeaType::Black, 100, 100),
        (TeaType::Green, 70, 79),
        (TeaType::White, 70, 82),
        (TeaType::Oolong, 85, 93),
    ];
    for (kind, low, high) in cases {
        let mut app_state = state(Status::TeaBag(kind));
        app_state.update(AppStatusUpdate::AddWater(low));
        assert_eq!(app_state.status, Status::Water(low));

        let mut app_state = state(Status::TeaBag(kind));
        app_state.update(AppStatusUpdate::AddWater(high));
        assert_eq!(app_state.status, Status::Water(high));

        if low > 0 {
            let mut app_state = state(Status::TeaBag(kind));
            app_state.update(AppStatusUpdate::AddWater(low - 1));
            assert_eq!(app_state.status, Status::Error(MakeTeaError::WaterTooCold));
        }

        if high < u8::MAX {
            let mut app_state = state(Status::TeaBag(kind));
            app_state.update(AppStatusUpdate::AddWater(high + 1));
            assert_eq!(app_state.status, Status::Error(MakeTeaError::WaterTooHot));
        }
    }
}

#[test]
fn done_without_water() {
    let mut app_state = state(Status::EmptyCup);
    app_state.update(AppStatusUpdate::Done);
    assert_eq!(app_state.status, Status::Error(MakeTeaError::MissingWater));

    let mut app_state = state(Status::TeaBag(TeaType::White));
    app_state.update(AppStatusUpdate::Done);
    assert_eq!(app_state.status, Status::Error(MakeTeaError::MissingWater));
}

#[test]
fn status_defaults_to_fetching_cup() {
    assert_eq!(Status::default(), Status::FetchingCup);
}
