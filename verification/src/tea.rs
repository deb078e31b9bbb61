//! The tea-brewing instantiation of the model: the brewing states, the
//! brewing actions, and the total transition function between them.

use crate::model::TeaModel;
use vstd::prelude::*;

verus! {

/// The kinds of tea that can be brewed.
#[derive(Clone, Copy, Debug, PartialEq, Eq, Structural)]
pub enum TeaType {
    Black,
    Green,
    White,
    Oolong,
}

/// The ways a brewing request can be invalid. Each is folded into the state
/// as a value rather than raised as a fault.
#[derive(Clone, Copy, Debug, PartialEq, Eq, Structural)]
pub enum MakeTeaError {
    MissingTeaBag,
    WaterTooHot,
    WaterTooCold,
    MissingWater,
    CupNotEmpty,
}

/// Where the brew stands: from fetching a cup to ready tea, or an error
/// state reached by an invalid request.
#[derive(Clone, Copy, Debug, PartialEq, Eq, Structural)]
pub enum Status {
    FetchingCup,
    EmptyCup,
    TeaBag(TeaType),
    Water(u8),
    TeaReady,
    Error(MakeTeaError),
}

impl Default for Status {
    /// The brew starts while the cup is still being fetched.
    fn default() -> (status: Self)
        ensures
            status == Status::FetchingCup,
    {
        Status::FetchingCup
    }
}

impl TeaType {
    /// The inclusive range of steeping temperatures, in degrees, at which
    /// this kind of tea brews well: the pair holds the lowest and the
    /// highest acceptable temperature.
    pub open spec fn spec_temp_range(self) -> (u8, u8) {
        match self {
            TeaType::Black => (100u8, 100u8),
            TeaType::Green => (70u8, 79u8),
            TeaType::White => (70u8, 82u8),
            TeaType::Oolong => (85u8, 93u8),
        }
    }

    /// Returns the inclusive `(lowest, highest)` steeping temperatures for
    /// this kind of tea.
    pub fn temp_range(&self) -> (range: (u8, u8))
        ensures
            range == self.spec_temp_range(),
    {
        match self {
            TeaType::Black => (100, 100),
            TeaType::Green => (70, 79),
            TeaType::White => (70, 82),
            TeaType::Oolong => (85, 93),
        }
    }
}

/// The application state managed by the model: the current brewing status.
#[derive(Clone, Copy, Debug, PartialEq, Eq, Structural)]
pub struct AppState {
    pub status: Status,
}

impl Default for AppState {
    /// A fresh state: the cup is still being fetched.
    fn default() -> (state: Self)
        ensures
            state == (AppState { status: Status::FetchingCup }),
    {
        AppState { status: Status::FetchingCup }
    }
}

/// The brewing actions that can be sent to the model.
#[derive(Clone, Copy, Debug, PartialEq, Eq, Structural)]
pub enum AppStatusUpdate {
    CupFetched,
    AddWater(u8),
    AddTeaBag(TeaType),
    Done,
}

/// The transition function of the tea model, total over every
/// (state, action) pair:
/// - `CupFetched` always yields `EmptyCup`, whatever came before;
/// - `AddTeaBag` is valid only from `EmptyCup`, else `CupNotEmpty`;
/// - `AddWater` is valid only from `TeaBag`, else `MissingTeaBag`; water
///   below the kind's steeping range yields `WaterTooCold`, above it
///   `WaterTooHot`, inside it `Water`;
/// - `Done` is valid only from `Water`, else `MissingWater`.
pub open spec fn spec_tea_update(state: AppState, action: AppStatusUpdate) -> AppState {
    match action {
        AppStatusUpdate::CupFetched => AppState { status: Status::EmptyCup },
        AppStatusUpdate::AddWater(temperature) => match state.status {
            Status::TeaBag(tea_type) => {
                if temperature < tea_type.spec_temp_range().0 {
                    AppState { status: Status::Error(MakeTeaError::WaterTooCold) }
                } else if temperature > tea_type.spec_temp_range().1 {
                    AppState { status: Status::Error(MakeTeaError::WaterTooHot) }
                } else {
                    AppState { status: Status::Water(temperature) }
                }
            },
            _ => AppState { status: Status::Error(MakeTeaError::MissingTeaBag) },
        },
        AppStatusUpdate::AddTeaBag(tea_type) => match state.status {
            Status::EmptyCup => AppState { status: Status::TeaBag(tea_type) },
            _ => AppState { status: Status::Error(MakeTeaError::CupNotEmpty) },
        },
        AppStatusUpdate::Done => match state.status {
            Status::Water(_) => AppState { status: Status::TeaReady },
            _ => AppState { status: Status::Error(MakeTeaError::MissingWater) },
        },
    }
}

impl TeaModel for AppState {
    type Action = AppStatusUpdate;

    open spec fn spec_init() -> Self {
        AppState { status: Status::FetchingCup }
    }

    open spec fn spec_update(self, action: AppStatusUpdate) -> Self {
        spec_tea_update(self, action)
    }

    fn init() -> (s: Self) {
        AppState { status: Status::FetchingCup }
    }

    fn update(&mut self, action: AppStatusUpdate) {
        match action {
            AppStatusUpdate::CupFetched => {
                // when the cup is fetched, we start with an empty cup
                self.status = Status::EmptyCup;
            },
            AppStatusUpdate::AddWater(temperature) => {
                let Status::TeaBag(tea_type) = self.status else {
                    // if there is no tea bag, we can't make tea
                    self.status = Status::Error(MakeTeaError::MissingTeaBag);
                    return;
                };
                // check that the water temperature is within a valid range
                // for a good cup of tea
                let (low, high) = tea_type.temp_range();
                if temperature < low {
                    self.status = Status::Error(MakeTeaError::WaterTooCold);
                } else if temperature > high {
                    self.status = Status::Error(MakeTeaError::WaterTooHot);
                } else {
                    self.status = Status::Water(temperature);
                }
            },
            AppStatusUpdate::AddTeaBag(tea_type) => {
                if matches!(self.status, Status::EmptyCup) {
                    self.status = Status::TeaBag(tea_type);
                } else {
                    // if we are not in a state to add a tea bag, we can't add it
                    self.status = Status::Error(MakeTeaError::CupNotEmpty);
                }
            },
            AppStatusUpdate::Done => {
                if let Status::Water(_) = self.status {
                    // if we have water and a tea bag, we can finish making tea
                    self.status = Status::TeaReady;
                } else {
                    // if we are not in a state to make tea, we can't finish
                    self.status = Status::Error(MakeTeaError::MissingWater);
                }
            },
        }
    }
}

/// `CupFetched` is idempotent in effect: from every state, its application
/// yields `EmptyCup`, regardless of what came before.
pub proof fn lemma_cup_fetched_resets(state: AppState)
    ensures
        spec_tea_update(state, AppStatusUpdate::CupFetched)
            == (AppState { status: Status::EmptyCup }),
{
}

} // verus!
