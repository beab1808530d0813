//! Game phases and the key handling of the splash screens.
use vstd::prelude::*;

verus! {

/// The coarse mode of the game; it decides which UI subtree is mounted.
#[derive(Clone, Copy, Debug, PartialEq, Eq, Structural)]
pub enum TurnPhase {
    StartScreen,
    AwaitingInput,
    PlayerTurn,
    MonsterTurn,
    NextLevel,
    GameOver,
    Victory,
}

/// The modal screen layered on top of the interactive phase.
#[derive(Clone, Copy, Debug, PartialEq, Eq, Structural)]
pub enum PopupPhase {
    Closed,
    InventoryPopup,
    EquipmentPopup,
}

/// The phases that show a full-screen splash.
pub open spec fn splash_phase(phase: TurnPhase) -> bool {
    phase == TurnPhase::StartScreen || phase == TurnPhase::NextLevel || phase == TurnPhase::GameOver
        || phase == TurnPhase::Victory
}

pub fn is_splash_phase(phase: TurnPhase) -> (r: bool)
    ensures
        r == splash_phase(phase),
{
    match phase {
        TurnPhase::StartScreen | TurnPhase::NextLevel | TurnPhase::GameOver | TurnPhase::Victory => true,
        _ => false,
    }
}

/// The phase that a key press leads to from a splash phase.
pub open spec fn after_key_press(phase: TurnPhase) -> TurnPhase {
    if phase == TurnPhase::StartScreen || phase == TurnPhase::NextLevel {
        TurnPhase::AwaitingInput
    } else {
        TurnPhase::StartScreen
    }
}

/// Key handling on a splash screen: any key leaves the start and next-level
/// screens for play, and the game-over and victory screens for the start
/// screen. Returns the phase to switch to, if any; no other phase consumes
/// the key here.
pub fn start_screen_input(phase: TurnPhase, key_pressed: bool) -> (r: Option<TurnPhase>)
    ensures
        r == (if key_pressed && splash_phase(phase) {
            Some(after_key_press(phase))
        } else {
            None
        }),
{
    if !key_pressed {
        return None;
    }
    match phase {
        TurnPhase::StartScreen | TurnPhase::NextLevel => Some(TurnPhase::AwaitingInput),
        TurnPhase::GameOver | TurnPhase::Victory => Some(TurnPhase::StartScreen),
        _ => None,
    }
}

/// A key press moves the start and next-level screens to play, and the
/// game-over and victory screens back to the start screen.
pub proof fn lemma_key_press_transitions()
    ensures
        after_key_press(TurnPhase::StartScreen) == TurnPhase::AwaitingInput,
        after_key_press(TurnPhase::NextLevel) == TurnPhase::AwaitingInput,
        after_key_press(TurnPhase::GameOver) == TurnPhase::StartScreen,
        after_key_press(TurnPhase::Victory) == TurnPhase::StartScreen,
        forall|p: TurnPhase| splash_phase(p) <==> (p == TurnPhase::StartScreen || p == TurnPhase::NextLevel
            || p == TurnPhase::GameOver || p == TurnPhase::Victory),
{
}

} // verus!
