//! Which steps run at which point of the phase lifecycle: entering a
//! phase, each tick within it, leaving it, and each tick while a popup is
//! open.
use vstd::prelude::*;
use crate::phase::{PopupPhase, TurnPhase, splash_phase, is_splash_phase};

verus! {

/// A point of the lifecycle that steps are attached to.
#[derive(Clone, Copy, Debug, PartialEq, Eq, Structural)]
pub enum Hook {
    OnEnter(TurnPhase),
    OnUpdate(TurnPhase),
    OnExit(TurnPhase),
    InPopup(PopupPhase),
}

/// A step of the UI, run by the driver loop.
#[derive(Clone, Copy, Debug, PartialEq, Eq, Structural)]
pub enum Step {
    SplashScreen,
    StartScreenInput,
    DespawnSplashscreen,
    BottomUi,
    UpdateHpTextAndBar,
    UpdateGamelog,
    UpdateTooltip,
    HideTooltip,
    EquipWeapon,
    UpdateEquipmentText,
}

/// The splash screens: mounted on entering a splash phase, reading keys
/// while in it, unmounted on leaving it.
#[derive(Clone, Copy, Debug)]
pub struct MenuPlugin;

/// The equipment popup: each tick while it is open, handle a confirmed
/// selection, then render.
#[derive(Clone, Copy, Debug)]
pub struct EquipmentPlugin;

/// The whole UI: the HUD's own steps after those of the splash screens,
/// then those of the equipment popup.
#[derive(Clone, Copy, Debug)]
pub struct UIPlugin;

pub open spec fn menu_steps(hook: Hook) -> Seq<Step> {
    match hook {
        Hook::OnEnter(p) => if splash_phase(p) { seq![Step::SplashScreen] } else { seq![] },
        Hook::OnUpdate(p) => if splash_phase(p) { seq![Step::StartScreenInput] } else { seq![] },
        Hook::OnExit(p) => if splash_phase(p) { seq![Step::DespawnSplashscreen] } else { seq![] },
        Hook::InPopup(_) => seq![],
    }
}

pub open spec fn equipment_steps(hook: Hook) -> Seq<Step> {
    if hook == Hook::InPopup(PopupPhase::EquipmentPopup) {
        seq![Step::EquipWeapon, Step::UpdateEquipmentText]
    } else {
        seq![]
    }
}

/// The HUD is mounted when the start screen is left, refreshed each tick
/// of play, and its tooltip hidden when play is left.
pub open spec fn hud_steps(hook: Hook) -> Seq<Step> {
    if hook == Hook::OnExit(TurnPhase::StartScreen) {
        seq![Step::BottomUi]
    } else if hook == Hook::OnUpdate(TurnPhase::AwaitingInput) {
        seq![Step::UpdateHpTextAndBar, Step::UpdateGamelog, Step::UpdateTooltip]
    } else if hook == Hook::OnExit(TurnPhase::AwaitingInput) {
        seq![Step::HideTooltip]
    } else {
        seq![]
    }
}

impl MenuPlugin {
    pub fn steps(&self, hook: Hook) -> (r: Vec<Step>)
        ensures
            r@ == menu_steps(hook),
    {
        let mut r: Vec<Step> = Vec::new();
        match hook {
            Hook::OnEnter(p) => if is_splash_phase(p) {
                r.push(Step::SplashScreen);
            },
            Hook::OnUpdate(p) => if is_splash_phase(p) {
                r.push(Step::StartScreenInput);
            },
            Hook::OnExit(p) => if is_splash_phase(p) {
                r.push(Step::DespawnSplashscreen);
            },
            Hook::InPopup(_) => {},
        }
        assert(r@ =~= menu_steps(hook));
        r
    }
}

impl EquipmentPlugin {
    pub fn steps(&self, hook: Hook) -> (r: Vec<Step>)
        ensures
            r@ == equipment_steps(hook),
    {
        let mut r: Vec<Step> = Vec::new();
        if hook == Hook::InPopup(PopupPhase::EquipmentPopup) {
            r.push(Step::EquipWeapon);
            r.push(Step::UpdateEquipmentText);
        }
        assert(r@ =~= equipment_steps(hook));
        r
    }
}

impl UIPlugin {
    pub fn steps(&self, hook: Hook) -> (r: Vec<Step>)
        ensures
            r@ == menu_steps(hook) + hud_steps(hook) + equipment_steps(hook),
    {
        let mut r = MenuPlugin.steps(hook);
        if hook == Hook::OnExit(TurnPhase::StartScreen) {
            r.push(Step::BottomUi);
        } else if hook == Hook::OnUpdate(TurnPhase::AwaitingInput) {
            r.push(Step::UpdateHpTextAndBar);
            r.push(Step::UpdateGamelog);
            r.push(Step::UpdateTooltip);
        } else if hook == Hook::OnExit(TurnPhase::AwaitingInput) {
            r.push(Step::HideTooltip);
        }
        let mut e = EquipmentPlugin.steps(hook);
        r.append(&mut e);
        assert(r@ =~= menu_steps(hook) + hud_steps(hook) + equipment_steps(hook));
        r
    }
}

} // verus!
