//! The central driver: the current phases, the node tree and the HUD
//! content, and the setup and teardown steps run when a phase is entered or
//! left.
use vstd::prelude::*;
use crate::equipment::PhaseChange;
use crate::grid::{CameraTransform, GridLayout, PixelPos, WindowSize};
use crate::hud::{Hud, clicked_entity, tooltip_text_of};
use crate::resolver::NamedEntity;
use crate::phase::{PopupPhase, TurnPhase, after_key_press, is_splash_phase, splash_phase, start_screen_input};
use crate::lifecycle::{SplashScreen, UiError, color_of, splash_hint, title_of, under_mounted};
use crate::ui_tree::{Role, UiNode, UiTree, created, descends, mounted, roots_only, lemma_created_same_shape, lemma_mounted_push};

verus! {

#[derive(Debug)]
pub struct Ui {
    pub tree: UiTree,
    pub hud: Hud,
    /// The game log, in the order the entries were written.
    pub log: Vec<String>,
    /// The splash screen on show, if any.
    pub splash: Option<SplashScreen>,
    pub turn: TurnPhase,
    pub popup: PopupPhase,
}

/// Room left for the nodes that one phase change may mount.
pub open spec fn room_for_phase_change(ui: &Ui) -> bool {
    ui.tree.nodes@.len() + 8 < usize::MAX
}

/// Moving to `next` would mount a splash screen that must unmount the HUD,
/// but the HUD, once created, is no longer mounted.
pub open spec fn hud_lost(ui: &Ui, next: TurnPhase) -> bool {
    &&& next != ui.turn
    &&& splash_phase(next)
    &&& next != TurnPhase::StartScreen
    &&& ui.turn != TurnPhase::StartScreen
    &&& mounted(ui.tree.nodes@, Role::HudRoot) == 0
    &&& created(ui.tree.nodes@, Role::HudRoot)
}

/// The splash screen shows the title of `phase` and the hint line.
pub open spec fn shows_splash_of(splash: Option<SplashScreen>, phase: TurnPhase) -> bool {
    splash matches Some(sp) && sp.title@ == title_of(phase) && sp.color == color_of(phase) && sp.hint@
        == splash_hint()
}

/// From id `n` on, `nodes` holds the HUD as mounted: its root, and below
/// it the log panel, the health panel and the tooltip box, all with mount
/// flag `alive`.
pub open spec fn hud_nodes_at(nodes: Seq<UiNode>, n: int, alive: bool) -> bool {
    &&& nodes.len() >= n + 4
    &&& nodes[n] == UiNode { parent: None, role: Role::HudRoot, alive }
    &&& nodes[n + 1] == UiNode { parent: Some(n as usize), role: Role::LogPanel, alive }
    &&& nodes[n + 2] == UiNode { parent: Some(n as usize), role: Role::HealthPanel, alive }
    &&& nodes[n + 3] == UiNode { parent: Some(n as usize), role: Role::TooltipBox, alive }
}

impl Ui {
    /// A well-formed tree with at most one HUD root, which is a root node,
    /// and at most one splash screen, mounted only in a splash phase and
    /// recorded in `splash`.
    pub open spec fn wf(&self) -> bool {
        &&& self.tree.wf()
        &&& mounted(self.tree.nodes@, Role::HudRoot) <= 1
        &&& roots_only(self.tree.nodes@, Role::HudRoot)
        &&& mounted(self.tree.nodes@, Role::Splash) <= 1
        &&& !splash_phase(self.turn) ==> mounted(self.tree.nodes@, Role::Splash) == 0
        &&& self.splash is Some <==> mounted(self.tree.nodes@, Role::Splash) == 1
    }

    /// The UI at start-up: the start screen's splash is mounted, the HUD is
    /// not, and no popup is open.
    pub fn new() -> (r: Ui)
        ensures
            r.wf(),
            r.turn == TurnPhase::StartScreen,
            r.popup == PopupPhase::Closed,
            mounted(r.tree.nodes@, Role::Splash) == 1,
            mounted(r.tree.nodes@, Role::HudRoot) == 0,
            shows_splash_of(r.splash, TurnPhase::StartScreen),
            r.hud.fresh(),
            r.log@.len() == 0,
    {
        let mut tree = UiTree::new();
        let splash = match tree.splash_screen(TurnPhase::StartScreen) {
            Ok(sp) => Some(sp),
            Err(_) => None,
        };
        proof {
            let s = tree.nodes@;
            lemma_mounted_push(Seq::<UiNode>::empty(), s[0], Role::HudRoot);
            lemma_mounted_push(seq![s[0]], s[1], Role::HudRoot);
            assert(s =~= Seq::<UiNode>::empty().push(s[0]).push(s[1]));
        }
        Ui { tree, hud: Hud::new(), log: Vec::new(), splash, turn: TurnPhase::StartScreen, popup: PopupPhase::Closed }
    }

    /// Moves to `next`: runs the teardown of the phase left (unmount the
    /// splash screen; mount the HUD, with fresh content and an empty log,
    /// when leaving the start screen; hide the tooltip when leaving play),
    /// then the setup of the phase entered (mount its splash screen). When
    /// that splash screen finds the HUD gone, the error is returned and no
    /// splash is mounted.
    pub fn change_turn_phase(&mut self, next: TurnPhase) -> (r: Result<(), UiError>)
        requires
            old(self).wf(),
            room_for_phase_change(old(self)),
        ensures
            final(self).wf(),
            final(self).turn == next,
            final(self).popup == old(self).popup,
            final(self).tree.nodes@.len() <= old(self).tree.nodes@.len() + 6,
            r is Err <==> hud_lost(old(self), next),
            next == old(self).turn ==> {
                &&& final(self).tree.nodes@ == old(self).tree.nodes@
                &&& final(self).hud == old(self).hud
                &&& final(self).log == old(self).log
                &&& final(self).splash == old(self).splash
            },
            old(self).turn == TurnPhase::AwaitingInput && next != TurnPhase::AwaitingInput ==> {
                &&& !final(self).hud.tooltip.text_visible
                &&& !final(self).hud.tooltip.box_visible
            },
            old(self).turn == TurnPhase::StartScreen && !splash_phase(next) ==> mounted(
                final(self).tree.nodes@,
                Role::HudRoot,
            ) == 1,
            old(self).turn == TurnPhase::StartScreen && next != TurnPhase::StartScreen && mounted(
                old(self).tree.nodes@,
                Role::HudRoot,
            ) == 0 ==> final(self).hud.fresh() && final(self).log@.len() == 0,
            old(self).turn == TurnPhase::StartScreen && next != TurnPhase::StartScreen && mounted(
                old(self).tree.nodes@,
                Role::HudRoot,
            ) == 0 ==> hud_nodes_at(final(self).tree.nodes@, old(self).tree.nodes@.len() as int, !splash_phase(next)),
            old(self).turn == TurnPhase::StartScreen && !splash_phase(next) && mounted(
                old(self).tree.nodes@,
                Role::HudRoot,
            ) == 0 ==> final(self).tree.nodes@.len() == old(self).tree.nodes@.len() + 4,
            next != old(self).turn && splash_phase(next) && next != TurnPhase::StartScreen && r is Ok ==> mounted(
                final(self).tree.nodes@,
                Role::HudRoot,
            ) == 0,
            next != old(self).turn && splash_phase(next) && r is Ok ==> {
                &&& mounted(final(self).tree.nodes@, Role::Splash) == 1
                &&& shows_splash_of(final(self).splash, next)
            },
            !splash_phase(next) || r is Err ==> {
                &&& mounted(final(self).tree.nodes@, Role::Splash) == 0
                &&& final(self).splash is None
            },
    {
        if next == self.turn {
            return Ok(());
        }
        let ghost t0 = self.tree.nodes@;
        let old_turn = self.turn;
        if is_splash_phase(old_turn) {
            self.tree.despawn_splashscreen();
            self.splash = None;
        }
        proof {
            lemma_created_same_shape(t0, self.tree.nodes@, Role::HudRoot);
        }
        if old_turn == TurnPhase::StartScreen {
            if self.tree.bottom_ui().is_some() {
                self.hud = Hud::new();
                self.log = Vec::new();
            }
        }
        if old_turn == TurnPhase::AwaitingInput {
            self.hud.hide_tooltip();
        }
        self.turn = next;
        if is_splash_phase(next) {
            let ghost s0 = self.tree.nodes@;
            match self.tree.splash_screen(next) {
                Ok(sp) => {
                    self.splash = Some(sp);
                },
                Err(e) => {
                    return Err(e);
                },
            }
            proof {
                if old_turn == TurnPhase::StartScreen && mounted(t0, Role::HudRoot) == 0 {
                    let n = t0.len() as int;
                    assert(hud_nodes_at(s0, n, true));
                    assert(descends(s0, n, n));
                    assert(descends(s0, n + 1, n));
                    assert(descends(s0, n + 2, n));
                    assert(descends(s0, n + 3, n));
                    assert(under_mounted(s0, n, Role::HudRoot));
                    assert(under_mounted(s0, n + 1, Role::HudRoot));
                    assert(under_mounted(s0, n + 2, Role::HudRoot));
                    assert(under_mounted(s0, n + 3, Role::HudRoot));
                }
                if next == TurnPhase::StartScreen {
                    let s = self.tree.nodes@;
                    let n = s0.len() as int;
                    assert(s =~= s0.push(s[n]).push(s[n + 1]));
                    lemma_mounted_push(s0, s[n], Role::HudRoot);
                    lemma_mounted_push(s0.push(s[n]), s[n + 1], Role::HudRoot);
                }
            }
        }
        Ok(())
    }

    /// Handles a key press on a splash screen. Leaving the start screen
    /// mounts the HUD and unmounts the splash; going back to the start
    /// screen mounts its splash.
    pub fn handle_key(&mut self, key_pressed: bool)
        requires
            old(self).wf(),
            room_for_phase_change(old(self)),
        ensures
            final(self).wf(),
            final(self).turn == (if key_pressed && splash_phase(old(self).turn) {
                after_key_press(old(self).turn)
            } else {
                old(self).turn
            }),
            !(key_pressed && splash_phase(old(self).turn)) ==> final(self).tree.nodes@ == old(self).tree.nodes@,
            key_pressed && splash_phase(old(self).turn) && after_key_press(old(self).turn)
                == TurnPhase::AwaitingInput ==> {
                &&& mounted(final(self).tree.nodes@, Role::Splash) == 0
                &&& final(self).splash is None
            },
            key_pressed && old(self).turn == TurnPhase::StartScreen ==> mounted(
                final(self).tree.nodes@,
                Role::HudRoot,
            ) == 1,
            key_pressed && old(self).turn == TurnPhase::StartScreen && mounted(old(self).tree.nodes@, Role::HudRoot)
                == 0 ==> final(self).hud.fresh() && final(self).log@.len() == 0,
            key_pressed && splash_phase(old(self).turn) && after_key_press(old(self).turn)
                == TurnPhase::StartScreen ==> {
                &&& mounted(final(self).tree.nodes@, Role::Splash) == 1
                &&& shows_splash_of(final(self).splash, TurnPhase::StartScreen)
            },
    {
        match start_screen_input(self.turn, key_pressed) {
            Some(next) => {
                let _ = self.change_turn_phase(next);
            },
            None => {},
        }
    }

    /// Copies the game log into the HUD's log lines.
    pub fn update_gamelog(&mut self)
        ensures
            final(self).hud.log_lines@.len() == old(self).hud.log_lines@.len(),
            forall|i: int|
                0 <= i < old(self).hud.log_lines@.len() ==> #[trigger] final(self).hud.log_lines@[i]@ == (if i
                    < old(self).log@.len() {
                    old(self).log@[i]@
                } else {
                    old(self).hud.log_lines@[i]@
                }),
            final(self).log == old(self).log,
            final(self).tree.nodes@ == old(self).tree.nodes@,
            final(self).turn == old(self).turn,
            final(self).popup == old(self).popup,
            final(self).splash == old(self).splash,
    {
        self.hud.update_gamelog(&self.log);
    }

    /// Play is going on, with no popup open.
    pub open spec fn interactive(&self) -> bool {
        self.turn == TurnPhase::AwaitingInput && self.popup == PopupPhase::Closed
    }

    /// Handles a primary click at `pointer`. Only during play, with no
    /// popup open, does it move the tooltip.
    pub fn handle_click(
        &mut self,
        pointer: PixelPos,
        window: WindowSize,
        camera: CameraTransform,
        layout: GridLayout,
        ents: &Vec<NamedEntity>,
    )
        requires
            camera.wf(),
        ensures
            final(self).turn == old(self).turn,
            final(self).popup == old(self).popup,
            final(self).tree.nodes@ == old(self).tree.nodes@,
            !old(self).interactive() ==> final(self).hud == old(self).hud,
            old(self).interactive() ==> match clicked_entity(camera, window, layout, pointer, ents@) {
                Some(i) => {
                    &&& final(self).hud.tooltip.text@ == tooltip_text_of(ents@[i])
                    &&& final(self).hud.tooltip.text_visible && final(self).hud.tooltip.box_visible
                    &&& final(self).hud.tooltip.left == pointer.x - 100
                    &&& final(self).hud.tooltip.bottom == pointer.y
                },
                None => !final(self).hud.tooltip.text_visible && !final(self).hud.tooltip.box_visible,
            },
    {
        if self.turn == TurnPhase::AwaitingInput && self.popup == PopupPhase::Closed {
            self.hud.update_tooltip(pointer, window, camera, layout, ents);
        }
    }

    /// Opens or closes a popup. Opening one leaves play, so the tooltip is
    /// hidden.
    pub fn set_popup(&mut self, popup: PopupPhase)
        ensures
            final(self).popup == popup,
            final(self).turn == old(self).turn,
            final(self).tree.nodes@ == old(self).tree.nodes@,
            final(self).splash == old(self).splash,
            final(self).log == old(self).log,
            popup != PopupPhase::Closed ==> {
                &&& !final(self).hud.tooltip.text_visible
                &&& !final(self).hud.tooltip.box_visible
            },
            popup == PopupPhase::Closed ==> final(self).hud == old(self).hud,
    {
        if popup != PopupPhase::Closed {
            self.hud.hide_tooltip();
        }
        self.popup = popup;
    }

    /// Applies the phases that a popup asked for when it finished.
    pub fn apply_phase_change(&mut self, change: PhaseChange) -> (r: Result<(), UiError>)
        requires
            old(self).wf(),
            room_for_phase_change(old(self)),
        ensures
            final(self).wf(),
            final(self).turn == change.turn,
            final(self).popup == change.popup,
            r is Err <==> hud_lost(old(self), change.turn),
            old(self).turn == TurnPhase::AwaitingInput && change.turn != TurnPhase::AwaitingInput ==> {
                &&& !final(self).hud.tooltip.text_visible
                &&& !final(self).hud.tooltip.box_visible
            },
            change.turn != old(self).turn && splash_phase(change.turn) && r is Ok ==> {
                &&& mounted(final(self).tree.nodes@, Role::Splash) == 1
                &&& shows_splash_of(final(self).splash, change.turn)
            },
            !splash_phase(change.turn) ==> mounted(final(self).tree.nodes@, Role::Splash) == 0,
    {
        self.set_popup(change.popup);
        self.change_turn_phase(change.turn)
    }
}

} // verus!
