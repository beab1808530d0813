use rogue_hud::driver::Ui;
use rogue_hud::equipment::PhaseChange;
use rogue_hud::grid::{CameraTransform, GridLayout, PixelPos, WindowSize};
use rogue_hud::health::HealthValue;
use rogue_hud::lifecycle::{splash_title, TitleColor, UiError};
use rogue_hud::phase::{start_screen_input, PopupPhase, TurnPhase};
use rogue_hud::position::Position;
use rogue_hud::resolver::NamedEntity;
use rogue_hud::schedule::{EquipmentPlugin, Hook, MenuPlugin, Step, UIPlugin};
use rogue_hud::ui_tree::{Role, UiTree};

fn mounted(tree: &UiTree, role: Role) -> usize {
    tree.count_mounted(role)
}

#[test]
fn key_press_transitions() {
    assert_eq!(start_screen_input(TurnPhase::StartScreen, true), Some(TurnPhase::AwaitingInput));
    assert_eq!(start_screen_input(TurnPhase::NextLevel, true), Some(TurnPhase::AwaitingInput));
    assert_eq!(start_screen_input(TurnPhase::GameOver, true), Some(TurnPhase::StartScreen));
    assert_eq!(start_screen_input(TurnPhase::Victory, true), Some(TurnPhase::StartScreen));
    assert_eq!(start_screen_input(TurnPhase::StartScreen, false), None);
    assert_eq!(start_screen_input(TurnPhase::AwaitingInput, true), None);
}

#[test]
fn splash_titles() {
    assert_eq!(splash_title(TurnPhase::StartScreen), ("Rogue Quest", TitleColor::Gold));
    assert_eq!(splash_title(TurnPhase::GameOver), ("Game Over", TitleColor::Red));
    assert_eq!(splash_title(TurnPhase::Victory), ("You win!", TitleColor::Gold));
    assert_eq!(splash_title(TurnPhase::NextLevel), ("Level Completed", TitleColor::Gold));
}

#[test]
fn leaving_start_screen_mounts_one_hud() {
    let mut ui = Ui::new();
    assert_eq!(mounted(&ui.tree, Role::Splash), 1);
    assert_eq!(mounted(&ui.tree, Role::HudRoot), 0);
    ui.handle_key(true);
    assert_eq!(ui.turn, TurnPhase::AwaitingInput);
    assert_eq!(mounted(&ui.tree, Role::Splash), 0);
    assert_eq!(mounted(&ui.tree, Role::SplashTitle), 0);
    assert_eq!(mounted(&ui.tree, Role::HudRoot), 1);
    assert_eq!(mounted(&ui.tree, Role::TooltipBox), 1);
}

#[test]
fn game_over_unmounts_hud_and_cycle_remounts_once() {
    let mut ui = Ui::new();
    ui.handle_key(true);
    assert_eq!(ui.change_turn_phase(TurnPhase::PlayerTurn), Ok(()));
    assert_eq!(ui.change_turn_phase(TurnPhase::GameOver), Ok(()));
    assert_eq!(mounted(&ui.tree, Role::HudRoot), 0);
    assert_eq!(mounted(&ui.tree, Role::LogPanel), 0);
    assert_eq!(mounted(&ui.tree, Role::Splash), 1);
    ui.handle_key(true);
    assert_eq!(ui.turn, TurnPhase::StartScreen);
    assert_eq!(mounted(&ui.tree, Role::Splash), 1);
    ui.handle_key(true);
    assert_eq!(ui.turn, TurnPhase::AwaitingInput);
    assert_eq!(mounted(&ui.tree, Role::HudRoot), 1);
    assert_eq!(mounted(&ui.tree, Role::Splash), 0);
}

#[test]
fn leaving_play_hides_tooltip() {
    let mut ui = Ui::new();
    ui.handle_key(true);
    let ents = vec![NamedEntity {
        label: "Goblin".to_string(),
        pos: Position::new_from2d(5, 5),
        health: Some(HealthValue { current: 2, max: 2 }),
    }];
    let window = WindowSize { width: 800, height: 600 };
    let layout = GridLayout { cols: 80, rows: 60, ui_height: 0 };
    ui.hud.update_tooltip(PixelPos { x: 50, y: 50 }, window, CameraTransform::identity(), layout, &ents);
    assert!(ui.hud.tooltip.text_visible);
    assert_eq!(ui.change_turn_phase(TurnPhase::PlayerTurn), Ok(()));
    assert!(!ui.hud.tooltip.text_visible);
    assert!(!ui.hud.tooltip.box_visible);
}

#[test]
fn opening_popup_hides_tooltip_and_closing_returns_to_play() {
    let mut ui = Ui::new();
    ui.handle_key(true);
    ui.hud.tooltip.text_visible = true;
    ui.hud.tooltip.box_visible = true;
    ui.set_popup(PopupPhase::EquipmentPopup);
    assert!(!ui.hud.tooltip.text_visible && !ui.hud.tooltip.box_visible);
    let r = ui.apply_phase_change(PhaseChange { turn: TurnPhase::PlayerTurn, popup: PopupPhase::Closed });
    assert_eq!(r, Ok(()));
    assert_eq!(ui.turn, TurnPhase::PlayerTurn);
    assert_eq!(ui.popup, PopupPhase::Closed);
}

#[test]
fn two_hud_roots_is_an_invariant_violation() {
    let mut tree = UiTree::new();
    tree.spawn(None, Role::HudRoot);
    tree.spawn(None, Role::HudRoot);
    assert_eq!(tree.splash_screen(TurnPhase::GameOver).err(), Some(UiError::InvariantViolation));
    assert_eq!(tree.nodes.len(), 2);
    let sp = tree.splash_screen(TurnPhase::StartScreen).unwrap();
    assert_eq!(sp.id, 2);
    assert_eq!(sp.title, "Rogue Quest");
}

#[test]
fn unmounted_hud_after_creation_is_an_invariant_violation() {
    let mut tree = UiTree::new();
    let top = tree.bottom_ui().unwrap();
    tree.despawn_recursive(top.id);
    assert_eq!(tree.splash_screen(TurnPhase::Victory).err(), Some(UiError::InvariantViolation));
    assert_eq!(tree.nodes.len(), 4);
    // Before any HUD exists there is nothing to unmount.
    let mut fresh = UiTree::new();
    let sp = fresh.splash_screen(TurnPhase::Victory).unwrap();
    assert_eq!(sp.title, "You win!");
}

#[test]
fn splash_shows_title_colour_and_hint() {
    let mut tree = UiTree::new();
    tree.bottom_ui();
    let sp = tree.splash_screen(TurnPhase::GameOver).unwrap();
    assert_eq!(sp.title, "Game Over");
    assert_eq!(sp.color, TitleColor::Red);
    assert_eq!(sp.hint, "\nPress any key to start game.");
    assert_eq!(tree.count_mounted(Role::HudRoot), 0);
    assert_eq!(tree.count_mounted(Role::Splash), 1);
}

#[test]
fn start_screen_ui_shows_its_splash() {
    let ui = Ui::new();
    let sp = ui.splash.as_ref().unwrap();
    assert_eq!(sp.title, "Rogue Quest");
    assert_eq!(sp.color, TitleColor::Gold);
    assert_eq!(sp.hint, "\nPress any key to start game.");
    assert!(ui.log.is_empty());
}

#[test]
fn remounted_hud_starts_with_fresh_content_and_empty_log() {
    let mut ui = Ui::new();
    ui.handle_key(true);
    ui.log.push("You hit the goblin.".to_string());
    ui.update_gamelog();
    assert_eq!(ui.hud.log_lines[0], "You hit the goblin.");
    ui.hud.update_hp_text_and_bar(HealthValue { current: 3, max: 20 });
    assert_eq!(ui.change_turn_phase(TurnPhase::GameOver), Ok(()));
    assert_eq!(ui.splash.as_ref().unwrap().title, "Game Over");
    ui.handle_key(true);
    ui.handle_key(true);
    assert_eq!(ui.turn, TurnPhase::AwaitingInput);
    assert!(ui.log.is_empty());
    assert_eq!(ui.hud.log_lines[0], "Log...");
    assert_eq!(ui.hud.hp_text, "HP: 20 / 20");
    assert!(ui.splash.is_none());
}

#[test]
fn game_over_after_next_level_reports_lost_hud() {
    let mut ui = Ui::new();
    ui.handle_key(true);
    assert_eq!(ui.change_turn_phase(TurnPhase::NextLevel), Ok(()));
    assert_eq!(ui.splash.as_ref().unwrap().title, "Level Completed");
    ui.handle_key(true);
    assert_eq!(ui.turn, TurnPhase::AwaitingInput);
    assert_eq!(mounted(&ui.tree, Role::HudRoot), 0);
    assert_eq!(ui.change_turn_phase(TurnPhase::GameOver), Err(UiError::InvariantViolation));
    assert_eq!(ui.turn, TurnPhase::GameOver);
    assert!(ui.splash.is_none());
    assert_eq!(mounted(&ui.tree, Role::Splash), 0);
}

#[test]
fn despawn_removes_whole_subtree_only() {
    let mut tree = UiTree::new();
    let a = tree.spawn(None, Role::HudRoot);
    let b = tree.spawn(Some(a), Role::LogPanel);
    let _c = tree.spawn(Some(b), Role::TooltipBox);
    let d = tree.spawn(None, Role::Splash);
    tree.despawn_recursive(b);
    let alive: Vec<bool> = tree.nodes.iter().map(|n| n.alive).collect();
    assert_eq!(alive, vec![true, false, false, true]);
    tree.despawn_recursive(a);
    assert!(tree.nodes[d].alive);
    assert_eq!(tree.count_mounted(Role::HudRoot), 0);
}

#[test]
fn bottom_ui_mounts_at_most_once() {
    let mut tree = UiTree::new();
    let top = tree.bottom_ui().unwrap();
    assert_eq!(top.id, 0);
    assert_eq!(tree.nodes.len(), 4);
    assert!(tree.bottom_ui().is_none());
    assert_eq!(tree.nodes.len(), 4);
}

#[test]
fn schedule_of_plugins() {
    assert_eq!(MenuPlugin.steps(Hook::OnEnter(TurnPhase::Victory)), vec![Step::SplashScreen]);
    assert_eq!(MenuPlugin.steps(Hook::OnEnter(TurnPhase::PlayerTurn)), vec![]);
    assert_eq!(
        EquipmentPlugin.steps(Hook::InPopup(PopupPhase::EquipmentPopup)),
        vec![Step::EquipWeapon, Step::UpdateEquipmentText]
    );
    assert_eq!(
        UIPlugin.steps(Hook::OnExit(TurnPhase::StartScreen)),
        vec![Step::DespawnSplashscreen, Step::BottomUi]
    );
    assert_eq!(
        UIPlugin.steps(Hook::OnUpdate(TurnPhase::AwaitingInput)),
        vec![Step::UpdateHpTextAndBar, Step::UpdateGamelog, Step::UpdateTooltip]
    );
    assert_eq!(UIPlugin.steps(Hook::OnExit(TurnPhase::AwaitingInput)), vec![Step::HideTooltip]);
}

#[test]
fn clicks_move_tooltip_only_during_play() {
    let ents = vec![NamedEntity {
        label: "Orc".to_string(),
        pos: Position::new_from2d(5, 5),
        health: Some(HealthValue { current: 3, max: 9 }),
    }];
    let window = WindowSize { width: 800, height: 600 };
    let layout = GridLayout { cols: 80, rows: 60, ui_height: 0 };
    let click = PixelPos { x: 50, y: 50 };
    let mut ui = Ui::new();
    ui.handle_click(click, window, CameraTransform::identity(), layout, &ents);
    assert!(!ui.hud.tooltip.text_visible);
    ui.handle_key(true);
    ui.set_popup(PopupPhase::EquipmentPopup);
    ui.handle_click(click, window, CameraTransform::identity(), layout, &ents);
    assert!(!ui.hud.tooltip.text_visible);
    ui.set_popup(PopupPhase::Closed);
    ui.handle_click(click, window, CameraTransform::identity(), layout, &ents);
    assert!(ui.hud.tooltip.text_visible);
    assert_eq!(ui.hud.tooltip.text, "Orc HP: 3 / 9");
}

#[test]
fn leaving_start_screen_appends_hud_root_and_its_three_children() {
    let mut ui = Ui::new();
    let n = ui.tree.nodes.len();
    ui.handle_key(true);
    assert_eq!(ui.tree.nodes.len(), n + 4);
    let hud: Vec<(Option<usize>, Role, bool)> =
        ui.tree.nodes[n..].iter().map(|x| (x.parent, x.role, x.alive)).collect();
    assert_eq!(
        hud,
        vec![
            (None, Role::HudRoot, true),
            (Some(n), Role::LogPanel, true),
            (Some(n), Role::HealthPanel, true),
            (Some(n), Role::TooltipBox, true),
        ]
    );
    assert!(!ui.hud.tooltip.text_visible && !ui.hud.tooltip.box_visible);
}
