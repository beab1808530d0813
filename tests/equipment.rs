use rogue_hud::equipment::{equip_weapon, update_equipment_text, PhaseChange, Weapon};
use rogue_hud::phase::{PopupPhase, TurnPhase};

const PLAYER: u64 = 1;
const OTHER: u64 = 2;

fn weapon(name: &str, carrier: u64, equipped: bool) -> Weapon {
    Weapon { name: name.to_string(), description: format!("{} description", name), carrier, equipped }
}

fn marks(ws: &[Weapon]) -> Vec<bool> {
    ws.iter().map(|w| w.equipped).collect()
}

fn slots() -> Vec<String> {
    vec!["old0".to_string(), "old1".to_string(), "old2".to_string()]
}

#[test]
fn selecting_b_moves_the_mark_from_a() {
    let mut ws = vec![weapon("A", PLAYER, true), weapon("B", PLAYER, false)];
    let mut highlighted: usize = 1;
    let r = equip_weapon(&mut ws, PLAYER, &mut highlighted, Some(1));
    assert_eq!(r, Some(PhaseChange { turn: TurnPhase::PlayerTurn, popup: PopupPhase::Closed }));
    assert_eq!(marks(&ws), vec![false, true]);
    assert_eq!(highlighted, 0);
}

#[test]
fn selection_counts_only_the_players_weapons() {
    let mut ws = vec![
        weapon("X", OTHER, true),
        weapon("A", PLAYER, true),
        weapon("Y", OTHER, false),
        weapon("B", PLAYER, true),
        weapon("C", PLAYER, false),
    ];
    let mut highlighted: usize = 2;
    let r = equip_weapon(&mut ws, PLAYER, &mut highlighted, Some(2));
    assert!(r.is_some());
    // Only C among the player's weapons is marked; the other holder keeps X.
    assert_eq!(marks(&ws), vec![true, false, false, false, true]);
    assert_eq!(ws[4].name, "C");
    assert_eq!(highlighted, 0);
}

#[test]
fn out_of_range_selection_changes_nothing() {
    let mut ws = vec![weapon("A", PLAYER, true), weapon("B", PLAYER, false), weapon("Z", OTHER, false)];
    let mut highlighted: usize = 1;
    assert_eq!(equip_weapon(&mut ws, PLAYER, &mut highlighted, Some(2)), None);
    assert_eq!(marks(&ws), vec![true, false, false]);
    assert_eq!(highlighted, 1);
    assert_eq!(equip_weapon(&mut ws, PLAYER, &mut highlighted, None), None);
    assert_eq!(marks(&ws), vec![true, false, false]);
    assert_eq!(highlighted, 1);
}

#[test]
fn empty_inventory_selection_is_a_no_op() {
    let mut ws: Vec<Weapon> = Vec::new();
    let mut highlighted: usize = 0;
    assert_eq!(equip_weapon(&mut ws, PLAYER, &mut highlighted, Some(0)), None);
    assert_eq!(highlighted, 0);
}

#[test]
fn no_weapons_shows_placeholders() {
    let ws = vec![weapon("Z", OTHER, true)];
    let mut s = slots();
    let mut description = "stale".to_string();
    update_equipment_text(&ws, PLAYER, 0, &mut s, &mut description);
    assert_eq!(s, vec!["No equipment.", "\n ", "\n "]);
    assert_eq!(description, " ");
}

#[test]
fn weapons_are_listed_with_cursor_and_equipped_mark() {
    let ws = vec![weapon("A", PLAYER, true), weapon("Z", OTHER, false), weapon("B", PLAYER, false)];
    let mut s = slots();
    let mut description = "stale".to_string();
    update_equipment_text(&ws, PLAYER, 0, &mut s, &mut description);
    assert_eq!(s, vec!["- A (e) -", "\n  B   ", "old2"]);
    assert_eq!(description, "A description");
    update_equipment_text(&ws, PLAYER, 1, &mut s, &mut description);
    assert_eq!(s, vec!["  A (e)  ", "\n- B  -", "old2"]);
    assert_eq!(description, "B description");
}

#[test]
fn more_weapons_than_slots_are_cut() {
    let ws: Vec<Weapon> = (0..5).map(|i| weapon(&format!("W{}", i), PLAYER, false)).collect();
    let mut s = slots();
    let mut description = "stale".to_string();
    update_equipment_text(&ws, PLAYER, 4, &mut s, &mut description);
    assert_eq!(s, vec!["  W0   ", "\n  W1   ", "\n  W2   "]);
    assert_eq!(description, "stale");
}
