use rogue_hud::health::{hp_bar_fill, hp_text, BarFill, HealthValue};
use rogue_hud::hud::Hud;
use rogue_hud::position::Position;

#[test]
fn hp_text_and_half_bar() {
    let h = HealthValue { current: 10, max: 20 };
    assert_eq!(hp_text(h), "HP: 10 / 20");
    let fill = hp_bar_fill(h);
    assert_eq!(fill.numer as f64 / fill.denom as f64, 50.0);
}

#[test]
fn bar_fill_zero_max_is_empty() {
    let fill = hp_bar_fill(HealthValue { current: 5, max: 0 });
    assert_eq!(fill, BarFill { numer: 0, denom: 1 });
}

#[test]
fn bar_fill_clamps_overfull_and_negative() {
    assert_eq!(hp_bar_fill(HealthValue { current: 30, max: 20 }), BarFill { numer: 100, denom: 1 });
    assert_eq!(hp_bar_fill(HealthValue { current: -4, max: 20 }), BarFill { numer: 0, denom: 1 });
    assert_eq!(hp_bar_fill(HealthValue { current: 20, max: 20 }), BarFill { numer: 100, denom: 1 });
}

#[test]
fn bar_fill_exact_fraction() {
    let fill = hp_bar_fill(HealthValue { current: 1, max: 3 });
    assert_eq!(fill, BarFill { numer: 100, denom: 3 });
}

#[test]
fn hp_text_negative_and_extreme_values() {
    assert_eq!(hp_text(HealthValue { current: -3, max: 7 }), "HP: -3 / 7");
    assert_eq!(hp_text(HealthValue { current: 0, max: 100 }), "HP: 0 / 100");
    assert_eq!(
        hp_text(HealthValue { current: i32::MIN, max: i32::MAX }),
        "HP: -2147483648 / 2147483647"
    );
}

#[test]
fn hud_update_hp_sets_text_and_bar() {
    let mut hud = Hud::new();
    hud.update_hp_text_and_bar(HealthValue { current: 10, max: 20 });
    assert_eq!(hud.hp_text, "HP: 10 / 20");
    assert_eq!(hud.hp_fill, BarFill { numer: 1000, denom: 20 });
}

#[test]
fn gamelog_fills_lines_in_order_and_keeps_the_rest() {
    let mut hud = Hud::new();
    let before = hud.log_lines.clone();
    hud.update_gamelog(&vec!["first".to_string(), "second".to_string()]);
    assert_eq!(hud.log_lines.len(), 4);
    assert_eq!(hud.log_lines[0], "first");
    assert_eq!(hud.log_lines[1], "second");
    assert_eq!(hud.log_lines[2], before[2]);
    assert_eq!(hud.log_lines[3], before[3]);
}

#[test]
fn gamelog_longer_than_lines_is_cut() {
    let mut hud = Hud::new();
    let entries: Vec<String> = (0..6).map(|i| format!("e{}", i)).collect();
    hud.update_gamelog(&entries);
    assert_eq!(hud.log_lines, vec!["e0", "e1", "e2", "e3"]);
}

#[test]
fn position_equality_ignores_layer() {
    let a = Position::new(1, 2, 3);
    let b = Position::new_from2d(1, 2);
    assert_eq!(b.z, 0);
    assert!(a == b);
    assert!(Position::new(1, 3, 3) != a);
    let c = a.add(Position::new(10, 20, 30));
    assert_eq!((c.x, c.y, c.z), (11, 22, 33));
}
