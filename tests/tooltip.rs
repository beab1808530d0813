use rogue_hud::grid::{map_to_grid, CameraTransform, GridLayout, GridPoint, PixelPos, WindowSize};
use rogue_hud::health::HealthValue;
use rogue_hud::hud::Hud;
use rogue_hud::position::Position;
use rogue_hud::resolver::{nearest_entity, NamedEntity};

fn window() -> WindowSize {
    WindowSize { width: 800, height: 600 }
}

fn layout() -> GridLayout {
    GridLayout { cols: 80, rows: 60, ui_height: 0 }
}

fn goblin() -> NamedEntity {
    NamedEntity {
        label: "Goblin".to_string(),
        pos: Position::new_from2d(5, 5),
        health: Some(HealthValue { current: 2, max: 2 }),
    }
}

#[test]
fn centre_of_window_maps_to_centre_of_grid_less_half_the_band() {
    let l = GridLayout { cols: 80, rows: 60, ui_height: 10 };
    let g = map_to_grid(CameraTransform::identity(), window(), l, PixelPos { x: 400, y: 300 }).unwrap();
    assert_eq!(g.den, 2 * 800 * 600);
    assert_eq!(g.x_num, 40 * g.den);
    assert_eq!(g.y_num, 25 * g.den);
}

#[test]
fn camera_translation_shifts_grid() {
    let cam = CameraTransform { m00: 1, m01: 0, m10: 0, m11: 1, tx: 20, ty: -30, scale: 1 };
    let g = map_to_grid(cam, window(), layout(), PixelPos { x: 400, y: 300 }).unwrap();
    assert_eq!(g.x_num, 42 * g.den);
    assert_eq!(g.y_num, 27 * g.den);
}

#[test]
fn zero_sized_window_maps_nowhere() {
    let w = WindowSize { width: 0, height: 600 };
    assert!(map_to_grid(CameraTransform::identity(), w, layout(), PixelPos { x: 0, y: 0 }).is_none());
}

#[test]
fn click_next_to_goblin_shows_its_tooltip() {
    let g = map_to_grid(CameraTransform::identity(), window(), layout(), PixelPos { x: 50, y: 51 }).unwrap();
    assert_eq!(g.x_num * 10, 50 * g.den);
    assert_eq!(g.y_num * 10, 51 * g.den);
    let ents = vec![goblin()];
    let mut hud = Hud::new();
    hud.update_tooltip(PixelPos { x: 50, y: 51 }, window(), CameraTransform::identity(), layout(), &ents);
    assert_eq!(hud.tooltip.text, "Goblin HP: 2 / 2");
    assert!(hud.tooltip.text_visible);
    assert!(hud.tooltip.box_visible);
    assert_eq!(hud.tooltip.left, -50);
    assert_eq!(hud.tooltip.bottom, 51);
}

#[test]
fn far_click_hides_tooltip() {
    let ents = vec![goblin()];
    let mut hud = Hud::new();
    hud.update_tooltip(PixelPos { x: 50, y: 51 }, window(), CameraTransform::identity(), layout(), &ents);
    assert!(hud.tooltip.text_visible);
    hud.update_tooltip(PixelPos { x: 500, y: 500 }, window(), CameraTransform::identity(), layout(), &ents);
    assert!(!hud.tooltip.text_visible);
    assert!(!hud.tooltip.box_visible);
}

#[test]
fn entity_without_health_shows_label_only() {
    let ents = vec![NamedEntity { label: "Amulet".to_string(), pos: Position::new_from2d(5, 5), health: None }];
    let mut hud = Hud::new();
    hud.update_tooltip(PixelPos { x: 52, y: 48 }, window(), CameraTransform::identity(), layout(), &ents);
    assert_eq!(hud.tooltip.text, "Amulet");
    assert!(hud.tooltip.box_visible);
}

#[test]
fn exactly_one_tile_away_is_not_near() {
    let g = GridPoint { x_num: 6, y_num: 5, den: 1 };
    assert_eq!(nearest_entity(g, &vec![goblin()]), None);
    let g = GridPoint { x_num: 59, y_num: 50, den: 10 };
    assert_eq!(nearest_entity(g, &vec![goblin()]), Some(0));
}

#[test]
fn nearest_of_several_wins_and_first_wins_ties() {
    let mut a = goblin();
    a.pos = Position::new_from2d(4, 5);
    let mut b = goblin();
    b.pos = Position::new_from2d(6, 5);
    let mut c = goblin();
    c.pos = Position::new_from2d(5, 6);
    // (5.0, 5.5): a and b lie 1.1 away, c 0.5 away.
    let g = GridPoint { x_num: 50, y_num: 55, den: 10 };
    assert_eq!(nearest_entity(g, &vec![a.clone_entity(), b.clone_entity(), c.clone_entity()]), Some(2));
    // (5.5, 5.0): a at 1.5, b at 0.5, c at 1.1; and b against an equal twin.
    let g = GridPoint { x_num: 55, y_num: 50, den: 10 };
    assert_eq!(nearest_entity(g, &vec![a.clone_entity(), b.clone_entity(), c.clone_entity()]), Some(1));
    let mut d = goblin();
    d.pos = Position::new_from2d(5, 5);
    // (5.5, 5.0): d and b both lie 0.5 away; the first listed wins.
    assert_eq!(nearest_entity(g, &vec![d.clone_entity(), b.clone_entity()]), Some(0));
    assert_eq!(nearest_entity(g, &vec![b, d]), Some(0));
}

#[test]
fn hide_tooltip_hides_whatever_was_shown() {
    let ents = vec![goblin()];
    let mut hud = Hud::new();
    hud.hide_tooltip();
    assert!(!hud.tooltip.text_visible && !hud.tooltip.box_visible);
    hud.update_tooltip(PixelPos { x: 50, y: 51 }, window(), CameraTransform::identity(), layout(), &ents);
    hud.hide_tooltip();
    assert!(!hud.tooltip.text_visible && !hud.tooltip.box_visible);
    assert_eq!(hud.tooltip.text, "Goblin HP: 2 / 2");
}

trait CloneEntity {
    fn clone_entity(&self) -> NamedEntity;
}

impl CloneEntity for NamedEntity {
    fn clone_entity(&self) -> NamedEntity {
        NamedEntity { label: self.label.clone(), pos: self.pos, health: self.health }
    }
}
