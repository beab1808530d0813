//! Content of the HUD: log lines, hit points and the click tooltip.
use vstd::prelude::*;
use crate::grid::{CameraTransform, GridLayout, GridPoint, PixelPos, WindowSize, grid_point_of, map_to_grid};
use crate::health::{BarFill, HealthValue, hp_bar_fill, hp_text, hp_text_spec, bar_fill_spec};
use crate::resolver::{NamedEntity, nearest_entity, nearest_in, near, lemma_nearest_is_closest};
use crate::text::{decimal_of, push_decimal};

verus! {

/// The tooltip box shown next to a clicked entity.
#[derive(Debug)]
pub struct Tooltip {
    pub text: String,
    pub text_visible: bool,
    pub box_visible: bool,
    /// Left edge of the box, in pixels.
    pub left: i32,
    /// Bottom edge of the box, in pixels.
    pub bottom: i32,
}

/// What the HUD shows.
#[derive(Debug)]
pub struct Hud {
    pub log_lines: Vec<String>,
    pub hp_text: String,
    pub hp_fill: BarFill,
    pub tooltip: Tooltip,
}

/// The tooltip text for an entity: its label, then its hit points if it
/// has any.
pub open spec fn tooltip_text_of(e: NamedEntity) -> Seq<char> {
    match e.health {
        Some(h) => e.label@ + " HP: "@ + decimal_of(h.current as int) + " / "@ + decimal_of(h.max as int),
        None => e.label@,
    }
}

/// The entity that a click at `pointer` picks, if any.
pub open spec fn clicked_entity(
    c: CameraTransform,
    w: WindowSize,
    l: GridLayout,
    pointer: PixelPos,
    ents: Seq<NamedEntity>,
) -> Option<int> {
    match grid_point_of(c, w, l, pointer) {
        Some(g) => nearest_in(g, ents, ents.len() as int),
        None => None,
    }
}

fn tooltip_text(e: &NamedEntity) -> (r: String)
    ensures
        r@ == tooltip_text_of(*e),
{
    let mut s = e.label.clone();
    match e.health {
        Some(h) => {
            s.append(" HP: ");
            push_decimal(&mut s, h.current);
            s.append(" / ");
            push_decimal(&mut s, h.max);
        },
        None => {},
    }
    s
}

impl Hud {
    /// The content of a newly mounted HUD: the help lines in the log, full
    /// hit points, and a hidden tooltip.
    pub open spec fn fresh(&self) -> bool {
        &&& self.log_lines@.len() == 4
        &&& self.log_lines@[0]@ == "Log..."@
        &&& self.log_lines@[1]@ == "\nUse the arrow keys to move."@
        &&& self.log_lines@[2]@ == "\nBump into the enemies to attack them."@
        &&& self.log_lines@[3]@ == "\nFind the amulet to win the game."@
        &&& self.hp_text@ == "HP: 20 / 20"@
        &&& self.hp_fill == (BarFill { numer: 50, denom: 1 })
        &&& self.tooltip.text@ == "Goblin. HP: 2 / 2"@
        &&& !self.tooltip.text_visible && !self.tooltip.box_visible
        &&& self.tooltip.left == 0 && self.tooltip.bottom == 0
    }

    /// A newly mounted HUD.
    pub fn new() -> (r: Hud)
        ensures
            r.fresh(),
    {
        let log_lines = vec![
            String::from_str("Log..."),
            String::from_str("\nUse the arrow keys to move."),
            String::from_str("\nBump into the enemies to attack them."),
            String::from_str("\nFind the amulet to win the game."),
        ];
        Hud {
            log_lines,
            hp_text: String::from_str("HP: 20 / 20"),
            hp_fill: BarFill { numer: 50, denom: 1 },
            tooltip: Tooltip {
                text: String::from_str("Goblin. HP: 2 / 2"),
                text_visible: false,
                box_visible: false,
                left: 0,
                bottom: 0,
            },
        }
    }

    /// Copies the game log into the log lines, entry `i` into line `i`.
    /// Lines past the end of the log keep what they showed.
    pub fn update_gamelog(&mut self, entries: &Vec<String>)
        ensures
            final(self).log_lines@.len() == old(self).log_lines@.len(),
            forall|i: int|
                0 <= i < old(self).log_lines@.len() ==> #[trigger] final(self).log_lines@[i]@ == (if i
                    < entries@.len() {
                    entries@[i]@
                } else {
                    old(self).log_lines@[i]@
                }),
            final(self).hp_text == old(self).hp_text,
            final(self).hp_fill == old(self).hp_fill,
            final(self).tooltip == old(self).tooltip,
    {
        let n = if entries.len() < self.log_lines.len() {
            entries.len()
        } else {
            self.log_lines.len()
        };
        let mut i: usize = 0;
        while i < n
            invariant
                n <= entries@.len(),
                n <= old(self).log_lines@.len(),
                i <= n,
                self.log_lines@.len() == old(self).log_lines@.len(),
                forall|j: int|
                    0 <= j < old(self).log_lines@.len() ==> #[trigger] self.log_lines@[j]@ == (if j < i {
                        entries@[j]@
                    } else {
                        old(self).log_lines@[j]@
                    }),
                self.hp_text == old(self).hp_text,
                self.hp_fill == old(self).hp_fill,
                self.tooltip == old(self).tooltip,
            decreases n - i,
        {
            self.log_lines[i] = entries[i].clone();
            i = i + 1;
        }
    }

    /// Shows the player's hit points as text and as bar fill.
    pub fn update_hp_text_and_bar(&mut self, health: HealthValue)
        ensures
            final(self).hp_text@ == hp_text_spec(health.current as int, health.max as int),
            final(self).hp_fill.wf(),
            (final(self).hp_fill.numer as int, final(self).hp_fill.denom as int) == bar_fill_spec(
                health.current as int,
                health.max as int,
            ),
            final(self).log_lines == old(self).log_lines,
            final(self).tooltip == old(self).tooltip,
    {
        self.hp_text = hp_text(health);
        self.hp_fill = hp_bar_fill(health);
    }

    /// Hides the tooltip text and box, whatever they showed before.
    pub fn hide_tooltip(&mut self)
        ensures
            !final(self).tooltip.text_visible,
            !final(self).tooltip.box_visible,
            final(self).tooltip.text == old(self).tooltip.text,
            final(self).tooltip.left == old(self).tooltip.left,
            final(self).tooltip.bottom == old(self).tooltip.bottom,
            final(self).log_lines == old(self).log_lines,
            final(self).hp_text == old(self).hp_text,
            final(self).hp_fill == old(self).hp_fill,
    {
        self.tooltip.text_visible = false;
        self.tooltip.box_visible = false;
    }

    /// Handles a primary click at `pointer`: the entity nearest to the
    /// clicked grid point within one tile gets the tooltip, anchored at the
    /// click; with no such entity the tooltip is hidden.
    pub fn update_tooltip(
        &mut self,
        pointer: PixelPos,
        window: WindowSize,
        camera: CameraTransform,
        layout: GridLayout,
        ents: &Vec<NamedEntity>,
    )
        requires
            camera.wf(),
        ensures
            match clicked_entity(camera, window, layout, pointer, ents@) {
                Some(i) => {
                    &&& 0 <= i < ents@.len()
                    &&& final(self).tooltip.text@ == tooltip_text_of(ents@[i])
                    &&& final(self).tooltip.text_visible
                    &&& final(self).tooltip.box_visible
                    &&& final(self).tooltip.left == pointer.x - 100
                    &&& final(self).tooltip.bottom == pointer.y
                },
                None => {
                    &&& !final(self).tooltip.text_visible
                    &&& !final(self).tooltip.box_visible
                    &&& final(self).tooltip.text == old(self).tooltip.text
                    &&& final(self).tooltip.left == old(self).tooltip.left
                    &&& final(self).tooltip.bottom == old(self).tooltip.bottom
                },
            },
            final(self).log_lines == old(self).log_lines,
            final(self).hp_text == old(self).hp_text,
            final(self).hp_fill == old(self).hp_fill,
    {
        let grid = map_to_grid(camera, window, layout, pointer);
        let found = match grid {
            Some(g) => nearest_entity(g, ents),
            None => None,
        };
        proof {
            if grid is Some {
                lemma_nearest_is_closest(grid->Some_0, ents@, ents@.len() as int);
            }
        }
        match found {
            Some(i) => {
                self.tooltip.text = tooltip_text(&ents[i]);
                self.tooltip.text_visible = true;
                self.tooltip.left = pointer.x as i32 - 100;
                self.tooltip.bottom = pointer.y as i32;
                self.tooltip.box_visible = true;
            },
            None => {
                self.tooltip.text_visible = false;
                self.tooltip.box_visible = false;
            },
        }
    }
}

/// A click whose grid point lies less than one tile from exactly one entity
/// picks that entity; a click with no entity that close picks none.
pub proof fn lemma_click_picks_unique_near_entity(
    c: CameraTransform,
    w: WindowSize,
    l: GridLayout,
    pointer: PixelPos,
    ents: Seq<NamedEntity>,
    g: GridPoint,
)
    requires
        grid_point_of(c, w, l, pointer) == Some(g),
    ensures
        forall|k: int|
            0 <= k < ents.len() && near(g, ents[k].pos) && (forall|j: int|
                0 <= j < ents.len() && j != k ==> !near(g, #[trigger] ents[j].pos)) ==> clicked_entity(
                c,
                w,
                l,
                pointer,
                ents,
            ) == Some(k),
        (forall|j: int| 0 <= j < ents.len() ==> !near(g, #[trigger] ents[j].pos)) ==> clicked_entity(
            c,
            w,
            l,
            pointer,
            ents,
        ) is None,
{
    lemma_nearest_is_closest(g, ents, ents.len() as int);
}

} // verus!
