//! The equipment popup: listing the player's weapons and equipping one.
use vstd::prelude::*;
use crate::phase::{PopupPhase, TurnPhase};

verus! {

/// A weapon item, the entity that carries it, and whether it is the
/// equipped one.
#[derive(Debug)]
pub struct Weapon {
    pub name: String,
    pub description: String,
    pub carrier: u64,
    pub equipped: bool,
}

/// The phases to switch to once the popup has done its work.
#[derive(Clone, Copy, Debug, PartialEq, Eq, Structural)]
pub struct PhaseChange {
    pub turn: TurnPhase,
    pub popup: PopupPhase,
}

/// Indices, in order, of the weapons among the first `n` that `player`
/// carries.
pub open spec fn carried_in(ws: Seq<Weapon>, player: u64, n: int) -> Seq<int>
    decreases n,
{
    if n <= 0 {
        Seq::empty()
    } else if ws[n - 1].carrier == player {
        carried_in(ws, player, n - 1).push(n - 1)
    } else {
        carried_in(ws, player, n - 1)
    }
}

/// Indices, in order, of the weapons that `player` carries.
pub open spec fn carried(ws: Seq<Weapon>, player: u64) -> Seq<int> {
    carried_in(ws, player, ws.len() as int)
}

pub proof fn lemma_carried_in(ws: Seq<Weapon>, player: u64, n: int, m: int)
    requires
        0 <= n <= m <= ws.len(),
    ensures
        carried_in(ws, player, n).len() <= carried_in(ws, player, m).len() <= m,
        forall|k: int|
            0 <= k < carried_in(ws, player, n).len() ==> carried_in(ws, player, m)[k] == #[trigger] carried_in(
                ws,
                player,
                n,
            )[k],
        forall|k: int|
            0 <= k < carried_in(ws, player, m).len() ==> {
                &&& 0 <= #[trigger] carried_in(ws, player, m)[k] < m
                &&& ws[carried_in(ws, player, m)[k]].carrier == player
            },
    decreases m,
{
    if m > 0 {
        if n < m {
            lemma_carried_in(ws, player, n, m - 1);
        } else {
            lemma_carried_in(ws, player, m - 1, m - 1);
        }
    }
}

/// Exactly one of the weapons that `player` carries is equipped.
pub open spec fn one_equipped(ws: Seq<Weapon>, player: u64) -> bool {
    &&& exists|k: int| 0 <= k < ws.len() && ws[k].carrier == player && #[trigger] ws[k].equipped
    &&& forall|i: int, j: int|
        0 <= i < ws.len() && 0 <= j < ws.len() && ws[i].carrier == player && ws[j].carrier == player
            && #[trigger] ws[i].equipped && #[trigger] ws[j].equipped ==> i == j
}

/// Handles the weapon the user confirmed, as an index into the weapons the
/// player carries. A valid index equips that weapon alone among them,
/// resets the cursor and closes the popup; any other index, or no
/// selection, changes nothing.
pub fn equip_weapon(weapons: &mut Vec<Weapon>, player: u64, highlighted: &mut usize, selected: Option<usize>) -> (r:
    Option<PhaseChange>)
    ensures
        final(weapons)@.len() == old(weapons)@.len(),
        match selected {
            Some(s) if s < carried(old(weapons)@, player).len() => {
                let t = carried(old(weapons)@, player)[s as int];
                &&& r == Some(PhaseChange { turn: TurnPhase::PlayerTurn, popup: PopupPhase::Closed })
                &&& *final(highlighted) == 0
                &&& forall|i: int|
                    0 <= i < old(weapons)@.len() ==> {
                        &&& (#[trigger] final(weapons)@[i]).name == old(weapons)@[i].name
                        &&& final(weapons)@[i].description == old(weapons)@[i].description
                        &&& final(weapons)@[i].carrier == old(weapons)@[i].carrier
                        &&& final(weapons)@[i].equipped == (if old(weapons)@[i].carrier == player {
                            i == t
                        } else {
                            old(weapons)@[i].equipped
                        })
                    }
            },
            _ => {
                &&& r is None
                &&& *final(highlighted) == *old(highlighted)
                &&& final(weapons)@ == old(weapons)@
            },
        },
        r is Some ==> one_equipped(final(weapons)@, player),
{
    let s = match selected {
        Some(s) => s,
        None => {
            return None;
        },
    };
    let ghost ws = weapons@;
    let mut target: Option<usize> = None;
    let mut count: usize = 0;
    let mut i: usize = 0;
    while i < weapons.len()
        invariant
            weapons@ == ws,
            i <= ws.len(),
            count == carried_in(ws, player, i as int).len(),
            target is None ==> count <= s,
            target matches Some(t) ==> s < count && t == carried_in(ws, player, i as int)[s as int],
        decreases ws.len() - i,
    {
        proof {
            lemma_carried_in(ws, player, i as int, i as int);
        }
        if weapons[i].carrier == player {
            if target.is_none() && count == s {
                target = Some(i);
            }
            count = count + 1;
        }
        i = i + 1;
    }
    proof {
        lemma_carried_in(ws, player, ws.len() as int, ws.len() as int);
    }
    let t = match target {
        Some(t) => t,
        None => {
            return None;
        },
    };
    let mut i: usize = 0;
    while i < weapons.len()
        invariant
            weapons@.len() == ws.len(),
            i <= ws.len(),
            t < ws.len(),
            forall|j: int|
                0 <= j < ws.len() ==> {
                    &&& (#[trigger] weapons@[j]).name == ws[j].name
                    &&& weapons@[j].description == ws[j].description
                    &&& weapons@[j].carrier == ws[j].carrier
                    &&& weapons@[j].equipped == (if j < i && ws[j].carrier == player {
                        j == t
                    } else {
                        ws[j].equipped
                    })
                },
        decreases ws.len() - i,
    {
        if weapons[i].carrier == player {
            weapons[i].equipped = i == t;
        }
        i = i + 1;
    }
    *highlighted = 0;
    assert(weapons@[t as int].equipped);
    Some(PhaseChange { turn: TurnPhase::PlayerTurn, popup: PopupPhase::Closed })
}

/// The cursor mark of slot `k`.
pub open spec fn mark_of(k: int, highlighted: int) -> Seq<char> {
    if k == highlighted {
        "-"@
    } else {
        " "@
    }
}

/// The line of slot `k` for weapon `w`: cursor mark, name, `(e)` when
/// equipped, cursor mark; every line but the first starts a new line.
pub open spec fn slot_line(k: int, highlighted: int, w: Weapon) -> Seq<char> {
    (if k == 0 {
        ""@
    } else {
        "\n"@
    }) + mark_of(k, highlighted) + " "@ + w.name@ + " "@ + (if w.equipped {
        "(e)"@
    } else {
        ""@
    }) + " "@ + mark_of(k, highlighted)
}

fn slot_text(k: usize, highlighted: usize, w: &Weapon) -> (r: String)
    ensures
        r@ == slot_line(k as int, highlighted as int, *w),
{
    let mark = if k == highlighted {
        "-"
    } else {
        " "
    };
    let mut s = if k == 0 {
        String::from_str("")
    } else {
        String::from_str("\n")
    };
    s.append(mark);
    s.append(" ");
    s.append(w.name.as_str());
    s.append(" ");
    if w.equipped {
        s.append("(e)");
    } else {
        s.append("");
    }
    s.append(" ");
    s.append(mark);
    s
}

/// Renders the popup: slot `k` lists the `k`-th weapon the player carries,
/// and the description shows the highlighted weapon's. Slots past the
/// weapons keep their text. With no weapon carried, the first slot says so,
/// the others are blank and the description is cleared.
pub fn update_equipment_text(
    weapons: &Vec<Weapon>,
    player: u64,
    highlighted: usize,
    slots: &mut Vec<String>,
    description: &mut String,
)
    ensures
        final(slots)@.len() == old(slots)@.len(),
        carried(weapons@, player).len() == 0 ==> {
            &&& forall|k: int|
                0 <= k < old(slots)@.len() ==> (#[trigger] final(slots)@[k])@ == (if k == 0 {
                    "No equipment."@
                } else {
                    "\n "@
                })
            &&& final(description)@ == " "@
        },
        carried(weapons@, player).len() > 0 ==> {
            &&& forall|k: int|
                0 <= k < old(slots)@.len() ==> (#[trigger] final(slots)@[k])@ == (if k < carried(
                    weapons@,
                    player,
                ).len() {
                    slot_line(k, highlighted as int, weapons@[carried(weapons@, player)[k]])
                } else {
                    old(slots)@[k]@
                })
            &&& *final(description) == (if highlighted < carried(weapons@, player).len() && highlighted
                < old(slots)@.len() {
                weapons@[carried(weapons@, player)[highlighted as int]].description
            } else {
                *old(description)
            })
        },
{
    let ghost ws = weapons@;
    proof {
        lemma_carried_in(ws, player, ws.len() as int, ws.len() as int);
    }
    let mut i: usize = 0;
    let mut k: usize = 0;
    while i < weapons.len()
        invariant
            i <= ws.len(),
            weapons@ == ws,
            k == carried_in(ws, player, i as int).len(),
            slots@.len() == old(slots)@.len(),
            forall|m: int|
                0 <= m < old(slots)@.len() ==> (#[trigger] slots@[m])@ == (if m < k {
                    slot_line(m, highlighted as int, ws[carried_in(ws, player, i as int)[m]])
                } else {
                    old(slots)@[m]@
                }),
            *description == (if highlighted < k && highlighted < old(slots)@.len() {
                ws[carried_in(ws, player, i as int)[highlighted as int]].description
            } else {
                *old(description)
            }),
        decreases ws.len() - i,
    {
        proof {
            lemma_carried_in(ws, player, i as int, i as int);
            lemma_carried_in(ws, player, i as int, i + 1);
        }
        if weapons[i].carrier == player {
            if k < slots.len() {
                slots[k] = slot_text(k, highlighted, &weapons[i]);
                if k == highlighted {
                    *description = weapons[i].description.clone();
                }
            }
            k = k + 1;
        }
        i = i + 1;
    }
    if k == 0 {
        let mut m: usize = 0;
        while m < slots.len()
            invariant
                m <= slots@.len(),
                slots@.len() == old(slots)@.len(),
                forall|j: int|
                    0 <= j < m ==> (#[trigger] slots@[j])@ == (if j == 0 {
                        "No equipment."@
                    } else {
                        "\n "@
                    }),
            decreases slots@.len() - m,
        {
            if m == 0 {
                slots[m] = String::from_str("No equipment.");
            } else {
                slots[m] = String::from_str("\n ");
            }
            m = m + 1;
        }
        *description = String::from_str(" ");
    }
}

} // verus!
