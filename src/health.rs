//! The health presenter: the player's hit points as text and as bar fill.
use vstd::prelude::*;
use crate::text::{decimal_of, push_decimal};

verus! {

/// Hit points of an entity. `current <= max` is expected but not enforced:
/// the presenters tolerate any pair.
#[derive(Clone, Copy, Debug, PartialEq, Eq, Structural)]
pub struct HealthValue {
    pub current: i32,
    pub max: i32,
}

/// How much of the health bar is filled, as the exact percentage
/// `numer / denom`.
#[derive(Clone, Copy, Debug, PartialEq, Eq, Structural)]
pub struct BarFill {
    pub numer: u64,
    pub denom: u64,
}

impl BarFill {
    pub open spec fn wf(self) -> bool {
        self.denom > 0
    }

    /// The fill equals the percentage `p / q`.
    pub open spec fn equals(self, p: int, q: int) -> bool {
        self.numer * q == p * self.denom
    }
}

/// The fill that the bar shows for `current` out of `max` hit points:
/// `100 * current / max` clamped to `[0, 100]`, and 0 when `max` is not
/// positive.
pub open spec fn bar_fill_spec(current: int, max: int) -> (int, int) {
    if max <= 0 || current <= 0 {
        (0, 1)
    } else if current >= max {
        (100, 1)
    } else {
        (100 * current, max)
    }
}

pub open spec fn hp_text_spec(current: int, max: int) -> Seq<char> {
    "HP: "@ + decimal_of(current) + " / "@ + decimal_of(max)
}

/// Percentage of the health bar to fill.
pub fn hp_bar_fill(health: HealthValue) -> (r: BarFill)
    ensures
        r.wf(),
        (r.numer as int, r.denom as int) == bar_fill_spec(health.current as int, health.max as int),
{
    if health.max <= 0 || health.current <= 0 {
        BarFill { numer: 0, denom: 1 }
    } else if health.current >= health.max {
        BarFill { numer: 100, denom: 1 }
    } else {
        BarFill { numer: 100 * (health.current as u64), denom: health.max as u64 }
    }
}

/// The text `HP: <current> / <max>`.
pub fn hp_text(health: HealthValue) -> (r: String)
    ensures
        r@ == hp_text_spec(health.current as int, health.max as int),
{
    let mut s = String::from_str("HP: ");
    push_decimal(&mut s, health.current);
    s.append(" / ");
    push_decimal(&mut s, health.max);
    s
}

/// The bar fill is `100 * current / max` clamped to `[0, 100]`; a maximum of
/// zero gives an empty bar.
pub proof fn lemma_bar_fill_clamped(health: HealthValue, fill: BarFill)
    requires
        health.current >= 0,
        (fill.numer as int, fill.denom as int) == bar_fill_spec(health.current as int, health.max as int),
    ensures
        fill.denom > 0,
        health.max == 0 ==> fill.numer == 0,
        health.max > 0 && health.current <= health.max ==> fill.equals(100 * health.current, health.max as int),
        health.max > 0 && health.current > health.max ==> fill.equals(100, 1),
        0 <= fill.numer <= 100 * fill.denom,
{
    let c = health.current as int;
    let m = health.max as int;
    if m > 0 && c > 0 && c < m {
        assert(100 * c <= 100 * m) by (nonlinear_arith)
            requires c < m;
        assert(fill.numer * m == (100 * c) * fill.denom);
    } else if m > 0 && c == m {
        assert(100 * m == (100 * c) * 1);
    } else if m > 0 && c == 0 {
        assert(0 * m == (100 * c) * 1);
    }
}

} // verus!
