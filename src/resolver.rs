//! Finding the named entity nearest to a grid point, within one tile.
use vstd::prelude::*;
use crate::grid::GridPoint;
use crate::health::HealthValue;
use crate::position::Position;

verus! {

/// An entity that carries a name, a grid position and perhaps hit points.
#[derive(Debug)]
pub struct NamedEntity {
    pub label: String,
    pub pos: Position,
    pub health: Option<HealthValue>,
}

/// The squared distance from `g` to `p`, times `g.den` squared.
pub open spec fn dist2(g: GridPoint, p: Position) -> int {
    let dx = g.x_num - p.x * g.den;
    let dy = g.y_num - p.y * g.den;
    dx * dx + dy * dy
}

/// `p` lies less than one tile from `g`.
pub open spec fn near(g: GridPoint, p: Position) -> bool {
    dist2(g, p) < g.den * g.den
}

/// The candidate after scanning the first `n` entities: an entity replaces
/// the current one only when it is near and strictly closer, so the first
/// of equally close entities wins.
pub open spec fn nearest_in(g: GridPoint, ents: Seq<NamedEntity>, n: int) -> Option<int>
    decreases n,
{
    if n <= 0 {
        None
    } else {
        let prev = nearest_in(g, ents, n - 1);
        if near(g, ents[n - 1].pos) && (prev matches Some(b) ==> dist2(g, ents[n - 1].pos) < dist2(
            g,
            ents[b].pos,
        )) {
            Some(n - 1)
        } else {
            prev
        }
    }
}

/// Decides whether `p` lies less than one tile from `g`, and if so returns
/// the scaled squared distance.
fn distance_within_tile(g: GridPoint, p: Position) -> (r: Option<i128>)
    requires
        g.wf(),
    ensures
        r is Some <==> near(g, p),
        r matches Some(d) ==> d == dist2(g, p),
{
    assert(-0x80000000000000000000000000 < (p.x as int) * g.den < 0x80000000000000000000000000)
        by (nonlinear_arith)
        requires
            -0x80000000 <= p.x < 0x80000000,
            0 < g.den < 0x1000000000000000;
    assert(-0x80000000000000000000000000 < (p.y as int) * g.den < 0x80000000000000000000000000)
        by (nonlinear_arith)
        requires
            -0x80000000 <= p.y < 0x80000000,
            0 < g.den < 0x1000000000000000;
    let dx = g.x_num - (p.x as i128) * g.den;
    let dy = g.y_num - (p.y as i128) * g.den;
    let ghost gd = g.den as int;
    if dx <= -g.den || dx >= g.den || dy <= -g.den || dy >= g.den {
        assert(dx * dx >= gd * gd || dy * dy >= gd * gd) by (nonlinear_arith)
            requires
                gd > 0,
                dx <= -gd || dx >= gd || dy <= -gd || dy >= gd;
        assert(dx * dx >= 0 && dy * dy >= 0) by (nonlinear_arith);
        return None;
    }
    assert(0 <= dx * dx < gd * gd && 0 <= dy * dy < gd * gd) by (nonlinear_arith)
        requires
            gd > 0,
            -gd < dx < gd,
            -gd < dy < gd;
    assert(gd * gd < 0x1000000000000000000000000000000) by (nonlinear_arith)
        requires
            0 < gd < 0x1000000000000000;
    let d = dx * dx + dy * dy;
    if d < g.den * g.den {
        Some(d)
    } else {
        None
    }
}

/// The entity nearest to `g` among those less than one tile away, the first
/// of equally near ones; `None` when no entity is that close.
pub fn nearest_entity(g: GridPoint, ents: &Vec<NamedEntity>) -> (r: Option<usize>)
    requires
        g.wf(),
    ensures
        r is None <==> nearest_in(g, ents@, ents@.len() as int) is None,
        r matches Some(i) ==> nearest_in(g, ents@, ents@.len() as int) == Some(i as int),
{
    let mut best: Option<usize> = None;
    let mut best_d: i128 = 0;
    let mut i: usize = 0;
    while i < ents.len()
        invariant
            i <= ents@.len(),
            g.wf(),
            best is None <==> nearest_in(g, ents@, i as int) is None,
            best matches Some(b) ==> nearest_in(g, ents@, i as int) == Some(b as int),
            nearest_in(g, ents@, i as int) matches Some(b) ==> 0 <= b < i && best_d == dist2(g, ents@[b].pos),
        decreases ents@.len() - i,
    {
        proof {
            lemma_nearest_in_range(g, ents@, i as int);
        }
        match distance_within_tile(g, ents[i].pos) {
            Some(d) => {
                if best.is_none() || d < best_d {
                    best = Some(i);
                    best_d = d;
                }
            },
            None => {},
        }
        i = i + 1;
    }
    best
}

proof fn lemma_nearest_in_range(g: GridPoint, ents: Seq<NamedEntity>, n: int)
    ensures
        nearest_in(g, ents, n) matches Some(b) ==> 0 <= b < n && near(g, ents[b].pos),
    decreases n,
{
    if n > 0 {
        lemma_nearest_in_range(g, ents, n - 1);
    }
}

/// The candidate is near, no scanned entity is closer, and every entity
/// before it is strictly farther; there is none exactly when no scanned
/// entity is near.
pub proof fn lemma_nearest_is_closest(g: GridPoint, ents: Seq<NamedEntity>, n: int)
    requires
        0 <= n <= ents.len(),
    ensures
        nearest_in(g, ents, n) is None <==> (forall|j: int| 0 <= j < n ==> !near(g, #[trigger] ents[j].pos)),
        nearest_in(g, ents, n) matches Some(b) ==> {
            &&& 0 <= b < n
            &&& near(g, ents[b].pos)
            &&& forall|j: int| 0 <= j < n ==> dist2(g, ents[b].pos) <= dist2(g, #[trigger] ents[j].pos)
            &&& forall|j: int| 0 <= j < b ==> dist2(g, ents[b].pos) < dist2(g, #[trigger] ents[j].pos)
        },
    decreases n,
{
    if n > 0 {
        lemma_nearest_is_closest(g, ents, n - 1);
        lemma_nearest_in_range(g, ents, n);
    }
}

} // verus!
