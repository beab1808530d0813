//! Mounting and unmounting UI subtrees as the game moves between phases.
use vstd::prelude::*;
use crate::phase::TurnPhase;
use crate::ui_tree::{
    Role, UiNode, UiTree, descends, mounted, same_shape, lemma_count_role_one, lemma_count_role_none,
    lemma_descends_same_shape, lemma_descends_trans, lemma_mounted_push, lemma_count_role_le, created, roots_only,
};

verus! {

/// Colour of a splash title.
#[derive(Clone, Copy, Debug, PartialEq, Eq, Structural)]
pub enum TitleColor {
    Gold,
    Red,
}

/// A failure of the UI's own bookkeeping, not of the player's input.
#[derive(Clone, Copy, Debug, PartialEq, Eq, Structural)]
pub enum UiError {
    /// Exactly one node of a kind was expected, and more were found.
    InvariantViolation,
}

pub open spec fn title_of(phase: TurnPhase) -> Seq<char> {
    match phase {
        TurnPhase::StartScreen => "Rogue Quest"@,
        TurnPhase::GameOver => "Game Over"@,
        TurnPhase::Victory => "You win!"@,
        TurnPhase::NextLevel => "Level Completed"@,
        _ => ""@,
    }
}

pub open spec fn color_of(phase: TurnPhase) -> TitleColor {
    if phase == TurnPhase::GameOver {
        TitleColor::Red
    } else {
        TitleColor::Gold
    }
}

/// The title of the splash screen of `phase` and its colour.
pub fn splash_title(phase: TurnPhase) -> (r: (&'static str, TitleColor))
    ensures
        r.0@ == title_of(phase),
        r.1 == color_of(phase),
{
    match phase {
        TurnPhase::StartScreen => ("Rogue Quest", TitleColor::Gold),
        TurnPhase::GameOver => ("Game Over", TitleColor::Red),
        TurnPhase::Victory => ("You win!", TitleColor::Gold),
        TurnPhase::NextLevel => ("Level Completed", TitleColor::Gold),
        _ => ("", TitleColor::Gold),
    }
}

/// The line shown under every splash title.
pub open spec fn splash_hint() -> Seq<char> {
    "\nPress any key to start game."@
}

/// A mounted splash screen: its root node and the text it shows.
#[derive(Debug)]
pub struct SplashScreen {
    pub id: usize,
    pub title: String,
    pub color: TitleColor,
    pub hint: String,
}

/// The root node of the HUD.
#[derive(Clone, Copy, Debug, PartialEq, Eq, Structural)]
pub struct TopUINode {
    pub id: usize,
}

/// Node `i` lies in the subtree of a mounted node with role `role`.
pub open spec fn under_mounted(nodes: Seq<UiNode>, i: int, role: Role) -> bool {
    exists|s: int| 0 <= s < nodes.len() && nodes[s].alive && nodes[s].role == role && #[trigger] descends(nodes, i, s)
}

/// Node `i` lies below a splash root mounted among the first `k` nodes.
pub open spec fn splash_before(nodes: Seq<UiNode>, i: int, k: int) -> bool {
    exists|s: int| 0 <= s < k && nodes[s].alive && nodes[s].role == Role::Splash && #[trigger] descends(nodes, i, s)
}

proof fn lemma_splash_step_unmount(nodes0: Seq<UiNode>, before: Seq<UiNode>, after: Seq<UiNode>, k: int)
    requires
        0 <= k < nodes0.len(),
        same_shape(before, nodes0),
        same_shape(after, before),
        before[k].alive && before[k].role == Role::Splash,
        forall|i: int| 0 <= i < nodes0.len() ==> (#[trigger] before[i]).alive == (nodes0[i].alive && !splash_before(nodes0, i, k)),
        forall|i: int| 0 <= i < before.len() ==> (#[trigger] after[i]).alive == (before[i].alive && !descends(before, i, k)),
    ensures
        forall|i: int| 0 <= i < nodes0.len() ==> (#[trigger] after[i]).alive == (nodes0[i].alive && !splash_before(nodes0, i, k + 1)),
{
    assert(before[k] == before[k]);
    assert(nodes0[k].alive && nodes0[k].role == Role::Splash);
    assert forall|i: int| 0 <= i < nodes0.len() implies (#[trigger] after[i]).alive == (nodes0[i].alive && !splash_before(nodes0, i, k + 1)) by {
        lemma_descends_same_shape(before, nodes0, i, k);
        if descends(nodes0, i, k) {
            assert(splash_before(nodes0, i, k + 1));
        }
        if splash_before(nodes0, i, k + 1) && !descends(nodes0, i, k) {
            let s = choose|s: int|
                0 <= s < k + 1 && nodes0[s].alive && nodes0[s].role == Role::Splash && #[trigger] descends(nodes0, i, s);
            assert(splash_before(nodes0, i, k));
        }
        if splash_before(nodes0, i, k) {
            let s = choose|s: int|
                0 <= s < k && nodes0[s].alive && nodes0[s].role == Role::Splash && #[trigger] descends(nodes0, i, s);
            assert(splash_before(nodes0, i, k + 1));
        }
    }
}

proof fn lemma_splash_step_skip(nodes0: Seq<UiNode>, cur: Seq<UiNode>, k: int)
    requires
        0 <= k < nodes0.len(),
        same_shape(cur, nodes0),
        !(cur[k].alive && cur[k].role == Role::Splash),
        forall|i: int| 0 <= i < nodes0.len() ==> (#[trigger] cur[i]).alive == (nodes0[i].alive && !splash_before(nodes0, i, k)),
    ensures
        forall|i: int| 0 <= i < nodes0.len() ==> (#[trigger] cur[i]).alive == (nodes0[i].alive && !splash_before(nodes0, i, k + 1)),
{
    assert(cur[k] == cur[k]);
    assert forall|i: int| 0 <= i < nodes0.len() implies (#[trigger] cur[i]).alive == (nodes0[i].alive && !splash_before(nodes0, i, k + 1)) by {
        if nodes0[k].alive && nodes0[k].role == Role::Splash && descends(nodes0, i, k) {
            // `k` itself was unmounted by an earlier splash above it.
            assert(splash_before(nodes0, k, k));
            let s = choose|s: int|
                0 <= s < k && nodes0[s].alive && nodes0[s].role == Role::Splash && #[trigger] descends(nodes0, k, s);
            lemma_descends_trans(nodes0, i, k, s);
            assert(splash_before(nodes0, i, k));
        }
        if splash_before(nodes0, i, k + 1) {
            let s = choose|s: int|
                0 <= s < k + 1 && nodes0[s].alive && nodes0[s].role == Role::Splash && #[trigger] descends(nodes0, i, s);
            if s < k {
                assert(splash_before(nodes0, i, k));
            }
        }
        if splash_before(nodes0, i, k) {
            let s = choose|s: int|
                0 <= s < k && nodes0[s].alive && nodes0[s].role == Role::Splash && #[trigger] descends(nodes0, i, s);
            assert(splash_before(nodes0, i, k + 1));
        }
    }
}

impl UiTree {
    /// Mounts the splash screen of `phase`: a root and its title, showing
    /// the phase's title and the hint to press a key. Outside the start
    /// screen the HUD is unmounted first; finding more than one HUD root, or
    /// none after one was created, is an error, and then nothing changes.
    pub fn splash_screen(&mut self, phase: TurnPhase) -> (r: Result<SplashScreen, UiError>)
        requires
            old(self).wf(),
            old(self).nodes@.len() + 2 < usize::MAX,
        ensures
            final(self).wf(),
            r is Err <==> (phase != TurnPhase::StartScreen && (mounted(old(self).nodes@, Role::HudRoot) > 1 || (
            mounted(old(self).nodes@, Role::HudRoot) == 0 && created(old(self).nodes@, Role::HudRoot)))),
            r is Err ==> final(self).nodes@ == old(self).nodes@,
            r is Ok && mounted(old(self).nodes@, Role::Splash) == 0 ==> mounted(final(self).nodes@, Role::Splash) == 1,
            roots_only(old(self).nodes@, Role::HudRoot) ==> roots_only(final(self).nodes@, Role::HudRoot),
            r matches Ok(sp) ==> {
                let n = old(self).nodes@.len() as int;
                let id = sp.id;
                &&& id == n
                &&& sp.title@ == title_of(phase)
                &&& sp.color == color_of(phase)
                &&& sp.hint@ == splash_hint()
                &&& final(self).nodes@.len() == n + 2
                &&& final(self).nodes@[n] == UiNode { parent: None, role: Role::Splash, alive: true }
                &&& final(self).nodes@[n + 1] == UiNode {
                    parent: Some(id),
                    role: Role::SplashTitle,
                    alive: true,
                }
                &&& forall|i: int|
                    0 <= i < n ==> {
                        &&& (#[trigger] final(self).nodes@[i]).parent == old(self).nodes@[i].parent
                        &&& final(self).nodes@[i].role == old(self).nodes@[i].role
                        &&& final(self).nodes@[i].alive == (old(self).nodes@[i].alive && !(phase
                            != TurnPhase::StartScreen && under_mounted(old(self).nodes@, i, Role::HudRoot)))
                    }
                &&& phase != TurnPhase::StartScreen ==> mounted(final(self).nodes@, Role::HudRoot) == 0
            },
    {
        let ghost nodes0 = self.nodes@;
        if phase != TurnPhase::StartScreen {
            let n = self.count_mounted(Role::HudRoot);
            if n > 1 {
                return Err(UiError::InvariantViolation);
            }
            if n == 0 && self.has_created(Role::HudRoot) {
                return Err(UiError::InvariantViolation);
            }
            match self.find_mounted(Role::HudRoot) {
                Some(h) => {
                    proof {
                        lemma_count_role_one(nodes0, Role::HudRoot, nodes0.len() as int, h as int);
                    }
                    self.despawn_recursive(h);
                    proof {
                        assert forall|i: int| 0 <= i < nodes0.len() implies (#[trigger] self.nodes@[i]).alive == (
                        nodes0[i].alive && !under_mounted(nodes0, i, Role::HudRoot)) by {
                            if nodes0[i].alive && under_mounted(nodes0, i, Role::HudRoot) {
                                let s = choose|s: int|
                                    0 <= s < nodes0.len() && nodes0[s].alive && nodes0[s].role == Role::HudRoot
                                        && #[trigger] descends(nodes0, i, s);
                                assert(!(nodes0[s].alive && nodes0[s].role == Role::HudRoot) || s == h);
                            }
                            if descends(nodes0, i, h as int) {
                                assert(descends(nodes0, h as int, h as int));
                            }
                        }
                        assert forall|j: int| 0 <= j < self.nodes@.len() implies !(#[trigger] self.nodes@[j].alive
                            && self.nodes@[j].role == Role::HudRoot) by {
                            assert(descends(nodes0, j, j));
                        }
                    }
                },
                None => {
                    proof {
                        lemma_count_role_none(nodes0, Role::HudRoot, nodes0.len() as int);
                    }
                },
            }
        }
        let ghost nodes1 = self.nodes@;
        let id = self.spawn(None, Role::Splash);
        self.spawn(Some(id), Role::SplashTitle);
        proof {
            if phase != TurnPhase::StartScreen {
                assert forall|j: int| 0 <= j < nodes1.len() implies !(#[trigger] nodes1[j].alive
                    && nodes1[j].role == Role::HudRoot) by {
                    if nodes1[j].alive && nodes1[j].role == Role::HudRoot {
                        assert(descends(nodes0, j, j));
                    }
                }
                lemma_mounted_none(self.nodes@, Role::HudRoot);
            }
            lemma_count_role_le(nodes0, nodes1, Role::Splash, nodes0.len() as int);
            let n = nodes1.len() as int;
            let s = self.nodes@;
            assert(s =~= nodes1.push(s[n]).push(s[n + 1]));
            lemma_mounted_push(nodes1, s[n], Role::Splash);
            lemma_mounted_push(nodes1.push(s[n]), s[n + 1], Role::Splash);
        }
        let t = splash_title(phase);
        proof {
            reveal_strlit("\nPress any key to start game.");
        }
        Ok(
            SplashScreen {
                id,
                title: String::from_str(t.0),
                color: t.1,
                hint: String::from_str("\nPress any key to start game."),
            },
        )
    }

    /// Unmounts every splash screen, with everything below them.
    pub fn despawn_splashscreen(&mut self)
        requires
            old(self).wf(),
        ensures
            final(self).wf(),
            same_shape(final(self).nodes@, old(self).nodes@),
            forall|i: int|
                0 <= i < old(self).nodes@.len() ==> (#[trigger] final(self).nodes@[i]).alive == (old(
                    self,
                ).nodes@[i].alive && !under_mounted(old(self).nodes@, i, Role::Splash)),
            mounted(final(self).nodes@, Role::Splash) == 0,
            roots_only(old(self).nodes@, Role::HudRoot) ==> mounted(final(self).nodes@, Role::HudRoot) == mounted(
                old(self).nodes@,
                Role::HudRoot,
            ),
    {
        let ghost nodes0 = self.nodes@;
        let mut k: usize = 0;
        while k < self.nodes.len()
            invariant
                self.wf(),
                k <= nodes0.len(),
                same_shape(self.nodes@, nodes0),
                forall|i: int|
                    0 <= i < nodes0.len() ==> (#[trigger] self.nodes@[i]).alive == (nodes0[i].alive && !splash_before(nodes0, i, k as int)),
            decreases nodes0.len() - k,
        {
            if self.nodes[k].alive && self.nodes[k].role == Role::Splash {
                let ghost before = self.nodes@;
                self.despawn_recursive(k);
                proof {
                    lemma_splash_step_unmount(nodes0, before, self.nodes@, k as int);
                }
            } else {
                proof {
                    lemma_splash_step_skip(nodes0, self.nodes@, k as int);
                }
            }
            k = k + 1;
        }
        proof {
            assert forall|i: int| 0 <= i < nodes0.len() implies (#[trigger] self.nodes@[i]).alive == (
            nodes0[i].alive && !under_mounted(nodes0, i, Role::Splash)) by {
                if under_mounted(nodes0, i, Role::Splash) {
                    let s = choose|s: int|
                        0 <= s < nodes0.len() && nodes0[s].alive && nodes0[s].role == Role::Splash
                            && #[trigger] descends(nodes0, i, s);
                    assert(descends(nodes0, i, s));
                }
            }
            assert forall|j: int| 0 <= j < self.nodes@.len() implies !(#[trigger] self.nodes@[j].alive
                && self.nodes@[j].role == Role::Splash) by {
                assert(descends(nodes0, j, j));
            }
            lemma_mounted_none(self.nodes@, Role::Splash);
            if roots_only(nodes0, Role::HudRoot) {
                assert forall|j: int| 0 <= j < nodes0.len() implies (#[trigger] self.nodes@[j].alive
                    && self.nodes@[j].role == Role::HudRoot) == (nodes0[j].alive && nodes0[j].role == Role::HudRoot) by {
                    if nodes0[j].role == Role::HudRoot && under_mounted(nodes0, j, Role::Splash) {
                        let s = choose|s: int|
                            0 <= s < nodes0.len() && nodes0[s].alive && nodes0[s].role == Role::Splash
                                && #[trigger] descends(nodes0, j, s);
                        assert(!descends(nodes0, j, s));
                    }
                }
                lemma_count_role_le(nodes0, self.nodes@, Role::HudRoot, nodes0.len() as int);
                lemma_count_role_le(self.nodes@, nodes0, Role::HudRoot, nodes0.len() as int);
            }
        }
    }
}

impl UiTree {
    /// Mounts the HUD, a root with the log panel, the health panel and the
    /// tooltip box below it, unless a HUD root is already mounted; returns
    /// the new root.
    pub fn bottom_ui(&mut self) -> (r: Option<TopUINode>)
        requires
            old(self).wf(),
            old(self).nodes@.len() + 4 < usize::MAX,
        ensures
            final(self).wf(),
            r is Some <==> mounted(old(self).nodes@, Role::HudRoot) == 0,
            r is None ==> final(self).nodes@ == old(self).nodes@,
            r matches Some(top) ==> {
                let id = top.id;
                &&& id == old(self).nodes@.len()
                &&& final(self).nodes@ == old(self).nodes@.push(
                    UiNode { parent: None, role: Role::HudRoot, alive: true },
                ).push(UiNode { parent: Some(id), role: Role::LogPanel, alive: true }).push(
                    UiNode { parent: Some(id), role: Role::HealthPanel, alive: true },
                ).push(UiNode { parent: Some(id), role: Role::TooltipBox, alive: true })
            },
            mounted(final(self).nodes@, Role::HudRoot) == if mounted(old(self).nodes@, Role::HudRoot) == 0 {
                1
            } else {
                mounted(old(self).nodes@, Role::HudRoot)
            },
            mounted(final(self).nodes@, Role::Splash) == mounted(old(self).nodes@, Role::Splash),
            roots_only(old(self).nodes@, Role::HudRoot) ==> roots_only(final(self).nodes@, Role::HudRoot),
    {
        if self.count_mounted(Role::HudRoot) > 0 {
            return None;
        }
        let ghost s0 = self.nodes@;
        let id = self.spawn(None, Role::HudRoot);
        let ghost s1 = self.nodes@;
        self.spawn(Some(id), Role::LogPanel);
        let ghost s2 = self.nodes@;
        self.spawn(Some(id), Role::HealthPanel);
        let ghost s3 = self.nodes@;
        self.spawn(Some(id), Role::TooltipBox);
        proof {
            lemma_mounted_push(s0, UiNode { parent: None, role: Role::HudRoot, alive: true }, Role::HudRoot);
            lemma_mounted_push(s1, UiNode { parent: Some(id), role: Role::LogPanel, alive: true }, Role::HudRoot);
            lemma_mounted_push(s2, UiNode { parent: Some(id), role: Role::HealthPanel, alive: true }, Role::HudRoot);
            lemma_mounted_push(s3, UiNode { parent: Some(id), role: Role::TooltipBox, alive: true }, Role::HudRoot);
            lemma_mounted_push(s0, UiNode { parent: None, role: Role::HudRoot, alive: true }, Role::Splash);
            lemma_mounted_push(s1, UiNode { parent: Some(id), role: Role::LogPanel, alive: true }, Role::Splash);
            lemma_mounted_push(s2, UiNode { parent: Some(id), role: Role::HealthPanel, alive: true }, Role::Splash);
            lemma_mounted_push(s3, UiNode { parent: Some(id), role: Role::TooltipBox, alive: true }, Role::Splash);
        }
        Some(TopUINode { id })
    }
}

proof fn lemma_mounted_none(nodes: Seq<UiNode>, role: Role)
    requires
        forall|j: int| 0 <= j < nodes.len() ==> !(#[trigger] nodes[j].alive && nodes[j].role == role),
    ensures
        mounted(nodes, role) == 0,
{
    lemma_count_prefix_none(nodes, role, nodes.len() as int);
}

proof fn lemma_count_prefix_none(nodes: Seq<UiNode>, role: Role, n: int)
    requires
        n <= nodes.len(),
        forall|j: int| 0 <= j < nodes.len() ==> !(#[trigger] nodes[j].alive && nodes[j].role == role),
    ensures
        crate::ui_tree::count_role(nodes, role, n) == 0,
    decreases n,
{
    if n > 0 {
        lemma_count_prefix_none(nodes, role, n - 1);
    }
}

} // verus!
