//! The tree of mounted UI nodes, kept in an arena indexed by stable ids.
use vstd::prelude::*;

verus! {

/// What a node is for.
#[derive(Clone, Copy, Debug, PartialEq, Eq, Structural)]
pub enum Role {
    Splash,
    SplashTitle,
    HudRoot,
    LogPanel,
    HealthPanel,
    TooltipBox,
}

/// A node: its parent's id, its role, and whether it is still mounted.
#[derive(Clone, Copy, Debug, PartialEq, Eq, Structural)]
pub struct UiNode {
    pub parent: Option<usize>,
    pub role: Role,
    pub alive: bool,
}

/// The arena of nodes; a node's id is its index. Unmounted nodes stay in
/// place so that ids remain stable.
#[derive(Debug)]
pub struct UiTree {
    pub nodes: Vec<UiNode>,
}

/// Node `i` is `r` or lies below it.
pub open spec fn descends(nodes: Seq<UiNode>, i: int, r: int) -> bool
    decreases i,
{
    if i < 0 || i >= nodes.len() {
        false
    } else if i == r {
        true
    } else {
        match nodes[i].parent {
            Some(p) => (p as int) < i && descends(nodes, p as int, r),
            None => false,
        }
    }
}

/// Every parent comes before its children, and no mounted node has an
/// unmounted parent.
pub open spec fn tree_wf(nodes: Seq<UiNode>) -> bool {
    forall|i: int|
        0 <= i < nodes.len() ==> match #[trigger] nodes[i].parent {
            Some(p) => (p as int) < i && (nodes[i].alive ==> nodes[p as int].alive),
            None => true,
        }
}

/// Only the mount flags may differ.
pub open spec fn same_shape(a: Seq<UiNode>, b: Seq<UiNode>) -> bool {
    &&& a.len() == b.len()
    &&& forall|i: int| 0 <= i < a.len() ==> (#[trigger] a[i]).parent == b[i].parent && a[i].role == b[i].role
}

/// The number of mounted nodes with role `role` among the first `n`.
pub open spec fn count_role(nodes: Seq<UiNode>, role: Role, n: int) -> nat
    decreases n,
{
    if n <= 0 {
        0
    } else {
        count_role(nodes, role, n - 1) + (if nodes[n - 1].alive && nodes[n - 1].role == role {
            1nat
        } else {
            0nat
        })
    }
}

pub open spec fn mounted(nodes: Seq<UiNode>, role: Role) -> nat {
    count_role(nodes, role, nodes.len() as int)
}

/// Some node with role `role` was ever mounted, whether or not it still is.
pub open spec fn created(nodes: Seq<UiNode>, role: Role) -> bool {
    exists|i: int| 0 <= i < nodes.len() && #[trigger] nodes[i].role == role
}

/// Every node with role `role` is a root.
pub open spec fn roots_only(nodes: Seq<UiNode>, role: Role) -> bool {
    forall|i: int| 0 <= i < nodes.len() && #[trigger] nodes[i].role == role ==> nodes[i].parent is None
}

pub proof fn lemma_created_same_shape(a: Seq<UiNode>, b: Seq<UiNode>, role: Role)
    requires
        same_shape(a, b),
    ensures
        created(a, role) == created(b, role),
{
    if created(a, role) {
        let i = choose|i: int| 0 <= i < a.len() && #[trigger] a[i].role == role;
        assert(b[i].role == role);
    }
    if created(b, role) {
        let i = choose|i: int| 0 <= i < b.len() && #[trigger] b[i].role == role;
        assert(a[i].role == b[i].role);
    }
}

pub proof fn lemma_descends_same_shape(a: Seq<UiNode>, b: Seq<UiNode>, i: int, r: int)
    requires
        same_shape(a, b),
    ensures
        descends(a, i, r) == descends(b, i, r),
    decreases i,
{
    if 0 <= i < a.len() && i != r {
        if let Some(p) = a[i].parent {
            if (p as int) < i {
                lemma_descends_same_shape(a, b, p as int, r);
            }
        }
    }
}

pub proof fn lemma_descends_trans(nodes: Seq<UiNode>, i: int, m: int, r: int)
    requires
        descends(nodes, i, m),
        descends(nodes, m, r),
    ensures
        descends(nodes, i, r),
    decreases i,
{
    if i != m {
        lemma_descends_trans(nodes, nodes[i].parent->Some_0 as int, m, r);
    }
}

pub proof fn lemma_count_role_bound(nodes: Seq<UiNode>, role: Role, n: int)
    ensures
        count_role(nodes, role, n) <= if n < 0 { 0 } else { n },
    decreases n,
{
    if n > 0 {
        lemma_count_role_bound(nodes, role, n - 1);
    }
}

/// A node found mounted with role `role` when exactly one is mounted.
pub proof fn lemma_count_role_one(nodes: Seq<UiNode>, role: Role, n: int, i: int)
    requires
        0 <= i < n <= nodes.len(),
        count_role(nodes, role, n) == 1,
        nodes[i].alive && nodes[i].role == role,
    ensures
        forall|j: int| 0 <= j < n && j != i ==> !(#[trigger] nodes[j].alive && nodes[j].role == role),
    decreases n,
{
    if n - 1 > i {
        lemma_count_role_zero_after(nodes, role, n - 1, i);
        lemma_count_role_one(nodes, role, n - 1, i);
    } else {
        lemma_count_role_none(nodes, role, n - 1);
    }
}

proof fn lemma_count_role_zero_after(nodes: Seq<UiNode>, role: Role, n: int, i: int)
    requires
        0 <= i < n,
        nodes[i].alive && nodes[i].role == role,
    ensures
        count_role(nodes, role, n) >= 1,
    decreases n,
{
    if n - 1 > i {
        lemma_count_role_zero_after(nodes, role, n - 1, i);
    }
}

pub(crate) proof fn lemma_count_role_none(nodes: Seq<UiNode>, role: Role, n: int)
    requires
        count_role(nodes, role, n) == 0,
    ensures
        forall|j: int| 0 <= j < n ==> !(#[trigger] nodes[j].alive && nodes[j].role == role),
    decreases n,
{
    if n > 0 {
        lemma_count_role_none(nodes, role, n - 1);
    }
}

proof fn lemma_despawn_keeps_wf(a: Seq<UiNode>, b: Seq<UiNode>, root: int)
    requires
        tree_wf(a),
        same_shape(b, a),
        forall|j: int| 0 <= j < a.len() ==> (#[trigger] b[j]).alive == (a[j].alive && !descends(a, j, root)),
    ensures
        tree_wf(b),
{
    assert forall|j: int| 0 <= j < b.len() implies match #[trigger] b[j].parent {
        Some(p) => (p as int) < j && (b[j].alive ==> b[p as int].alive),
        None => true,
    } by {
        assert(a[j].parent == b[j].parent);
        if let Some(p) = b[j].parent {
            assert(b[p as int].alive == (a[p as int].alive && !descends(a, p as int, root)));
        }
    }
}

/// Counting over nodes that are mounted with `role` at most where `a`'s
/// are gives at most `a`'s count.
pub proof fn lemma_count_role_le(a: Seq<UiNode>, b: Seq<UiNode>, role: Role, n: int)
    requires
        n <= a.len(),
        n <= b.len(),
        forall|j: int|
            0 <= j < n ==> (#[trigger] b[j].alive && b[j].role == role) ==> (a[j].alive && a[j].role == role),
    ensures
        count_role(b, role, n) <= count_role(a, role, n),
    decreases n,
{
    if n > 0 {
        lemma_count_role_le(a, b, role, n - 1);
    }
}

/// Appending a node adds one to the count exactly when it is mounted with
/// `role`.
pub proof fn lemma_mounted_push(s: Seq<UiNode>, x: UiNode, role: Role)
    ensures
        mounted(s.push(x), role) == mounted(s, role) + (if x.alive && x.role == role {
            1nat
        } else {
            0nat
        }),
{
    let t = s.push(x);
    assert forall|j: int| 0 <= j < s.len() implies (#[trigger] t[j].alive && t[j].role == role) == (s[j].alive
        && s[j].role == role) by {
        assert(t[j] == s[j]);
    }
    lemma_count_role_le(s, t, role, s.len() as int);
    lemma_count_role_le(t, s, role, s.len() as int);
}

impl UiTree {
    pub open spec fn wf(&self) -> bool {
        tree_wf(self.nodes@)
    }

    /// An empty tree.
    pub fn new() -> (r: UiTree)
        ensures
            r.wf(),
            r.nodes@.len() == 0,
    {
        UiTree { nodes: Vec::new() }
    }

    /// Mounts a node under `parent`, or as a root, and returns its id.
    pub fn spawn(&mut self, parent: Option<usize>, role: Role) -> (r: usize)
        requires
            old(self).wf(),
            old(self).nodes@.len() < usize::MAX,
            parent matches Some(p) ==> p < old(self).nodes@.len() && old(self).nodes@[p as int].alive,
        ensures
            final(self).wf(),
            r == old(self).nodes@.len(),
            final(self).nodes@ == old(self).nodes@.push(UiNode { parent, role, alive: true }),
    {
        let id = self.nodes.len();
        self.nodes.push(UiNode { parent, role, alive: true });
        id
    }

    /// The number of mounted nodes with role `role`.
    pub fn count_mounted(&self, role: Role) -> (r: usize)
        ensures
            r == mounted(self.nodes@, role),
    {
        let mut n: usize = 0;
        let mut i: usize = 0;
        while i < self.nodes.len()
            invariant
                i <= self.nodes@.len(),
                n == count_role(self.nodes@, role, i as int),
            decreases self.nodes@.len() - i,
        {
            proof {
                lemma_count_role_bound(self.nodes@, role, i as int);
            }
            if self.nodes[i].alive && self.nodes[i].role == role {
                n = n + 1;
            }
            i = i + 1;
        }
        n
    }

    /// Whether a node with role `role` was ever mounted.
    pub fn has_created(&self, role: Role) -> (r: bool)
        ensures
            r == created(self.nodes@, role),
    {
        let mut i: usize = 0;
        while i < self.nodes.len()
            invariant
                i <= self.nodes@.len(),
                forall|j: int| 0 <= j < i ==> #[trigger] self.nodes@[j].role != role,
            decreases self.nodes@.len() - i,
        {
            if self.nodes[i].role == role {
                return true;
            }
            i = i + 1;
        }
        false
    }

    /// The first mounted node with role `role`, if any.
    pub fn find_mounted(&self, role: Role) -> (r: Option<usize>)
        ensures
            r is None <==> mounted(self.nodes@, role) == 0,
            r matches Some(i) ==> i < self.nodes@.len() && self.nodes@[i as int].alive && self.nodes@[i as int].role
                == role,
    {
        let mut i: usize = 0;
        while i < self.nodes.len()
            invariant
                i <= self.nodes@.len(),
                count_role(self.nodes@, role, i as int) == 0,
            decreases self.nodes@.len() - i,
        {
            if self.nodes[i].alive && self.nodes[i].role == role {
                proof {
                    lemma_count_role_zero_after(self.nodes@, role, self.nodes@.len() as int, i as int);
                }
                return Some(i);
            }
            i = i + 1;
        }
        None
    }

    /// Unmounts `root` and everything below it.
    pub fn despawn_recursive(&mut self, root: usize)
        requires
            old(self).wf(),
        ensures
            final(self).wf(),
            same_shape(final(self).nodes@, old(self).nodes@),
            forall|i: int|
                0 <= i < old(self).nodes@.len() ==> (#[trigger] final(self).nodes@[i]).alive == (old(
                    self,
                ).nodes@[i].alive && !descends(old(self).nodes@, i, root as int)),
    {
        let ghost nodes0 = self.nodes@;
        let mut marks: Vec<bool> = Vec::new();
        let mut i: usize = 0;
        while i < self.nodes.len()
            invariant
                tree_wf(nodes0),
                i <= nodes0.len(),
                marks@.len() == i,
                same_shape(self.nodes@, nodes0),
                forall|j: int| 0 <= j < i ==> #[trigger] marks@[j] == descends(nodes0, j, root as int),
                forall|j: int|
                    0 <= j < nodes0.len() ==> (#[trigger] self.nodes@[j]).alive == (if j < i {
                        nodes0[j].alive && !descends(nodes0, j, root as int)
                    } else {
                        nodes0[j].alive
                    }),
            decreases nodes0.len() - i,
        {
            let m = if i == root {
                true
            } else {
                match self.nodes[i].parent {
                    Some(p) => p < i && marks[p],
                    None => false,
                }
            };
            proof {
                assert(nodes0[i as int].parent == self.nodes@[i as int].parent);
                assert(m == descends(nodes0, i as int, root as int));
            }
            marks.push(m);
            if m {
                let node = UiNode { parent: self.nodes[i].parent, role: self.nodes[i].role, alive: false };
                self.nodes.set(i, node);
            }
            i = i + 1;
        }
        proof {
            lemma_despawn_keeps_wf(nodes0, self.nodes@, root as int);
        }
    }
}

} // verus!
