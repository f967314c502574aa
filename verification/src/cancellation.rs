//! Hierarchical cancellation.
//!
//! Tokens form a tree: a root is created at engine start, and every
//! operation runs under a child (or deeper descendant) of the ambient
//! token. Cancelling a token cancels it and every descendant — including
//! descendants created after the call — and can never be reversed.
//!
//! The tree is held as an arena: a token is an index into the arena, a
//! node records its parent and whether it was cancelled directly, and a
//! token counts as cancelled as soon as it or any ancestor was cancelled
//! directly. Sharing a token handle is sharing the index, so one
//! cancellation is observed by every handle.

use vstd::prelude::*;

verus! {

/// One node of the token tree.
struct TokenNode {
    /// Index of the parent node; `None` for a root.
    parent: Option<usize>,
    /// Was this node cancelled directly?
    flagged: bool,
}

/// The arena of cancellation tokens. A `TokenId` is an index into it.
pub struct CancellationTree {
    nodes: Vec<TokenNode>,
}

/// A token: an index into the tree that created it.
pub type TokenId = usize;

impl CancellationTree {
    /// Parents point strictly backwards: a node's parent was created
    /// before the node. This is what makes the ancestor walk terminate.
    pub closed spec fn well_formed(&self) -> bool {
        forall|i: int| 0 <= i < self.nodes@.len() ==> match (#[trigger] self.nodes@[i]).parent {
            Some(p) => p < i,
            None => true,
        }
    }

    /// The number of tokens created so far.
    pub closed spec fn len(&self) -> nat {
        self.nodes@.len()
    }

    /// `i` is a token of this tree.
    pub open spec fn holds(&self, i: TokenId) -> bool {
        i < self.len()
    }

    /// The parent of token `i`, if it is not a root.
    pub closed spec fn parent_of(&self, i: TokenId) -> Option<TokenId> {
        self.nodes@[i as int].parent
    }

    /// Token `i` was cancelled directly.
    pub closed spec fn flagged(&self, i: TokenId) -> bool {
        self.nodes@[i as int].flagged
    }

    /// Token `i` is cancelled: it or some ancestor was cancelled directly.
    pub closed spec fn cancelled(&self, i: TokenId) -> bool
        decreases i,
    {
        self.nodes@[i as int].flagged || match self.nodes@[i as int].parent {
            Some(p) => p < i && self.cancelled(p),
            None => false,
        }
    }

    /// An empty tree.
    pub fn new() -> (r: CancellationTree)
        ensures
            r.well_formed(),
            r.len() == 0,
    {
        CancellationTree { nodes: Vec::new() }
    }

    /// Create a root token, live, with no parent.
    pub fn new_root(&mut self) -> (t: TokenId)
        requires
            old(self).well_formed(),
        ensures
            final(self).well_formed(),
            final(self).len() == old(self).len() + 1,
            t == old(self).len(),
            final(self).holds(t),
            !final(self).flagged(t),
            !final(self).cancelled(t),
            // existing tokens are untouched
            forall|j: TokenId| old(self).holds(j) ==> final(self).cancelled(j) == old(
                self,
            ).cancelled(j),
            forall|j: TokenId| old(self).holds(j) ==> final(self).parent_of(j) == old(
                self,
            ).parent_of(j),
            forall|j: TokenId| old(self).holds(j) ==> final(self).flagged(j) == old(self).flagged(
                j,
            ),
    {
        let t = self.nodes.len();
        self.nodes.push(TokenNode { parent: None, flagged: false });
        proof {
            self.lemma_push_preserves_cancelled(*old(self), t);
        }
        t
    }

    /// Create a child of `parent`. The child observes every cancellation
    /// of its ancestors, also one that happened before it was created.
    pub fn child(&mut self, parent: TokenId) -> (t: TokenId)
        requires
            old(self).well_formed(),
            old(self).holds(parent),
        ensures
            final(self).well_formed(),
            final(self).len() == old(self).len() + 1,
            t == old(self).len(),
            final(self).holds(t),
            !final(self).flagged(t),
            final(self).parent_of(t) == Some(parent),
            // a child starts cancelled exactly when its parent already is
            final(self).cancelled(t) == old(self).cancelled(parent),
            forall|j: TokenId| old(self).holds(j) ==> final(self).cancelled(j) == old(
                self,
            ).cancelled(j),
            forall|j: TokenId| old(self).holds(j) ==> final(self).parent_of(j) == old(
                self,
            ).parent_of(j),
            forall|j: TokenId| old(self).holds(j) ==> final(self).flagged(j) == old(self).flagged(
                j,
            ),
    {
        let t = self.nodes.len();
        self.nodes.push(TokenNode { parent: Some(parent), flagged: false });
        proof {
            self.lemma_push_preserves_cancelled(*old(self), t);
            assert(self.cancelled(t) == self.cancelled(parent));
        }
        t
    }

    /// Is token `i` cancelled? Walks the ancestor chain.
    pub fn is_cancelled(&self, i: TokenId) -> (r: bool)
        requires
            self.well_formed(),
            self.holds(i),
        ensures
            r == self.cancelled(i),
    {
        let mut cur = i;
        loop
            invariant
                self.well_formed(),
                self.holds(cur),
                self.cancelled(i) == self.cancelled(cur),
            decreases cur,
        {
            if self.nodes[cur].flagged {
                return true;
            }
            match self.nodes[cur].parent {
                Some(p) => {
                    cur = p;
                },
                None => {
                    return false;
                },
            }
        }
    }

    /// Cancel token `i`: it and all its descendants — present and future —
    /// are cancelled from now on. Cancelling twice changes nothing.
    pub fn cancel(&mut self, i: TokenId)
        requires
            old(self).well_formed(),
            old(self).holds(i),
        ensures
            final(self).well_formed(),
            final(self).len() == old(self).len(),
            final(self).cancelled(i),
            // the structure is unchanged
            forall|j: TokenId| old(self).holds(j) ==> final(self).parent_of(j) == old(
                self,
            ).parent_of(j),
            // cancellation is monotonic: nothing is ever uncancelled
            forall|j: TokenId|
                old(self).holds(j) && old(self).cancelled(j) ==> final(self).cancelled(j),
            // nothing outside the subtree of `i` changes
            forall|j: TokenId|
                old(self).holds(j) && !old(self).is_descendant_of(j, i) ==> final(self).cancelled(
                    j,
                ) == old(self).cancelled(j),
            // the whole subtree of `i` is cancelled
            forall|j: TokenId|
                old(self).holds(j) && old(self).is_descendant_of(j, i) ==> final(self).cancelled(
                    j,
                ),
            // idempotence: all observables of an already-flagged token's tree
            // are pinned unchanged by the clauses above and below
            final(self).flagged(i),
            forall|j: TokenId|
                old(self).holds(j) && j != i ==> final(self).flagged(j) == old(self).flagged(j),
    {
        let node = &mut self.nodes[i];
        let parent = node.parent;
        *node = TokenNode { parent, flagged: true };
        proof {
            assert(self.nodes@ =~= old(self).nodes@.update(i as int, self.nodes@[i as int]));
            assert forall|j: TokenId| old(self).holds(j) implies {
                &&& (old(self).cancelled(j) ==> self.cancelled(j))
                &&& (!old(self).is_descendant_of(j, i) ==> self.cancelled(j) == old(
                    self,
                ).cancelled(j))
                &&& (old(self).is_descendant_of(j, i) ==> self.cancelled(j))
            } by {
                self.lemma_flag_effect(*old(self), i, j);
            }
        }
    }

    /// `j` is `i` itself or a descendant of `i`.
    pub closed spec fn is_descendant_of(&self, j: TokenId, i: TokenId) -> bool
        decreases j,
    {
        j == i || match self.nodes@[j as int].parent {
            Some(p) => p < j && self.is_descendant_of(p, i),
            None => false,
        }
    }

    /// Pushing one node changes nothing about the old ones.
    proof fn lemma_push_preserves_cancelled(&self, pre: CancellationTree, t: TokenId)
        requires
            pre.well_formed(),
            self.nodes@.len() == pre.nodes@.len() + 1,
            t == pre.nodes@.len(),
            forall|k: int| 0 <= k < pre.nodes@.len() ==> self.nodes@[k] == pre.nodes@[k],
            match self.nodes@[t as int].parent {
                Some(p) => p < t,
                None => true,
            },
        ensures
            self.well_formed(),
            forall|j: TokenId| #[trigger] pre.holds(j) ==> self.cancelled(j) == pre.cancelled(j),
    {
        assert forall|j: TokenId| #[trigger] pre.holds(j) implies self.cancelled(j)
            == pre.cancelled(j) by {
            self.lemma_same_prefix_same_cancelled(pre, j);
        }
    }

    /// Two trees that agree below `j` agree on `cancelled(j)`.
    proof fn lemma_same_prefix_same_cancelled(&self, pre: CancellationTree, j: TokenId)
        requires
            pre.well_formed(),
            j < pre.nodes@.len(),
            j < self.nodes@.len(),
            forall|k: int| 0 <= k <= j ==> self.nodes@[k] == pre.nodes@[k],
        ensures
            self.cancelled(j) == pre.cancelled(j),
        decreases j,
    {
        match pre.nodes@[j as int].parent {
            Some(p) => {
                if p < j {
                    self.lemma_same_prefix_same_cancelled(pre, p);
                }
            },
            None => {},
        }
    }

    /// Effect of flagging node `i` on `cancelled(j)`: descendants of `i`
    /// become cancelled, everything else keeps its value; nothing is ever
    /// uncancelled.
    proof fn lemma_flag_effect(&self, pre: CancellationTree, i: TokenId, j: TokenId)
        requires
            pre.well_formed(),
            i < pre.nodes@.len(),
            j < pre.nodes@.len(),
            self.nodes@.len() == pre.nodes@.len(),
            forall|k: int|
                0 <= k < pre.nodes@.len() && k != i ==> self.nodes@[k] == pre.nodes@[k],
            self.nodes@[i as int].parent == pre.nodes@[i as int].parent,
            self.nodes@[i as int].flagged,
        ensures
            pre.cancelled(j) ==> self.cancelled(j),
            !pre.is_descendant_of(j, i) ==> self.cancelled(j) == pre.cancelled(j),
            pre.is_descendant_of(j, i) ==> self.cancelled(j),
        decreases j,
    {
        match pre.nodes@[j as int].parent {
            Some(p) => {
                if p < j {
                    self.lemma_flag_effect(pre, i, p);
                }
            },
            None => {},
        }
    }
}

/// A node's parent was created before it.
pub proof fn lemma_parent_before(t: &CancellationTree, i: TokenId)
    requires
        t.well_formed(),
        t.holds(i),
    ensures
        match t.parent_of(i) {
            Some(p) => p < i && t.holds(p),
            None => true,
        },
{
}

/// A token is cancelled exactly when it was cancelled directly or its
/// parent is cancelled.
pub proof fn lemma_cancelled_via_parent(t: &CancellationTree, i: TokenId)
    requires
        t.well_formed(),
        t.holds(i),
    ensures
        t.cancelled(i) == (t.flagged(i) || match t.parent_of(i) {
            Some(p) => t.cancelled(p),
            None => false,
        }),
{
}

/// Cancelling a token cancels a child created before the call and a child
/// created after it alike: both observe `cancelled`.
pub proof fn lemma_cancel_reaches_children(
    t0: CancellationTree,
    t1: CancellationTree,
    t2: CancellationTree,
    root: TokenId,
    before: TokenId,
    after: TokenId,
)
    requires
        t0.well_formed(),
        t0.holds(root),
        t0.holds(before),
        t0.is_descendant_of(before, root),
        // `t1` is `t0` after `root` was cancelled
        t1.len() == t0.len(),
        forall|j: TokenId| t0.holds(j) ==> t1.parent_of(j) == t0.parent_of(j),
        forall|j: TokenId| t0.holds(j) && t0.is_descendant_of(j, root) ==> t1.cancelled(j),
        forall|j: TokenId| t0.holds(j) && t0.cancelled(j) ==> t1.cancelled(j),
        // `t2` is `t1` after `after` was created as a child of `root`
        t2.holds(after),
        t1.holds(root),
        t2.cancelled(after) == t1.cancelled(root),
        forall|j: TokenId| t1.holds(j) ==> t2.cancelled(j) == t1.cancelled(j),
    ensures
        t2.cancelled(before),
        t2.cancelled(after),
{
}

} // verus!
