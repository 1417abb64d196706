//! The diagram graph: named, positioned nodes and directed edges.
//!
//! Nodes are owned by the graph and identified by an id that is never
//! reused. Edges are directed and stored on the source node as a list of
//! target ids. Deleting a node eagerly prunes every edge aimed at it, so a
//! well-formed graph never holds an edge whose target is gone.

use vstd::prelude::*;
use vstd::arithmetic::div_mod::lemma_fundamental_div_mod;

verus! {

/// The derived circle radius for a node whose name has `len` characters:
/// the larger of 10 and `2 * len + 5`.
pub open spec fn radius_spec(len: nat) -> nat {
    if 2 * len + 5 >= 10 {
        (2 * len + 5) as nat
    } else {
        10
    }
}

/// The derived radius grows with the name, never shrinks.
pub proof fn lemma_radius_monotone(a: nat, b: nat)
    requires
        a <= b,
    ensures
        radius_spec(a) <= radius_spec(b),
{
}

/// The derived circle radius for a name of `len` characters, saturating at
/// `usize::MAX` for lengths no real name reaches.
pub fn radius_of_len(len: usize) -> (r: usize)
    ensures
        2 * (len as nat) + 5 <= usize::MAX ==> r as nat == radius_spec(len as nat),
        2 * (len as nat) + 5 > usize::MAX ==> r == usize::MAX,
        r as nat >= 10,
{
    let half = (usize::MAX - 5) / 2;
    proof {
        lemma_fundamental_div_mod((usize::MAX - 5) as int, 2);
    }
    if len <= half {
        let v = 2 * len + 5;
        if v >= 10 {
            v
        } else {
            10
        }
    } else {
        usize::MAX
    }
}

/// A named, positioned vertex of the diagram, with its outgoing edges.
pub struct Node {
    /// Identity of the node; unique within the graph, never reused.
    pub id: u64,
    /// Canvas coordinates of the node's centre.
    pub x: i64,
    pub y: i64,
    /// Display name, fixed at creation.
    pub name: Vec<char>,
    /// Ids of the nodes this node points at.
    pub outgoing: Vec<u64>,
}

/// `s` with the presence of `v` toggled: removed if present, appended if not.
pub open spec fn toggle_seq(s: Seq<u64>, v: u64) -> Seq<u64> {
    if s.contains(v) {
        s.remove_value(v)
    } else {
        s.push(v)
    }
}

/// Removing the first occurrence of `v` keeps every element of the result
/// inside the input sequence.
proof fn lemma_remove_value_subset(s: Seq<u64>, v: u64)
    ensures
        forall|p: int|
            0 <= p < s.remove_value(v).len() ==> s.contains(#[trigger] s.remove_value(v)[p]),
{
    s.index_of_first_ensures(v);
    if s.contains(v) {
        let i = s.index_of_first(v).unwrap();
        s.remove_ensures(i);
    }
}

/// Removing the first occurrence of `v` from a duplicate-free sequence
/// leaves it duplicate-free, with no occurrence of `v` left.
proof fn lemma_remove_value_no_dup(s: Seq<u64>, v: u64)
    requires
        s.no_duplicates(),
    ensures
        s.remove_value(v).no_duplicates(),
        !s.remove_value(v).contains(v),
{
    s.index_of_first_ensures(v);
    if s.contains(v) {
        let i = s.index_of_first(v).unwrap();
        s.remove_ensures(i);
        let r = s.remove_value(v);
        assert forall|p: int, q: int| 0 <= p < q < r.len() implies r[p] != r[q] by {
            let sp: int = if p < i { p } else { p + 1 };
            let sq: int = if q < i { q } else { q + 1 };
            assert(r[p] == s[sp]);
            assert(r[q] == s[sq]);
        }
        assert forall|p: int| 0 <= p < r.len() implies r[p] != v by {
            let sp: int = if p < i { p } else { p + 1 };
            assert(r[p] == s[sp]);
            assert(s[i] == v);
        }
    }
}

/// Connecting a pair that is not yet connected and then toggling the same
/// pair again restores the edge list exactly: the second application finds
/// the edge present and removes it.
pub proof fn lemma_connect_twice_disconnects(s: Seq<u64>, v: u64)
    requires
        !s.contains(v),
    ensures
        toggle_seq(toggle_seq(s, v), v) == s,
{
    let t = s.push(v);
    assert(t[s.len() as int] == v);
    assert(t.contains(v));
    t.index_of_first_ensures(v);
    let i = t.index_of_first(v).unwrap();
    assert forall|j: int| 0 <= j < s.len() implies t[j] != v by {
        assert(t[j] == s[j]);
    }
    assert(i == s.len());
    t.remove_ensures(i);
    assert(t.remove(i) =~= s);
}

/// Toggling is a true toggle: on a duplicate-free edge list the presence of
/// the target flips, and the list stays duplicate-free.
pub proof fn lemma_toggle_flips(s: Seq<u64>, v: u64)
    requires
        s.no_duplicates(),
    ensures
        toggle_seq(s, v).contains(v) <==> !s.contains(v),
        toggle_seq(s, v).no_duplicates(),
{
    if s.contains(v) {
        lemma_remove_value_no_dup(s, v);
    } else {
        let t = s.push(v);
        assert(t[s.len() as int] == v);
        assert forall|p: int, q: int| 0 <= p < q < t.len() implies t[p] != t[q] by {
            if q == s.len() {
                assert(t[p] == s[p]);
                assert(!s.contains(v));
            } else {
                assert(t[p] == s[p]);
                assert(t[q] == s[q]);
            }
        }
    }
}

/// Every element of a toggled edge list was already present or is the
/// toggled target itself.
proof fn lemma_toggle_elems(s: Seq<u64>, v: u64)
    ensures
        forall|p: int|
            0 <= p < toggle_seq(s, v).len() ==> (s.contains(#[trigger] toggle_seq(s, v)[p])
                || toggle_seq(s, v)[p] == v),
{
    if s.contains(v) {
        lemma_remove_value_subset(s, v);
    } else {
        let t = s.push(v);
        assert forall|p: int| 0 <= p < t.len() implies (s.contains(t[p]) || t[p] == v) by {
            if p < s.len() {
                assert(t[p] == s[p]);
            }
        }
    }
}

/// `b` is `a` with every edge aimed at `id` removed and all else kept.
pub open spec fn node_pruned(a: Node, b: Node, id: u64) -> bool {
    &&& b.id == a.id
    &&& b.x == a.x
    &&& b.y == a.y
    &&& b.name == a.name
    &&& b.outgoing@ == a.outgoing@.remove_value(id)
}

/// Where row `j` of a graph stood before the row at `i` was swap-removed:
/// row `i` received the old last row, every other row kept its place.
pub open spec fn swap_src(i: int, j: int, last: int) -> int {
    if j == i {
        last
    } else {
        j
    }
}

/// First position of `x` in `v`, scanning from the front.
fn find_first(v: &Vec<u64>, x: u64) -> (r: Option<usize>)
    ensures
        match r {
            Some(k) => {
                &&& k < v@.len()
                &&& v@[k as int] == x
                &&& forall|m: int| 0 <= m < k ==> v@[m] != x
            },
            None => !v@.contains(x),
        },
{
    let n = v.len();
    let mut k: usize = 0;
    while k < n
        invariant
            n == v@.len(),
            k <= n,
            forall|m: int| 0 <= m < k ==> v@[m] != x,
        decreases n - k,
    {
        if v[k] == x {
            return Some(k);
        }
        k += 1;
    }
    None
}

impl Node {
    /// The node's derived circle radius, from its name length.
    pub fn radius(&self) -> (r: usize)
        ensures
            2 * self.name@.len() + 5 <= usize::MAX ==> r as nat == radius_spec(self.name@.len()),
            2 * self.name@.len() + 5 > usize::MAX ==> r == usize::MAX,
            r >= 10,
    {
        radius_of_len(self.name.len())
    }

    /// Toggle the presence of `to` among this node's outgoing edges.
    fn toggle_out(&mut self, to: u64)
        ensures
            final(self).id == old(self).id,
            final(self).x == old(self).x,
            final(self).y == old(self).y,
            final(self).name == old(self).name,
            final(self).outgoing@ == toggle_seq(old(self).outgoing@, to),
    {
        let ghost s = self.outgoing@;
        match find_first(&self.outgoing, to) {
            Some(k) => {
                proof {
                    s.index_of_first_ensures(to);
                }
                self.outgoing.remove(k);
                assert(s.index_of_first(to) == Some(k as int));
            },
            None => {
                self.outgoing.push(to);
            },
        }
    }

    /// Shift the node's position by `(dx, dy)`, saturating at the bounds
    /// of the coordinate type.
    fn shift(&mut self, dx: i64, dy: i64)
        ensures
            final(self).id == old(self).id,
            final(self).name == old(self).name,
            final(self).outgoing == old(self).outgoing,
            final(self).x as int == crate::coords::clamp_i64(old(self).x + dx),
            final(self).y as int == crate::coords::clamp_i64(old(self).y + dy),
    {
        self.x = crate::coords::sat_add_i64(self.x, dx);
        self.y = crate::coords::sat_add_i64(self.y, dy);
    }

    /// Remove the edge aimed at `id`, if there is one.
    fn prune_out(&mut self, id: u64)
        ensures
            final(self).id == old(self).id,
            final(self).x == old(self).x,
            final(self).y == old(self).y,
            final(self).name == old(self).name,
            final(self).outgoing@ == old(self).outgoing@.remove_value(id),
    {
        let ghost s = self.outgoing@;
        match find_first(&self.outgoing, id) {
            Some(k) => {
                proof {
                    s.index_of_first_ensures(id);
                }
                self.outgoing.remove(k);
                assert(s.index_of_first(id) == Some(k as int));
            },
            None => {
                proof {
                    s.index_of_first_ensures(id);
                }
            },
        }
    }
}

/// How `post` relates to `pre` after a node was created: one row appended
/// with the allocated id, the spawn fields, and no edges; all else kept.
pub open spec fn added_rel(pre: Graph, post: Graph, name: Seq<char>, x: i64, y: i64) -> bool {
    &&& post.next_id == pre.next_id + 1
    &&& post.nodes@.len() == pre.nodes@.len() + 1
    &&& forall|j: int| 0 <= j < pre.nodes@.len() ==> post.nodes@[j] == pre.nodes@[j]
    &&& post.nodes@.last().id == pre.next_id
    &&& post.nodes@.last().x == x
    &&& post.nodes@.last().y == y
    &&& post.nodes@.last().name@ == name
    &&& post.nodes@.last().outgoing@ == Seq::<u64>::empty()
}

/// How `post` relates to `pre` after the edge `from -> to` was toggled:
/// the source row's edge list is toggled, every other row is kept.
pub open spec fn toggled_rel(pre: Graph, post: Graph, from: u64, to: u64) -> bool {
    &&& post.next_id == pre.next_id
    &&& post.nodes@.len() == pre.nodes@.len()
    &&& forall|j: int|
        0 <= j < pre.nodes@.len() && pre.nodes@[j].id != from ==> post.nodes@[j]
            == pre.nodes@[j]
    &&& forall|j: int|
        0 <= j < pre.nodes@.len() && (#[trigger] pre.nodes@[j]).id == from ==> {
            &&& post.nodes@[j].id == pre.nodes@[j].id
            &&& post.nodes@[j].x == pre.nodes@[j].x
            &&& post.nodes@[j].y == pre.nodes@[j].y
            &&& post.nodes@[j].name == pre.nodes@[j].name
            &&& post.nodes@[j].outgoing@ == toggle_seq(pre.nodes@[j].outgoing@, to)
        }
}

/// How `post` relates to `pre` after the node carrying `id` was deleted:
/// its row is swap-removed, and every remaining row loses any edge aimed at
/// the deleted node. A graph without the id is left untouched.
pub open spec fn removed_rel(pre: Graph, post: Graph, id: u64) -> bool {
    &&& post.next_id == pre.next_id
    &&& pre.contains_id(id) ==> {
        let i = pre.index_of_id(id);
        &&& post.nodes@.len() == pre.nodes@.len() - 1
        &&& forall|j: int|
            0 <= j < post.nodes@.len() ==> node_pruned(
                pre.nodes@[swap_src(i, j, pre.nodes@.len() - 1)],
                #[trigger] post.nodes@[j],
                id,
            )
    }
    &&& !pre.contains_id(id) ==> post == pre
}

/// How `post` relates to `pre` after the node carrying `id` was shifted by
/// `(dx, dy)`: only that node's position changes, saturating at the bounds
/// of the coordinate type.
pub open spec fn moved_rel(pre: Graph, post: Graph, id: u64, dx: i64, dy: i64) -> bool {
    &&& post.next_id == pre.next_id
    &&& post.nodes@.len() == pre.nodes@.len()
    &&& forall|j: int|
        0 <= j < pre.nodes@.len() && pre.nodes@[j].id != id ==> post.nodes@[j] == pre.nodes@[j]
    &&& forall|j: int|
        0 <= j < pre.nodes@.len() && (#[trigger] pre.nodes@[j]).id == id ==> {
            &&& post.nodes@[j].id == pre.nodes@[j].id
            &&& post.nodes@[j].name == pre.nodes@[j].name
            &&& post.nodes@[j].outgoing == pre.nodes@[j].outgoing
            &&& post.nodes@[j].x as int == crate::coords::clamp_i64(pre.nodes@[j].x + dx)
            &&& post.nodes@[j].y as int == crate::coords::clamp_i64(pre.nodes@[j].y + dy)
        }
}

/// The diagram: an exclusive collection of nodes.
pub struct Graph {
    /// The nodes, in creation order except where a removal swapped rows.
    pub nodes: Vec<Node>,
    /// The id the next created node will take.
    pub next_id: u64,
}

impl Graph {
    /// Some node of the graph carries the id.
    pub open spec fn contains_id(self, id: u64) -> bool {
        exists|i: int| 0 <= i < self.nodes@.len() && self.nodes@[i].id == id
    }

    /// The row of the node carrying `id` (meaningful when the id is present
    /// and ids are unique).
    pub open spec fn index_of_id(self, id: u64) -> int {
        choose|i: int| 0 <= i < self.nodes@.len() && self.nodes@[i].id == id
    }

    /// No two rows carry the same id.
    pub open spec fn ids_unique(self) -> bool {
        forall|i: int, j: int|
            0 <= i < j < self.nodes@.len() ==> self.nodes@[i].id != self.nodes@[j].id
    }

    /// Row `i` is sound: its id was allocated, and its edges are free of
    /// duplicates and aim only at nodes the graph still holds.
    pub open spec fn node_wf(self, i: int) -> bool {
        &&& self.nodes@[i].id < self.next_id
        &&& self.nodes@[i].outgoing@.no_duplicates()
        &&& forall|k: int|
            0 <= k < self.nodes@[i].outgoing@.len() ==> self.contains_id(
                #[trigger] self.nodes@[i].outgoing@[k],
            )
    }

    /// Well-formedness of the whole graph.
    pub open spec fn wf(self) -> bool {
        &&& self.ids_unique()
        &&& forall|i: int| 0 <= i < self.nodes@.len() ==> self.node_wf(i)
    }

    /// A fresh, empty diagram.
    pub fn new() -> (g: Graph)
        ensures
            g.nodes@.len() == 0,
            g.next_id == 0,
            g.wf(),
    {
        Graph { nodes: Vec::new(), next_id: 0 }
    }

    /// How many nodes the diagram holds.
    pub fn len(&self) -> (n: usize)
        ensures
            n == self.nodes@.len(),
    {
        self.nodes.len()
    }

    /// The row of the node carrying `id`, or `None` if the id resolves to
    /// no live node. This is the point where a stale id is told apart from
    /// a live one.
    pub fn find_index(&self, id: u64) -> (r: Option<usize>)
        ensures
            match r {
                Some(i) => i < self.nodes@.len() && self.nodes@[i as int].id == id,
                None => !self.contains_id(id),
            },
    {
        let n = self.nodes.len();
        let mut k: usize = 0;
        while k < n
            invariant
                n == self.nodes@.len(),
                k <= n,
                forall|m: int| 0 <= m < k ==> self.nodes@[m].id != id,
            decreases n - k,
        {
            if self.nodes[k].id == id {
                return Some(k);
            }
            k += 1;
        }
        None
    }

    /// Every id the graph holds stays held when a row is appended or a row
    /// is replaced by one with the same id.
    pub proof fn lemma_contains_preserved(pre: Graph, post: Graph)
        requires
            pre.nodes@.len() <= post.nodes@.len(),
            forall|j: int|
                0 <= j < pre.nodes@.len() ==> post.nodes@[j].id == pre.nodes@[j].id,
        ensures
            forall|t: u64| pre.contains_id(t) ==> post.contains_id(t),
    {
        assert forall|t: u64| pre.contains_id(t) implies post.contains_id(t) by {
            let w = choose|w: int| 0 <= w < pre.nodes@.len() && pre.nodes@[w].id == t;
            assert(post.nodes@[w].id == t);
        }
    }

    /// Create a node with the given name at the given position and hand back
    /// its id. Ids are allocated in order and never reused, so the new id
    /// was not in the graph before.
    pub fn add_node(&mut self, name: Vec<char>, x: i64, y: i64) -> (id: u64)
        requires
            old(self).wf(),
            old(self).next_id < u64::MAX,
        ensures
            final(self).wf(),
            added_rel(*old(self), *final(self), name@, x, y),
            id == old(self).next_id,
            !old(self).contains_id(id),
            final(self).contains_id(id),
    {
        let id = self.next_id;
        proof {
            if old(self).contains_id(id) {
                let w = old(self).index_of_id(id);
                assert(old(self).node_wf(w));
            }
        }
        let node = Node { id, x, y, name, outgoing: Vec::new() };
        self.nodes.push(node);
        self.next_id = self.next_id + 1;
        proof {
            let pre = *old(self);
            let n = pre.nodes@.len() as int;
            assert(self.nodes@[n].id == id);
            assert forall|i: int, j: int|
                0 <= i < j < self.nodes@.len() implies self.nodes@[i].id
                != self.nodes@[j].id by {
                if j == n {
                    assert(pre.node_wf(i));
                } else {
                    assert(pre.node_wf(i));
                    assert(pre.node_wf(j));
                }
            }
            assert forall|i: int| 0 <= i < self.nodes@.len() implies self.node_wf(i) by {
                Self::lemma_contains_preserved(pre, *self);
                if i < n {
                    assert(pre.node_wf(i));
                    assert(self.nodes@[i] == pre.nodes@[i]);
                    assert forall|k: int|
                        0 <= k < self.nodes@[i].outgoing@.len() implies self.contains_id(
                        self.nodes@[i].outgoing@[k],
                    ) by {
                        assert(pre.contains_id(pre.nodes@[i].outgoing@[k]));
                    }
                }
            }
        }
        id
    }

    /// Toggle the edge `from -> to`: disconnect the pair if the edge is
    /// present, connect it if not. Presence is judged by node identity.
    pub fn toggle_edge(&mut self, from: u64, to: u64)
        requires
            old(self).wf(),
            old(self).contains_id(from),
            old(self).contains_id(to),
        ensures
            final(self).wf(),
            toggled_rel(*old(self), *final(self), from, to),
    {
        match self.find_index(from) {
            Some(i) => {
                proof {
                    assert(old(self).node_wf(i as int));
                }
                let node = &mut self.nodes[i];
                node.toggle_out(to);
                proof {
                    let pre = *old(self);
                    let n = pre.nodes@.len() as int;
                    assert(self.nodes@ == pre.nodes@.update(i as int, self.nodes@[i as int]));
                    assert forall|j: int|
                        0 <= j < n && pre.nodes@[j].id != from implies self.nodes@[j]
                        == pre.nodes@[j] by {}
                    assert forall|j: int|
                        0 <= j < n && (#[trigger] pre.nodes@[j]).id == from implies j == i
                        as int by {
                        if j != i as int {
                            assert(pre.ids_unique());
                        }
                    }
                    Self::lemma_contains_preserved(pre, *self);
                    lemma_toggle_flips(pre.nodes@[i as int].outgoing@, to);
                    lemma_toggle_elems(pre.nodes@[i as int].outgoing@, to);
                    assert forall|j: int| 0 <= j < n implies self.node_wf(j) by {
                        assert(pre.node_wf(j));
                        if j == i as int {
                            assert forall|k: int|
                                0 <= k < self.nodes@[j].outgoing@.len()
                                implies self.contains_id(self.nodes@[j].outgoing@[k]) by {
                                let t = self.nodes@[j].outgoing@[k];
                                if t == to {
                                    assert(pre.contains_id(to));
                                } else {
                                    assert(pre.nodes@[j].outgoing@.contains(t));
                                    let w = choose|w: int|
                                        0 <= w < pre.nodes@[j].outgoing@.len()
                                            && pre.nodes@[j].outgoing@[w] == t;
                                    assert(pre.node_wf(j));
                                    assert(pre.contains_id(t));
                                }
                            }
                        } else {
                            assert(self.nodes@[j] == pre.nodes@[j]);
                            assert forall|k: int|
                                0 <= k < self.nodes@[j].outgoing@.len()
                                implies self.contains_id(self.nodes@[j].outgoing@[k]) by {
                                assert(pre.contains_id(pre.nodes@[j].outgoing@[k]));
                            }
                        }
                    }
                }
            },
            None => {
                proof {
                    assert(false);
                }
            },
        }
    }

    /// Shift the position of the node carrying `id` by `(dx, dy)`,
    /// saturating at the bounds of the coordinate type.
    pub fn move_node(&mut self, id: u64, dx: i64, dy: i64)
        requires
            old(self).wf(),
            old(self).contains_id(id),
        ensures
            final(self).wf(),
            moved_rel(*old(self), *final(self), id, dx, dy),
    {
        match self.find_index(id) {
            Some(i) => {
                let node = &mut self.nodes[i];
                node.shift(dx, dy);
                proof {
                    let pre = *old(self);
                    let n = pre.nodes@.len() as int;
                    assert(self.nodes@ == pre.nodes@.update(i as int, self.nodes@[i as int]));
                    assert forall|j: int|
                        0 <= j < n && (#[trigger] pre.nodes@[j]).id == id implies j == i
                        as int by {
                        if j != i as int {
                            assert(pre.ids_unique());
                        }
                    }
                    Self::lemma_contains_preserved(pre, *self);
                    assert forall|j: int| 0 <= j < n implies self.node_wf(j) by {
                        assert(pre.node_wf(j));
                        assert(self.nodes@[j].outgoing == pre.nodes@[j].outgoing);
                        assert forall|k: int|
                            0 <= k < self.nodes@[j].outgoing@.len() implies self.contains_id(
                            self.nodes@[j].outgoing@[k],
                        ) by {
                            assert(pre.contains_id(pre.nodes@[j].outgoing@[k]));
                        }
                    }
                }
            },
            None => {
                proof {
                    assert(false);
                }
            },
        }
    }

    /// Delete the node carrying `id`, if it is held: its row leaves the
    /// graph (the last row takes its place) and every remaining node's edge
    /// list is pruned of edges aimed at it. Without the id this is a no-op.
    pub fn remove_node(&mut self, id: u64)
        requires
            old(self).wf(),
        ensures
            final(self).wf(),
            removed_rel(*old(self), *final(self), id),
            !final(self).contains_id(id),
            forall|x: u64|
                x != id ==> (final(self).contains_id(x) <==> old(self).contains_id(x)),
    {
        match self.find_index(id) {
            None => {},
            Some(i) => {
                let ghost pre = *old(self);
                let ghost last = pre.nodes@.len() - 1;
                self.nodes.swap_remove(i);
                let ghost s1 = self.nodes@;
                proof {
                    assert forall|j: int| 0 <= j < s1.len() implies s1[j]
                        == pre.nodes@[swap_src(i as int, j, last)] by {}
                }
                let n = self.nodes.len();
                let mut j: usize = 0;
                while j < n
                    invariant
                        n == self.nodes@.len(),
                        n == s1.len(),
                        j <= n,
                        self.next_id == pre.next_id,
                        forall|m: int|
                            0 <= m < j ==> node_pruned(s1[m], #[trigger] self.nodes@[m], id),
                        forall|m: int| j <= m < n ==> self.nodes@[m] == s1[m],
                    decreases n - j,
                {
                    let node = &mut self.nodes[j];
                    node.prune_out(id);
                    j += 1;
                }
                proof {
                    self.lemma_after_removal(pre, s1, i as int, id);
                }
            },
        }
    }

    /// The facts `remove_node` owes its callers, once every remaining row
    /// has been pruned: the removal relation, the id being gone, every other
    /// id being kept, and well-formedness.
    proof fn lemma_after_removal(&self, pre: Graph, s1: Seq<Node>, i: int, id: u64)
        requires
            pre.wf(),
            0 <= i < pre.nodes@.len(),
            pre.nodes@[i].id == id,
            self.next_id == pre.next_id,
            self.nodes@.len() == pre.nodes@.len() - 1,
            s1.len() == pre.nodes@.len() - 1,
            forall|j: int|
                0 <= j < s1.len() ==> s1[j] == pre.nodes@[swap_src(
                    i,
                    j,
                    pre.nodes@.len() - 1,
                )],
            forall|m: int|
                0 <= m < s1.len() ==> node_pruned(s1[m], #[trigger] self.nodes@[m], id),
        ensures
            self.wf(),
            removed_rel(pre, *self, id),
            !self.contains_id(id),
            forall|x: u64| x != id ==> (self.contains_id(x) <==> pre.contains_id(x)),
    {
        let last = pre.nodes@.len() - 1;
        let n = s1.len() as int;
        assert(pre.contains_id(id));
        assert(pre.index_of_id(id) == i) by {
            let w = pre.index_of_id(id);
            assert(0 <= w < pre.nodes@.len() && pre.nodes@[w].id == id);
            if w != i {
                assert(pre.ids_unique());
            }
        }
        // only row i of the old graph carried the deleted id
        assert forall|p: int| 0 <= p < pre.nodes@.len() && p != i implies pre.nodes@[p].id
            != id by {
            assert(pre.ids_unique());
        }
        assert forall|j: int| 0 <= j < n implies self.nodes@[j].id != id by {
            let src = swap_src(i, j, last);
            if j == i {
                assert(i < last);
                assert(src == last);
            }
            assert(pre.nodes@[src].id != id);
            assert(self.nodes@[j].id == s1[j].id);
        }
        assert(!self.contains_id(id));
        // kept ids: the row map hits every old row but i
        assert forall|x: u64| x != id && pre.contains_id(x) implies self.contains_id(x) by {
            let p = choose|p: int| 0 <= p < pre.nodes@.len() && pre.nodes@[p].id == x;
            assert(p != i);
            if p == last {
                assert(i < last);
                assert(s1[i] == pre.nodes@[last]);
                assert(self.nodes@[i].id == x);
            } else {
                assert(s1[p] == pre.nodes@[p]);
                assert(self.nodes@[p].id == x);
            }
        }
        assert forall|x: u64| x != id && self.contains_id(x) implies pre.contains_id(x) by {
            let j = choose|j: int| 0 <= j < self.nodes@.len() && self.nodes@[j].id == x;
            let src = swap_src(i, j, last);
            assert(self.nodes@[j].id == s1[j].id);
            assert(pre.nodes@[src].id == x);
        }
        // the removal relation
        assert forall|j: int| 0 <= j < self.nodes@.len() implies node_pruned(
            pre.nodes@[swap_src(i, j, last)],
            #[trigger] self.nodes@[j],
            id,
        ) by {
            assert(node_pruned(s1[j], self.nodes@[j], id));
        }
        // well-formedness
        assert forall|p: int, q: int|
            0 <= p < q < self.nodes@.len() implies self.nodes@[p].id != self.nodes@[q].id by {
            let sp = swap_src(i, p, last);
            let sq = swap_src(i, q, last);
            assert(self.nodes@[p].id == pre.nodes@[sp].id);
            assert(self.nodes@[q].id == pre.nodes@[sq].id);
            assert(sp != sq);
            assert(pre.ids_unique());
        }
        assert forall|j: int| 0 <= j < self.nodes@.len() implies self.node_wf(j) by {
            let src = swap_src(i, j, last);
            let a = pre.nodes@[src];
            assert(pre.node_wf(src));
            lemma_remove_value_no_dup(a.outgoing@, id);
            lemma_remove_value_subset(a.outgoing@, id);
            assert(self.nodes@[j].id < self.next_id);
            assert forall|k: int|
                0 <= k < self.nodes@[j].outgoing@.len() implies self.contains_id(
                self.nodes@[j].outgoing@[k],
            ) by {
                let t = self.nodes@[j].outgoing@[k];
                assert(a.outgoing@.contains(t));
                assert(t != id);
                assert(pre.contains_id(t));
            }
        }
    }
}

/// A deleted node is never referenced: once an id resolves to no live node
/// in a well-formed graph, no node's edge list holds it, so nothing can
/// traverse or draw the deleted node as if it were live.
pub proof fn lemma_gone_id_never_referenced(g: Graph, id: u64)
    requires
        g.wf(),
        !g.contains_id(id),
    ensures
        forall|j: int| 0 <= j < g.nodes@.len() ==> !g.nodes@[j].outgoing@.contains(id),
{
    assert forall|j: int| 0 <= j < g.nodes@.len() implies !g.nodes@[j].outgoing@.contains(
        id,
    ) by {
        if g.nodes@[j].outgoing@.contains(id) {
            let k = choose|k: int|
                0 <= k < g.nodes@[j].outgoing@.len() && g.nodes@[j].outgoing@[k] == id;
            assert(g.node_wf(j));
            assert(g.contains_id(id));
        }
    }
}

} // verus!
