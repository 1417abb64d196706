//! The keyboard-driven selection and editing protocol.
//!
//! A single state machine owns the diagram, the two selection slots, the
//! rendering marker, and the editing mode. Every key event is dispatched
//! through `handle_key`; a command whose precondition is not met (delete
//! with nothing selected, connect without both slots filled) is a no-op
//! rather than an error.

use vstd::prelude::*;
use crate::graph::Graph;
use crate::graph::added_rel;
use crate::graph::moved_rel;
use crate::graph::removed_rel;
use crate::graph::toggled_rel;

verus! {

/// A keyboard event, reduced to the keys the protocol reads.
#[derive(Clone, Copy, PartialEq, Eq, Structural, Debug)]
pub enum Key {
    Char(char),
    Enter,
    Backspace,
    Esc,
    Tab,
    Left,
    Right,
    Up,
    Down,
    Other,
}

/// The canvas marker style; advanced by command, wrapping at the end.
#[derive(Clone, Copy, PartialEq, Eq, Structural, Debug)]
pub enum MarkerStyle {
    Dot,
    Block,
    Bar,
    Braille,
    HalfBlock,
}

/// The editing mode: normal command handling, or entry of a new node's
/// name. Keeping the pending-name buffer inside the variant makes a stray
/// buffer outside naming mode unrepresentable.
pub enum Mode {
    Normal,
    Naming { buf: Vec<char> },
}

/// How a node is to be coloured: the primary selection, the secondary
/// selection, or neither.
#[derive(Clone, Copy, PartialEq, Eq, Structural, Debug)]
pub enum NodeColor {
    Primary,
    Secondary,
    Plain,
}

/// The marker that follows `m` in the fixed cycling order.
pub open spec fn marker_next(m: MarkerStyle) -> MarkerStyle {
    match m {
        MarkerStyle::Dot => MarkerStyle::Block,
        MarkerStyle::Block => MarkerStyle::Bar,
        MarkerStyle::Bar => MarkerStyle::Braille,
        MarkerStyle::Braille => MarkerStyle::HalfBlock,
        MarkerStyle::HalfBlock => MarkerStyle::Dot,
    }
}

/// The colour a node gets under the given selection slots: the primary
/// highlight wins over the secondary, and everything else is plain.
pub open spec fn color_spec(primary: Option<u64>, secondary: Option<u64>, id: u64) -> NodeColor {
    if primary == Some(id) {
        NodeColor::Primary
    } else if secondary == Some(id) {
        NodeColor::Secondary
    } else {
        NodeColor::Plain
    }
}

/// The whole session state of the editor.
pub struct Editor {
    /// The one diagram of the session.
    pub graph: Graph,
    /// The currently active node, if any.
    pub primary: Option<u64>,
    /// The node staged for a connection, if any.
    pub secondary: Option<u64>,
    /// Normal command handling, or name entry for a new node.
    pub mode: Mode,
    /// The canvas marker style.
    pub marker: MarkerStyle,
}

/// The row after `i` in a diagram of `n` rows, wrapping to the first.
pub open spec fn next_index(i: int, n: int) -> int {
    if i + 1 < n {
        i + 1
    } else {
        0
    }
}

/// The node the tab command selects: the one after the current primary in
/// row order, wrapping; the first node when no primary is live; none when
/// the diagram is empty.
pub open spec fn tab_target(g: Graph, primary: Option<u64>) -> Option<u64> {
    if primary matches Some(p) && g.contains_id(p) {
        Some(g.nodes@[next_index(g.index_of_id(primary.unwrap()), g.nodes@.len() as int)].id)
    } else if g.nodes@.len() > 0 {
        Some(g.nodes@[0].id)
    } else {
        None
    }
}

/// The row the primary selection stands on after `k` presses of tab,
/// starting from row `i` of a diagram with `n` rows. One press moves the
/// selection from row `i` to `next_index(i, n)`, which is what `cmd_tab`
/// ensures, so iterating `next_index` describes repeated presses.
pub open spec fn tab_steps(i: int, n: int, k: nat) -> int
    decreases k,
{
    if k == 0 {
        i
    } else {
        next_index(tab_steps(i, n, (k - 1) as nat), n)
    }
}

/// Closed form of `tab_steps`: `k` presses land on `i + k`, reduced once
/// past the last row.
pub proof fn lemma_tab_steps_formula(i: int, n: int, k: nat)
    requires
        0 <= i < n,
        k <= n,
    ensures
        tab_steps(i, n, k) == if i + k < n {
            i + k
        } else {
            i + k - n
        },
    decreases k,
{
    if k > 0 {
        lemma_tab_steps_formula(i, n, (k - 1) as nat);
    }
}

/// Tab-cycling visits each row exactly once before repeating: within one
/// full cycle of a diagram with `n` rows, no two presses land on the same
/// row.
pub proof fn lemma_tab_visits_each_once(i: int, n: int, k1: nat, k2: nat)
    requires
        0 <= i < n,
        k1 < k2 < n,
    ensures
        tab_steps(i, n, k1) != tab_steps(i, n, k2),
{
    lemma_tab_steps_formula(i, n, k1);
    lemma_tab_steps_formula(i, n, k2);
}

/// Tab-cycling reaches every row within one full cycle: the order of the
/// visits is the stable row order, starting just after the current row.
pub proof fn lemma_tab_reaches_every_row(i: int, n: int, j: int)
    requires
        0 <= i < n,
        0 <= j < n,
    ensures
        exists|k: nat| k < n && tab_steps(i, n, k) == j,
{
    let k: nat = if j >= i {
        (j - i) as nat
    } else {
        (j + n - i) as nat
    };
    lemma_tab_steps_formula(i, n, k);
    assert(k < n && tab_steps(i, n, k) == j);
}

/// A full cycle of tab presses wraps from the last row back to where it
/// began.
pub proof fn lemma_tab_wraps(i: int, n: int)
    requires
        0 <= i < n,
    ensures
        tab_steps(i, n, n as nat) == i,
{
    lemma_tab_steps_formula(i, n, n as nat);
}

/// One tab press from the live node on row `i` selects the node on the
/// following row, wrapping to the first row.
pub proof fn lemma_tab_target_is_next_row(g: Graph, i: int)
    requires
        g.wf(),
        0 <= i < g.nodes@.len(),
    ensures
        tab_target(g, Some(g.nodes@[i].id)) == Some(
            g.nodes@[next_index(i, g.nodes@.len() as int)].id,
        ),
{
    assert(g.contains_id(g.nodes@[i].id));
    let w = g.index_of_id(g.nodes@[i].id);
    assert(0 <= w < g.nodes@.len() && g.nodes@[w].id == g.nodes@[i].id);
    if w != i {
        assert(g.ids_unique());
    }
}

/// Staging: the primary selection moves into the secondary slot and the
/// primary slot empties; nothing else changes.
pub open spec fn stage_post(pre: Editor, post: Editor) -> bool {
    &&& post.graph == pre.graph
    &&& post.mode == pre.mode
    &&& post.marker == pre.marker
    &&& post.secondary == pre.primary
    &&& post.primary is None
}

/// Unselecting: both selection slots empty; nothing else changes.
pub open spec fn unselect_post(pre: Editor, post: Editor) -> bool {
    &&& post.graph == pre.graph
    &&& post.mode == pre.mode
    &&& post.marker == pre.marker
    &&& post.primary is None
    &&& post.secondary is None
}

/// Toggle-connect: with both slots filled, the edge from the secondary
/// node to the primary node is toggled and both slots empty; with either
/// slot empty nothing happens.
pub open spec fn toggle_connect_post(pre: Editor, post: Editor) -> bool {
    if pre.primary is Some && pre.secondary is Some {
        &&& toggled_rel(pre.graph, post.graph, pre.secondary.unwrap(), pre.primary.unwrap())
        &&& post.primary is None
        &&& post.secondary is None
        &&& post.mode == pre.mode
        &&& post.marker == pre.marker
    } else {
        post == pre
    }
}

/// Delete: the primary node leaves the diagram along with every edge aimed
/// at it; the primary slot empties, and the secondary slot empties exactly
/// when it named the deleted node. With no primary nothing happens.
pub open spec fn delete_post(pre: Editor, post: Editor) -> bool {
    if pre.primary is Some {
        let p = pre.primary.unwrap();
        &&& removed_rel(pre.graph, post.graph, p)
        &&& post.primary is None
        &&& post.secondary == (if pre.secondary == Some(p) {
            None
        } else {
            pre.secondary
        })
        &&& post.mode == pre.mode
        &&& post.marker == pre.marker
    } else {
        post == pre
    }
}

/// Deleting the primary-selected node leaves no trace of it: the diagram
/// shrinks by exactly one node, the primary slot empties, the secondary
/// slot empties if it named the deleted node, the deleted id resolves to
/// no live node, and no remaining node's edge list holds it.
pub proof fn lemma_delete_clears_all_traces(pre: Editor, post: Editor)
    requires
        pre.wf(),
        post.wf(),
        pre.primary is Some,
        delete_post(pre, post),
    ensures
        post.graph.nodes@.len() == pre.graph.nodes@.len() - 1,
        post.primary is None,
        pre.secondary == pre.primary ==> post.secondary is None,
        !post.graph.contains_id(pre.primary.unwrap()),
        forall|j: int|
            0 <= j < post.graph.nodes@.len() ==> !post.graph.nodes@[j].outgoing@.contains(
                pre.primary.unwrap(),
            ),
{
    let p = pre.primary.unwrap();
    assert(pre.graph.contains_id(p));
    let i = pre.graph.index_of_id(p);
    assert(0 <= i < pre.graph.nodes@.len() && pre.graph.nodes@[i].id == p);
    let last = pre.graph.nodes@.len() - 1;
    assert forall|j: int| 0 <= j < post.graph.nodes@.len() implies post.graph.nodes@[j].id
        != p by {
        let src = crate::graph::swap_src(i, j, last);
        assert(crate::graph::node_pruned(
            pre.graph.nodes@[crate::graph::swap_src(i, j, last)],
            post.graph.nodes@[j],
            p,
        ));
        if j == i {
            assert(src == last);
        }
        if pre.graph.nodes@[src].id == p {
            assert(pre.graph.ids_unique());
            assert(src == i);
            assert(false);
        }
    }
    assert(!post.graph.contains_id(p));
    crate::graph::lemma_gone_id_never_referenced(post.graph, p);
}

/// Entering naming mode, with an empty pending-name buffer.
pub open spec fn new_mode_post(pre: Editor, post: Editor) -> bool {
    &&& post.graph == pre.graph
    &&& post.primary == pre.primary
    &&& post.secondary == pre.secondary
    &&& post.marker == pre.marker
    &&& post.mode matches Mode::Naming { buf } && buf@ == Seq::<char>::empty()
}

/// Advancing the marker style one step along the fixed cycle.
pub open spec fn marker_post(pre: Editor, post: Editor) -> bool {
    &&& post.graph == pre.graph
    &&& post.primary == pre.primary
    &&& post.secondary == pre.secondary
    &&& post.mode == pre.mode
    &&& post.marker == marker_next(pre.marker)
}

/// Tab: the primary selection advances to the tab target; nothing else
/// changes.
pub open spec fn tab_post(pre: Editor, post: Editor) -> bool {
    &&& post.graph == pre.graph
    &&& post.secondary == pre.secondary
    &&& post.mode == pre.mode
    &&& post.marker == pre.marker
    &&& post.primary == tab_target(pre.graph, pre.primary)
}

/// Movement: the primary node shifts by `(dx, dy)`; with no primary
/// nothing happens.
pub open spec fn move_post(pre: Editor, post: Editor, dx: i64, dy: i64) -> bool {
    if pre.primary is Some {
        &&& moved_rel(pre.graph, post.graph, pre.primary.unwrap(), dx, dy)
        &&& post.primary == pre.primary
        &&& post.secondary == pre.secondary
        &&& post.mode == pre.mode
        &&& post.marker == pre.marker
    } else {
        post == pre
    }
}

/// What a key does while a name is being entered: printable characters
/// grow the buffer, backspace shrinks it (a no-op when empty), enter
/// creates the node at the spawn position and selects it, escape discards
/// the buffer; every other key does nothing.
pub open spec fn naming_post(pre: Editor, post: Editor, key: Key) -> bool {
    match key {
        Key::Char(c) => {
            &&& post.graph == pre.graph
            &&& post.primary == pre.primary
            &&& post.secondary == pre.secondary
            &&& post.marker == pre.marker
            &&& post.mode matches Mode::Naming { buf } && buf@ == pre.mode->buf@.push(c)
        },
        Key::Backspace => {
            &&& post.graph == pre.graph
            &&& post.primary == pre.primary
            &&& post.secondary == pre.secondary
            &&& post.marker == pre.marker
            &&& post.mode matches Mode::Naming { buf } && buf@ == (if pre.mode->buf@.len() > 0 {
                pre.mode->buf@.drop_last()
            } else {
                pre.mode->buf@
            })
        },
        Key::Enter => {
            if pre.graph.next_id < u64::MAX {
                &&& added_rel(pre.graph, post.graph, pre.mode->buf@, 200, 200)
                &&& post.primary == Some(pre.graph.next_id)
                &&& post.secondary == pre.secondary
                &&& post.mode is Normal
                &&& post.marker == pre.marker
            } else {
                post == pre
            }
        },
        Key::Esc => {
            &&& post.graph == pre.graph
            &&& post.primary == pre.primary
            &&& post.secondary == pre.secondary
            &&& post.marker == pre.marker
            &&& post.mode is Normal
        },
        _ => post == pre,
    }
}

/// What a key does in normal mode.
pub open spec fn normal_post(pre: Editor, post: Editor, key: Key) -> bool {
    match key {
        Key::Char(c) => {
            if c == 'q' {
                post == pre
            } else if c == 's' {
                stage_post(pre, post)
            } else if c == 'c' {
                toggle_connect_post(pre, post)
            } else if c == 'd' {
                delete_post(pre, post)
            } else if c == 'n' {
                new_mode_post(pre, post)
            } else if c == 'm' {
                marker_post(pre, post)
            } else {
                post == pre
            }
        },
        Key::Tab => tab_post(pre, post),
        Key::Esc => unselect_post(pre, post),
        Key::Left => move_post(pre, post, -5i64, 0i64),
        Key::Right => move_post(pre, post, 5i64, 0i64),
        Key::Up => move_post(pre, post, 0i64, 5i64),
        Key::Down => move_post(pre, post, 0i64, -5i64),
        _ => post == pre,
    }
}

impl Editor {
    /// Well-formedness: the diagram is well-formed and each selection slot,
    /// when filled, names a node the diagram still holds.
    pub open spec fn wf(self) -> bool {
        &&& self.graph.wf()
        &&& self.primary matches Some(p) ==> self.graph.contains_id(p)
        &&& self.secondary matches Some(s) ==> self.graph.contains_id(s)
    }

    /// A fresh session: empty diagram, nothing selected, normal mode.
    pub fn new() -> (e: Editor)
        ensures
            e.wf(),
            e.graph.nodes@.len() == 0,
            e.graph.next_id == 0,
            e.primary is None,
            e.secondary is None,
            e.mode is Normal,
            e.marker == MarkerStyle::Braille,
    {
        Editor {
            graph: Graph::new(),
            primary: None,
            secondary: None,
            mode: Mode::Normal,
            marker: MarkerStyle::Braille,
        }
    }

    /// The colour the renderer gives the node carrying `id`.
    pub fn node_color(&self, id: u64) -> (c: NodeColor)
        ensures
            c == color_spec(self.primary, self.secondary, id),
    {
        let primary_hit = match self.primary {
            Some(p) => p == id,
            None => false,
        };
        if primary_hit {
            NodeColor::Primary
        } else {
            let secondary_hit = match self.secondary {
                Some(s) => s == id,
                None => false,
            };
            if secondary_hit {
                NodeColor::Secondary
            } else {
                NodeColor::Plain
            }
        }
    }

    /// Move the primary selection into the secondary slot and clear it.
    pub fn cmd_stage(&mut self)
        requires
            old(self).wf(),
        ensures
            final(self).wf(),
            stage_post(*old(self), *final(self)),
    {
        self.secondary = self.primary;
        self.primary = None;
    }

    /// Clear both selection slots.
    pub fn cmd_unselect(&mut self)
        requires
            old(self).wf(),
        ensures
            final(self).wf(),
            unselect_post(*old(self), *final(self)),
    {
        self.primary = None;
        self.secondary = None;
    }

    /// Toggle the edge from the secondary node to the primary node, then
    /// clear both slots; a no-op unless both slots are filled.
    pub fn cmd_toggle_connect(&mut self)
        requires
            old(self).wf(),
        ensures
            final(self).wf(),
            toggle_connect_post(*old(self), *final(self)),
    {
        match (self.primary, self.secondary) {
            (Some(p), Some(s)) => {
                self.graph.toggle_edge(s, p);
                self.primary = None;
                self.secondary = None;
            },
            _ => {},
        }
    }

    /// Delete the primary node; a no-op with no primary selection.
    pub fn cmd_delete(&mut self)
        requires
            old(self).wf(),
        ensures
            final(self).wf(),
            delete_post(*old(self), *final(self)),
    {
        match self.primary {
            Some(p) => {
                self.graph.remove_node(p);
                self.primary = None;
                let clear_secondary = match self.secondary {
                    Some(s) => s == p,
                    None => false,
                };
                if clear_secondary {
                    self.secondary = None;
                }
            },
            None => {},
        }
    }

    /// Enter naming mode with an empty pending-name buffer.
    pub fn cmd_new(&mut self)
        requires
            old(self).wf(),
        ensures
            final(self).wf(),
            new_mode_post(*old(self), *final(self)),
    {
        self.mode = Mode::Naming { buf: Vec::new() };
    }

    /// Advance the marker style one step along the fixed cycle.
    pub fn cmd_cycle_marker(&mut self)
        requires
            old(self).wf(),
        ensures
            final(self).wf(),
            marker_post(*old(self), *final(self)),
    {
        self.marker = match self.marker {
            MarkerStyle::Dot => MarkerStyle::Block,
            MarkerStyle::Block => MarkerStyle::Bar,
            MarkerStyle::Bar => MarkerStyle::Braille,
            MarkerStyle::Braille => MarkerStyle::HalfBlock,
            MarkerStyle::HalfBlock => MarkerStyle::Dot,
        };
    }

    /// Advance the primary selection to the next node in row order,
    /// wrapping; select the first node when no primary is live; a no-op on
    /// an empty diagram.
    pub fn cmd_tab(&mut self)
        requires
            old(self).wf(),
        ensures
            final(self).wf(),
            tab_post(*old(self), *final(self)),
    {
        match self.primary {
            Some(id) => {
                match self.graph.find_index(id) {
                    Some(i) => {
                        proof {
                            let g = self.graph;
                            let w = g.index_of_id(id);
                            assert(0 <= w < g.nodes@.len() && g.nodes@[w].id == id);
                            if w != i as int {
                                assert(g.ids_unique());
                            }
                        }
                        let n = self.graph.len();
                        let next = if i + 1 < n {
                            i + 1
                        } else {
                            0
                        };
                        self.primary = Some(self.graph.nodes[next].id);
                    },
                    None => {
                        proof {
                            assert(false);
                        }
                    },
                }
            },
            None => {
                if self.graph.len() > 0 {
                    self.primary = Some(self.graph.nodes[0].id);
                }
            },
        }
    }

    /// Shift the primary node by `(dx, dy)`; a no-op with no primary.
    pub fn cmd_move(&mut self, dx: i64, dy: i64)
        requires
            old(self).wf(),
        ensures
            final(self).wf(),
            move_post(*old(self), *final(self), dx, dy),
    {
        match self.primary {
            Some(p) => {
                self.graph.move_node(p, dx, dy);
            },
            None => {},
        }
    }

    /// Handle one key while a name is being entered.
    fn naming_key(&mut self, key: Key)
        requires
            old(self).wf(),
            old(self).mode is Naming,
        ensures
            final(self).wf(),
            naming_post(*old(self), *final(self), key),
    {
        match key {
            Key::Char(c) => {
                if let Mode::Naming { buf } = &mut self.mode {
                    buf.push(c);
                }
            },
            Key::Backspace => {
                if let Mode::Naming { buf } = &mut self.mode {
                    if buf.len() > 0 {
                        buf.pop();
                    }
                }
            },
            Key::Enter => {
                if self.graph.next_id < u64::MAX {
                    let mut taken = Mode::Normal;
                    core::mem::swap(&mut self.mode, &mut taken);
                    match taken {
                        Mode::Naming { buf } => {
                            let id = self.graph.add_node(buf, 200, 200);
                            self.primary = Some(id);
                            proof {
                                Graph::lemma_contains_preserved(
                                    old(self).graph,
                                    self.graph,
                                );
                            }
                        },
                        Mode::Normal => {
                            proof {
                                assert(false);
                            }
                        },
                    }
                }
            },
            Key::Esc => {
                self.mode = Mode::Normal;
            },
            _ => {},
        }
    }

    /// Dispatch one key event: name entry captures every key while active;
    /// otherwise the normal-mode commands apply. The result says whether
    /// the session is to end (the quit key, in normal mode only).
    pub fn handle_key(&mut self, key: Key) -> (quit: bool)
        requires
            old(self).wf(),
        ensures
            final(self).wf(),
            old(self).mode is Naming ==> !quit && naming_post(
                *old(self),
                *final(self),
                key,
            ),
            old(self).mode is Normal ==> {
                &&& (quit <==> key == Key::Char('q'))
                &&& normal_post(*old(self), *final(self), key)
            },
    {
        let naming = matches!(self.mode, Mode::Naming { .. });
        if naming {
            self.naming_key(key);
            return false;
        }
        match key {
            Key::Char(c) => {
                if c == 'q' {
                    true
                } else {
                    if c == 's' {
                        self.cmd_stage();
                    } else if c == 'c' {
                        self.cmd_toggle_connect();
                    } else if c == 'd' {
                        self.cmd_delete();
                    } else if c == 'n' {
                        self.cmd_new();
                    } else if c == 'm' {
                        self.cmd_cycle_marker();
                    }
                    false
                }
            },
            Key::Tab => {
                self.cmd_tab();
                false
            },
            Key::Esc => {
                self.cmd_unselect();
                false
            },
            Key::Left => {
                self.cmd_move(-5, 0);
                false
            },
            Key::Right => {
                self.cmd_move(5, 0);
                false
            },
            Key::Up => {
                self.cmd_move(0, 5);
                false
            },
            Key::Down => {
                self.cmd_move(0, -5);
                false
            },
            _ => false,
        }
    }
}

} // verus!
