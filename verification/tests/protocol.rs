//! Scenario tests driving the editing protocol through `handle_key`.

use fsm_editor::editor::{Editor, Key, MarkerStyle, Mode, NodeColor};

fn press(ed: &mut Editor, key: Key) {
    let quit = ed.handle_key(key);
    assert!(!quit);
}

fn type_word(ed: &mut Editor, word: &str) {
    for c in word.chars() {
        press(ed, Key::Char(c));
    }
}

/// Create a node via naming mode and hand back its id (the new primary).
fn create_node(ed: &mut Editor, name: &str) -> u64 {
    press(ed, Key::Char('n'));
    type_word(ed, name);
    press(ed, Key::Enter);
    ed.primary.unwrap()
}

fn outgoing_of(ed: &Editor, id: u64) -> Vec<u64> {
    let i = ed.graph.find_index(id).unwrap();
    ed.graph.nodes[i].outgoing.clone()
}

#[test]
fn connect_a_to_b() {
    let mut ed = Editor::new();
    let a = create_node(&mut ed, "A");
    let b = create_node(&mut ed, "B");
    // rows are [A, B] and B is primary; tab wraps to A
    press(&mut ed, Key::Tab);
    assert_eq!(ed.primary, Some(a));
    press(&mut ed, Key::Char('s'));
    assert_eq!(ed.secondary, Some(a));
    assert_eq!(ed.primary, None);
    // with no primary, tab selects the first row, then the next
    press(&mut ed, Key::Tab);
    press(&mut ed, Key::Tab);
    assert_eq!(ed.primary, Some(b));
    press(&mut ed, Key::Char('c'));
    // the edge runs from the staged secondary (A) to the primary (B)
    assert_eq!(outgoing_of(&ed, a), vec![b]);
    assert_eq!(outgoing_of(&ed, b), Vec::<u64>::new());
    assert_eq!(ed.primary, None);
    assert_eq!(ed.secondary, None);
    // radius of both single-letter names is the floor of 10
    let ia = ed.graph.find_index(a).unwrap();
    let ib = ed.graph.find_index(b).unwrap();
    assert_eq!(ed.graph.nodes[ia].radius(), 10);
    assert_eq!(ed.graph.nodes[ib].radius(), 10);
}

#[test]
fn delete_removes_node_and_stale_edges() {
    let mut ed = Editor::new();
    let a = create_node(&mut ed, "A");
    let b = create_node(&mut ed, "B");
    // connect B -> A
    press(&mut ed, Key::Char('s'));
    press(&mut ed, Key::Tab);
    assert_eq!(ed.primary, Some(a));
    press(&mut ed, Key::Char('c'));
    assert_eq!(outgoing_of(&ed, b), vec![a]);
    // select A and delete it
    press(&mut ed, Key::Tab);
    assert_eq!(ed.primary, Some(a));
    press(&mut ed, Key::Char('d'));
    assert_eq!(ed.graph.len(), 1);
    assert!(ed.graph.find_index(a).is_none());
    assert_eq!(ed.primary, None);
    // B's edge aimed at A is pruned with the deletion
    assert_eq!(outgoing_of(&ed, b), Vec::<u64>::new());
}

#[test]
fn naming_backspace_and_escape() {
    let mut ed = Editor::new();
    press(&mut ed, Key::Char('n'));
    type_word(&mut ed, "Idle");
    press(&mut ed, Key::Backspace);
    press(&mut ed, Key::Backspace);
    match &ed.mode {
        Mode::Naming { buf } => assert_eq!(buf, &vec!['I', 'd']),
        Mode::Normal => panic!("still naming"),
    }
    press(&mut ed, Key::Esc);
    assert!(matches!(ed.mode, Mode::Normal));
    assert_eq!(ed.graph.len(), 0);
}

#[test]
fn toggle_connect_twice_disconnects() {
    let mut ed = Editor::new();
    let a = create_node(&mut ed, "A");
    let b = create_node(&mut ed, "B");
    // stage A, select B, connect
    press(&mut ed, Key::Tab);
    press(&mut ed, Key::Char('s'));
    press(&mut ed, Key::Tab);
    press(&mut ed, Key::Tab);
    assert_eq!((ed.secondary, ed.primary), (Some(a), Some(b)));
    press(&mut ed, Key::Char('c'));
    assert_eq!(outgoing_of(&ed, a), vec![b]);
    // same pair again: the second toggle finds the edge and removes it
    press(&mut ed, Key::Tab);
    press(&mut ed, Key::Char('s'));
    press(&mut ed, Key::Tab);
    press(&mut ed, Key::Tab);
    assert_eq!((ed.secondary, ed.primary), (Some(a), Some(b)));
    press(&mut ed, Key::Char('c'));
    assert_eq!(outgoing_of(&ed, a), Vec::<u64>::new());
}

#[test]
fn tab_visits_each_node_once_and_wraps() {
    let mut ed = Editor::new();
    let a = create_node(&mut ed, "A");
    let b = create_node(&mut ed, "B");
    let c = create_node(&mut ed, "C");
    press(&mut ed, Key::Esc);
    assert_eq!(ed.primary, None);
    let mut seen: Vec<u64> = Vec::new();
    for _ in 0..3 {
        press(&mut ed, Key::Tab);
        let id = ed.primary.unwrap();
        assert!(!seen.contains(&id));
        seen.push(id);
    }
    assert_eq!(seen, vec![a, b, c]);
    // the fourth press wraps back to the first node
    press(&mut ed, Key::Tab);
    assert_eq!(ed.primary, Some(a));
}

#[test]
fn delete_clears_matching_secondary() {
    let mut ed = Editor::new();
    let _a = create_node(&mut ed, "A");
    let b = create_node(&mut ed, "B");
    // stage B, reselect B, delete it: both slots must empty
    press(&mut ed, Key::Char('s'));
    press(&mut ed, Key::Tab);
    press(&mut ed, Key::Tab);
    assert_eq!((ed.secondary, ed.primary), (Some(b), Some(b)));
    press(&mut ed, Key::Char('d'));
    assert_eq!(ed.graph.len(), 1);
    assert_eq!(ed.primary, None);
    assert_eq!(ed.secondary, None);
}

#[test]
fn marker_cycles_and_wraps() {
    let mut ed = Editor::new();
    assert_eq!(ed.marker, MarkerStyle::Braille);
    press(&mut ed, Key::Char('m'));
    assert_eq!(ed.marker, MarkerStyle::HalfBlock);
    press(&mut ed, Key::Char('m'));
    assert_eq!(ed.marker, MarkerStyle::Dot);
    press(&mut ed, Key::Char('m'));
    assert_eq!(ed.marker, MarkerStyle::Block);
    press(&mut ed, Key::Char('m'));
    assert_eq!(ed.marker, MarkerStyle::Bar);
    press(&mut ed, Key::Char('m'));
    assert_eq!(ed.marker, MarkerStyle::Braille);
}

#[test]
fn arrows_move_primary_node() {
    let mut ed = Editor::new();
    let a = create_node(&mut ed, "A");
    let i = ed.graph.find_index(a).unwrap();
    assert_eq!((ed.graph.nodes[i].x, ed.graph.nodes[i].y), (200, 200));
    press(&mut ed, Key::Left);
    assert_eq!((ed.graph.nodes[i].x, ed.graph.nodes[i].y), (195, 200));
    press(&mut ed, Key::Right);
    press(&mut ed, Key::Up);
    assert_eq!((ed.graph.nodes[i].x, ed.graph.nodes[i].y), (200, 205));
    press(&mut ed, Key::Down);
    assert_eq!((ed.graph.nodes[i].x, ed.graph.nodes[i].y), (200, 200));
}

#[test]
fn quit_only_in_normal_mode() {
    let mut ed = Editor::new();
    assert!(ed.handle_key(Key::Char('q')));
    // while naming, the quit key is just another character
    press(&mut ed, Key::Char('n'));
    assert!(!ed.handle_key(Key::Char('q')));
    match &ed.mode {
        Mode::Naming { buf } => assert_eq!(buf, &vec!['q']),
        Mode::Normal => panic!("left naming mode"),
    }
}

#[test]
fn noops_on_missing_preconditions() {
    let mut ed = Editor::new();
    // tab and delete on an empty diagram
    press(&mut ed, Key::Tab);
    assert_eq!(ed.primary, None);
    press(&mut ed, Key::Char('d'));
    assert_eq!(ed.graph.len(), 0);
    // connect with only one slot filled
    let a = create_node(&mut ed, "A");
    press(&mut ed, Key::Char('c'));
    assert_eq!(ed.primary, Some(a));
    assert_eq!(outgoing_of(&ed, a), Vec::<u64>::new());
    // arrows with no primary
    press(&mut ed, Key::Esc);
    press(&mut ed, Key::Left);
    let i = ed.graph.find_index(a).unwrap();
    assert_eq!(ed.graph.nodes[i].x, 200);
    // backspace on an empty buffer
    press(&mut ed, Key::Char('n'));
    press(&mut ed, Key::Backspace);
    match &ed.mode {
        Mode::Naming { buf } => assert!(buf.is_empty()),
        Mode::Normal => panic!("left naming mode"),
    }
}

#[test]
fn stage_with_empty_primary_clears_secondary() {
    let mut ed = Editor::new();
    let a = create_node(&mut ed, "A");
    press(&mut ed, Key::Char('s'));
    assert_eq!(ed.secondary, Some(a));
    // primary is now empty; staging again empties the secondary slot too
    press(&mut ed, Key::Char('s'));
    assert_eq!(ed.secondary, None);
    assert_eq!(ed.primary, None);
}

#[test]
fn enter_spawns_named_node_and_selects_it() {
    let mut ed = Editor::new();
    press(&mut ed, Key::Char('n'));
    type_word(&mut ed, "Go");
    // keys without a naming effect are ignored while naming
    press(&mut ed, Key::Tab);
    press(&mut ed, Key::Left);
    press(&mut ed, Key::Enter);
    assert!(matches!(ed.mode, Mode::Normal));
    assert_eq!(ed.graph.len(), 1);
    let id = ed.primary.unwrap();
    let i = ed.graph.find_index(id).unwrap();
    assert_eq!(ed.graph.nodes[i].name, vec!['G', 'o']);
    assert_eq!((ed.graph.nodes[i].x, ed.graph.nodes[i].y), (200, 200));
    assert!(ed.graph.nodes[i].outgoing.is_empty());
}

#[test]
fn ids_are_never_reused() {
    let mut ed = Editor::new();
    let a = create_node(&mut ed, "A");
    let b = create_node(&mut ed, "B");
    press(&mut ed, Key::Tab);
    assert_eq!(ed.primary, Some(a));
    press(&mut ed, Key::Char('d'));
    let c = create_node(&mut ed, "C");
    assert_ne!(c, a);
    assert_ne!(c, b);
    assert_eq!(ed.graph.len(), 2);
}

#[test]
fn node_colors_follow_selection() {
    let mut ed = Editor::new();
    let a = create_node(&mut ed, "A");
    let b = create_node(&mut ed, "B");
    let c = create_node(&mut ed, "C");
    // stage A as secondary, select B as primary
    press(&mut ed, Key::Tab);
    assert_eq!(ed.primary, Some(a));
    press(&mut ed, Key::Char('s'));
    press(&mut ed, Key::Tab);
    press(&mut ed, Key::Tab);
    assert_eq!(ed.primary, Some(b));
    assert_eq!(ed.node_color(b), NodeColor::Primary);
    assert_eq!(ed.node_color(a), NodeColor::Secondary);
    assert_eq!(ed.node_color(c), NodeColor::Plain);
}
