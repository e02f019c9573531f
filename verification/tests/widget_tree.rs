use termgame::terminal::DrawCmd;
use termgame::widget::{Component, Point, Widget};

fn leaf(x: u16, y: u16, uid: &str, text: &str) -> Widget {
    Widget {
        p0: Point { x, y },
        uid: String::from(uid),
        children: Component::Str(String::from(text)),
    }
}

fn canvas() -> Widget {
    Widget {
        p0: Point { x: 1, y: 1 },
        uid: String::from("canvas"),
        children: Component::Widgets(Vec::new()),
    }
}

fn emissions(w: &Widget) -> Vec<(u16, u16, String)> {
    w.draw().into_iter().map(|c: DrawCmd| (c.x, c.y, c.text)).collect()
}

#[test]
fn draw_emits_children_in_order() {
    let mut tree = canvas();
    tree.add(leaf(1, 1, "player", "#"));
    tree.add(leaf(1, 0, "bullet", "|"));
    let out = emissions(&tree);
    assert_eq!(out.len(), 2);
    assert_eq!(out[0], (1, 1, String::from("#")));
    assert_eq!(out[1], (1, 0, String::from("|")));
}

#[test]
fn draw_recurses_into_nested_composites() {
    let mut inner = canvas();
    inner.uid = String::from("inner");
    inner.add(leaf(4, 4, "a", "A"));
    let mut tree = canvas();
    tree.add(leaf(1, 1, "player", "#"));
    tree.add(inner);
    tree.add(leaf(2, 2, "b", "B"));
    let out = emissions(&tree);
    assert_eq!(out.len(), 3);
    assert_eq!(out[0], (1, 1, String::from("#")));
    assert_eq!(out[1], (4, 4, String::from("A")));
    assert_eq!(out[2], (2, 2, String::from("B")));
}

#[test]
fn delete_twice_changes_nothing_more() {
    let mut tree = canvas();
    tree.add(leaf(1, 1, "player", "#"));
    tree.add(leaf(1, 9, "timer", "0"));
    assert!(tree.delete(&String::from("player")));
    let after_once = emissions(&tree);
    assert!(!tree.delete(&String::from("player")));
    assert_eq!(emissions(&tree), after_once);
    assert_eq!(after_once, vec![(1, 9, String::from("0"))]);
}

#[test]
fn delete_missing_reports_not_found() {
    let mut tree = canvas();
    tree.add(leaf(1, 1, "player", "#"));
    assert!(!tree.delete(&String::from("ghost")));
    assert_eq!(emissions(&tree).len(), 1);
}

#[test]
fn delete_on_a_leaf_changes_nothing() {
    let mut alone = leaf(2, 2, "solo", "S");
    assert!(!alone.delete(&String::from("solo")));
    assert_eq!(emissions(&alone), vec![(2, 2, String::from("S"))]);
}

#[test]
fn update_replaces_and_draws_the_new_node() {
    let mut tree = canvas();
    tree.add(leaf(1, 1, "player", "#"));
    tree.add(leaf(1, 9, "timer", "0"));
    tree.update(&String::from("player"), leaf(3, 4, "player", "@"));
    let out = emissions(&tree);
    assert_eq!(out.len(), 2);
    // The replacement is appended, so it is drawn last, at its origin.
    assert_eq!(out[1], (3, 4, String::from("@")));
    assert!(!out.contains(&(1, 1, String::from("#"))));
}

#[test]
fn update_creates_a_missing_identifier() {
    let mut tree = canvas();
    tree.add(leaf(1, 1, "player", "#"));
    tree.update(&String::from("timer"), leaf(1, 9, "timer", "42"));
    let out = emissions(&tree);
    assert_eq!(out.len(), 2);
    assert_eq!(out[1], (1, 9, String::from("42")));
}

#[test]
fn update_keeps_only_the_first_bearer_away() {
    let mut tree = canvas();
    tree.add(leaf(1, 1, "player", "#"));
    tree.update(&String::from("player"), leaf(2, 2, "player", "#"));
    tree.update(&String::from("player"), leaf(3, 3, "player", "#"));
    let out = emissions(&tree);
    assert_eq!(out, vec![(3, 3, String::from("#"))]);
}
