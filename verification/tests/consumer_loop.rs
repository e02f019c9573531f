use termgame::game::{GameState, AXIS_LR, AXIS_UD, BUTTON_FIRE};
use termgame::joystick::JoystickEvent;
use termgame::keyboard::{KEY_D, KEY_S};
use termgame::terminal::DrawCmd;

fn axis(index: u8, value: i16) -> JoystickEvent {
    JoystickEvent { timestamp: 0, value, event: 2, index }
}

fn fire() -> JoystickEvent {
    JoystickEvent { timestamp: 0, value: 1, event: 1, index: BUTTON_FIRE }
}

fn texts(cmds: &[DrawCmd]) -> Vec<(u16, u16, String)> {
    cmds.iter().map(|c| (c.x, c.y, c.text.clone())).collect()
}

#[test]
fn axis_event_then_tick_moves_one_column_and_redraws_once() {
    let mut st = GameState::new(10, 10);
    st.handle_pad(&axis(AXIS_LR, 32767));
    let cmds = st.tick();
    assert_eq!(st.x, 2);
    // One full redraw: 10 blank rows, the player, the timer, the parked cursor.
    assert_eq!(cmds.len(), 13);
    let out = texts(&cmds);
    let players: Vec<_> = out.iter().filter(|c| c.2 == "#").collect();
    assert_eq!(players.len(), 1);
    assert_eq!(*players[0], (2, 1, String::from("#")));
}

#[test]
fn spawned_projectile_fades_and_leaves_after_eight_ticks() {
    let mut st = GameState::new(10, 10);
    for _ in 0..4 {
        st.handle_pad(&axis(AXIS_UD, 32767));
    }
    assert_eq!(st.y, 5);
    st.handle_pad(&fire());
    let p = st.projectile.expect("a projectile spawns");
    assert_eq!(p.col, 1);
    assert_eq!(p.row_half, 10);  // fractional row 5.0, in half-rows

    let cmds = st.tick();
    // After one tick it has lost half a row: still drawn, at row 4 (4.5).
    assert_eq!(st.projectile.unwrap().row_half, 9);
    assert!(texts(&cmds).contains(&(1, 4, String::from("|"))));

    for _ in 0..7 {
        st.tick();
    }
    // After eight ticks its row reached the top edge (integer row <= 1)
    // and the leaf is gone.
    assert!(st.projectile.is_none());
    let out = texts(&st.canvas.draw());
    assert!(out.iter().all(|c| c.2 != "|"));
}

#[test]
fn fire_while_one_is_in_flight_changes_nothing() {
    let mut st = GameState::new(10, 10);
    st.handle_pad(&axis(AXIS_UD, 32767));
    st.handle_pad(&fire());
    let first = st.projectile.unwrap();
    st.handle_pad(&axis(AXIS_LR, 32767));
    st.handle_pad(&fire());
    assert_eq!(st.projectile.unwrap(), first);
}

#[test]
fn fire_on_the_top_row_spawns_nothing() {
    let mut st = GameState::new(10, 10);
    st.handle_pad(&fire());
    assert!(st.projectile.is_none());
}

#[test]
fn movement_is_held_back_at_the_edges() {
    let mut st = GameState::new(3, 3);
    st.handle_pad(&axis(AXIS_LR, -32767));
    assert_eq!(st.x, 1);
    for _ in 0..5 {
        st.handle_pad(&axis(AXIS_LR, 32767));
    }
    assert_eq!(st.x, 3);
    st.handle_pad(&axis(AXIS_UD, -32767));
    assert_eq!(st.y, 1);
    for _ in 0..5 {
        st.handle_pad(&axis(AXIS_UD, 32767));
    }
    assert_eq!(st.y, 3);
}

#[test]
fn released_axis_does_not_move() {
    let mut st = GameState::new(10, 10);
    st.handle_pad(&axis(AXIS_LR, 0));
    st.handle_pad(&axis(AXIS_UD, 0));
    assert_eq!((st.x, st.y), (1, 1));
}

#[test]
fn held_keys_move_the_player_on_the_tick() {
    let mut st = GameState::new(10, 10);
    let mut snapshot = vec![false; 256];
    snapshot[KEY_S as usize] = true;
    snapshot[KEY_D as usize] = true;
    st.handle_input(snapshot);
    st.tick();
    assert_eq!((st.x, st.y), (2, 2));
    st.handle_input(vec![false; 256]);
    st.tick();
    assert_eq!((st.x, st.y), (2, 2));
}

#[test]
fn timer_leaf_counts_the_ticks() {
    let mut st = GameState::new(10, 10);
    st.tick();
    let cmds = st.tick();
    assert_eq!(st.time, 2);
    assert!(texts(&cmds).contains(&(1, 10, String::from("2"))));
}

#[test]
fn every_tick_parks_the_cursor_last() {
    let mut st = GameState::new(4, 7);
    let cmds = st.tick();
    let last = cmds.last().unwrap();
    assert_eq!((last.x, last.y, last.text.as_str()), (4, 7, ""));
}
