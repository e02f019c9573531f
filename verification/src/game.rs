//! The consumer loop's state machine.
//!
//! The surrounding program runs two producer threads — one reading an input
//! device, one ticking at a fixed rate — and a consumer loop that polls
//! both channels without blocking. The decisions of that loop live here:
//! how a key-state snapshot or a gamepad event changes the state, and what
//! one timer tick does — move the player by the held keys, advance the
//! projectile, refresh the drawable tree and emit one full redraw.

use crate::joystick::JoystickEvent;
use crate::keyboard::{KEY_A, KEY_D, KEY_S, KEY_W};
use crate::terminal::{
    clean_screen, clear_cmds, cmds_view, dec_rep, dec_string, lemma_cmds_view_concat, DrawCmd,
    DrawCmdView,
};
use crate::widget::{
    find_child, lemma_find_child, render_seq, Component, ComponentView, Point, Widget, WidgetView,
};
use vstd::prelude::*;

verus! {

/// The axis index of the directional pad's left/right axis.
pub const AXIS_LR: u8 = 6;

/// The axis index of the directional pad's up/down axis.
pub const AXIS_UD: u8 = 7;

/// The button index that fires a projectile.
pub const BUTTON_FIRE: u8 = 0;

/// An axis pushed fully to its positive end.
pub const AXIS_MAX: i16 = 32767;

/// An axis pushed fully to its negative end.
pub const AXIS_MIN: i16 = -32767;

/// One projectile in flight. Its row is kept in half-rows, so that it can
/// lose half a row per tick in integers; the row drawn is `row_half / 2`.
#[derive(Clone, Copy, PartialEq, Eq, Structural, Debug)]
pub struct Projectile {
    pub col: u16,
    pub row_half: u32,
}

/// The state owned by the consumer loop: terminal size, player position,
/// tick count, the latest key-state snapshot, the projectile in flight if
/// any, and the drawable tree it refreshes each tick.
pub struct GameState {
    pub w: u16,
    pub h: u16,
    pub x: u16,
    pub y: u16,
    pub time: u32,
    pub keys: Vec<bool>,
    pub projectile: Option<Projectile>,
    pub canvas: Widget,
}

/// The image of the player leaf: the glyph `#` at the player's position.
pub open spec fn player_view(x: u16, y: u16) -> WidgetView {
    WidgetView { x, y, uid: "player"@, children: ComponentView::Str("#"@) }
}

/// The image of the tick-counter leaf: the count in decimal at the bottom
/// left corner.
pub open spec fn timer_view(h: u16, time: u32) -> WidgetView {
    WidgetView { x: 1, y: h, uid: "timer"@, children: ComponentView::Str(dec_rep(time as nat)) }
}

/// The image of the projectile leaf: the glyph `|` at the projectile's
/// column and (whole) row.
pub open spec fn bullet_view(p: Projectile) -> WidgetView {
    WidgetView {
        x: p.col,
        y: (p.row_half / 2) as u16,
        uid: "bullet"@,
        children: ComponentView::Str("|"@),
    }
}

/// The children of a freshly refreshed tree: the player leaf, the timer
/// leaf, and the projectile leaf while one is in flight.
pub open spec fn scene_children(st: GameState) -> Seq<WidgetView> {
    match st.projectile {
        Some(p) => seq![
            player_view(st.x, st.y),
            timer_view(st.h, st.time),
            bullet_view(p),
        ],
        None => seq![player_view(st.x, st.y), timer_view(st.h, st.time)],
    }
}

/// The standing shape of the tree's children between ticks: two or three of
/// them, the player leaf first, the timer leaf second, the projectile leaf
/// (when present) last.
pub open spec fn canvas_shape(cs: Seq<WidgetView>) -> bool {
    &&& (cs.len() == 2 || cs.len() == 3)
    &&& cs[0].uid == "player"@
    &&& cs[1].uid == "timer"@
    &&& (cs.len() == 3 ==> cs[2].uid == "bullet"@)
}

/// What always holds of the consumer state: the player is on the screen,
/// the key table covers every key code of one byte, a projectile in flight
/// is on the screen and not yet at the top edge, and the tree is a
/// composite root whose children keep the standing shape.
pub open spec fn wf(st: GameState) -> bool {
    &&& 1 <= st.x <= st.w
    &&& 1 <= st.y <= st.h
    &&& st.keys@.len() == 256
    &&& st.canvas@.x == 1 && st.canvas@.y == 1 && st.canvas@.uid == "canvas"@
    &&& (st.canvas@.children matches ComponentView::Widgets(cs) && canvas_shape(cs))
    &&& (st.projectile matches Some(p) ==> {
        &&& 1 <= p.col <= st.w
        &&& 3 <= p.row_half <= 2 * (st.h as int)
    })
}

/// Where the held keys move the player in one tick: up, left, down, right
/// are weighed in that order, each step held back at the screen's edge.
pub open spec fn spec_move(keys: Seq<bool>, x: u16, y: u16, w: u16, h: u16) -> (u16, u16) {
    let y1: u16 = if keys[KEY_W as int] && y > 1 {
        (y - 1) as u16
    } else {
        y
    };
    let x1: u16 = if keys[KEY_A as int] && x > 1 {
        (x - 1) as u16
    } else {
        x
    };
    let y2: u16 = if keys[KEY_S as int] && y1 < h {
        (y1 + 1) as u16
    } else {
        y1
    };
    let x2: u16 = if keys[KEY_D as int] && x1 < w {
        (x1 + 1) as u16
    } else {
        x1
    };
    (x2, y2)
}

/// What one tick does to the projectile: it loses one half-row, and leaves
/// the scene once its row is down to the top edge.
pub open spec fn spec_advance(p: Option<Projectile>) -> Option<Projectile> {
    match p {
        Some(q) => if q.row_half - 1 <= 2 {
            None
        } else {
            Some(Projectile { col: q.col, row_half: (q.row_half - 1) as u32 })
        },
        None => None,
    }
}

/// What a gamepad event does to the player and the projectile: a
/// directional-pad axis pushed to an end shifts the position one step that
/// way, held back at the screen's edge; the fire button pressed while no
/// projectile is in flight and the player is under the top row spawns one
/// at the player's position; everything else changes nothing.
pub open spec fn spec_pad(
    e: JoystickEvent,
    x: u16,
    y: u16,
    w: u16,
    h: u16,
    p: Option<Projectile>,
) -> (u16, u16, Option<Projectile>) {
    if e.event == 2 && e.index == AXIS_LR {
        if e.value == AXIS_MAX && x < w {
            ((x + 1) as u16, y, p)
        } else if e.value == AXIS_MIN && x > 1 {
            ((x - 1) as u16, y, p)
        } else {
            (x, y, p)
        }
    } else if e.event == 2 && e.index == AXIS_UD {
        if e.value == AXIS_MAX && y < h {
            (x, (y + 1) as u16, p)
        } else if e.value == AXIS_MIN && y > 1 {
            (x, (y - 1) as u16, p)
        } else {
            (x, y, p)
        }
    } else if e.event == 1 && e.index == BUTTON_FIRE && e.value == 1 && p is None && y >= 2 {
        (x, y, Some(Projectile { col: x, row_half: (2 * (y as int)) as u32 }))
    } else {
        (x, y, p)
    }
}

/// How one tick turns the state over: the size and the key table stay, the
/// count goes up by one (around at its top), the player moves by the held
/// keys, the projectile advances, and the tree's children are exactly the
/// refreshed scene.
pub open spec fn tick_rel(pre: GameState, post: GameState) -> bool {
    &&& post.w == pre.w && post.h == pre.h
    &&& post.keys == pre.keys
    &&& post.time as int == (pre.time as int + 1) % 0x1_0000_0000
    &&& (post.x, post.y) == spec_move(pre.keys@, pre.x, pre.y, pre.w, pre.h)
    &&& post.projectile == spec_advance(pre.projectile)
    &&& post.canvas@.x == 1 && post.canvas@.y == 1 && post.canvas@.uid == "canvas"@
    &&& post.canvas@.children == ComponentView::Widgets(scene_children(post))
}

/// The cursor-parking emission that ends a redraw: nothing written at the
/// bottom right corner.
pub open spec fn park_view(w: u16, h: u16) -> DrawCmdView {
    DrawCmdView { x: w, y: h, text: Seq::empty() }
}

/// Everything one tick emits: a blank for every screen row, then every leaf
/// of the refreshed scene, then the parking of the cursor.
pub open spec fn tick_emission(st: GameState) -> Seq<DrawCmdView> {
    clear_cmds(st.w, st.h) + render_seq(scene_children(st)) + seq![park_view(st.w, st.h)]
}

impl GameState {
    /// Sets up the state for a `w` by `h` screen: the player leaf at the
    /// top left corner, the timer leaf at zero, no key held, no projectile.
    pub fn new(w: u16, h: u16) -> (st: GameState)
        requires
            w >= 1,
            h >= 1,
        ensures
            wf(st),
            st.w == w && st.h == h,
            st.x == 1 && st.y == 1,
            st.time == 0,
            (st.projectile is None),
            forall|i: int| 0 <= i < 256 ==> !st.keys@[i],
            st.canvas@.children == ComponentView::Widgets(scene_children(st)),
    {
        let mut keys: Vec<bool> = Vec::new();
        let mut i: usize = 0;
        while i < 256
            invariant
                i <= 256,
                keys@.len() == i,
                forall|k: int| 0 <= k < i ==> !keys@[k],
            decreases 256 - i,
        {
            keys.push(false);
            i = i + 1;
        }
        let mut canvas = Widget {
            p0: Point { x: 1, y: 1 },
            uid: String::from_str("canvas"),
            children: Component::Widgets(Vec::new()),
        };
        let player = Widget {
            p0: Point { x: 1, y: 1 },
            uid: String::from_str("player"),
            children: Component::Str(String::from_str("#")),
        };
        proof {
            assert(player@ =~~= player_view(1, 1));
        }
        canvas.add(player);
        let timer = Widget {
            p0: Point { x: 1, y: h },
            uid: String::from_str("timer"),
            children: Component::Str(dec_string(0)),
        };
        proof {
            assert(timer@ =~~= timer_view(h, 0));
        }
        canvas.add(timer);
        let st = GameState { w, h, x: 1, y: 1, time: 0, keys, projectile: None, canvas };
        proof {
            assert(st.canvas@.children->Widgets_0 =~~= scene_children(st));
        }
        st
    }

    /// Folds a key-state snapshot in: the table is replaced wholesale by
    /// the latest one received, and nothing else moves.
    pub fn handle_input(&mut self, snapshot: Vec<bool>)
        requires
            wf(*old(self)),
            snapshot@.len() == 256,
        ensures
            wf(*final(self)),
            final(self).keys == snapshot,
            final(self).w == old(self).w && final(self).h == old(self).h,
            final(self).x == old(self).x && final(self).y == old(self).y,
            final(self).time == old(self).time,
            final(self).projectile == old(self).projectile,
            final(self).canvas == old(self).canvas,
    {
        self.keys = snapshot;
    }

    /// Folds one gamepad event in, as [`spec_pad`] says: the directional
    /// pad moves the player, the fire button spawns a projectile, and the
    /// tree waits for the next tick to be refreshed.
    pub fn handle_pad(&mut self, e: &JoystickEvent)
        requires
            wf(*old(self)),
        ensures
            wf(*final(self)),
            ({
                let (nx, ny, np) = spec_pad(
                    *e,
                    old(self).x,
                    old(self).y,
                    old(self).w,
                    old(self).h,
                    old(self).projectile,
                );
                final(self).x == nx && final(self).y == ny && final(self).projectile == np
            }),
            final(self).w == old(self).w && final(self).h == old(self).h,
            final(self).keys == old(self).keys,
            final(self).time == old(self).time,
            final(self).canvas == old(self).canvas,
    {
        if e.event == 2 && e.index == AXIS_LR {
            if e.value == AXIS_MAX && self.x < self.w {
                self.x = self.x + 1;
            } else if e.value == AXIS_MIN && self.x > 1 {
                self.x = self.x - 1;
            }
        } else if e.event == 2 && e.index == AXIS_UD {
            if e.value == AXIS_MAX && self.y < self.h {
                self.y = self.y + 1;
            } else if e.value == AXIS_MIN && self.y > 1 {
                self.y = self.y - 1;
            }
        } else if e.event == 1 && e.index == BUTTON_FIRE && e.value == 1
            && self.projectile.is_none() && self.y >= 2 {
            self.projectile = Some(
                Projectile { col: self.x, row_half: 2 * (self.y as u32) },
            );
        }
    }

    /// Runs one timer tick: moves the player by the held keys, counts the
    /// tick, advances the projectile, refreshes the tree's leaves from the
    /// new state, and emits one full redraw — every row blanked, every leaf
    /// drawn, the cursor parked at the bottom right corner.
    #[verifier::rlimit(100)]
    pub fn tick(&mut self) -> (cmds: Vec<DrawCmd>)
        requires
            wf(*old(self)),
        ensures
            wf(*final(self)),
            tick_rel(*old(self), *final(self)),
            cmds_view(cmds@) == tick_emission(*final(self)),
    {
        // Move by the held keys.
        if self.keys[KEY_W as usize] && self.y > 1 {
            self.y = self.y - 1;
        }
        if self.keys[KEY_A as usize] && self.x > 1 {
            self.x = self.x - 1;
        }
        if self.keys[KEY_S as usize] && self.y < self.h {
            self.y = self.y + 1;
        }
        if self.keys[KEY_D as usize] && self.x < self.w {
            self.x = self.x + 1;
        }
        // Count the tick.
        if self.time == 0xffff_ffff {
            self.time = 0;
        } else {
            self.time = self.time + 1;
        }
        // Advance the projectile.
        self.projectile = match self.projectile {
            Some(p) => {
                let nh = p.row_half - 1;
                if nh <= 2 {
                    None
                } else {
                    Some(Projectile { col: p.col, row_half: nh })
                }
            },
            None => None,
        };
        // Refresh the tree: replace the player and timer leaves, take the
        // projectile leaf out, and append the advanced one while in flight.
        let ghost cs0 = self.canvas@.children->Widgets_0;
        let player = Widget {
            p0: Point { x: self.x, y: self.y },
            uid: String::from_str("player"),
            children: Component::Str(String::from_str("#")),
        };
        proof {
            assert(player@ =~~= player_view(self.x, self.y));
        }
        self.canvas.update(&String::from_str("player"), player);
        let ghost cs1 = self.canvas@.children->Widgets_0;
        proof {
            assert(find_child(cs0, "player"@) == 0);
            assert(cs1 =~= cs0.remove(0).push(player_view(self.x, self.y)));
            assert(cs1[0] == cs0[1]);
        }
        let timer = Widget {
            p0: Point { x: 1, y: self.h },
            uid: String::from_str("timer"),
            children: Component::Str(dec_string(self.time)),
        };
        proof {
            assert(timer@ =~~= timer_view(self.h, self.time));
        }
        self.canvas.update(&String::from_str("timer"), timer);
        let ghost cs2 = self.canvas@.children->Widgets_0;
        proof {
            assert(find_child(cs1, "timer"@) == 0);
            assert(cs2 =~= cs1.remove(0).push(timer_view(self.h, self.time)));
            reveal_strlit("player");
            reveal_strlit("timer");
            reveal_strlit("bullet");
            lemma_find_child(cs2, "bullet"@);
            if cs0.len() == 2 {
                assert(cs2 =~= seq![
                    player_view(self.x, self.y),
                    timer_view(self.h, self.time),
                ]);
                assert("player"@[0] == 'p' && "bullet"@[0] == 'b');
                assert("timer"@.len() == 5 && "bullet"@.len() == 6);
                assert(find_child(cs2, "bullet"@) == -1);
            } else {
                assert(cs2 =~= seq![
                    cs0[2],
                    player_view(self.x, self.y),
                    timer_view(self.h, self.time),
                ]);
                assert(find_child(cs2, "bullet"@) == 0);
            }
        }
        self.canvas.delete(&String::from_str("bullet"));
        let ghost cs3 = self.canvas@.children->Widgets_0;
        proof {
            assert(cs3 =~= seq![player_view(self.x, self.y), timer_view(self.h, self.time)]);
        }
        match self.projectile {
            Some(p) => {
                let bullet = Widget {
                    p0: Point { x: p.col, y: (p.row_half / 2) as u16 },
                    uid: String::from_str("bullet"),
                    children: Component::Str(String::from_str("|")),
                };
                proof {
                    assert(bullet@ =~~= bullet_view(p));
                }
                self.canvas.add(bullet);
            },
            None => {},
        }
        proof {
            assert(self.canvas@.children->Widgets_0 =~~= scene_children(*self));
        }
        // Emit one full redraw.
        let mut cmds = clean_screen(self.w, self.h);
        let mut body = self.canvas.draw();
        proof {
            lemma_cmds_view_concat(cmds@, body@);
        }
        cmds.append(&mut body);
        let ghost before_park = cmds@;
        let park = DrawCmd { x: self.w, y: self.h, text: String::new() };
        proof {
            assert(park@ =~~= park_view(self.w, self.h));
        }
        cmds.push(park);
        proof {
            assert(cmds@ =~= before_park + seq![park]);
            lemma_cmds_view_concat(before_park, seq![park]);
            assert(cmds_view(seq![park]) =~= seq![park_view(self.w, self.h)]);
            assert(cmds_view(cmds@) =~~= tick_emission(*self));
        }
        cmds
    }
}

} // verus!
