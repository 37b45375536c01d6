//! The player: moves along the bottom row and fires projectiles, each at a
//! rate limited by its own timer.

use vstd::prelude::*;
use crate::projectile::Projectile;
use crate::rendering::{CssColor, Pso};
use crate::utils::{Timer, TimerView};

verus! {

/// Rightmost column of the player (its sprite is three cells wide).
pub const PLAYER_MAX_X: u32 = 77;

/// Period of both the movement and the shooting timer.
pub const SPEED: u32 = 80;

/// The input asks for a move that can be made from `pos`: not both
/// directions at once, and not past either edge.
pub open spec fn moves(pos: u32, left: bool, right: bool) -> bool {
    !(left && right) && ((pos > 0 && left) || (pos < PLAYER_MAX_X && right))
}

/// The column after one movement from `pos`: none when both directions are
/// asked for; else one left if asked and possible; else one right if asked
/// and possible.
pub open spec fn move_once(pos: u32, left: bool, right: bool) -> u32 {
    if left && right {
        pos
    } else if pos > 0 && left {
        (pos - 1) as u32
    } else if pos < PLAYER_MAX_X && right {
        (pos + 1) as u32
    } else {
        pos
    }
}

/// The column after `n` movements with the same input.
pub open spec fn move_n(pos: u32, left: bool, right: bool, n: nat) -> u32
    decreases n,
{
    if n == 0 {
        pos
    } else {
        move_once(move_n(pos, left, right, (n - 1) as nat), left, right)
    }
}

/// Number of movements owed when a timer fires `off` after its deadline:
/// `ceil((off + SPEED) / SPEED)`, one plus one for each period or part of a
/// period missed.
pub open spec fn catch_up(off: int) -> nat {
    ((off + 2 * SPEED - 1) / (SPEED as int)) as nat
}

/// What the player holds: its column and its movement and shooting timers.
pub struct PlayerView {
    pub pos: u32,
    pub movement: Option<TimerView>,
    pub shooting: Option<TimerView>,
}

/// Column and movement timer after an update at `ts`. Without a timer the
/// player moves at once, and arms a timer if it moved. With one, nothing
/// happens before its deadline; when it fires, the player makes the owed
/// movements, and the timer is re-armed while the input still asks for
/// movement (left or right held) and dropped once it does not.
pub open spec fn movement_next(p: PlayerView, ts: u32, left: bool, right: bool) -> (
    u32,
    Option<TimerView>,
) {
    match p.movement {
        None => {
            if moves(p.pos, left, right) {
                (move_once(p.pos, left, right), Some(TimerView::interval_spec(ts, SPEED)))
            } else {
                (p.pos, None)
            }
        },
        Some(t) => {
            if !t.is_due(ts) {
                (p.pos, Some(t))
            } else {
                let n = catch_up(ts - t.deadline);
                (
                    move_n(p.pos, left, right, n),
                    if left || right {
                        Some(t.fired(ts))
                    } else {
                        None
                    },
                )
            }
        },
    }
}

/// Shooting timer after an update at `ts`, and whether a projectile is
/// fired. Without a timer, asking to shoot fires and arms a timer. With one,
/// nothing happens before its deadline; when it fires, the player shoots and
/// keeps the timer if still asked to, else drops the timer.
pub open spec fn shooting_next(p: PlayerView, ts: u32, shoot: bool) -> (Option<TimerView>, bool) {
    match p.shooting {
        None => {
            if shoot {
                (Some(TimerView::interval_spec(ts, SPEED)), true)
            } else {
                (None, false)
            }
        },
        Some(t) => {
            if !t.is_due(ts) {
                (Some(t), false)
            } else if shoot {
                (Some(t.fired(ts)), true)
            } else {
                (None, false)
            }
        },
    }
}

/// The player after an update at `ts` with the given input.
pub open spec fn player_next(p: PlayerView, ts: u32, left: bool, right: bool, shoot: bool) -> PlayerView {
    let (pos, movement) = movement_next(p, ts, left, right);
    PlayerView { pos, movement, shooting: shooting_next(p, ts, shoot).0 }
}

/// The projectiles the player fires in an update at `ts`: none, or one just
/// right of its column after it moved.
pub open spec fn player_shots(p: PlayerView, ts: u32, left: bool, right: bool, shoot: bool) -> Seq<
    Projectile,
> {
    if shooting_next(p, ts, shoot).1 {
        seq![Projectile::spawned((player_next(p, ts, left, right, shoot).pos + 1) as u32)]
    } else {
        Seq::empty()
    }
}

/// A timer that repeats every `SPEED` (and so is never spent).
pub open spec fn repeats_at_speed(t: TimerView) -> bool {
    t.period == Some(SPEED) && !t.spent
}

/// Both timers, when armed, repeat every `SPEED`.
pub open spec fn periods_ok(p: PlayerView) -> bool {
    &&& (p.movement matches Some(t) ==> repeats_at_speed(t))
    &&& (p.shooting matches Some(t) ==> repeats_at_speed(t))
}

/// The timers of `p` can be re-armed at `ts`.
pub open spec fn timers_fit(p: PlayerView, ts: u32) -> bool {
    ts + SPEED <= u32::MAX && periods_ok(p)
}

/// The player.
pub struct Player {
    pos: u32,
    movement_timer: Option<Timer>,
    shoot_timer: Option<Timer>,
}

impl View for Player {
    type V = PlayerView;

    closed spec fn view(&self) -> PlayerView {
        PlayerView {
            pos: self.pos,
            movement: match self.movement_timer {
                Some(t) => Some(t@),
                None => None,
            },
            shooting: match self.shoot_timer {
                Some(t) => Some(t@),
                None => None,
            },
        }
    }
}

/// Make one movement; return whether the player moved.
fn do_movement(pos: &mut u32, left: bool, right: bool) -> (moved: bool)
    ensures
        *final(pos) == move_once(*old(pos), left, right),
        moved == moves(*old(pos), left, right),
{
    if left && right {
        false
    } else if *pos > 0 && left {
        *pos = *pos - 1;
        true
    } else if *pos < PLAYER_MAX_X && right {
        *pos = *pos + 1;
        true
    } else {
        false
    }
}

impl Player {
    /// A player at column 0 with no timer armed.
    pub fn new() -> (r: Player)
        ensures
            r@ == (PlayerView { pos: 0, movement: None, shooting: None }),
    {
        Player {
            pos: 0,
            movement_timer: None,
            shoot_timer: None,
        }
    }

    /// The player's column.
    pub fn pos(&self) -> (r: u32)
        ensures
            r == self@.pos,
    {
        self.pos
    }

    /// The player's drawing style: black fill.
    pub fn pso(&self) -> (r: Pso)
        ensures
            r.fill_color matches Some(c) && c.red() == 0 && c.green() == 0 && c.blue() == 0,
            r.font is None,
    {
        Pso { fill_color: Some(CssColor::new(0, 0, 0)), font: None }
    }

    /// Move and shoot as `input` asks at time `ts`, appending any projectile
    /// fired to `projectiles`.
    pub fn update(&mut self, ts: u32, input: &crate::input::Input, projectiles: &mut Vec<Projectile>)
        requires
            old(self)@.pos <= PLAYER_MAX_X,
            timers_fit(old(self)@, ts),
        ensures
            final(self)@ == player_next(
                old(self)@,
                ts,
                input@.wants_left(),
                input@.wants_right(),
                input@.wants_shoot(),
            ),
            final(projectiles)@ == old(projectiles)@ + player_shots(
                old(self)@,
                ts,
                input@.wants_left(),
                input@.wants_right(),
                input@.wants_shoot(),
            ),
            final(self)@.pos <= PLAYER_MAX_X,
            periods_ok(final(self)@),
    {
        let left = input.left();
        let right = input.right();
        let shoot = input.shoot();
        let ghost p0 = self@;
        let ghost l = left;
        let ghost r = right;

        match self.movement_timer {
            None => {
                let moved = do_movement(&mut self.pos, left, right);
                if moved {
                    self.movement_timer = Some(Timer::interval(ts, SPEED));
                }
            },
            Some(t) => {
                let mut t = t;
                match t.check(ts) {
                    None => {},
                    Some(off) => {
                        let n: u32 = ((off as u64 + (2 * SPEED - 1) as u64) / SPEED as u64) as u32;
                        let mut i: u32 = 0;
                        while i < n
                            invariant
                                i <= n,
                                n == catch_up(off as int),
                                self.pos == move_n(p0.pos, l, r, i as nat),
                                left == l,
                                right == r,
                                self.shoot_timer == old(self).shoot_timer,
                                self.movement_timer == old(self).movement_timer,
                            decreases n - i,
                        {
                            do_movement(&mut self.pos, left, right);
                            i = i + 1;
                        }
                        if left || right {
                            self.movement_timer = Some(t);
                        } else {
                            self.movement_timer = None;
                        }
                    },
                }
            },
        }
        proof {
            lemma_player_stays_on_grid(p0, ts, l, r, shoot);
        }

        match self.shoot_timer {
            None => {
                if shoot {
                    projectiles.push(Projectile::new(self.pos + 1));
                    self.shoot_timer = Some(Timer::interval(ts, SPEED));
                }
            },
            Some(t) => {
                let mut t = t;
                match t.check(ts) {
                    None => {},
                    Some(_off) => {
                        if shoot {
                            projectiles.push(Projectile::new(self.pos + 1));
                            self.shoot_timer = Some(t);
                        } else {
                            self.shoot_timer = None;
                        }
                    },
                }
            },
        }
    }
}

/// Movement never takes a player that starts on the grid off it: whatever
/// the input and however many movements, the column stays within `[0, 77]`.
pub proof fn lemma_movement_stays_on_grid(pos: u32, left: bool, right: bool, n: nat)
    requires
        pos <= PLAYER_MAX_X,
    ensures
        move_n(pos, left, right, n) <= PLAYER_MAX_X,
    decreases n,
{
    if n > 0 {
        lemma_movement_stays_on_grid(pos, left, right, (n - 1) as nat);
    }
}

/// An update keeps the player within `[0, 77]`, whatever the input and time.
pub proof fn lemma_player_stays_on_grid(p: PlayerView, ts: u32, left: bool, right: bool, shoot: bool)
    requires
        p.pos <= PLAYER_MAX_X,
    ensures
        player_next(p, ts, left, right, shoot).pos <= PLAYER_MAX_X,
{
    if let Some(t) = p.movement {
        if t.is_due(ts) {
            lemma_movement_stays_on_grid(p.pos, left, right, catch_up(ts - t.deadline));
        }
    }
}

} // verus!
