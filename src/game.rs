//! The game: owns every entity, the score and the input, and advances them
//! in fixed steps of ten time units driven by timestamps from outside.

use vstd::prelude::*;
use vstd::string::*;
use crate::enemy::{Enemy, EnemyType};
use crate::explosion::Explosion;
use crate::fps_counter::{FpsCounter, FpsView, REFRESH_PERIOD};
use crate::input::{key_of, Input, InputView, KeyEvent};
use crate::player::{periods_ok, player_next, player_shots, Player, PlayerView, PLAYER_MAX_X};
use crate::projectile::Projectile;
use crate::rendering::{CssColor, CssFont};
use crate::score::{Score, ScoreView};
use crate::simulation::{
    Collisions,
    lemma_collision_counts,
    lemma_advanced_on_grid,
    lemma_animated_live,
    lemma_collide_keeps,
    lemma_misses_bounded,
    lemma_ticked_all_len,
    advance_enemies,
    advance_explosions,
    advanced,
    animated,
    breaches,
    collide,
    in_flight,
    misses,
    remove_escaped_projectiles,
    resolve_collisions,
    tick_projectiles,
    ticked_all,
};
use crate::utils::{Timer, TimerView};

verus! {

/// Length of one simulation step.
pub const TICK: u32 = 10;

/// Enemies move on every eleventh step (when their counter reaches this).
pub const ENEMY_TICK: u8 = 10;

/// Explosions advance on every sixth step.
pub const EXPLOSION_TICK: u8 = 5;

/// An enemy spawns on every 201st step.
pub const SPAWN_TICK: u8 = 200;

/// What the game holds.
pub struct GameView {
    pub fps: FpsView,
    pub player: PlayerView,
    pub input: InputView,
    pub projectiles: Seq<Projectile>,
    pub enemies: Seq<Enemy>,
    pub explosions: Seq<Explosion>,
    pub game_tick: TimerView,
    pub enemy_tick: u8,
    pub enemy_spawn_tick: u8,
    pub explosion_tick: u8,
    pub score: ScoreView,
}

impl GameView {
    /// The invariant of a running game: the player on the grid, timers with
    /// their periods, no enemy past the bottom, no finished explosion,
    /// counters within their cycles, and a consistent score.
    pub open spec fn wf(self) -> bool {
        &&& self.player.pos <= PLAYER_MAX_X
        &&& periods_ok(self.player)
        &&& self.game_tick.period == Some(TICK)
        &&& !self.game_tick.spent
        &&& self.fps.timer.period == Some(REFRESH_PERIOD)
        &&& !self.fps.timer.spent
        &&& forall|k: int| 0 <= k < self.enemies.len() ==> !(#[trigger] self.enemies[k]).breached()
        &&& forall|k: int|
            0 <= k < self.explosions.len() ==> !(#[trigger] self.explosions[k]).finished()
        &&& self.enemy_tick <= ENEMY_TICK
        &&& self.explosion_tick <= EXPLOSION_TICK
        &&& self.enemy_spawn_tick <= SPAWN_TICK
        &&& self.score.consistent()
    }

    /// One step cannot take the score out of the range of `i64`: at most one
    /// point lost per projectile and ten per enemy, five won per projectile.
    pub open spec fn step_fits(self) -> bool {
        &&& self.score.value - self.projectiles.len() - 10 * self.enemies.len() >= i64::MIN
        &&& self.score.value + 5 * self.projectiles.len() <= i64::MAX
    }

    /// Number of steps due at `ts`: none before the game tick's deadline;
    /// at or after it, `ceil((deviation + TICK) / TICK)`.
    pub open spec fn steps_due(self, ts: u32) -> nat {
        if !self.game_tick.is_due(ts) {
            0
        } else {
            ((ts - self.game_tick.deadline + 2 * TICK - 1) / (TICK as int)) as nat
        }
    }

    /// The game after an update at `ts`: frame counted, keyboard transitions
    /// applied, player moved and firing with the resolved input, game tick
    /// checked.
    pub open spec fn updated(self, ts: u32) -> GameView {
        let input = self.input.resolved();
        let (l, r, s) = (input.wants_left(), input.wants_right(), input.wants_shoot());
        GameView {
            fps: self.fps.next(ts),
            input,
            player: player_next(self.player, ts, l, r, s),
            projectiles: self.projectiles + player_shots(self.player, ts, l, r, s),
            game_tick: if !self.game_tick.is_due(ts) {
                self.game_tick
            } else {
                self.game_tick.fired(ts)
            },
            ..self
        }
    }

    /// A step with these draws can run: the score stays within `i64`, and the
    /// draws are within their ranges.
    pub open spec fn can_step(self, kind_roll: u32, x_roll: u32) -> bool {
        &&& self.step_fits()
        &&& kind_roll < 3
        &&& x_roll <= EnemyType::nth(kind_roll as int).spawn_span()
    }

    /// The game after running one step per draw, in order, stopping at the
    /// first step that cannot run.
    pub open spec fn run(self, draws: Seq<(u32, u32)>) -> GameView
        decreases draws.len(),
    {
        if draws.len() == 0 || !self.can_step(draws[0].0, draws[0].1) {
            self
        } else {
            self.stepped(draws[0].0, draws[0].1).run(draws.drop_first())
        }
    }

    /// How many steps `run` makes.
    pub open spec fn run_count(self, draws: Seq<(u32, u32)>) -> nat
        decreases draws.len(),
    {
        if draws.len() == 0 || !self.can_step(draws[0].0, draws[0].1) {
            0
        } else {
            1 + self.stepped(draws[0].0, draws[0].1).run_count(draws.drop_first())
        }
    }

    /// Projectiles that reach the collision phase of a step: those not in
    /// the top row, each moved one step.
    pub open spec fn step_projectiles(self) -> Seq<Projectile> {
        ticked_all(in_flight(self.projectiles))
    }

    /// Enemies that reach the collision phase of a step: on the enemy tick,
    /// moved down without those at the bottom; on the spawn tick, with the
    /// enemy that the rolls pick added.
    pub open spec fn step_enemies(self, kind_roll: u32, x_roll: u32) -> Seq<Enemy> {
        let es = if self.enemy_tick == ENEMY_TICK {
            advanced(self.enemies)
        } else {
            self.enemies
        };
        if self.enemy_spawn_tick == SPAWN_TICK {
            es.push(Enemy::spawn_spec(kind_roll, x_roll))
        } else {
            es
        }
    }

    /// Explosions that reach the collision phase of a step: on the explosion
    /// tick, advanced without the finished ones.
    pub open spec fn step_explosions(self) -> Seq<Explosion> {
        if self.explosion_tick == EXPLOSION_TICK {
            animated(self.explosions)
        } else {
            self.explosions
        }
    }

    /// Points lost in a step before collisions: one per projectile in the top
    /// row, and on the enemy tick ten per enemy reaching the bottom.
    pub open spec fn step_losses(self) -> int {
        let breach_losses: int = if self.enemy_tick == ENEMY_TICK {
            (10 * breaches(self.enemies)) as int
        } else {
            0
        };
        misses(self.projectiles) + breach_losses
    }

    /// The collision pass of a step.
    pub open spec fn step_collisions(self, kind_roll: u32, x_roll: u32) -> Collisions {
        collide(self.step_projectiles(), self.step_enemies(kind_roll, x_roll), self.step_explosions())
    }

    /// The game after one step, in this order: projectiles in the top row
    /// removed (one point each); projectiles moved; on the enemy tick,
    /// enemies moved down and those at the bottom removed (ten points each);
    /// on the explosion tick, explosions advanced and finished ones removed;
    /// on the spawn tick, the enemy that the rolls pick added; then
    /// collisions resolved (five points each).
    pub open spec fn stepped(self, kind_roll: u32, x_roll: u32) -> GameView {
        let s1 = self.score.added(-misses(self.projectiles));
        let s2 = if self.enemy_tick == ENEMY_TICK {
            s1.added(-10 * breaches(self.enemies))
        } else {
            s1
        };
        let c = self.step_collisions(kind_roll, x_roll);
        GameView {
            projectiles: c.kept,
            enemies: c.enemies,
            explosions: c.explosions,
            score: s2.added((5 * c.hits) as int),
            enemy_tick: if self.enemy_tick == ENEMY_TICK {
                0
            } else {
                (self.enemy_tick + 1) as u8
            },
            explosion_tick: if self.explosion_tick == EXPLOSION_TICK {
                0
            } else {
                (self.explosion_tick + 1) as u8
            },
            enemy_spawn_tick: if self.enemy_spawn_tick == SPAWN_TICK {
                0
            } else {
                (self.enemy_spawn_tick + 1) as u8
            },
            ..self
        }
    }
}

/// In every step, each projectile that hits removes exactly one enemy and
/// itself, adds one explosion and wins five points; a projectile hits at most
/// once, and nothing else removes projectiles or enemies in the collision
/// phase.
pub proof fn lemma_step_hits(g: GameView, kind_roll: u32, x_roll: u32)
    ensures
        ({
            let h = g.step_collisions(kind_roll, x_roll).hits;
            let after = g.stepped(kind_roll, x_roll);
            &&& h <= g.step_projectiles().len()
            &&& after.projectiles.len() + h == in_flight(g.projectiles).len()
            &&& after.enemies.len() + h == g.step_enemies(kind_roll, x_roll).len()
            &&& after.explosions.len() == g.step_explosions().len() + h
            &&& after.score.value == g.score.value - g.step_losses() + 5 * h
        }),
{
    lemma_ticked_all_len(in_flight(g.projectiles));
    lemma_collision_counts(
        g.step_projectiles(),
        g.step_enemies(kind_roll, x_roll),
        g.step_explosions(),
    );
}

/// The game.
pub struct Game {
    fps_counter: FpsCounter,
    player: Player,
    input: Input,
    projectiles: Vec<Projectile>,
    enemies: Vec<Enemy>,
    game_tick: Timer,
    enemy_tick: u8,
    enemy_spawn_tick: u8,
    explosions: Vec<Explosion>,
    explosion_tick: u8,
    score: Score,
}

impl View for Game {
    type V = GameView;

    closed spec fn view(&self) -> GameView {
        GameView {
            fps: self.fps_counter@,
            player: self.player@,
            input: self.input@,
            projectiles: self.projectiles@,
            enemies: self.enemies@,
            explosions: self.explosions@,
            game_tick: self.game_tick@,
            enemy_tick: self.enemy_tick,
            enemy_spawn_tick: self.enemy_spawn_tick,
            explosion_tick: self.explosion_tick,
            score: self.score@,
        }
    }
}

impl Game {
    /// A new game: player at column 0, nothing on the grid, a score of 0
    /// named "Score", all counters at 0, first step due at 10.
    pub fn new() -> (r: Game)
        ensures
            r@.wf(),
            r@.player == (PlayerView { pos: 0, movement: None, shooting: None }),
            r@.projectiles == Seq::<Projectile>::empty(),
            r@.enemies == Seq::<Enemy>::empty(),
            r@.explosions == Seq::<Explosion>::empty(),
            r@.game_tick == TimerView::interval_spec(0, TICK),
            r@.enemy_tick == 0,
            r@.enemy_spawn_tick == 0,
            r@.explosion_tick == 0,
            r@.score.value == 0,
            r@.score.name == "Score"@,
            r@.input.queue == Seq::<KeyEvent>::empty(),
            r@.input.keys == (false, false, false),
            r@.input.pad == (false, false, false),
            r@.fps.last_frame_ts == 0,
    {
        let name = String::from_str("Score");
        Game {
            fps_counter: FpsCounter::new(),
            player: Player::new(),
            input: Input::new(),
            projectiles: Vec::new(),
            enemies: Vec::new(),
            game_tick: Timer::interval(0, TICK),
            enemy_tick: 0,
            enemy_spawn_tick: 0,
            explosions: Vec::new(),
            explosion_tick: 0,
            score: Score::new(
                CssColor::new(0, 50, 200),
                CssColor::new(200, 50, 0),
                CssFont::monospace(20),
                name,
            ),
        }
    }

    /// Queue the keyboard transition of the key named `key`.
    pub fn keyboard_event(&mut self, is_down: bool, key: &str)
        ensures
            final(self)@.input.keys == old(self)@.input.keys,
            final(self)@.input.pad == old(self)@.input.pad,
            final(self)@.input.queue == match key_of(key@) {
                Some(k) => old(self)@.input.queue.push(
                    if is_down {
                        KeyEvent::Down(k)
                    } else {
                        KeyEvent::Up(k)
                    },
                ),
                None => old(self)@.input.queue,
            },
            final(self)@ == (GameView { input: final(self)@.input, ..old(self)@ }),
    {
        self.input.keyboard_event(is_down, key);
    }

    /// Set the gamepad flags.
    pub fn set_gamepad_state(&mut self, left: bool, right: bool, shoot: bool)
        ensures
            final(self)@ == (GameView {
                input: InputView { pad: (left, right, shoot), ..old(self)@.input },
                ..old(self)@
            }),
    {
        self.input.set_gamepad_state(left, right, shoot);
    }

    /// Update the game at time `ts`: count the frame, resolve the input, move
    /// the player and let it fire, and check the game tick. Returns the
    /// number of simulation steps now due, to be run with `run_steps` (or
    /// `step`).
    pub fn update(&mut self, ts: u32) -> (steps: u32)
        requires
            old(self)@.wf(),
            old(self)@.fps.last_frame_ts <= ts,
            ts + REFRESH_PERIOD <= u32::MAX,
        ensures
            final(self)@ == old(self)@.updated(ts),
            steps == old(self)@.steps_due(ts),
            final(self)@.wf(),
    {
        self.fps_counter.update(ts);
        self.input.update(ts);
        self.player.update(ts, &self.input, &mut self.projectiles);
        match self.game_tick.check(ts) {
            Some(off) => (off + (2 * TICK - 1)) / TICK,
            None => 0,
        }
    }

    /// Run one simulation step (see `GameView::stepped`). `kind_roll`, a
    /// uniform draw from `0..3`, and `x_roll`, one from `0..=spawn_span` of
    /// the kind it picks, select the enemy spawned if this is a spawn step.
    pub fn step(&mut self, kind_roll: u32, x_roll: u32)
        requires
            old(self)@.wf(),
            old(self)@.step_fits(),
            kind_roll < 3,
            x_roll <= EnemyType::nth(kind_roll as int).spawn_span(),
        ensures
            final(self)@ == old(self)@.stepped(kind_roll, x_roll),
            final(self)@.wf(),
    {
        let ghost g = self@;
        proof {
            lemma_misses_bounded(g.projectiles);
            lemma_ticked_all_len(in_flight(g.projectiles));
            lemma_advanced_on_grid(g.enemies);
            lemma_animated_live(g.explosions);
        }
        remove_escaped_projectiles(&mut self.projectiles, &mut self.score);
        tick_projectiles(&mut self.projectiles);

        if self.enemy_tick == ENEMY_TICK {
            advance_enemies(&mut self.enemies, &mut self.score);
            self.enemy_tick = 0;
        } else {
            self.enemy_tick = self.enemy_tick + 1;
        }

        if self.explosion_tick == EXPLOSION_TICK {
            advance_explosions(&mut self.explosions);
            self.explosion_tick = 0;
        } else {
            self.explosion_tick = self.explosion_tick + 1;
        }

        if self.enemy_spawn_tick == SPAWN_TICK {
            self.enemies.push(Enemy::new_random(kind_roll, x_roll));
            self.enemy_spawn_tick = 0;
        } else {
            self.enemy_spawn_tick = self.enemy_spawn_tick + 1;
        }

        proof {
            let es = self.enemies@;
            assert(forall|k: int| 0 <= k < es.len() ==> !(#[trigger] es[k]).breached());
            lemma_collide_keeps(self.projectiles@, self.enemies@, self.explosions@);
        }
        resolve_collisions(
            &mut self.projectiles,
            &mut self.enemies,
            &mut self.explosions,
            &mut self.score,
        );
    }

    /// Whether a step with these draws can run (see `GameView::can_step`).
    pub fn can_step(&self, kind_roll: u32, x_roll: u32) -> (r: bool)
        ensures
            r == self@.can_step(kind_roll, x_roll),
    {
        let value = self.score.value() as i128;
        let projectiles = self.projectiles.len() as i128;
        let enemies = self.enemies.len() as i128;
        if value - projectiles - 10 * enemies < i64::MIN as i128 || value + 5 * projectiles
            > i64::MAX as i128 {
            return false;
        }
        if kind_roll >= 3 {
            return false;
        }
        let (first, last) = EnemyType::random(kind_roll).spawn_range();
        x_roll <= last - first
    }

    /// Run one step per draw `(kind_roll, x_roll)`, in order, as `update`
    /// asked for, stopping at the first step that cannot run. Returns the
    /// number of steps run.
    pub fn run_steps(&mut self, draws: &Vec<(u32, u32)>) -> (ran: usize)
        requires
            old(self)@.wf(),
        ensures
            final(self)@ == old(self)@.run(draws@),
            ran == old(self)@.run_count(draws@),
            final(self)@.wf(),
    {
        let ghost d = draws@;
        let n = draws.len();
        let mut i: usize = 0;
        assert(d.subrange(0, n as int) =~= d);
        while i < n
            invariant
                n == d.len(),
                draws@ == d,
                i <= n,
                self@.wf(),
                old(self)@.run(d) == self@.run(d.subrange(i as int, n as int)),
                old(self)@.run_count(d) == i + self@.run_count(d.subrange(i as int, n as int)),
            decreases n - i,
        {
            let (kind_roll, x_roll) = draws[i];
            let ghost rest = d.subrange(i as int, n as int);
            assert(rest[0] == d[i as int]);
            if !self.can_step(kind_roll, x_roll) {
                return i;
            }
            self.step(kind_roll, x_roll);
            assert(rest.drop_first() =~= d.subrange(i + 1, n as int));
            i = i + 1;
        }
        assert(d.subrange(n as int, n as int) =~= Seq::<(u32, u32)>::empty());
        n
    }

    /// The projectiles in flight.
    pub fn projectiles(&self) -> (r: &Vec<Projectile>)
        ensures
            r@ == self@.projectiles,
    {
        &self.projectiles
    }

    /// The enemies on the grid.
    pub fn enemies(&self) -> (r: &Vec<Enemy>)
        ensures
            r@ == self@.enemies,
    {
        &self.enemies
    }

    /// The explosions under way.
    pub fn explosions(&self) -> (r: &Vec<Explosion>)
        ensures
            r@ == self@.explosions,
    {
        &self.explosions
    }

    /// The player.
    pub fn player(&self) -> (r: &Player)
        ensures
            r@ == self@.player,
    {
        &self.player
    }

    /// The score.
    pub fn score(&self) -> (r: &Score)
        ensures
            r@ == self@.score,
    {
        &self.score
    }

    /// The frame-rate counter.
    pub fn fps_counter(&self) -> (r: &FpsCounter)
        ensures
            r@ == self@.fps,
    {
        &self.fps_counter
    }
}

} // verus!
