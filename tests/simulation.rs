use rinvaders::simulation::{
    advance_enemies, advance_explosions, remove_escaped_projectiles, resolve_collisions,
    tick_projectiles,
};
use rinvaders::{CssColor, CssFont, Enemy, Explosion, Game, Input, Player, Projectile, Score};

/// A projectile at column `x`, ticked up to row `y` (at most 56).
fn projectile_at(x: u32, y: u32) -> Projectile {
    let mut p = Projectile::new(x);
    while p.pos_y() > y {
        p.tick();
    }
    p
}

fn new_score() -> Score {
    Score::new(
        CssColor::new(0, 50, 200),
        CssColor::new(200, 50, 0),
        CssFont::monospace(20),
        "Score".to_string(),
    )
}

#[test]
fn escaped_projectiles_cost_a_point_each() {
    let mut score = new_score();
    let a = projectile_at(3, 0);
    let b = Projectile::new(4);
    let c = projectile_at(5, 0);
    let mut ps = vec![a, b, c];
    remove_escaped_projectiles(&mut ps, &mut score);
    assert_eq!(ps.len(), 1);
    assert_eq!(ps[0].pos_x(), 4);
    assert_eq!(score.value(), -2);
    assert_eq!(score.label().as_str(), "Score: -2");
    tick_projectiles(&mut ps);
    assert_eq!(ps[0].pos_y(), 55);
}

#[test]
fn breaching_enemies_cost_ten_points_each() {
    let mut score = new_score();
    let mut low = Enemy::new(0, 0); // Star, height 3
    low.pos_y = 57;
    let mut thin = Enemy::new(10, 1); // Thin, height 2
    thin.pos_y = 57;
    let mut es = vec![low, thin, Enemy::new(20, 2)];
    advance_enemies(&mut es, &mut score);
    assert_eq!(es.len(), 2);
    assert_eq!((es[0].pos_x, es[0].pos_y), (10, 58));
    assert_eq!((es[1].pos_x, es[1].pos_y), (20, 1));
    assert_eq!(score.value(), -10);
}

#[test]
fn finished_explosions_are_purged() {
    let mut old = Explosion::new(1, 1);
    for _ in 0..5 {
        old.tick();
    }
    let mut xs = vec![old, Explosion::new(2, 2)];
    advance_explosions(&mut xs);
    assert_eq!(xs.len(), 1);
    assert_eq!((xs[0].pos_x, xs[0].progress), (2, 1));
}

#[test]
fn one_enemy_per_projectile_per_step() {
    let mut score = new_score();
    // two enemies overlap the projectile's cell; only the first goes
    let mut ps = vec![projectile_at(41, 1)];
    let mut es = vec![Enemy::new(40, 0), Enemy::new(39, 0)];
    let mut xs: Vec<Explosion> = Vec::new();
    resolve_collisions(&mut ps, &mut es, &mut xs, &mut score);
    assert!(ps.is_empty());
    assert_eq!(es.len(), 1);
    assert_eq!(es[0].pos_x, 39);
    assert_eq!(xs.len(), 1);
    assert_eq!(score.value(), 5);
}

#[test]
fn removed_enemy_cannot_be_hit_twice() {
    let mut score = new_score();
    let p = projectile_at(40, 1);
    let mut ps = vec![p, p, Projectile::new(70)];
    let mut es = vec![Enemy::new(40, 1)]; // Thin at (40, 0)
    let mut xs: Vec<Explosion> = Vec::new();
    resolve_collisions(&mut ps, &mut es, &mut xs, &mut score);
    assert_eq!(es.len(), 0);
    assert_eq!(ps.len(), 2);
    assert_eq!((ps[0].pos_x(), ps[0].pos_y()), (40, 1));
    assert_eq!(ps[1].pos_x(), 70);
    assert_eq!(xs.len(), 1);
    assert_eq!(score.value(), 5);
}

#[test]
fn explosion_is_clamped_to_grid() {
    let mut score = new_score();
    let mut ps = vec![projectile_at(0, 0)];
    let mut es = vec![Enemy::new(0, 0)];
    let mut xs: Vec<Explosion> = Vec::new();
    resolve_collisions(&mut ps, &mut es, &mut xs, &mut score);
    assert_eq!((xs[0].pos_x, xs[0].pos_y, xs[0].progress), (0, 0, 0));
}

#[test]
fn projectile_from_player_hits_enemy_at_top() {
    // player at column 39
    let mut player = Player::new();
    let mut input = Input::new();
    let mut ps: Vec<Projectile> = Vec::new();
    input.set_gamepad_state(false, true, false);
    player.update(0, &input, &mut ps);
    // fired 80 * 37 late: ceil((80 * 37 + 80) / 80) = 38 moves
    player.update(80 * 38, &input, &mut ps);
    assert_eq!(player.pos(), 39);
    input.set_gamepad_state(false, false, true);
    player.update(80 * 38 + 1, &input, &mut ps);
    assert_eq!(ps.len(), 1);
    assert_eq!((ps[0].pos_x(), ps[0].pos_y()), (40, 56));

    let mut es = vec![Enemy::new(40, 0)];
    assert_eq!(es[0].kind.bounds(), (3, 3));
    let mut xs: Vec<Explosion> = Vec::new();
    let mut score = new_score();
    let mut ticks = 0;
    while !ps.is_empty() {
        remove_escaped_projectiles(&mut ps, &mut score);
        tick_projectiles(&mut ps);
        resolve_collisions(&mut ps, &mut es, &mut xs, &mut score);
        ticks += 1;
        assert!(ticks <= 56);
    }
    assert_eq!(ticks, 54); // hit on entering row 2
    assert!(es.is_empty());
    assert_eq!(score.value(), 5);
    assert_eq!(xs.len(), 1);
    assert_eq!((xs[0].pos_x, xs[0].pos_y, xs[0].progress), (39, 1, 0));
}

fn run(game: &mut Game, ts: u32, kind_roll: u32, x_roll: u32) -> u32 {
    let n = game.update(ts);
    let draws = vec![(kind_roll, x_roll); n as usize];
    assert_eq!(game.run_steps(&draws), n as usize);
    n
}

#[test]
fn run_steps_stops_at_a_draw_out_of_range() {
    let mut g = Game::new();
    assert!(g.can_step(0, 77));
    assert!(!g.can_step(3, 0));
    assert!(!g.can_step(1, 78));
    let n = g.update(40);
    assert_eq!(n, 4);
    let draws = vec![(0, 1), (2, 5), (1, 78), (0, 0)];
    assert_eq!(g.run_steps(&draws), 2);
    // the game tick counts steps already taken
    for _ in 0..198 {
        g.step(0, 0);
    }
    assert!(g.enemies().is_empty());
    g.step(1, 77);
    assert_eq!(g.enemies().len(), 1);
    assert_eq!(g.enemies()[0].pos_x, 78);
}

#[test]
fn game_runs_steps_at_tick_rate_with_catch_up() {
    let mut g = Game::new();
    assert_eq!(g.update(5), 0);
    assert_eq!(g.update(10), 1);
    assert_eq!(g.update(19), 0);
    assert_eq!(g.update(20), 1);
    // 35 late: ceil((35 + 10) / 10) = 5 steps
    assert_eq!(g.update(65), 5);
    assert_eq!(g.update(74), 0);
    // 1 late: ceil(11 / 10) = 2 steps
    assert_eq!(g.update(76), 2);
    assert_eq!(g.score().label().as_str(), "Score: 0");
}

#[test]
fn game_spawns_an_enemy_every_201_steps() {
    let mut g = Game::new();
    let mut ts = 0u32;
    for _ in 0..200 {
        ts += 10;
        assert_eq!(run(&mut g, ts, 0, 40), 1);
    }
    assert!(g.enemies().is_empty());
    ts += 10;
    run(&mut g, ts, 0, 40);
    assert_eq!(g.enemies().len(), 1);
    let e = g.enemies()[0];
    assert_eq!((e.pos_x, e.pos_y), (40, 0));
    // it moves one row every eleven steps
    for _ in 0..11 {
        ts += 10;
        run(&mut g, ts, 0, 40);
    }
    assert_eq!(g.enemies()[0].pos_y, 1);
}

#[test]
fn game_end_to_end_hit() {
    let mut g = Game::new();
    // walk the player to column 39
    g.set_gamepad_state(false, true, false);
    let mut ts = 0u32;
    run(&mut g, ts, 0, 40);
    while g.player().pos() < 39 {
        ts += 10;
        run(&mut g, ts, 0, 40);
    }
    g.set_gamepad_state(false, false, false);
    // wait for the first enemy: a Star at column 40
    while g.enemies().is_empty() {
        ts += 10;
        run(&mut g, ts, 0, 40);
    }
    assert_eq!(g.player().pos(), 39);
    // the walk took longer than the first spawn: the enemy has come down
    let e = g.enemies()[0];
    assert_eq!(e.pos_x, 40);
    assert!(e.pos_y < 20);
    g.keyboard_event(true, " ");
    ts += 10;
    run(&mut g, ts, 0, 40);
    g.keyboard_event(false, " ");
    assert_eq!(g.projectiles().len(), 1);
    assert_eq!(g.projectiles()[0].pos_x(), 40);
    let before = g.score().value();
    while !g.projectiles().is_empty() {
        ts += 10;
        run(&mut g, ts, 0, 40);
    }
    assert_eq!(g.score().value(), before + 5);
    assert!(g.enemies().is_empty());
    assert_eq!(g.explosions().len(), 1);
    assert_eq!(g.explosions()[0].pos_x, 39);
}
