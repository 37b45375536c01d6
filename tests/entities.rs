use rinvaders::enemy::EnemyType;
use rinvaders::{cap, Enemy, Explosion, Projectile, Score, Timer};
use rinvaders::{CssColor, CssFont};

#[test]
fn cap_bounds_values() {
    assert_eq!(cap(-3, 0, 79), 0);
    assert_eq!(cap(80, 0, 79), 79);
    assert_eq!(cap(42, 0, 79), 42);
    assert_eq!(cap(0, 0, 79), 0);
    assert_eq!(cap(79, 0, 79), 79);
}

#[test]
fn timer_once_fires_at_deadline_with_zero_deviation() {
    let mut t = Timer::once(100);
    assert_eq!(t.check(99), None);
    assert_eq!(t.check(0), None);
    assert_eq!(t.check(100), Some(0));
    // a one-shot timer fires at most once
    assert_eq!(t.check(130), None);
    assert_eq!(t.check(100), None);
}

#[test]
fn timer_once_fired_late_reports_deviation_once() {
    let mut t = Timer::once(50);
    assert_eq!(t.check(75), Some(25));
    assert_eq!(t.check(u32::MAX), None);
}

#[test]
fn timer_checked_early_near_end_of_range() {
    let mut t = Timer::interval(u32::MAX - 100, 80);
    assert_eq!(t.check(u32::MAX - 30), None);
}

#[test]
fn timer_interval_rearms_from_firing_time() {
    let mut t = Timer::interval(0, 10);
    assert_eq!(t.check(9), None);
    assert_eq!(t.check(10), Some(0));
    assert_eq!(t.check(19), None);
    // fired late at 27: deviation 7, next deadline 37 (not 30)
    assert_eq!(t.check(27), Some(7));
    assert_eq!(t.check(36), None);
    assert_eq!(t.check(37), Some(0));
}

#[test]
fn enemy_tick_moves_down_one_row() {
    for roll in 0..3u32 {
        let mut e = Enemy::new(17, roll);
        for k in 1..20u32 {
            e.tick();
            assert_eq!(e.pos_y, k);
            assert_eq!(e.pos_x, 17);
        }
    }
}

#[test]
fn enemy_removal_threshold_per_kind() {
    for roll in 0..3u32 {
        let mut e = Enemy::new(5, roll);
        let h = e.kind.bounds().1;
        e.pos_y = 60 - h + 1;
        assert!(e.needs_removal());
        e.pos_y = 60 - h;
        assert!(!e.needs_removal());
    }
}

#[test]
fn enemy_kinds_and_boxes() {
    assert_eq!(EnemyType::random(0), EnemyType::Star);
    assert_eq!(EnemyType::random(1), EnemyType::Thin);
    assert_eq!(EnemyType::random(2), EnemyType::Arrow);
    assert_eq!(EnemyType::Star.bounds(), (3, 3));
    assert_eq!(EnemyType::Thin.bounds(), (1, 2));
    assert_eq!(EnemyType::Arrow.bounds(), (3, 2));
    assert_eq!(EnemyType::Thin.px_list(), vec![(0, 0), (0, 1)]);
    assert_eq!(EnemyType::Arrow.px_list(), vec![(0, 0), (2, 0), (1, 1)]);
    assert_eq!(EnemyType::Star.px_list().len(), 5);
}

#[test]
fn enemy_intersection_is_a_box_test() {
    let e = Enemy::new(10, 0); // Star, 3x3 at (10, 0)
    assert!(e.intersects_with(10, 0));
    assert!(e.intersects_with(12, 2));
    assert!(e.intersects_with(11, 0)); // an empty cell of the sprite still hits
    assert!(!e.intersects_with(13, 0));
    assert!(!e.intersects_with(9, 0));
    assert!(!e.intersects_with(10, 3));
}

#[test]
fn enemy_spawn_column_respects_margins() {
    // Star, width 3: columns 0..=77
    assert_eq!(EnemyType::Star.spawn_range(), (0, 77));
    assert_eq!(Enemy::new_random(0, 0).pos_x, 0);
    assert_eq!(Enemy::new_random(0, 77).pos_x, 77);
    assert_eq!(Enemy::new_random(0, 40).pos_x, 40);
    // Thin, width 1: one cell of margin on both edges, columns 1..=78
    assert_eq!(EnemyType::Thin.spawn_range(), (1, 78));
    assert_eq!(Enemy::new_random(1, 0).pos_x, 1);
    assert_eq!(Enemy::new_random(1, 77).pos_x, 78);
    assert_eq!(Enemy::new_random(1, 40).pos_x, 41);
    // Arrow, width 3
    assert_eq!(EnemyType::Arrow.spawn_range(), (0, 77));
    assert_eq!(Enemy::new_random(2, 77).pos_x, 77);
    let e = Enemy::new_random(2, 3);
    assert_eq!((e.pos_x, e.pos_y, e.kind), (3, 0, EnemyType::Arrow));
}

#[test]
fn projectile_reaches_top_after_56_ticks() {
    let mut p = Projectile::new(40);
    assert_eq!(p.pos_y(), 56);
    assert!(!p.needs_removal());
    for k in 1..=56u32 {
        p.tick();
        assert_eq!(p.pos_y(), 56 - k);
        assert_eq!(p.pos_x(), 40);
        assert_eq!(p.needs_removal(), k == 56);
    }
    // clamped at the top
    p.tick();
    assert_eq!(p.pos_y(), 0);
}

#[test]
fn projectile_column_is_clamped_to_grid() {
    let mut p = Projectile::new(200);
    p.tick();
    assert_eq!(p.pos_x(), 79);
    assert_eq!(p.pos_y(), 55);
}

#[test]
fn explosion_removed_after_sixth_tick() {
    let mut x = Explosion::new(3, 4);
    assert_eq!(x.progress, 0);
    for k in 1..=6u8 {
        assert!(!x.needs_removal());
        x.tick();
        assert_eq!(x.progress, k);
    }
    assert!(x.needs_removal());
}

#[test]
fn explosion_frames_alternate_by_parity() {
    let a = vec![(0, 0), (2, 0), (1, 1), (0, 2), (2, 2)];
    let b = vec![(1, 0), (0, 1), (2, 1), (1, 2)];
    let mut x = Explosion::new(0, 0);
    for k in 0..6u8 {
        let expected = if k % 2 == 0 { &a } else { &b };
        assert_eq!(&x.px_list(), expected);
        x.tick();
    }
}

fn new_score() -> Score {
    Score::new(
        CssColor::new(0, 50, 200),
        CssColor::new(200, 50, 0),
        CssFont::monospace(20),
        "Score".to_string(),
    )
}

#[test]
fn score_sequence_gives_minus_six() {
    let mut s = new_score();
    assert_eq!(s.label().as_str(), "Score: 0");
    s.add(5);
    assert_eq!(s.label().as_str(), "Score: 5");
    s.add(-10);
    s.add(-1);
    assert_eq!(s.value(), -6);
    assert_eq!(s.label().as_str(), "Score: -6");
}

#[test]
fn score_style_turns_bad_below_zero() {
    let mut s = new_score();
    assert_eq!(s.current_pso().fill_color.unwrap().rgb(), (0, 50, 200));
    s.add(-1);
    assert_eq!(s.current_pso().fill_color.unwrap().rgb(), (200, 50, 0));
    s.add(1);
    assert_eq!(s.current_pso().fill_color.unwrap().rgb(), (0, 50, 200));
}

#[test]
fn score_label_of_large_values() {
    let mut s = new_score();
    s.add(i32::MAX);
    s.add(i32::MAX);
    assert_eq!(s.value(), 2 * i32::MAX as i64);
    assert_eq!(s.label().as_str(), "Score: 4294967294");
    let mut t = new_score();
    t.add(i32::MIN);
    assert_eq!(t.label().as_str(), "Score: -2147483648");
    t.add(2147483600);
    assert_eq!(t.label().as_str(), "Score: -48");
}

#[test]
fn font_and_colors() {
    let f = CssFont::monospace(20);
    assert_eq!(f.size(), 20);
    assert_eq!(f.family(), "Courier New");
    assert_eq!(CssColor::new(1, 2, 3).rgb(), (1, 2, 3));
    assert_eq!(Enemy::pso().fill_color.unwrap().rgb(), (0, 0, 0));
    assert_eq!(Projectile::pso().fill_color.unwrap().rgb(), (255, 0, 0));
    assert_eq!(Explosion::pso().fill_color.unwrap().rgb(), (128, 128, 128));
}
