use rinvaders::{FpsCounter, Input, Player, Projectile};

fn pad(left: bool, right: bool, shoot: bool) -> Input {
    let mut i = Input::new();
    i.set_gamepad_state(left, right, shoot);
    i
}

#[test]
fn input_resolves_keyboard_queue_on_update() {
    let mut i = Input::new();
    i.keyboard_event(true, "a");
    assert!(!i.left()); // queued, not applied yet
    i.update(0);
    assert!(i.left());
    i.keyboard_event(false, "ArrowLeft");
    i.keyboard_event(true, "d");
    i.keyboard_event(true, " ");
    i.update(1);
    assert!(!i.left());
    assert!(i.right());
    assert!(i.shoot());
    i.keyboard_event(true, "ArrowRight");
    i.keyboard_event(false, "d");
    i.update(2);
    assert!(!i.right()); // the last transition wins
}

#[test]
fn input_ignores_unknown_keys() {
    let mut i = Input::new();
    i.keyboard_event(true, "x");
    i.keyboard_event(true, "A");
    i.keyboard_event(true, "Enter");
    i.keyboard_event(true, "");
    i.update(0);
    assert!(!i.left() && !i.right() && !i.shoot());
}

#[test]
fn input_merges_gamepad_and_keyboard() {
    let mut i = Input::new();
    i.set_gamepad_state(true, false, true);
    assert!(i.left() && !i.right() && i.shoot());
    i.keyboard_event(true, "d");
    i.update(0);
    assert!(i.left() && i.right());
    i.set_gamepad_state(false, false, false);
    assert!(!i.left() && i.right() && !i.shoot());
}

#[test]
fn player_moves_at_once_then_at_timer_rate() {
    let mut p = Player::new();
    let mut shots: Vec<Projectile> = Vec::new();
    let right = pad(false, true, false);
    p.update(0, &right, &mut shots);
    assert_eq!(p.pos(), 1);
    p.update(79, &right, &mut shots);
    assert_eq!(p.pos(), 1);
    p.update(80, &right, &mut shots);
    assert_eq!(p.pos(), 2);
    // fired 170 late: ceil((170 + 80) / 80) = 4 moves
    p.update(330, &right, &mut shots);
    assert_eq!(p.pos(), 6);
    // fired exactly on time: one move
    p.update(410, &right, &mut shots);
    assert_eq!(p.pos(), 7);
    assert!(shots.is_empty());
}

#[test]
fn player_both_directions_do_not_move() {
    let mut p = Player::new();
    let mut shots: Vec<Projectile> = Vec::new();
    let right = pad(false, true, false);
    p.update(0, &right, &mut shots);
    let both = pad(true, true, false);
    p.update(80, &both, &mut shots);
    assert_eq!(p.pos(), 1);
    // movement is still asked for: the timer stays armed, next deadline 160
    p.update(81, &right, &mut shots);
    assert_eq!(p.pos(), 1);
    p.update(160, &right, &mut shots);
    assert_eq!(p.pos(), 2);
}

#[test]
fn player_timer_drops_when_input_released() {
    let mut p = Player::new();
    let mut shots: Vec<Projectile> = Vec::new();
    let right = pad(false, true, false);
    let idle = pad(false, false, false);
    p.update(0, &right, &mut shots);
    p.update(80, &idle, &mut shots);
    assert_eq!(p.pos(), 1);
    // the timer was dropped: the next request moves at once
    p.update(81, &right, &mut shots);
    assert_eq!(p.pos(), 2);
}

#[test]
fn player_keeps_timer_at_edge_while_held() {
    let mut p = Player::new();
    let mut shots: Vec<Projectile> = Vec::new();
    let right = pad(false, true, false);
    let left = pad(true, false, false);
    p.update(0, &right, &mut shots);
    p.update(80, &left, &mut shots);
    assert_eq!(p.pos(), 0);
    // at column 0 with left held the timer fires without a move, and stays
    p.update(160, &left, &mut shots);
    assert_eq!(p.pos(), 0);
    p.update(200, &right, &mut shots);
    assert_eq!(p.pos(), 0);
    p.update(240, &right, &mut shots);
    assert_eq!(p.pos(), 1);
}

#[test]
fn projectile_flies_straight_up() {
    let mut p = Projectile::new(7);
    assert_eq!(p.dir(), (0, -1));
    p.tick();
    assert_eq!((p.pos_x(), p.pos_y(), p.dir()), (7, 55, (0, -1)));
}

#[test]
fn player_stays_within_grid() {
    let mut p = Player::new();
    let mut shots: Vec<Projectile> = Vec::new();
    let left = pad(true, false, false);
    let right = pad(false, true, false);
    p.update(0, &left, &mut shots);
    assert_eq!(p.pos(), 0);
    let mut ts = 0u32;
    for _ in 0..200 {
        p.update(ts, &right, &mut shots);
        assert!(p.pos() <= 77);
        ts += 80;
    }
    assert_eq!(p.pos(), 77);
    // a huge catch-up does not push it past either edge
    p.update(ts + 80 * 500, &right, &mut shots);
    assert_eq!(p.pos(), 77);
    p.update(ts + 80 * 500 + 1, &left, &mut shots);
    p.update(ts + 80 * 2000, &left, &mut shots);
    assert_eq!(p.pos(), 0);
}

#[test]
fn player_shoots_at_timer_rate() {
    let mut p = Player::new();
    let mut shots: Vec<Projectile> = Vec::new();
    let fire = pad(false, false, true);
    p.update(0, &fire, &mut shots);
    assert_eq!(shots.len(), 1);
    assert_eq!((shots[0].pos_x(), shots[0].pos_y()), (1, 56));
    p.update(50, &fire, &mut shots);
    assert_eq!(shots.len(), 1);
    p.update(80, &fire, &mut shots);
    assert_eq!(shots.len(), 2);
    let idle = pad(false, false, false);
    p.update(160, &idle, &mut shots);
    assert_eq!(shots.len(), 2);
    // timer dropped: shooting again fires at once
    p.update(161, &fire, &mut shots);
    assert_eq!(shots.len(), 3);
}

#[test]
fn player_fires_from_its_new_column() {
    let mut p = Player::new();
    let mut shots: Vec<Projectile> = Vec::new();
    let both = pad(false, true, true);
    p.update(0, &both, &mut shots);
    assert_eq!(p.pos(), 1);
    assert_eq!(shots[0].pos_x(), 2);
}

#[test]
fn fps_counter_samples_frame_time_on_refresh() {
    let mut f = FpsCounter::new();
    assert_eq!(f.frame_time(), None);
    f.update(480);
    assert_eq!(f.frame_time(), None);
    f.update(500);
    assert_eq!(f.frame_time(), Some(20));
    f.update(516);
    assert_eq!(f.frame_time(), Some(20));
    f.update(1000);
    assert_eq!(f.frame_time(), Some(484));
}
