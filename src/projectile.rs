//! Projectiles: fired by the player from row 56, they fly straight up and
//! vanish on reaching the top row or on hitting an enemy.

use vstd::prelude::*;
use crate::rendering::{CssColor, Pso};
use crate::utils::{cap, cap_spec};

verus! {

/// Row at which projectiles are spawned.
pub const SPAWN_ROW: u32 = 56;

/// What a projectile holds: its cell.
pub struct ProjectileView {
    pub pos_x: u32,
    pub pos_y: u32,
}

impl ProjectileView {
    /// Moved one row up (the direction of every projectile), each axis
    /// bounded to the grid (`[0, 79]` and `[0, 59]`).
    pub open spec fn ticked(self) -> ProjectileView {
        ProjectileView {
            pos_x: cap_spec(self.pos_x as int, 0, 79) as u32,
            pos_y: cap_spec(self.pos_y - 1, 0, 59) as u32,
        }
    }
}

/// A projectile: its cell and its direction of travel, which is always
/// straight up, `(0, -1)`.
#[derive(Clone, Copy, Debug)]
pub struct Projectile {
    pos_x: u32,
    pos_y: u32,
    dir: (i32, i32),
}

impl View for Projectile {
    type V = ProjectileView;

    closed spec fn view(&self) -> ProjectileView {
        ProjectileView { pos_x: self.pos_x, pos_y: self.pos_y }
    }
}

impl Projectile {
    /// Every projectile flies straight up.
    #[verifier::type_invariant]
    spec fn straight_up(self) -> bool {
        self.dir == (0i32, -1i32)
    }

    /// The projectile that `new(x)` creates.
    pub closed spec fn spawned(x: u32) -> Projectile {
        Projectile { pos_x: x, pos_y: SPAWN_ROW, dir: (0i32, -1i32) }
    }

    /// The projectile that `tick` leaves.
    pub closed spec fn ticked(self) -> Projectile {
        Projectile {
            pos_x: cap_spec(self.pos_x as int, 0, 79) as u32,
            pos_y: cap_spec(self.pos_y - 1, 0, 59) as u32,
            dir: self.dir,
        }
    }

    /// The projectile after `n` ticks.
    pub open spec fn ticked_n(self, n: nat) -> Projectile
        decreases n,
    {
        if n == 0 {
            self
        } else {
            self.ticked_n((n - 1) as nat).ticked()
        }
    }

    /// A projectile at column `x`, row 56, flying straight up.
    pub fn new(x: u32) -> (r: Projectile)
        ensures
            r == Projectile::spawned(x),
            r@ == (ProjectileView { pos_x: x, pos_y: SPAWN_ROW }),
    {
        Projectile { pos_x: x, pos_y: SPAWN_ROW, dir: (0i32, -1i32) }
    }

    /// Its column.
    pub fn pos_x(&self) -> (r: u32)
        ensures
            r == self@.pos_x,
    {
        self.pos_x
    }

    /// Its row.
    pub fn pos_y(&self) -> (r: u32)
        ensures
            r == self@.pos_y,
    {
        self.pos_y
    }

    /// Its direction of travel: always straight up.
    pub fn dir(&self) -> (r: (i32, i32))
        ensures
            r == (0i32, -1i32),
    {
        proof {
            use_type_invariant(self);
        }
        self.dir
    }

    /// Move one step along the direction (one row up), staying on the grid.
    pub fn tick(&mut self)
        ensures
            *final(self) == old(self).ticked(),
            final(self)@ == old(self)@.ticked(),
            old(self)@.pos_x <= 79 ==> final(self)@.pos_x == old(self)@.pos_x,
            old(self)@.pos_y <= 59 ==> final(self)@.pos_y == (if old(self)@.pos_y == 0 {
                0
            } else {
                old(self)@.pos_y - 1
            }),
    {
        proof {
            use_type_invariant(&*self);
        }
        let dir = self.dir;
        let x = cap(self.pos_x as i64 + dir.0 as i64, 0, 79) as u32;
        let y = cap(self.pos_y as i64 + dir.1 as i64, 0, 59) as u32;
        *self = Projectile { pos_x: x, pos_y: y, dir };
    }

    /// Whether it has reached the top row and must go.
    pub fn needs_removal(&self) -> (r: bool)
        ensures
            r == (self@.pos_y == 0),
    {
        self.pos_y == 0
    }

    /// The drawing style of projectiles: red fill.
    pub fn pso() -> (r: Pso)
        ensures
            r.fill_color matches Some(c) && c.red() == 255 && c.green() == 0 && c.blue() == 0,
            r.font is None,
    {
        Pso { fill_color: Some(CssColor::new(255, 0, 0)), font: None }
    }
}

/// What `ticked` does, seen through the view.
pub proof fn lemma_ticked_view(p: Projectile)
    ensures
        p.ticked()@ == p@.ticked(),
{
}

/// A spawned projectile moves up one row per tick and flies straight up.
pub proof fn lemma_spawned_ticks_up(x: u32, n: nat)
    requires
        n <= SPAWN_ROW,
    ensures
        Projectile::spawned(x).ticked_n(n)@.pos_y == SPAWN_ROW - n,
        x <= 79 ==> Projectile::spawned(x).ticked_n(n)@.pos_x == x,
    decreases n,
{
    if n > 0 {
        lemma_spawned_ticks_up(x, (n - 1) as nat);
    }
}

/// A projectile spawned at any column has `pos_y == 56`; after 56 ticks it
/// is in row 0 and must be removed.
pub proof fn lemma_projectile_reaches_top(x: u32)
    ensures
        Projectile::spawned(x)@.pos_y == 56,
        Projectile::spawned(x).ticked_n(56)@.pos_y == 0,
{
    lemma_spawned_ticks_up(x, 56);
}

} // verus!
