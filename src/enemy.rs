//! Enemies: they spawn at the top of the grid, descend one cell per enemy
//! tick, and die when they reach the bottom or are hit by a projectile.

use vstd::prelude::*;
use crate::rendering::{CssColor, Pso};

verus! {

/// Height of the grid in cells.
pub const GRID_HEIGHT: u32 = 60;

/// Width of the grid in cells.
pub const GRID_WIDTH: u32 = 80;

/// The visual kinds of enemy. Each has its own pixels and bounding box.
#[derive(Clone, Copy, PartialEq, Eq, Structural, Debug)]
pub enum EnemyType {
    Star,
    Thin,
    Arrow,
}

impl EnemyType {
    /// The kind at position `i` of the list Star, Thin, Arrow.
    pub open spec fn nth(i: int) -> EnemyType {
        if i == 0 {
            EnemyType::Star
        } else if i == 1 {
            EnemyType::Thin
        } else {
            EnemyType::Arrow
        }
    }

    /// Bounding box (width, height) in cells.
    pub open spec fn bounds_spec(self) -> (u32, u32) {
        match self {
            EnemyType::Star => (3, 3),
            EnemyType::Thin => (1, 2),
            EnemyType::Arrow => (3, 2),
        }
    }

    /// Cells to draw, relative to the enemy's position.
    pub open spec fn px_list_spec(self) -> Seq<(u32, u32)> {
        match self {
            EnemyType::Star => seq![(0, 0), (2, 0), (1, 1), (0, 2), (2, 2)],
            EnemyType::Thin => seq![(0, 0), (0, 1)],
            EnemyType::Arrow => seq![(0, 0), (2, 0), (1, 1)],
        }
    }

    /// The kind that a uniform draw `roll` from `0..3` selects, so that each
    /// kind is equally likely.
    pub fn random(roll: u32) -> (r: EnemyType)
        requires
            roll < 3,
        ensures
            r == EnemyType::nth(roll as int),
    {
        if roll == 0 {
            EnemyType::Star
        } else if roll == 1 {
            EnemyType::Thin
        } else {
            EnemyType::Arrow
        }
    }

    /// Cells to draw, relative to the enemy's position.
    pub fn px_list(&self) -> (r: Vec<(u32, u32)>)
        ensures
            r@ == self.px_list_spec(),
    {
        let r = match self {
            EnemyType::Star => vec![(0, 0), (2, 0), (1, 1), (0, 2), (2, 2)],
            EnemyType::Thin => vec![(0, 0), (0, 1)],
            EnemyType::Arrow => vec![(0, 0), (2, 0), (1, 1)],
        };
        assert(r@ =~= self.px_list_spec());
        r
    }

    /// Number of columns past the first at which this kind may spawn.
    pub open spec fn spawn_span(self) -> int {
        spawn_max_x(self.bounds_spec().0) - spawn_min_x(self.bounds_spec().0)
    }

    /// First and last column at which this kind may spawn: its box stays
    /// within columns `[0, 80)`, with one cell of margin on both edges for a
    /// one-cell-wide kind.
    pub fn spawn_range(&self) -> (r: (u32, u32))
        ensures
            r.0 == spawn_min_x(self.bounds_spec().0),
            r.1 == spawn_max_x(self.bounds_spec().0),
    {
        let w = self.bounds().0;
        let margin: u32 = if w > 1 { 0 } else { 1 };
        (margin, GRID_WIDTH - w - margin)
    }

    /// Bounding box (width, height) in cells.
    pub fn bounds(&self) -> (r: (u32, u32))
        ensures
            r == self.bounds_spec(),
    {
        match self {
            EnemyType::Star => (3, 3),
            EnemyType::Thin => (1, 2),
            EnemyType::Arrow => (3, 2),
        }
    }
}

/// Smallest x at which an enemy of box width `w` may spawn: one cell of
/// margin for a one-cell-wide enemy, none otherwise.
pub open spec fn spawn_min_x(w: u32) -> int {
    if w > 1 { 0 } else { 1 }
}

/// Largest x at which an enemy of box width `w` may spawn, so that its box
/// stays inside the grid (with the same one-cell margin for width one).
pub open spec fn spawn_max_x(w: u32) -> int {
    GRID_WIDTH - w - spawn_min_x(w)
}

/// An enemy: its top-left cell and its kind.
#[derive(Clone, Copy, PartialEq, Eq, Structural, Debug)]
pub struct Enemy {
    pub pos_y: u32,
    pub pos_x: u32,
    pub kind: EnemyType,
}

impl Enemy {
    /// The enemy one cell further down.
    pub open spec fn ticked(self) -> Enemy {
        Enemy { pos_y: (self.pos_y + 1) as u32, ..self }
    }

    /// Its bounding box reaches past the bottom of the grid.
    pub open spec fn breached(self) -> bool {
        self.pos_y + self.kind.bounds_spec().1 > GRID_HEIGHT
    }

    /// The cell `(x, y)` lies in its bounding box.
    pub open spec fn covers(self, x: u32, y: u32) -> bool {
        let (w, h) = self.kind.bounds_spec();
        self.pos_x <= x < self.pos_x + w && self.pos_y <= y < self.pos_y + h
    }

    /// The enemy that `new_random(kind_roll, x_roll)` creates.
    pub open spec fn spawn_spec(kind_roll: u32, x_roll: u32) -> Enemy {
        let kind = EnemyType::nth(kind_roll as int);
        let w = kind.bounds_spec().0;
        Enemy {
            pos_y: 0,
            pos_x: (spawn_min_x(w) + x_roll) as u32,
            kind,
        }
    }

    /// A new enemy at the top row, column `pos_x`, of the kind that `kind_roll`
    /// (uniform over `0..3`) selects.
    pub fn new(pos_x: u32, kind_roll: u32) -> (r: Enemy)
        requires
            kind_roll < 3,
        ensures
            r == (Enemy { pos_y: 0, pos_x, kind: EnemyType::nth(kind_roll as int) }),
    {
        Enemy { pos_y: 0, pos_x, kind: EnemyType::random(kind_roll) }
    }

    /// A new enemy at the top row, of the kind that `kind_roll` selects, in
    /// the `x_roll`-th column of those where that kind may spawn. With
    /// `x_roll` a uniform draw from `0..=spawn_span`, every valid column is
    /// equally likely.
    pub fn new_random(kind_roll: u32, x_roll: u32) -> (r: Enemy)
        requires
            kind_roll < 3,
            x_roll <= EnemyType::nth(kind_roll as int).spawn_span(),
        ensures
            r == Enemy::spawn_spec(kind_roll, x_roll),
            r.pos_y == 0,
            r.kind == EnemyType::nth(kind_roll as int),
            r.pos_x == spawn_min_x(r.kind.bounds_spec().0) + x_roll,
            spawn_min_x(r.kind.bounds_spec().0) <= r.pos_x <= spawn_max_x(r.kind.bounds_spec().0),
    {
        let kind = EnemyType::random(kind_roll);
        let (min_x, _max_x) = kind.spawn_range();
        Enemy { pos_y: 0, pos_x: min_x + x_roll, kind }
    }

    /// Move one cell down.
    pub fn tick(&mut self)
        requires
            old(self).pos_y < u32::MAX,
        ensures
            *final(self) == old(self).ticked(),
            final(self).pos_y == old(self).pos_y + 1,
            final(self).pos_x == old(self).pos_x,
            final(self).kind == old(self).kind,
    {
        self.pos_y = self.pos_y + 1;
    }

    /// Whether the enemy has reached the bottom of the grid and must go:
    /// true exactly when `pos_y + height > 60`.
    pub fn needs_removal(&self) -> (r: bool)
        ensures
            r == self.breached(),
    {
        (self.pos_y as u64) + (self.kind.bounds().1 as u64) > GRID_HEIGHT as u64
    }

    /// Whether the cell `(x, y)` lies in the enemy's bounding box (a box test,
    /// not a test against the drawn pixels).
    pub fn intersects_with(&self, x: u32, y: u32) -> (r: bool)
        ensures
            r == self.covers(x, y),
    {
        let (w, h) = self.kind.bounds();
        x >= self.pos_x && (x as u64) < (self.pos_x as u64) + (w as u64) && y >= self.pos_y
            && (y as u64) < (self.pos_y as u64) + (h as u64)
    }

    /// The drawing style of enemies: black fill.
    pub fn pso() -> (r: Pso)
        ensures
            r.fill_color matches Some(c) && c.red() == 0 && c.green() == 0 && c.blue() == 0,
            r.font is None,
    {
        Pso { fill_color: Some(CssColor::new(0, 0, 0)), font: None }
    }
}

/// An enemy with box height `h` is removed at `pos_y == 60 - h + 1` and kept
/// at `pos_y == 60 - h`.
pub proof fn lemma_removal_threshold(e: Enemy)
    ensures
        e.pos_y == GRID_HEIGHT - e.kind.bounds_spec().1 + 1 ==> e.breached(),
        e.pos_y == GRID_HEIGHT - e.kind.bounds_spec().1 ==> !e.breached(),
{
}

} // verus!
