//! Explosions: spawned where an enemy is shot, they alternate between two
//! frames on their own tick and vanish after six of them.

use vstd::prelude::*;
use crate::rendering::{CssColor, Pso};

verus! {

/// Highest progress at which an explosion is still shown.
pub const LAST_FRAME: u8 = 5;

/// The two frames of the animation, as cells relative to the position.
pub open spec fn frame_spec(i: int) -> Seq<(u32, u32)> {
    if i == 0 {
        seq![(0, 0), (2, 0), (1, 1), (0, 2), (2, 2)]
    } else {
        seq![(1, 0), (0, 1), (2, 1), (1, 2)]
    }
}

/// An explosion: its top-left cell and how far its animation has gone.
#[derive(Clone, Copy, PartialEq, Eq, Structural, Debug)]
pub struct Explosion {
    pub pos_x: u32,
    pub pos_y: u32,
    pub progress: u8,
}

impl Explosion {
    /// The explosion one animation step further.
    pub open spec fn ticked(self) -> Explosion {
        Explosion { progress: (self.progress + 1) as u8, ..self }
    }

    /// Its animation is over.
    pub open spec fn finished(self) -> bool {
        self.progress > LAST_FRAME
    }

    /// The explosion after `n` animation steps.
    pub open spec fn ticked_n(self, n: nat) -> Explosion
        decreases n,
    {
        if n == 0 {
            self
        } else {
            self.ticked_n((n - 1) as nat).ticked()
        }
    }

    /// A new explosion at `(pos_x, pos_y)` with no progress.
    pub fn new(pos_x: u32, pos_y: u32) -> (r: Explosion)
        ensures
            r == (Explosion { pos_x, pos_y, progress: 0 }),
    {
        Explosion { pos_x, pos_y, progress: 0 }
    }

    /// Advance the animation by one step.
    pub fn tick(&mut self)
        requires
            old(self).progress < u8::MAX,
        ensures
            *final(self) == old(self).ticked(),
    {
        self.progress = self.progress + 1;
    }

    /// Whether the animation is over: true exactly when `progress > 5`.
    pub fn needs_removal(&self) -> (r: bool)
        ensures
            r == self.finished(),
    {
        self.progress > LAST_FRAME
    }

    /// The cells of the frame to draw now: one of the two frames, chosen by
    /// `progress % 2`.
    pub fn px_list(&self) -> (r: Vec<(u32, u32)>)
        ensures
            r@ == frame_spec(self.progress as int % 2),
    {
        let r = if self.progress % 2 == 0 {
            vec![(0, 0), (2, 0), (1, 1), (0, 2), (2, 2)]
        } else {
            vec![(1, 0), (0, 1), (2, 1), (1, 2)]
        };
        assert(r@ =~= frame_spec(self.progress as int % 2));
        r
    }

    /// The drawing style of explosions: grey fill.
    pub fn pso() -> (r: Pso)
        ensures
            r.fill_color matches Some(c) && c.red() == 128 && c.green() == 128 && c.blue() == 128,
            r.font is None,
    {
        Pso { fill_color: Some(CssColor::new(128, 128, 128)), font: None }
    }
}

/// A new explosion is removed exactly when its progress goes from 5 to 6:
/// it stays through five ticks and is gone after the sixth.
pub proof fn lemma_explosion_lifetime(e: Explosion, n: nat)
    requires
        e.progress == 0,
        n <= 6,
    ensures
        e.ticked_n(n).progress == n,
        e.ticked_n(n).finished() <==> n == 6,
    decreases n,
{
    if n > 0 {
        lemma_explosion_lifetime(e, (n - 1) as nat);
    }
}

/// Successive frames differ: the frame shown alternates at each step.
pub proof fn lemma_frames_alternate(e: Explosion)
    requires
        e.progress < u8::MAX,
    ensures
        frame_spec(e.ticked().progress as int % 2) != frame_spec(e.progress as int % 2),
{
    let a = frame_spec(0);
    let b = frame_spec(1);
    assert(a.len() != b.len());
}

} // verus!
