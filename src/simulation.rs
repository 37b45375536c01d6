//! The phases of one simulation step, each on the collections it touches,
//! and what each of them computes.

use vstd::prelude::*;
use crate::enemy::Enemy;
use crate::explosion::Explosion;
use crate::projectile::Projectile;
use crate::score::Score;
use crate::utils::{cap, cap_spec};

verus! {

/// Points lost for each projectile that leaves the grid at the top.
pub const MISS_POINTS: i32 = -1;

/// Points lost for each enemy that reaches the bottom.
pub const BREACH_POINTS: i32 = -10;

/// Points won for each enemy shot.
pub const HIT_POINTS: i32 = 5;

/// The projectiles not in the top row, in their order.
pub open spec fn in_flight(ps: Seq<Projectile>) -> Seq<Projectile>
    decreases ps.len(),
{
    if ps.len() == 0 {
        Seq::empty()
    } else if ps.last()@.pos_y == 0 {
        in_flight(ps.drop_last())
    } else {
        in_flight(ps.drop_last()).push(ps.last())
    }
}

/// How many projectiles are in the top row.
pub open spec fn misses(ps: Seq<Projectile>) -> nat
    decreases ps.len(),
{
    if ps.len() == 0 {
        0
    } else {
        misses(ps.drop_last()) + if ps.last()@.pos_y == 0 {
            1nat
        } else {
            0nat
        }
    }
}

/// Each projectile moved one step.
pub open spec fn ticked_all(ps: Seq<Projectile>) -> Seq<Projectile>
    decreases ps.len(),
{
    if ps.len() == 0 {
        Seq::empty()
    } else {
        ticked_all(ps.drop_last()).push(ps.last().ticked())
    }
}

/// Each enemy moved one row down, keeping those that have not reached the
/// bottom, in their order.
pub open spec fn advanced(es: Seq<Enemy>) -> Seq<Enemy>
    decreases es.len(),
{
    if es.len() == 0 {
        Seq::empty()
    } else if es.last().ticked().breached() {
        advanced(es.drop_last())
    } else {
        advanced(es.drop_last()).push(es.last().ticked())
    }
}

/// How many enemies reach the bottom when they move one row down.
pub open spec fn breaches(es: Seq<Enemy>) -> nat
    decreases es.len(),
{
    if es.len() == 0 {
        0
    } else {
        breaches(es.drop_last()) + if es.last().ticked().breached() {
            1nat
        } else {
            0nat
        }
    }
}

/// Each explosion advanced one step, keeping those not finished, in their
/// order.
pub open spec fn animated(xs: Seq<Explosion>) -> Seq<Explosion>
    decreases xs.len(),
{
    if xs.len() == 0 {
        Seq::empty()
    } else if xs.last().ticked().finished() {
        animated(xs.drop_last())
    } else {
        animated(xs.drop_last()).push(xs.last().ticked())
    }
}

/// Index of the first enemy whose box holds `(x, y)`; `es.len()` if none.
pub open spec fn first_hit(es: Seq<Enemy>, x: u32, y: u32) -> nat
    decreases es.len(),
{
    if es.len() == 0 {
        0
    } else if es[0].covers(x, y) {
        0
    } else {
        1 + first_hit(es.drop_first(), x, y)
    }
}

/// The explosion left by a projectile that hits: one cell up and left of
/// it, bounded to the grid.
pub open spec fn blast_at(p: Projectile) -> Explosion {
    Explosion {
        pos_x: cap_spec(p@.pos_x - 1, 0, 79) as u32,
        pos_y: cap_spec(p@.pos_y - 1, 0, 59) as u32,
        progress: 0,
    }
}

/// State of a collision pass: the projectiles kept so far, the enemies
/// left, the explosions, and the number of hits.
pub struct Collisions {
    pub kept: Seq<Projectile>,
    pub enemies: Seq<Enemy>,
    pub explosions: Seq<Explosion>,
    pub hits: nat,
}

/// One projectile of the pass: if an enemy left holds it, the first such
/// enemy and the projectile go, an explosion appears and a hit is counted;
/// else the projectile is kept.
pub open spec fn collide_one(c: Collisions, p: Projectile) -> Collisions {
    let i = first_hit(c.enemies, p@.pos_x, p@.pos_y);
    if i < c.enemies.len() {
        Collisions {
            kept: c.kept,
            enemies: c.enemies.remove(i as int),
            explosions: c.explosions.push(blast_at(p)),
            hits: c.hits + 1,
        }
    } else {
        Collisions { kept: c.kept.push(p), ..c }
    }
}

/// The collision pass over projectiles `ps` in order, against enemies `es`,
/// with explosions `xs` already present.
pub open spec fn collide(ps: Seq<Projectile>, es: Seq<Enemy>, xs: Seq<Explosion>) -> Collisions
    decreases ps.len(),
{
    if ps.len() == 0 {
        Collisions { kept: Seq::empty(), enemies: es, explosions: xs, hits: 0 }
    } else {
        collide_one(collide(ps.drop_last(), es, xs), ps.last())
    }
}

proof fn lemma_in_flight_len(ps: Seq<Projectile>)
    ensures
        in_flight(ps).len() + misses(ps) == ps.len(),
    decreases ps.len(),
{
    if ps.len() > 0 {
        lemma_in_flight_len(ps.drop_last());
    }
}

proof fn lemma_advanced_len(es: Seq<Enemy>)
    ensures
        advanced(es).len() + breaches(es) == es.len(),
    decreases es.len(),
{
    if es.len() > 0 {
        lemma_advanced_len(es.drop_last());
    }
}

proof fn lemma_first_hit(es: Seq<Enemy>, x: u32, y: u32, j: int)
    requires
        0 <= j <= es.len(),
        forall|k: int| 0 <= k < j ==> !es[k].covers(x, y),
        j == es.len() || es[j].covers(x, y),
    ensures
        first_hit(es, x, y) == j,
    decreases j,
{
    if j > 0 {
        let t = es.drop_first();
        assert forall|k: int| 0 <= k < j - 1 implies !t[k].covers(x, y) by {
            assert(t[k] == es[k + 1]);
        }
        lemma_first_hit(t, x, y, j - 1);
    }
}

/// Moving the projectiles keeps their number.
pub proof fn lemma_ticked_all_len(ps: Seq<Projectile>)
    ensures
        ticked_all(ps).len() == ps.len(),
    decreases ps.len(),
{
    if ps.len() > 0 {
        lemma_ticked_all_len(ps.drop_last());
    }
}

/// Misses are counted among the projectiles.
pub proof fn lemma_misses_bounded(ps: Seq<Projectile>)
    ensures
        misses(ps) <= ps.len(),
        in_flight(ps).len() + misses(ps) == ps.len(),
{
    lemma_in_flight_len(ps);
}

/// Breaches are counted among the enemies, and no enemy left after moving
/// has reached the bottom.
pub proof fn lemma_advanced_on_grid(es: Seq<Enemy>)
    ensures
        breaches(es) <= es.len(),
        forall|k: int| 0 <= k < advanced(es).len() ==> !(#[trigger] advanced(es)[k]).breached(),
    decreases es.len(),
{
    lemma_advanced_len(es);
    if es.len() > 0 {
        lemma_advanced_on_grid(es.drop_last());
        let r = advanced(es.drop_last());
        assert forall|k: int| 0 <= k < advanced(es).len() implies !(#[trigger] advanced(
            es,
        )[k]).breached() by {
            if k < r.len() {
                assert(advanced(es)[k] == r[k]);
            }
        }
    }
}

/// No explosion left after advancing is finished.
pub proof fn lemma_animated_live(xs: Seq<Explosion>)
    ensures
        forall|k: int| 0 <= k < animated(xs).len() ==> !(#[trigger] animated(xs)[k]).finished(),
    decreases xs.len(),
{
    if xs.len() > 0 {
        lemma_animated_live(xs.drop_last());
        let r = animated(xs.drop_last());
        assert forall|k: int| 0 <= k < animated(xs).len() implies !(#[trigger] animated(
            xs,
        )[k]).finished() by {
            if k < r.len() {
                assert(animated(xs)[k] == r[k]);
            }
        }
    }
}

/// A collision pass only removes enemies and only adds fresh explosions: if
/// no enemy had reached the bottom and no explosion was finished, that
/// still holds afterwards. It wins at most one hit per projectile.
pub proof fn lemma_collide_keeps(ps: Seq<Projectile>, es: Seq<Enemy>, xs: Seq<Explosion>)
    requires
        forall|k: int| 0 <= k < es.len() ==> !(#[trigger] es[k]).breached(),
        forall|k: int| 0 <= k < xs.len() ==> !(#[trigger] xs[k]).finished(),
    ensures
        forall|k: int|
            0 <= k < collide(ps, es, xs).enemies.len() ==> !(#[trigger] collide(
                ps,
                es,
                xs,
            ).enemies[k]).breached(),
        forall|k: int|
            0 <= k < collide(ps, es, xs).explosions.len() ==> !(#[trigger] collide(
                ps,
                es,
                xs,
            ).explosions[k]).finished(),
        collide(ps, es, xs).hits <= ps.len(),
    decreases ps.len(),
{
    lemma_collision_counts(ps, es, xs);
    if ps.len() > 0 {
        let c = collide(ps.drop_last(), es, xs);
        lemma_collide_keeps(ps.drop_last(), es, xs);
        let p = ps.last();
        let i = first_hit(c.enemies, p@.pos_x, p@.pos_y);
        if i < c.enemies.len() {
            let r = c.enemies.remove(i as int);
            assert forall|k: int| 0 <= k < r.len() implies !(#[trigger] r[k]).breached() by {
                if k < i {
                    assert(r[k] == c.enemies[k]);
                } else {
                    assert(r[k] == c.enemies[k + 1]);
                }
            }
            let x2 = c.explosions.push(blast_at(p));
            assert forall|k: int| 0 <= k < x2.len() implies !(#[trigger] x2[k]).finished() by {
                if k < c.explosions.len() {
                    assert(x2[k] == c.explosions[k]);
                }
            }
        }
    }
}

/// `first_hit` finds the first enemy, in order, whose box holds `(x, y)`:
/// every enemy before it misses, and when none holds it the result is the
/// number of enemies.
pub proof fn lemma_first_hit_is_first(es: Seq<Enemy>, x: u32, y: u32)
    ensures
        first_hit(es, x, y) <= es.len(),
        first_hit(es, x, y) < es.len() ==> es[first_hit(es, x, y) as int].covers(x, y),
        forall|k: int| 0 <= k < first_hit(es, x, y) ==> !(#[trigger] es[k]).covers(x, y),
    decreases es.len(),
{
    if es.len() > 0 && !es[0].covers(x, y) {
        let t = es.drop_first();
        lemma_first_hit_is_first(t, x, y);
        assert forall|k: int| 0 <= k < first_hit(es, x, y) implies !(#[trigger] es[k]).covers(
            x,
            y,
        ) by {
            if k > 0 {
                assert(es[k] == t[k - 1]);
            }
        }
    }
}

/// A collision pass removes exactly one enemy and one projectile for each
/// hit, and adds one explosion for it: never more.
pub proof fn lemma_collision_counts(ps: Seq<Projectile>, es: Seq<Enemy>, xs: Seq<Explosion>)
    ensures
        collide(ps, es, xs).kept.len() + collide(ps, es, xs).hits == ps.len(),
        collide(ps, es, xs).enemies.len() + collide(ps, es, xs).hits == es.len(),
        collide(ps, es, xs).explosions.len() == xs.len() + collide(ps, es, xs).hits,
    decreases ps.len(),
{
    if ps.len() > 0 {
        lemma_collision_counts(ps.drop_last(), es, xs);
    }
}

/// Remove the projectiles in the top row, losing one point for each.
pub fn remove_escaped_projectiles(projectiles: &mut Vec<Projectile>, score: &mut Score)
    requires
        old(score)@.consistent(),
        old(score)@.value - old(projectiles)@.len() >= i64::MIN,
    ensures
        final(projectiles)@ == in_flight(old(projectiles)@),
        final(score)@ == old(score)@.added(-misses(old(projectiles)@)),
{
    let ghost ps = projectiles@;
    let n = projectiles.len();
    let mut kept: Vec<Projectile> = Vec::new();
    let mut i: usize = 0;
    while i < n
        invariant
            n == ps.len(),
            projectiles@ == ps,
            i <= n,
            kept@ == in_flight(ps.subrange(0, i as int)),
            score@ == old(score)@.added(-misses(ps.subrange(0, i as int))),
            misses(ps.subrange(0, i as int)) <= i,
            old(score)@.value - n >= i64::MIN,
            old(score)@.consistent(),
        decreases n - i,
    {
        let p = projectiles[i];
        assert(ps.subrange(0, i + 1).drop_last() =~= ps.subrange(0, i as int));
        if p.needs_removal() {
            score.add(MISS_POINTS);
        } else {
            kept.push(p);
        }
        i = i + 1;
    }
    assert(ps.subrange(0, n as int) =~= ps);
    *projectiles = kept;
    proof {
        if misses(ps) == 0 {
            assert(score@ == old(score)@);
        }
    }
}

/// Move every projectile one step.
pub fn tick_projectiles(projectiles: &mut Vec<Projectile>)
    ensures
        final(projectiles)@ == ticked_all(old(projectiles)@),
{
    let ghost ps = projectiles@;
    let n = projectiles.len();
    let mut i: usize = 0;
    while i < n
        invariant
            n == ps.len(),
            projectiles@.len() == n,
            i <= n,
            projectiles@.subrange(0, i as int) == ticked_all(ps.subrange(0, i as int)),
            forall|k: int| i <= k < n ==> projectiles@[k] == ps[k],
        decreases n - i,
    {
        let mut p = projectiles[i];
        p.tick();
        projectiles.set(i, p);
        assert(ps.subrange(0, i + 1).drop_last() =~= ps.subrange(0, i as int));
        assert(projectiles@.subrange(0, i + 1) =~= projectiles@.subrange(0, i as int).push(p));
        i = i + 1;
    }
    assert(ps.subrange(0, n as int) =~= ps);
    assert(projectiles@.subrange(0, n as int) =~= projectiles@);
}

/// Move every enemy one row down and remove those that reach the bottom,
/// losing ten points for each.
pub fn advance_enemies(enemies: &mut Vec<Enemy>, score: &mut Score)
    requires
        old(score)@.consistent(),
        old(score)@.value - 10 * old(enemies)@.len() >= i64::MIN,
        forall|k: int| 0 <= k < old(enemies)@.len() ==> !old(enemies)@[k].breached(),
    ensures
        final(enemies)@ == advanced(old(enemies)@),
        final(score)@ == old(score)@.added(-10 * breaches(old(enemies)@)),
{
    let ghost es = enemies@;
    let n = enemies.len();
    let mut kept: Vec<Enemy> = Vec::new();
    let mut i: usize = 0;
    while i < n
        invariant
            n == es.len(),
            enemies@ == es,
            i <= n,
            forall|k: int| 0 <= k < n ==> !es[k].breached(),
            kept@ == advanced(es.subrange(0, i as int)),
            score@ == old(score)@.added(-10 * breaches(es.subrange(0, i as int))),
            breaches(es.subrange(0, i as int)) <= i,
            old(score)@.value - 10 * n >= i64::MIN,
            old(score)@.consistent(),
        decreases n - i,
    {
        let mut e = enemies[i];
        assert(!es[i as int].breached());
        e.tick();
        assert(es.subrange(0, i + 1).drop_last() =~= es.subrange(0, i as int));
        if e.needs_removal() {
            score.add(BREACH_POINTS);
        } else {
            kept.push(e);
        }
        i = i + 1;
    }
    assert(es.subrange(0, n as int) =~= es);
    *enemies = kept;
    proof {
        if breaches(es) == 0 {
            assert(score@ == old(score)@);
        }
    }
}

/// Advance every explosion one step and remove those that are finished.
pub fn advance_explosions(explosions: &mut Vec<Explosion>)
    requires
        forall|k: int| 0 <= k < old(explosions)@.len() ==> !old(explosions)@[k].finished(),
    ensures
        final(explosions)@ == animated(old(explosions)@),
{
    let ghost xs = explosions@;
    let n = explosions.len();
    let mut kept: Vec<Explosion> = Vec::new();
    let mut i: usize = 0;
    while i < n
        invariant
            n == xs.len(),
            explosions@ == xs,
            i <= n,
            forall|k: int| 0 <= k < n ==> !xs[k].finished(),
            kept@ == animated(xs.subrange(0, i as int)),
        decreases n - i,
    {
        let mut x = explosions[i];
        assert(!xs[i as int].finished());
        x.tick();
        assert(xs.subrange(0, i + 1).drop_last() =~= xs.subrange(0, i as int));
        if !x.needs_removal() {
            kept.push(x);
        }
        i = i + 1;
    }
    assert(xs.subrange(0, n as int) =~= xs);
    *explosions = kept;
}

/// Index of the first enemy whose box holds `(x, y)`; `enemies.len()` if none.
fn find_hit(enemies: &Vec<Enemy>, x: u32, y: u32) -> (r: usize)
    ensures
        r == first_hit(enemies@, x, y),
{
    let n = enemies.len();
    let mut j: usize = 0;
    while j < n
        invariant
            n == enemies@.len(),
            j <= n,
            forall|k: int| 0 <= k < j ==> !enemies@[k].covers(x, y),
        decreases n - j,
    {
        if enemies[j].intersects_with(x, y) {
            proof {
                lemma_first_hit(enemies@, x, y, j as int);
            }
            return j;
        }
        j = j + 1;
    }
    proof {
        lemma_first_hit(enemies@, x, y, n as int);
    }
    n
}

/// Resolve collisions: for each projectile in order, the first enemy left
/// whose box holds it is removed together with the projectile, an explosion
/// appears one cell up and left of the projectile, and five points are won.
pub fn resolve_collisions(
    projectiles: &mut Vec<Projectile>,
    enemies: &mut Vec<Enemy>,
    explosions: &mut Vec<Explosion>,
    score: &mut Score,
)
    requires
        old(score)@.consistent(),
        old(score)@.value + 5 * old(projectiles)@.len() <= i64::MAX,
    ensures
        final(projectiles)@ == collide(old(projectiles)@, old(enemies)@, old(explosions)@).kept,
        final(enemies)@ == collide(old(projectiles)@, old(enemies)@, old(explosions)@).enemies,
        final(explosions)@ == collide(
            old(projectiles)@,
            old(enemies)@,
            old(explosions)@,
        ).explosions,
        final(score)@ == old(score)@.added(
            (5 * collide(old(projectiles)@, old(enemies)@, old(explosions)@).hits) as int,
        ),
{
    let ghost ps = projectiles@;
    let ghost es = enemies@;
    let ghost xs = explosions@;
    let ghost mut hits: nat = 0;
    let n = projectiles.len();
    let mut kept: Vec<Projectile> = Vec::new();
    let mut i: usize = 0;
    while i < n
        invariant
            n == ps.len(),
            projectiles@ == ps,
            i <= n,
            kept@ == collide(ps.subrange(0, i as int), es, xs).kept,
            enemies@ == collide(ps.subrange(0, i as int), es, xs).enemies,
            explosions@ == collide(ps.subrange(0, i as int), es, xs).explosions,
            hits == collide(ps.subrange(0, i as int), es, xs).hits,
            hits <= i,
            score@ == old(score)@.added((5 * hits) as int),
            old(score)@.value + 5 * n <= i64::MAX,
            old(score)@.consistent(),
        decreases n - i,
    {
        let p = projectiles[i];
        assert(ps.subrange(0, i + 1).drop_last() =~= ps.subrange(0, i as int));
        let j = find_hit(enemies, p.pos_x(), p.pos_y());
        if j < enemies.len() {
            enemies.remove(j);
            let bx = cap(p.pos_x() as i64 - 1, 0, 79) as u32;
            let by = cap(p.pos_y() as i64 - 1, 0, 59) as u32;
            explosions.push(Explosion::new(bx, by));
            score.add(HIT_POINTS);
            proof {
                hits = hits + 1;
            }
        } else {
            kept.push(p);
        }
        i = i + 1;
    }
    assert(ps.subrange(0, n as int) =~= ps);
    *projectiles = kept;
    proof {
        if hits == 0 {
            assert(score@ == old(score)@);
        }
    }
}

} // verus!
