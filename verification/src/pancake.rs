//! Falling objects: spawning, per-frame movement, collision against the
//! actor, and removal at the bottom of the play area.

use crate::geometry::circles_overlap;
use crate::geometry::overlaps;
use crate::geometry::COORD_LIMIT;
use vstd::arithmetic::div_mod::lemma_fundamental_div_mod;
use vstd::arithmetic::mul::lemma_mul_inequality;
use vstd::prelude::*;

verus! {

/// Height of the play area; an object is discarded once its anchor has sunk
/// `2 * radius` below this line.
pub const PLAY_HEIGHT: i64 = 144;

/// Width of the play area; spawn positions are drawn from `[0, PLAY_WIDTH)`.
pub const PLAY_WIDTH: i64 = 256;

/// A falling object. `x` and `y` anchor the top-left corner of its bounding
/// box; the collision center sits at `(x + radius, y + radius)`.
#[derive(Clone, Copy, Debug, PartialEq, Eq, Structural)]
pub struct Pancake {
    pub x: i64,
    pub y: i64,
    pub vel: i64,
    pub radius: i64,
}

impl Pancake {
    /// Every object the spawner creates, and every object a step keeps,
    /// satisfies this: the randomized fields are in their draw ranges and the
    /// anchor is still above the removal line.
    pub open spec fn wf(self) -> bool {
        &&& 0 <= self.x < PLAY_WIDTH
        &&& 0 <= self.y < PLAY_HEIGHT + 2 * self.radius
        &&& 1 <= self.vel <= 3
        &&& 5 <= self.radius <= 14
    }
}

/// The object after one frame of falling: only `y` moves, by `vel`.
pub open spec fn advanced(p: Pancake) -> Pancake {
    Pancake { y: (p.y + p.vel) as i64, ..p }
}

/// Whether the object has left the play area and is discarded without score.
pub open spec fn exits(p: Pancake) -> bool {
    p.y >= PLAY_HEIGHT + 2 * p.radius
}

/// Whether the object is caught by the actor whose collision center is
/// `(cat_cx, cat_cy)` and whose radius is `cat_r`. The object's effective
/// center is offset by its radius; the removal test above uses the raw `y`
/// instead — both forms are deliberate.
pub open spec fn hits_cat(p: Pancake, cat_cx: int, cat_cy: int, cat_r: int) -> bool {
    circles_overlap(cat_cx, cat_cy, cat_r, p.x + p.radius, p.y + p.radius, p.radius as int)
}

/// The object built from three uniform random draws: `x` in `[0, 256)`,
/// `vel` in `[1, 3]`, `radius` in `[5, 15)`, starting at the top.
pub open spec fn spawned_pancake(rand_x: u32, rand_vel: u32, rand_radius: u32) -> Pancake {
    Pancake {
        x: (rand_x % 256) as i64,
        y: 0,
        vel: (rand_vel % 3 + 1) as i64,
        radius: (rand_radius % 10 + 5) as i64,
    }
}

/// Spawn trigger and field draws for one frame: an object appears exactly
/// when the trigger draw is divisible by 64, a chance of 1 in 64 under a
/// uniform source.
pub fn maybe_spawn(rand_spawn: u32, rand_x: u32, rand_vel: u32, rand_radius: u32) -> (r: Option<
    Pancake,
>)
    ensures
        r == (if rand_spawn % 64 == 0 {
            Some(spawned_pancake(rand_x, rand_vel, rand_radius))
        } else {
            None::<Pancake>
        }),
        r is Some ==> r->Some_0.wf(),
{
    if rand_spawn % 64 == 0 {
        Some(
            Pancake {
                x: (rand_x % 256) as i64,
                y: 0,
                vel: (rand_vel % 3 + 1) as i64,
                radius: (rand_radius % 10 + 5) as i64,
            },
        )
    } else {
        None
    }
}

/// The objects that survive one frame: each one falls by its own `vel`, then
/// the caught ones and the ones past the removal line are discarded. Relative
/// order is kept.
pub open spec fn survivors(ps: Seq<Pancake>, cat_cx: int, cat_cy: int, cat_r: int) -> Seq<Pancake>
    decreases ps.len(),
{
    if ps.len() == 0 {
        Seq::empty()
    } else {
        let rest = survivors(ps.drop_last(), cat_cx, cat_cy, cat_r);
        let moved = advanced(ps.last());
        if !hits_cat(moved, cat_cx, cat_cy, cat_r) && !exits(moved) {
            rest.push(moved)
        } else {
            rest
        }
    }
}

/// How many of the objects are caught this frame, after falling.
pub open spec fn caught_count(ps: Seq<Pancake>, cat_cx: int, cat_cy: int, cat_r: int) -> nat
    decreases ps.len(),
{
    if ps.len() == 0 {
        0
    } else {
        caught_count(ps.drop_last(), cat_cx, cat_cy, cat_r) + (if hits_cat(
            advanced(ps.last()),
            cat_cx,
            cat_cy,
            cat_r,
        ) {
            1nat
        } else {
            0nat
        })
    }
}

/// One frame of movement and collision resolution. Every object falls by its
/// own `vel`; an object that then overlaps the actor is removed and counted,
/// one that has passed the removal line is removed uncounted, and the rest
/// stay in order.
pub fn resolve_pancakes(pancakes: &mut Vec<Pancake>, cat_cx: i64, cat_cy: i64, cat_r: i64) -> (caught: usize)
    requires
        -COORD_LIMIT <= cat_cx <= COORD_LIMIT,
        -COORD_LIMIT <= cat_cy <= COORD_LIMIT,
        0 <= cat_r <= COORD_LIMIT,
        forall|i: int| 0 <= i < old(pancakes)@.len() ==> #[trigger] old(pancakes)@[i].wf(),
    ensures
        final(pancakes)@ == survivors(old(pancakes)@, cat_cx as int, cat_cy as int, cat_r as int),
        caught == caught_count(old(pancakes)@, cat_cx as int, cat_cy as int, cat_r as int),
        forall|i: int| 0 <= i < final(pancakes)@.len() ==> #[trigger] final(pancakes)@[i].wf(),
{
    let ghost ps = pancakes@;
    let ghost ccx = cat_cx as int;
    let ghost ccy = cat_cy as int;
    let ghost cr = cat_r as int;
    let mut kept: Vec<Pancake> = Vec::new();
    let mut caught: usize = 0;
    let mut i: usize = 0;
    while i < pancakes.len()
        invariant
            pancakes@ == ps,
            ccx == cat_cx as int,
            ccy == cat_cy as int,
            cr == cat_r as int,
            i <= ps.len(),
            -COORD_LIMIT <= cat_cx <= COORD_LIMIT,
            -COORD_LIMIT <= cat_cy <= COORD_LIMIT,
            0 <= cat_r <= COORD_LIMIT,
            forall|j: int| 0 <= j < ps.len() ==> #[trigger] ps[j].wf(),
            kept@ == survivors(ps.take(i as int), ccx, ccy, cr),
            caught == caught_count(ps.take(i as int), ccx, ccy, cr),
            caught <= i,
            forall|j: int| 0 <= j < kept@.len() ==> #[trigger] kept@[j].wf(),
        decreases ps.len() - i,
    {
        let p = pancakes[i];
        proof {
            assert(ps[i as int].wf());
        }
        let moved = Pancake { y: p.y + p.vel, ..p };
        proof {
            assert(ps.take(i + 1).drop_last() =~= ps.take(i as int));
            assert(ps.take(i + 1).last() == ps[i as int]);
            assert(moved == advanced(p));
        }
        let hit = overlaps(
            cat_cx,
            cat_cy,
            cat_r,
            moved.x + moved.radius,
            moved.y + moved.radius,
            moved.radius,
        );
        if hit {
            caught = caught + 1;
        } else if moved.y < PLAY_HEIGHT + 2 * moved.radius {
            kept.push(moved);
        }
        i = i + 1;
    }
    proof {
        assert(ps.take(ps.len() as int) =~= ps);
    }
    *pancakes = kept;
    caught
}

/// The object after `n` frames of falling, nothing else interfering.
pub open spec fn advanced_times(p: Pancake, n: nat) -> Pancake
    decreases n,
{
    if n == 0 {
        p
    } else {
        advanced(advanced_times(p, (n - 1) as nat))
    }
}

/// Frames an object needs from the top of the play area to the removal
/// line: the ceiling of `(PLAY_HEIGHT + 2 * radius) / vel`.
pub open spec fn exit_steps(p: Pancake) -> int {
    (PLAY_HEIGHT + 2 * p.radius + p.vel - 1) / (p.vel as int)
}

/// Falling `n` frames moves the anchor down by `n * vel` and changes
/// nothing else.
proof fn lemma_advanced_times_y(p: Pancake, n: nat)
    requires
        0 <= p.y,
        1 <= p.vel,
        p.y + n * p.vel <= i64::MAX,
    ensures
        advanced_times(p, n) == (Pancake { y: (p.y + n * p.vel) as i64, ..p }),
    decreases n,
{
    if n == 0 {
        assert(n * p.vel == 0) by (nonlinear_arith)
            requires
                n == 0,
        ;
        assert(advanced_times(p, n) == (Pancake { y: (p.y + n * p.vel) as i64, ..p }));
    } else {
        assert((n - 1) * p.vel + p.vel == n * p.vel && 0 <= (n - 1) * p.vel <= n * p.vel)
            by (nonlinear_arith)
            requires
                n >= 1,
                1 <= p.vel,
        ;
        lemma_advanced_times_y(p, (n - 1) as nat);
    }
}

/// Law: an object at the top of the play area reaches the removal line
/// after exactly `exit_steps` frames of falling — with any fewer it is
/// still inside, and from then on it is past the line. (`n` is capped at
/// the line itself; the object is gone long before larger counts matter.)
pub proof fn lemma_exit_after_exact_ceil(p: Pancake, n: nat)
    requires
        p.wf(),
        p.y == 0,
        n <= PLAY_HEIGHT + 2 * p.radius,
    ensures
        exits(advanced_times(p, n)) <==> n >= exit_steps(p),
{
    let b = PLAY_HEIGHT + 2 * p.radius;
    let v = p.vel as int;
    let q = exit_steps(p);
    assert(n * v <= b * 3) by (nonlinear_arith)
        requires
            0 <= n <= b,
            1 <= v <= 3,
    ;
    lemma_advanced_times_y(p, n);
    lemma_fundamental_div_mod(b + v - 1, v);
    assert(0 <= (b + v - 1) % v < v);
    assert(q * v >= b && (q - 1) * v < b) by (nonlinear_arith)
        requires
            b + v - 1 == v * q + (b + v - 1) % v,
            0 <= (b + v - 1) % v < v,
            1 <= v,
    ;
    if n >= q {
        lemma_mul_inequality(q, n as int, v);
        assert(n * v >= b);
    }
    if n < q {
        lemma_mul_inequality(n as int, q - 1, v);
        assert(n * v < b);
    }
}

/// No object hits the actor: then nothing is caught this frame.
pub proof fn lemma_no_hits_caught_zero(ps: Seq<Pancake>, cat_cx: int, cat_cy: int, cat_r: int)
    requires
        forall|j: int| 0 <= j < ps.len() ==> !hits_cat(advanced(#[trigger] ps[j]), cat_cx, cat_cy, cat_r),
    ensures
        caught_count(ps, cat_cx, cat_cy, cat_r) == 0,
    decreases ps.len(),
{
    if ps.len() > 0 {
        lemma_no_hits_caught_zero(ps.drop_last(), cat_cx, cat_cy, cat_r);
    }
}

/// Law: when exactly one object collides this frame, exactly one catch is
/// scored, that object alone is removed by the collision, and the others
/// fall and are kept or discarded exactly as they would be without it.
pub proof fn lemma_single_catch(ps: Seq<Pancake>, cat_cx: int, cat_cy: int, cat_r: int, k: int)
    requires
        0 <= k < ps.len(),
        hits_cat(advanced(ps[k]), cat_cx, cat_cy, cat_r),
        forall|j: int|
            0 <= j < ps.len() && j != k ==> !hits_cat(
                advanced(#[trigger] ps[j]),
                cat_cx,
                cat_cy,
                cat_r,
            ),
    ensures
        caught_count(ps, cat_cx, cat_cy, cat_r) == 1,
        survivors(ps, cat_cx, cat_cy, cat_r) == survivors(ps.remove(k), cat_cx, cat_cy, cat_r),
    decreases ps.len(),
{
    if k == ps.len() - 1 {
        assert(ps.remove(k) =~= ps.drop_last());
        lemma_no_hits_caught_zero(ps.drop_last(), cat_cx, cat_cy, cat_r);
    } else {
        assert(ps.remove(k).drop_last() =~= ps.drop_last().remove(k));
        assert(ps.remove(k).last() == ps.last());
        lemma_single_catch(ps.drop_last(), cat_cx, cat_cy, cat_r, k);
    }
}

} // verus!
