//! A bounded pool of short-lived particles.

use vstd::prelude::*;
use crate::fixed::{
    clip, clip32, divide, drift, integrate, product, quotient, saturate, saturate32,
};
use crate::geometry::Vec2;
use crate::model::{binding_calls, particle_calls, Model, RenderContext};
use crate::opengl::{GlCall, Real};

verus! {

/// One particle. `life` counts down in ticks; `total_life` is the life it was
/// created with and never changes.
#[derive(Clone, Copy, Debug, PartialEq, Eq, Structural)]
pub struct Particle {
    pub position: Vec2,
    pub velocity: Vec2,
    pub acceleration: Vec2,
    pub life: i32,
    pub total_life: i32,
}

/// The life of a spark, in ticks.
pub const SPARK_LIFE: i32 = 100;

/// The particles of one effect, oldest first, and the number it may hold.
pub struct ParticleSystem {
    max_particles: usize,
    particles: Vec<Particle>,
}

/// The particle that `add` creates from its arguments.
pub open spec fn fresh(position: Vec2, velocity: Vec2, acceleration: Vec2, life: i32) -> Particle {
    Particle { position, velocity, acceleration, life, total_life: life }
}

/// The pool `s` after an attempt to add `p`: appended while there is room,
/// dropped otherwise.
pub open spec fn added(s: Seq<Particle>, capacity: nat, p: Particle) -> Seq<Particle> {
    if s.len() < capacity {
        s.push(p)
    } else {
        s
    }
}

/// The particle `p` after `delta` ticks: the acceleration has changed the
/// velocity, the new velocity has changed the position, and the life has run
/// down by `delta`.
pub open spec fn aged(p: Particle, delta: int) -> Particle {
    let vx = clip(p.velocity.x + drift(p.acceleration.x as int, delta));
    let vy = clip(p.velocity.y + drift(p.acceleration.y as int, delta));
    Particle {
        position: Vec2 {
            x: clip(p.position.x + drift(vx, delta)) as i64,
            y: clip(p.position.y + drift(vy, delta)) as i64,
        },
        velocity: Vec2 { x: vx as i64, y: vy as i64 },
        acceleration: p.acceleration,
        life: clip32(p.life - delta) as i32,
        total_life: p.total_life,
    }
}

/// `aged` by `delta`, as a function of the particle.
pub open spec fn aging(delta: int) -> spec_fn(Particle) -> Particle {
    |p: Particle| aged(p, delta)
}

/// Whether a particle has life left.
pub open spec fn is_alive() -> spec_fn(Particle) -> bool {
    |p: Particle| p.life > 0
}

/// The pool `s` after `delta` ticks: every particle aged, and those without
/// life left removed. The order of the others is kept.
pub open spec fn swept(s: Seq<Particle>, delta: int) -> Seq<Particle> {
    s.map_values(aging(delta)).filter(is_alive())
}

/// A sweep never adds a particle, and leaves none without life.
pub proof fn lemma_sweep_only_removes(s: Seq<Particle>, delta: int)
    ensures
        swept(s, delta).len() <= s.len(),
        forall|j: int| 0 <= j < swept(s, delta).len() ==> (#[trigger] swept(s, delta)[j]).life > 0,
{
    let aged_all = s.map_values(aging(delta));
    aged_all.lemma_filter_len(is_alive());
    assert forall|j: int| 0 <= j < swept(s, delta).len() implies (#[trigger] swept(
        s,
        delta,
    )[j]).life > 0 by {
        aged_all.lemma_filter_pred(is_alive(), j);
    }
}

/// What becomes of a particle in a sweep does not depend on the others:
/// sweeping two pools one after the other is sweeping them as one.
pub proof fn lemma_sweep_is_independent(a: Seq<Particle>, b: Seq<Particle>, delta: int)
    ensures
        swept(a + b, delta) == swept(a, delta) + swept(b, delta),
{
    let f = aging(delta);
    assert((a + b).map_values(f) =~= a.map_values(f) + b.map_values(f));
    Seq::filter_distributes_over_add(a.map_values(f), b.map_values(f), is_alive());
}

/// Whether `q` is what some particle of `s` has become after `delta` ticks.
pub open spec fn ages_into(s: Seq<Particle>, delta: int, q: Particle) -> bool {
    exists|i: int| 0 <= i < s.len() && aged(#[trigger] s[i], delta) == q
}

/// A sweep keeps exactly the particles that still have life after ageing:
/// each of them is found in the result, and each particle of the result is
/// one of them.
pub proof fn lemma_sweep_keeps_the_living(s: Seq<Particle>, delta: int)
    ensures
        forall|i: int|
            0 <= i < s.len() && aged(#[trigger] s[i], delta).life > 0 ==> swept(s, delta).contains(
                aged(s[i], delta),
            ),
        forall|j: int|
            0 <= j < swept(s, delta).len() ==> ages_into(s, delta, #[trigger] swept(s, delta)[j]),
{
    let aged_all = s.map_values(aging(delta));
    assert forall|i: int| 0 <= i < s.len() && aged(#[trigger] s[i], delta).life > 0 implies swept(
        s,
        delta,
    ).contains(aged(s[i], delta)) by {
        assert(aged_all[i] == aged(s[i], delta));
        aged_all.lemma_filter_contains(is_alive(), i);
    }
    assert forall|j: int| 0 <= j < swept(s, delta).len() implies ages_into(
        s,
        delta,
        #[trigger] swept(s, delta)[j],
    ) by {
        let q = swept(s, delta)[j];
        assert(swept(s, delta).contains(q));
        aged_all.lemma_filter_contains_rev(is_alive(), q);
        let i = choose|i: int| 0 <= i < aged_all.len() && aged_all[i] == q;
        assert(aged(s[i], delta) == q);
    }
}

/// The `k`-th spark of a burst at `(x, y)` for the impact direction
/// `(dx, dy)`. The sparks come in pairs; pair `k / 2` flies along the
/// direction turned a quarter to either side, plus `(k / 2 + 1)` tenths of
/// the direction itself. None accelerates.
pub open spec fn spark(x: i64, y: i64, dx: i64, dy: i64, k: int) -> Particle {
    let ddx = quotient((k / 2 + 1) * dx, 10);
    let ddy = quotient((k / 2 + 1) * dy, 10);
    let velocity = if k % 2 == 0 {
        Vec2 { x: clip(dy + ddx) as i64, y: clip(-dx + ddy) as i64 }
    } else {
        Vec2 { x: clip(-dy + ddx) as i64, y: clip(dx + ddy) as i64 }
    };
    fresh(Vec2 { x, y }, velocity, Vec2 { x: 0, y: 0 }, SPARK_LIFE)
}

/// The pool `s` after attempts to add the first `n` sparks of a burst, in
/// order.
pub open spec fn with_sparks(
    s: Seq<Particle>,
    capacity: nat,
    x: i64,
    y: i64,
    dx: i64,
    dy: i64,
    n: nat,
) -> Seq<Particle>
    decreases n,
{
    if n == 0 {
        s
    } else {
        added(with_sparks(s, capacity, x, y, dx, dy, (n - 1) as nat), capacity, spark(x, y, dx, dy, n - 1))
    }
}

/// In a pool with room for `n` more particles, the first `n` sparks of a burst
/// are all added, behind the particles that were there.
pub proof fn lemma_sparks_with_room(
    s: Seq<Particle>,
    capacity: nat,
    x: i64,
    y: i64,
    dx: i64,
    dy: i64,
    n: nat,
)
    requires
        s.len() + n <= capacity,
    ensures
        with_sparks(s, capacity, x, y, dx, dy, n) == s + Seq::new(
            n,
            |k: int| spark(x, y, dx, dy, k),
        ),
    decreases n,
{
    if n > 0 {
        lemma_sparks_with_room(s, capacity, x, y, dx, dy, (n - 1) as nat);
    }
    assert(with_sparks(s, capacity, x, y, dx, dy, n) =~= s + Seq::new(
        n,
        |k: int| spark(x, y, dx, dy, k),
    ));
}

/// A burst never removes a particle and never fills the pool beyond its
/// capacity.
pub proof fn lemma_sparks_respect_capacity(
    s: Seq<Particle>,
    capacity: nat,
    x: i64,
    y: i64,
    dx: i64,
    dy: i64,
    n: nat,
)
    ensures
        s.len() <= with_sparks(s, capacity, x, y, dx, dy, n).len() <= s.len() + n,
        s.len() <= capacity ==> with_sparks(s, capacity, x, y, dx, dy, n).len() <= capacity,
    decreases n,
{
    if n > 0 {
        lemma_sparks_respect_capacity(s, capacity, x, y, dx, dy, (n - 1) as nat);
    }
}

/// One operation on a pool.
pub enum ParticleOp {
    Add { position: Vec2, velocity: Vec2, acceleration: Vec2, life: i32 },
    Update { delta: i64 },
}

/// The pool `s` after `op`.
pub open spec fn after(s: Seq<Particle>, capacity: nat, op: ParticleOp) -> Seq<Particle> {
    match op {
        ParticleOp::Add { position, velocity, acceleration, life } => added(
            s,
            capacity,
            fresh(position, velocity, acceleration, life),
        ),
        ParticleOp::Update { delta } => swept(s, delta as int),
    }
}

/// The pool `s` after the operations `ops`, in order.
pub open spec fn after_all(s: Seq<Particle>, capacity: nat, ops: Seq<ParticleOp>) -> Seq<Particle>
    decreases ops.len(),
{
    if ops.len() == 0 {
        s
    } else {
        after(after_all(s, capacity, ops.drop_last()), capacity, ops.last())
    }
}

/// Whatever is done to a pool, and however often, it never holds more
/// particles than its capacity.
pub proof fn lemma_capacity_never_exceeded(s: Seq<Particle>, capacity: nat, ops: Seq<ParticleOp>)
    requires
        s.len() <= capacity,
    ensures
        after_all(s, capacity, ops).len() <= capacity,
    decreases ops.len(),
{
    if ops.len() > 0 {
        lemma_capacity_never_exceeded(s, capacity, ops.drop_last());
        let before = after_all(s, capacity, ops.drop_last());
        match ops.last() {
            ParticleOp::Add { .. } => {},
            ParticleOp::Update { delta } => {
                lemma_sweep_only_removes(before, delta as int);
            },
        }
    }
}

/// The opacity of a particle: the share of its life that it has left.
pub open spec fn fade(p: Particle) -> Real {
    Real { numerator: p.life as i64, denominator: p.total_life as i64 }
}

/// The calls that draw each particle of `s` in order with the bound `model`,
/// each at its position and with its opacity.
pub open spec fn batch_draws(s: Seq<Particle>, model: Model, ctx: RenderContext) -> Seq<GlCall>
    decreases s.len(),
{
    if s.len() == 0 {
        Seq::empty()
    } else {
        batch_draws(s.drop_last(), model, ctx) + particle_calls(
            model,
            ctx,
            s.last().position,
            fade(s.last()),
        )
    }
}

/// The calls that draw the pool `s` with `model`: the model bound once, then
/// the draws of the particles.
pub open spec fn batch_calls(s: Seq<Particle>, model: Model, ctx: RenderContext) -> Seq<GlCall> {
    binding_calls(model, ctx) + batch_draws(s, model, ctx)
}

/// A batch binds its model once, in seven calls, and then takes three calls
/// for each particle; the calls of the `i`-th particle are those that draw it.
pub proof fn lemma_batch_draws_each(s: Seq<Particle>, model: Model, ctx: RenderContext)
    ensures
        batch_calls(s, model, ctx).len() == 7 + 3 * s.len(),
        batch_calls(s, model, ctx).subrange(0, 7) == binding_calls(model, ctx),
        batch_draws(s, model, ctx).len() == 3 * s.len(),
        forall|i: int|
            0 <= i < s.len() ==> batch_draws(s, model, ctx).subrange(3 * i, 3 * i + 3)
                == particle_calls(model, ctx, (#[trigger] s[i]).position, fade(s[i])),
    decreases s.len(),
{
    if s.len() > 0 {
        lemma_batch_draws_each(s.drop_last(), model, ctx);
        let head = batch_draws(s.drop_last(), model, ctx);
        let tail = particle_calls(model, ctx, s.last().position, fade(s.last()));
        assert forall|i: int| 0 <= i < s.len() implies batch_draws(s, model, ctx).subrange(
            3 * i,
            3 * i + 3,
        ) == particle_calls(model, ctx, (#[trigger] s[i]).position, fade(s[i])) by {
            if i < s.len() - 1 {
                assert(s.drop_last()[i] == s[i]);
                assert((head + tail).subrange(3 * i, 3 * i + 3) =~= head.subrange(3 * i, 3 * i + 3));
            } else {
                assert((head + tail).subrange(3 * i, 3 * i + 3) =~= tail);
            }
        }
    }
}

impl View for ParticleSystem {
    type V = Seq<Particle>;

    /// The live particles, oldest first.
    closed spec fn view(&self) -> Seq<Particle> {
        self.particles@
    }
}

impl ParticleSystem {
    /// The number of particles the pool may hold.
    pub closed spec fn capacity(&self) -> nat {
        self.max_particles as nat
    }

    /// The pool holds no more particles than it may.
    pub open spec fn wf(&self) -> bool {
        self@.len() <= self.capacity()
    }

    /// An empty pool for up to `max_particles` particles.
    pub fn new(max_particles: usize) -> (r: ParticleSystem)
        ensures
            r@ == Seq::<Particle>::empty(),
            r.capacity() == max_particles,
            r.wf(),
    {
        ParticleSystem { max_particles, particles: Vec::new() }
    }

    /// The number of particles the pool may hold.
    pub fn max_particles(&self) -> (r: usize)
        ensures
            r == self.capacity(),
    {
        self.max_particles
    }

    /// The number of live particles.
    pub fn len(&self) -> (r: usize)
        ensures
            r == self@.len(),
    {
        self.particles.len()
    }

    /// The live particle at `index`, counted from the oldest.
    pub fn get(&self, index: usize) -> (r: Option<Particle>)
        ensures
            r == if index < self@.len() {
                Some(self@[index as int])
            } else {
                None
            },
    {
        if index < self.particles.len() {
            Some(self.particles[index])
        } else {
            None
        }
    }

    /// Adds a particle with the given motion and life, unless the pool is full:
    /// then the call changes nothing.
    pub fn add(&mut self, position: Vec2, velocity: Vec2, acceleration: Vec2, life: i32)
        ensures
            final(self)@ == added(
                old(self)@,
                old(self).capacity(),
                fresh(position, velocity, acceleration, life),
            ),
            final(self).capacity() == old(self).capacity(),
            old(self).wf() ==> final(self).wf(),
    {
        if self.particles.len() < self.max_particles {
            self.particles.push(
                Particle { position, velocity, acceleration, life, total_life: life },
            );
        }
    }

    /// Ages every particle by `delta` ticks and removes those whose life has
    /// run out.
    pub fn update(&mut self, delta: i64)
        ensures
            final(self)@ == swept(old(self)@, delta as int),
            final(self).capacity() == old(self).capacity(),
            final(self)@.len() <= old(self)@.len(),
            forall|j: int| 0 <= j < final(self)@.len() ==> (#[trigger] final(self)@[j]).life > 0,
            old(self).wf() ==> final(self).wf(),
    {
        let mut kept: Vec<Particle> = Vec::new();
        let mut i: usize = 0;
        let ghost before = self.particles@;
        assert(before.take(0) =~= Seq::<Particle>::empty());
        assert(swept(Seq::<Particle>::empty(), delta as int) =~= Seq::<Particle>::empty()) by {
            reveal(Seq::filter);
        }
        while i < self.particles.len()
            invariant
                i <= self.particles.len(),
                self.particles@ == before,
                self.max_particles == old(self).max_particles,
                kept@ == swept(before.take(i as int), delta as int),
            decreases self.particles.len() - i,
        {
            let next: Particle = age_particle(self.particles[i], delta);
            proof {
                let done = before.take(i as int);
                assert(before.take(i + 1) =~= done.push(before[i as int]));
                assert(done.push(before[i as int]).map_values(aging(delta as int)) =~= done.map_values(
                    aging(delta as int),
                ).push(next));
                done.map_values(aging(delta as int)).lemma_filter_push(next, is_alive());
            }
            if next.life > 0 {
                kept.push(next);
            }
            i += 1;
        }
        proof {
            assert(before.take(i as int) =~= before);
            lemma_sweep_only_removes(before, delta as int);
        }
        self.particles = kept;
    }

    /// Draws the live particles with `model`: binds it once, then draws each
    /// particle at its position, faded by the share of its life that is left.
    pub fn render(&self, model: &Model, ctx: &RenderContext, calls: &mut Vec<GlCall>)
        ensures
            final(calls)@ == old(calls)@ + batch_calls(self@, *model, *ctx),
    {
        model.pre_render(ctx, calls);
        let mut i: usize = 0;
        assert(self.particles@.take(0) =~= Seq::<Particle>::empty());
        while i < self.particles.len()
            invariant
                i <= self.particles.len(),
                calls@ == old(calls)@ + batch_calls(self.particles@.take(i as int), *model, *ctx),
            decreases self.particles.len() - i,
        {
            let p: &Particle = &self.particles[i];
            proof {
                let done = self.particles@.take(i as int);
                let next = self.particles@.take(i + 1);
                assert(next.drop_last() =~= done);
                assert(next.last() == *p);
            }
            model.render_particle(
                &p.position,
                Real { numerator: p.life as i64, denominator: p.total_life as i64 },
                ctx,
                calls,
            );
            i += 1;
        }
        assert(self.particles@.take(i as int) =~= self.particles@);
    }
}

/// Ages one particle by `delta` ticks.
pub fn age_particle(p: Particle, delta: i64) -> (r: Particle)
    ensures
        r == aged(p, delta as int),
{
    let vx: i64 = integrate(p.velocity.x, p.acceleration.x, delta);
    let vy: i64 = integrate(p.velocity.y, p.acceleration.y, delta);
    Particle {
        position: Vec2 {
            x: integrate(p.position.x, vx, delta),
            y: integrate(p.position.y, vy, delta),
        },
        velocity: Vec2 { x: vx, y: vy },
        acceleration: p.acceleration,
        life: saturate32(p.life as i128 - delta as i128),
        total_life: p.total_life,
    }
}

/// Adds the eight sparks of an impact at `(x, y)` with direction `(dx, dy)`
/// to `ps`, as far as it has room.
pub fn create_sparks(ps: &mut ParticleSystem, x: i64, y: i64, dx: i64, dy: i64)
    ensures
        final(ps)@ == with_sparks(old(ps)@, old(ps).capacity(), x, y, dx, dy, 8),
        final(ps).capacity() == old(ps).capacity(),
        old(ps)@.len() <= final(ps)@.len() <= old(ps)@.len() + 8,
        old(ps)@.len() + 8 <= old(ps).capacity() ==> final(ps)@ == old(ps)@ + Seq::new(
            8,
            |k: int| spark(x, y, dx, dy, k),
        ),
        old(ps).wf() ==> final(ps).wf(),
{
    let mut i: i64 = 0;
    while i < 4
        invariant
            0 <= i <= 4,
            ps.capacity() == old(ps).capacity(),
            ps@ == with_sparks(old(ps)@, old(ps).capacity(), x, y, dx, dy, (2 * i) as nat),
        decreases 4 - i,
    {
        let ddx: i128 = divide(product(i + 1, dx), 10);
        let ddy: i128 = divide(product(i + 1, dy), 10);
        proof {
            assert((2 * i) / 2 == i && (2 * i) % 2 == 0);
            assert((2 * i + 1) / 2 == i && (2 * i + 1) % 2 == 1);
            reveal_with_fuel(with_sparks, 3);
        }
        ps.add(
            Vec2::new(x, y),
            Vec2::new(saturate(dy as i128 + ddx), saturate(-(dx as i128) + ddy)),
            Vec2::zero(),
            SPARK_LIFE,
        );
        ps.add(
            Vec2::new(x, y),
            Vec2::new(saturate(-(dy as i128) + ddx), saturate(dx as i128 + ddy)),
            Vec2::zero(),
            SPARK_LIFE,
        );
        i += 1;
    }
    proof {
        lemma_sparks_respect_capacity(old(ps)@, old(ps).capacity(), x, y, dx, dy, 8);
        if old(ps)@.len() + 8 <= old(ps).capacity() {
            lemma_sparks_with_room(old(ps)@, old(ps).capacity(), x, y, dx, dy, 8);
        }
    }
}

} // verus!
