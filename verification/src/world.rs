//! The physics world: the particles, two snapshots of their dynamic state,
//! and the time accumulator that spends frame time in fixed steps.

use crate::fixed::lemma_proper_fraction;
use crate::fixed::magnitude;
use crate::fixed::Fixed;
use crate::fixed::SCALE;
use crate::particles::physics::FIXED_STEP;
use crate::particles::physics::GRAVITY_ACCEL;
use crate::particles::physics::MAX_FRAME_TIME;
use crate::particles::physics::MAX_RADIUS;
use crate::particles::physics::MIN_RADIUS;
use crate::particles::physics::SPRITE_COUNT;
use crate::particles::physics::TWO_PI;
use crate::particles::Particle;
use crate::particles::ParticlePhysics;
use crate::random::seeded_generator;
use crate::random::uniform;
use crate::vec2::TVec2;
use crate::vec2::Vec2Fixed;
use vstd::prelude::*;
use vstd::std_specs::ops::DivSpec;
use vstd::std_specs::ops::SubSpec;

verus! {

/// The frame time that an update spends: `t` held between zero and the
/// longest frame time.
pub open spec fn clamp_frame_time(t: Fixed) -> Fixed {
    if t.raw < 0 {
        Fixed { raw: 0 }
    } else if t.raw > MAX_FRAME_TIME {
        Fixed { raw: MAX_FRAME_TIME }
    } else {
        t
    }
}

/// What one fixed step of `dt` seconds makes of one particle that was in the
/// state `before`: its two snapshots afterwards are `previous` and `current`.
/// Where the advanced state is still in bounds, `previous` is the state
/// before and `current` the advanced one. Where it has left, both are one
/// fresh state.
pub open spec fn particle_stepped(
    before: ParticlePhysics,
    particle: Particle,
    dt: Fixed,
    world_size: Vec2Fixed,
    previous: ParticlePhysics,
    current: ParticlePhysics,
) -> bool {
    let next = before.advanced(particle, dt);
    if next.out_of_bounds(world_size) {
        current.is_fresh(world_size) && previous == current
    } else {
        previous == before && current == next
    }
}

/// The mathematical content of a [`PhysicsState`].
pub struct WorldView {
    /// Dynamic state as of the step before the last one.
    pub previous: Seq<ParticlePhysics>,
    /// Dynamic state as of the last step.
    pub current: Seq<ParticlePhysics>,
    /// Static data; the particle at an index owns the dynamic states there.
    pub particles: Seq<Particle>,
    /// Width and height of the world.
    pub world_size: Vec2Fixed,
    /// Frame time that no step has spent yet.
    pub accumulated_time: Fixed,
    /// Duration of one fixed step.
    pub delta_step: Fixed,
}

impl WorldView {
    /// What holds of the particles and the bounds at all times.
    pub open spec fn bodies_wf(self) -> bool {
        &&& self.previous.len() == self.particles.len()
        &&& self.current.len() == self.particles.len()
        &&& self.world_size.x.raw > 0
        &&& self.delta_step.raw == FIXED_STEP
        &&& forall|i: int|
            0 <= i < self.particles.len() ==> (#[trigger] self.particles[i]).mass.raw > 0
        &&& forall|i: int|
            0 <= i < self.current.len() ==> 0 <= (#[trigger] self.current[i]).rotation.raw < TWO_PI
        &&& forall|i: int|
            0 <= i < self.previous.len() ==> 0 <= (#[trigger] self.previous[i]).rotation.raw
                < TWO_PI
    }

    /// What holds between updates: the above, and less than one step of
    /// time is left over.
    pub open spec fn wf(self) -> bool {
        &&& self.bodies_wf()
        &&& 0 <= self.accumulated_time.raw < FIXED_STEP
    }

    /// `next` is a state of the world one fixed step of `dt` seconds after
    /// this one: every particle has been stepped, nothing else has changed.
    pub open spec fn step(self, next: WorldView, dt: Fixed) -> bool {
        &&& next.particles == self.particles
        &&& next.world_size == self.world_size
        &&& next.accumulated_time == self.accumulated_time
        &&& next.delta_step == self.delta_step
        &&& next.previous.len() == self.previous.len()
        &&& next.current.len() == self.current.len()
        &&& forall|i: int|
            0 <= i < self.current.len() ==> particle_stepped(
                self.current[i],
                self.particles[i],
                dt,
                self.world_size,
                next.previous[i],
                #[trigger] next.current[i],
            )
    }

    /// `last` is a state of the world `k` fixed steps of `dt` seconds after
    /// this one.
    pub open spec fn steps(self, last: WorldView, k: nat, dt: Fixed) -> bool
        decreases k,
    {
        if k == 0 {
            last == self
        } else {
            exists|mid: WorldView| self.steps(mid, (k - 1) as nat, dt) && #[trigger] mid.step(last, dt)
        }
    }

    /// This state with `t` as the time left over.
    pub open spec fn with_time(self, t: Fixed) -> WorldView {
        WorldView { accumulated_time: t, ..self }
    }

    /// Number of fixed steps that an update by `frame_time` runs.
    pub open spec fn steps_due(self, frame_time: Fixed) -> nat {
        ((self.accumulated_time.raw + clamp_frame_time(frame_time).raw) / (FIXED_STEP as int)) as nat
    }

    /// Time left over after an update by `frame_time`.
    pub open spec fn time_left(self, frame_time: Fixed) -> Fixed {
        Fixed {
            raw: ((self.accumulated_time.raw + clamp_frame_time(frame_time).raw) % (
            FIXED_STEP as int)) as i64,
        }
    }

    /// `last` is a state of the world after an update by `frame_time`: the
    /// clamped frame time has been added to the time left over, every whole
    /// fixed step in it has been run, and the rest is left over.
    pub open spec fn updated(self, frame_time: Fixed, last: WorldView) -> bool {
        &&& last.accumulated_time == self.time_left(frame_time)
        &&& self.steps(
            last.with_time(self.accumulated_time),
            self.steps_due(frame_time),
            self.delta_step,
        )
    }

    /// The interpolation fraction: the time left over as a part of one step.
    pub open spec fn fraction(self) -> Fixed {
        self.accumulated_time.div_spec(self.delta_step)
    }

    /// Whether this is a world as it is first made, of `n` particles in
    /// bounds of `world_size`: every particle fresh in both snapshots, with
    /// generated static data, and no time accumulated.
    pub open spec fn is_initial(self, world_size: Vec2Fixed, n: nat) -> bool {
        &&& self.particles.len() == n
        &&& self.previous =~= self.current
        &&& self.current.len() == n
        &&& self.world_size == world_size
        &&& self.accumulated_time.raw == 0
        &&& self.delta_step.raw == FIXED_STEP
        &&& forall|i: int| 0 <= i < n ==> (#[trigger] self.current[i]).is_fresh(world_size)
        &&& forall|i: int| 0 <= i < n ==> (#[trigger] self.particles[i]).is_generated()
    }
}

/// A particle with generated static data has a positive mass.
pub proof fn lemma_generated_mass_is_positive(p: Particle)
    requires
        p.is_generated(),
    ensures
        p.mass.raw > 0,
{
    let r = p.radius.raw as int;
    assert(magnitude(r * 1_200) == r * 1_200);
    assert((r * 1_200) / 1_200_000 >= 19_200);
}

impl Particle {
    /// Whether this is static data as a new world draws it: a radius in
    /// range, the mass that goes with it, one of the sprites, and gravity
    /// straight down.
    pub open spec fn is_generated(self) -> bool {
        &&& MIN_RADIUS <= self.radius.raw < MAX_RADIUS
        &&& self.mass == Self::mass_of(self.radius)
        &&& self.texid < SPRITE_COUNT
        &&& self.gravity == (TVec2 { x: Fixed { raw: 0 }, y: Fixed { raw: GRAVITY_ACCEL } })
    }
}

/// What the renderer draws of one particle: where, turned by how much, with
/// which sprite, at which size.
#[derive(Copy, Clone, Debug, PartialEq, Eq)]
pub struct ParticleInstance {
    /// Position on screen, where the second axis points down.
    pub position: Vec2Fixed,
    pub rotation: Fixed,
    pub texid: u32,
    pub scale: Fixed,
}

impl WorldView {
    /// The position on screen of a particle at `position` in the world: the
    /// second axis is flipped about the height of the world.
    pub open spec fn on_screen(self, position: Vec2Fixed) -> Vec2Fixed {
        TVec2 { x: position.x, y: self.world_size.y.sub_spec(position.y) }
    }

    /// What to draw of the particle at `i` when the time left over is the
    /// part `f` of a step: position on screen and rotation are blended
    /// between the two snapshots, `1 - f` of the previous and `f` of the
    /// current one; sprite and size are those of the particle.
    pub open spec fn instance(self, i: int, f: Fixed) -> ParticleInstance {
        let from = self.on_screen(self.previous[i].position);
        let to = self.on_screen(self.current[i].position);
        ParticleInstance {
            position: TVec2 {
                x: Fixed::lerp_spec(from.x, to.x, f),
                y: Fixed::lerp_spec(from.y, to.y, f),
            },
            rotation: Fixed::lerp_spec(self.previous[i].rotation, self.current[i].rotation, f),
            texid: self.particles[i].texid,
            scale: self.particles[i].radius,
        }
    }
}

/// Whether a world can be made of these parts.
pub open spec fn parts_valid(
    world_size: Vec2Fixed,
    particles: Seq<Particle>,
    states: Seq<ParticlePhysics>,
) -> bool {
    &&& particles.len() == states.len()
    &&& world_size.x.raw > 0
    &&& forall|i: int| 0 <= i < particles.len() ==> (#[trigger] particles[i]).mass.raw > 0
    &&& forall|i: int| 0 <= i < states.len() ==> 0 <= (#[trigger] states[i]).rotation.raw < TWO_PI
}

/// The world: a fixed pool of particles that are recycled in place when they
/// leave the bounds, advanced in fixed steps however long a frame takes.
pub struct PhysicsState {
    particle_prev_state: Vec<ParticlePhysics>,
    particle_curr_state: Vec<ParticlePhysics>,
    particles: Vec<Particle>,
    world_size: Vec2Fixed,
    accumulated_time: Fixed,
    delta_step: Fixed,
    generator: rand::rngs::StdRng,
}

impl View for PhysicsState {
    type V = WorldView;

    closed spec fn view(&self) -> WorldView {
        WorldView {
            previous: self.particle_prev_state@,
            current: self.particle_curr_state@,
            particles: self.particles@,
            world_size: self.world_size,
            accumulated_time: self.accumulated_time,
            delta_step: self.delta_step,
        }
    }
}

impl PhysicsState {
    /// Whether the world is in a state that `update` accepts.
    pub open spec fn wf(&self) -> bool {
        self@.wf()
    }

    /// A world of `particles` fresh particles in bounds of `world_size`,
    /// drawn from a generator that is seeded with `seed`.
    pub fn new(world_size: Vec2Fixed, particles: u32, seed: u64) -> (w: Self)
        requires
            world_size.x.raw > 0,
        ensures
            w.wf(),
            w@.is_initial(world_size, particles as nat),
    {
        let mut generator = seeded_generator(seed);
        let mut previous: Vec<ParticlePhysics> = Vec::new();
        let mut current: Vec<ParticlePhysics> = Vec::new();
        let mut i: u32 = 0;
        while i < particles
            invariant
                i <= particles,
                world_size.x.raw > 0,
                previous@ == current@,
                current@.len() == i,
                forall|j: int| 0 <= j < i ==> (#[trigger] current@[j]).is_fresh(world_size),
            decreases particles - i,
        {
            let x = uniform(&mut generator, 0, world_size.x.raw);
            let rotation = uniform(&mut generator, 0, TWO_PI);
            let p = ParticlePhysics::respawn(
                Fixed::from_raw(x),
                Fixed::from_raw(rotation),
                world_size,
            );
            previous.push(p);
            current.push(p);
            i += 1;
        }
        let mut statics: Vec<Particle> = Vec::new();
        let mut k: u32 = 0;
        while k < particles
            invariant
                k <= particles,
                statics@.len() == k,
                forall|j: int| 0 <= j < k ==> (#[trigger] statics@[j]).is_generated(),
            decreases particles - k,
        {
            let radius = uniform(&mut generator, MIN_RADIUS, MAX_RADIUS);
            let texid = uniform(&mut generator, 0, SPRITE_COUNT as i64);
            statics.push(Particle::new(Fixed::from_raw(radius), texid as u32));
            k += 1;
        }
        proof {
            assert forall|j: int| 0 <= j < statics@.len() implies (#[trigger] statics@[j]).mass.raw
                > 0 by {
                lemma_generated_mass_is_positive(statics@[j]);
            }
        }
        PhysicsState {
            particle_prev_state: previous,
            particle_curr_state: current,
            particles: statics,
            world_size,
            accumulated_time: Fixed::from_raw(0),
            delta_step: Fixed::from_raw(FIXED_STEP),
            generator,
        }
    }

    /// The world of the given particles, each in the given state in both
    /// snapshots, with no time accumulated; `None` where no world can be
    /// made of them. Particles that are recycled later are drawn from a
    /// generator that is seeded with `seed`.
    pub fn from_parts(
        world_size: Vec2Fixed,
        particles: Vec<Particle>,
        states: Vec<ParticlePhysics>,
        seed: u64,
    ) -> (r: Option<Self>)
        ensures
            r is Some <==> parts_valid(world_size, particles@, states@),
            r matches Some(w) ==> {
                &&& w.wf()
                &&& w@.previous == states@
                &&& w@.current == states@
                &&& w@.particles == particles@
                &&& w@.world_size == world_size
                &&& w@.accumulated_time.raw == 0
            },
    {
        if particles.len() != states.len() || world_size.x.raw <= 0 {
            return None;
        }
        let n = particles.len();
        let mut previous: Vec<ParticlePhysics> = Vec::new();
        let mut i: usize = 0;
        while i < n
            invariant
                i <= n,
                n == particles@.len(),
                n == states@.len(),
                previous@ == states@.take(i as int),
                forall|j: int| 0 <= j < i ==> (#[trigger] particles@[j]).mass.raw > 0,
                forall|j: int| 0 <= j < i ==> 0 <= (#[trigger] states@[j]).rotation.raw < TWO_PI,
            decreases n - i,
        {
            if particles[i].mass.raw <= 0 {
                return None;
            }
            let s = states[i];
            if s.rotation.raw < 0 || s.rotation.raw >= TWO_PI {
                return None;
            }
            previous.push(s);
            assert(states@.take(i + 1) =~= states@.take(i as int).push(s));
            i += 1;
        }
        assert(states@.take(n as int) =~= states@);
        Some(
            PhysicsState {
                particle_prev_state: previous,
                particle_curr_state: states,
                particles,
                world_size,
                accumulated_time: Fixed::from_raw(0),
                delta_step: Fixed::from_raw(FIXED_STEP),
                generator: seeded_generator(seed),
            },
        )
    }

    /// Number of particles.
    pub fn len(&self) -> (n: usize)
        ensures
            n == self@.particles.len(),
    {
        self.particles.len()
    }

    /// Static data of the particle at `i`.
    pub fn particle(&self, i: usize) -> (p: Particle)
        requires
            i < self@.particles.len(),
        ensures
            p == self@.particles[i as int],
    {
        self.particles[i]
    }

    /// Dynamic state of the particle at `i` as of the last step.
    pub fn current(&self, i: usize) -> (p: ParticlePhysics)
        requires
            i < self@.current.len(),
        ensures
            p == self@.current[i as int],
    {
        self.particle_curr_state[i]
    }

    /// Dynamic state of the particle at `i` as of the step before the last.
    pub fn previous(&self, i: usize) -> (p: ParticlePhysics)
        requires
            i < self@.previous.len(),
        ensures
            p == self@.previous[i as int],
    {
        self.particle_prev_state[i]
    }

    /// Width and height of the world.
    pub fn world_size(&self) -> (s: Vec2Fixed)
        ensures
            s == self@.world_size,
    {
        self.world_size
    }

    /// Frame time that no step has spent yet.
    pub fn accumulated_time(&self) -> (t: Fixed)
        ensures
            t == self@.accumulated_time,
    {
        self.accumulated_time
    }

    /// Duration of one fixed step.
    pub fn delta_step(&self) -> (t: Fixed)
        ensures
            t == self@.delta_step,
    {
        self.delta_step
    }

    /// The interpolation fraction: the time left over as a part of one step,
    /// at least zero and less than one.
    pub fn fraction(&self) -> (f: Fixed)
        requires
            self.wf(),
        ensures
            f == self@.fraction(),
            0 <= f.raw < SCALE,
    {
        proof {
            lemma_proper_fraction(self.accumulated_time, self.delta_step);
        }
        self.accumulated_time / self.delta_step
    }

    /// What to draw of the particle at `i` when the time left over is the
    /// part `f` of a step.
    pub fn instance(&self, i: usize, f: Fixed) -> (r: ParticleInstance)
        requires
            self@.bodies_wf(),
            i < self@.particles.len(),
            0 <= f.raw <= SCALE,
        ensures
            r == self@.instance(i as int, f),
    {
        let previous = self.particle_prev_state[i];
        let current = self.particle_curr_state[i];
        let height = self.world_size.y;
        ParticleInstance {
            position: TVec2::new(
                Fixed::lerp(previous.position.x, current.position.x, f),
                Fixed::lerp(height - previous.position.y, height - current.position.y, f),
            ),
            rotation: Fixed::lerp(previous.rotation, current.rotation, f),
            texid: self.particles[i].texid,
            scale: self.particles[i].radius,
        }
    }

    /// What to draw of every particle, in order, when the time left over is
    /// the part `f` of a step.
    pub fn instances(&self, f: Fixed) -> (r: Vec<ParticleInstance>)
        requires
            self@.bodies_wf(),
            0 <= f.raw <= SCALE,
        ensures
            r@.len() == self@.particles.len(),
            forall|i: int| 0 <= i < r@.len() ==> #[trigger] r@[i] == self@.instance(i, f),
    {
        let n = self.particles.len();
        let mut out: Vec<ParticleInstance> = Vec::new();
        let mut i: usize = 0;
        while i < n
            invariant
                i <= n,
                n == self@.particles.len(),
                self@.bodies_wf(),
                0 <= f.raw <= SCALE,
                out@.len() == i,
                forall|j: int| 0 <= j < i ==> #[trigger] out@[j] == self@.instance(j, f),
            decreases n - i,
        {
            out.push(self.instance(i, f));
            i += 1;
        }
        out
    }

    /// Replaces the bounds of the world. Particles stay where they are; one
    /// that is now out of bounds is recycled at its next step.
    pub fn resize(&mut self, width: i32, height: i32)
        requires
            width > 0,
        ensures
            final(self)@ == (WorldView {
                world_size: TVec2 { x: Fixed::whole(width), y: Fixed::whole(height) },
                ..old(self)@
            }),
    {
        self.world_size = TVec2::new(Fixed::from_int(width), Fixed::from_int(height));
    }

    /// Runs one fixed step of `dt` seconds: every particle, in order, has
    /// its current state copied to the previous one and then advanced; one
    /// that leaves the bounds is replaced in both snapshots by one fresh
    /// state.
    pub fn integrate(&mut self, dt: Fixed)
        requires
            old(self)@.bodies_wf(),
            0 < dt.raw <= FIXED_STEP,
        ensures
            final(self)@.bodies_wf(),
            old(self)@.step(final(self)@, dt),
    {
        let n = self.particle_curr_state.len();
        let mut idx: usize = 0;
        while idx < n
            invariant
                idx <= n,
                n == old(self)@.current.len(),
                0 < dt.raw <= FIXED_STEP,
                old(self)@.bodies_wf(),
                self@.bodies_wf(),
                self@.particles == old(self)@.particles,
                self@.world_size == old(self)@.world_size,
                self@.accumulated_time == old(self)@.accumulated_time,
                self@.delta_step == old(self)@.delta_step,
                forall|j: int|
                    0 <= j < idx ==> particle_stepped(
                        old(self)@.current[j],
                        self@.particles[j],
                        dt,
                        self@.world_size,
                        self@.previous[j],
                        #[trigger] self@.current[j],
                    ),
                forall|j: int| idx <= j < n ==> #[trigger] self@.current[j] == old(self)@.current[j],
            decreases n - idx,
        {
            let before = self.particle_curr_state[idx];
            let pdata = self.particles[idx];
            let mut p = before;
            p.compute_loads(pdata.gravity);
            p.update_body_euler(dt, pdata.mass);
            p.update_rotation(dt);

            if p.position.x.raw > self.world_size.x.raw || p.position.y.raw < 0 {
                let x = uniform(&mut self.generator, 0, self.world_size.x.raw);
                let rotation = uniform(&mut self.generator, 0, TWO_PI);
                p = ParticlePhysics::respawn(Fixed::from_raw(x), Fixed::from_raw(rotation), self.world_size);
                self.particle_prev_state[idx] = p;
            } else {
                self.particle_prev_state[idx] = before;
            }
            self.particle_curr_state[idx] = p;
            idx += 1;
        }
    }

    /// Spends `frame_time` seconds of frame time: clamps it, adds it to the
    /// time left over, runs every whole fixed step in the sum, and returns
    /// the interpolation fraction, the rest as a part of one step.
    pub fn update(&mut self, frame_time: Fixed) -> (fraction: Fixed)
        requires
            old(self).wf(),
        ensures
            final(self).wf(),
            old(self)@.updated(frame_time, final(self)@),
            fraction == final(self)@.fraction(),
            0 <= fraction.raw < SCALE,
            clamp_frame_time(frame_time).raw == 0 ==> final(self)@ == old(self)@,
            final(self)@.particles == old(self)@.particles,
            final(self)@.world_size == old(self)@.world_size,
            final(self)@.delta_step == old(self)@.delta_step,
    {
        let frame = if frame_time.raw < 0 {
            Fixed::from_raw(0)
        } else if frame_time.raw > MAX_FRAME_TIME {
            Fixed::from_raw(MAX_FRAME_TIME)
        } else {
            frame_time
        };
        let ghost start = self@;
        let ghost total = self.accumulated_time.raw + frame.raw;
        let ghost mut k: nat = 0;
        self.accumulated_time = self.accumulated_time + frame;
        assert(self@.with_time(start.accumulated_time) == start);

        while self.accumulated_time.raw >= self.delta_step.raw
            invariant
                start.bodies_wf(),
                self@.bodies_wf(),
                self@.particles == start.particles,
                self@.world_size == start.world_size,
                self@.delta_step == start.delta_step,
                0 <= total < FIXED_STEP + MAX_FRAME_TIME,
                self@.accumulated_time.raw == total - k * FIXED_STEP,
                self@.accumulated_time.raw >= 0,
                start.steps(self@.with_time(start.accumulated_time), k, start.delta_step),
            decreases self@.accumulated_time.raw,
        {
            let ghost before = self@;
            self.integrate(self.delta_step);
            proof {
                assert(before.with_time(start.accumulated_time).step(
                    self@.with_time(start.accumulated_time),
                    start.delta_step,
                ));
            }
            self.accumulated_time = self.accumulated_time - self.delta_step;
            proof {
                k = k + 1;
            }
        }

        proof {
            lemma_proper_fraction(self.accumulated_time, self.delta_step);
        }
        self.accumulated_time / self.delta_step
    }
}

} // verus!
