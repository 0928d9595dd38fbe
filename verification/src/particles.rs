//! Fixed-timestep particle physics with two snapshots for interpolation.

use crate::fixed::lemma_mul_one;
use crate::fixed::Fixed;
use crate::particles::physics::GRAVITY_ACCEL;
use crate::particles::physics::PARTICLE_MASS_MULTIPLIER;
use crate::particles::physics::ROTATION_STEP;
use crate::particles::physics::TWO_PI;
use crate::vec2::TVec2;
use crate::vec2::Vec2Fixed;
use vstd::layout::size_of;
use vstd::prelude::*;
use vstd::std_specs::ops::AddSpec;
use vstd::std_specs::ops::DivSpec;
use vstd::std_specs::ops::MulSpec;
use vstd::std_specs::ops::SubSpec;

pub mod physics;

verus! {

/// Number of bytes that the items of `s` take.
pub fn slice_bytes_len<T>(s: &[T]) -> (r: usize)
    requires
        s@.len() * size_of::<T>() <= usize::MAX,
    ensures
        r == s@.len() * size_of::<T>(),
{
    s.len() * core::mem::size_of::<T>()
}

/// The zero vector.
pub open spec fn zero_vec() -> Vec2Fixed {
    TVec2 { x: Fixed { raw: 0 }, y: Fixed { raw: 0 } }
}

/// What changes every step: the dynamic state of one particle.
#[derive(Copy, Clone, Debug, PartialEq, Eq)]
pub struct ParticlePhysics {
    pub speed: Fixed,
    /// Angle of rotation in radians.
    pub rotation: Fixed,
    pub position: Vec2Fixed,
    pub velocity: Vec2Fixed,
    pub forces: Vec2Fixed,
}

/// What never changes: the static data of one particle.
#[derive(Copy, Clone, Debug, PartialEq, Eq)]
pub struct Particle {
    pub radius: Fixed,
    pub mass: Fixed,
    pub gravity: Vec2Fixed,
    pub texid: u32,
}

impl Particle {
    /// The mass of a particle of the given radius.
    pub open spec fn mass_of(radius: Fixed) -> Fixed {
        radius.mul_spec(Fixed { raw: PARTICLE_MASS_MULTIPLIER })
    }

    /// The particle of the given radius and sprite: its mass grows with its
    /// radius, and gravity pulls it straight down.
    pub fn new(radius: Fixed, texid: u32) -> (p: Particle)
        ensures
            p.radius == radius,
            p.mass == Self::mass_of(radius),
            p.texid == texid,
            p.gravity == (TVec2 { x: Fixed { raw: 0 }, y: Fixed { raw: GRAVITY_ACCEL } }),
    {
        Particle {
            radius,
            mass: radius * Fixed::from_raw(PARTICLE_MASS_MULTIPLIER),
            gravity: TVec2::new(Fixed::from_raw(0), Fixed::from_raw(GRAVITY_ACCEL)),
            texid,
        }
    }
}

impl ParticlePhysics {
    /// The state whose accumulated force is `gravity` alone.
    pub open spec fn loaded(self, gravity: Vec2Fixed) -> ParticlePhysics {
        ParticlePhysics { forces: gravity, ..self }
    }

    /// Resets the accumulated force to zero, then adds the gravity force.
    pub fn compute_loads(&mut self, gravity: Vec2Fixed)
        ensures
            *final(self) == old(self).loaded(gravity),
    {
        self.forces = TVec2::new(Fixed::from_raw(0), Fixed::from_raw(0));
        self.forces = self.forces + gravity;
    }

    /// The state after one semi-implicit Euler step: the velocity gains
    /// `forces / mass * delta`, the position gains the new velocity times
    /// `delta`, and the speed is the length of the new velocity.
    pub open spec fn integrated(self, delta: Fixed, mass: Fixed) -> ParticlePhysics {
        let a = self.forces.div_spec(mass);
        let velocity = self.velocity.add_spec(a.mul_spec(delta));
        let position = self.position.add_spec(velocity.mul_spec(delta));
        ParticlePhysics {
            velocity,
            position,
            speed: Fixed::hypot_spec(velocity.x, velocity.y),
            ..self
        }
    }

    /// One semi-implicit Euler step of `delta` seconds for a body of mass
    /// `mass`.
    pub fn update_body_euler(&mut self, delta: Fixed, mass: Fixed)
        requires
            mass.raw != 0,
        ensures
            *final(self) == old(self).integrated(delta, mass),
    {
        let a = self.forces / mass;
        let dv = a * delta;
        self.velocity = self.velocity + dv;

        let ds = self.velocity * delta;
        self.position = self.position + ds;
        self.speed = Fixed::hypot(self.velocity.x, self.velocity.y);
    }

    /// The state whose rotation has advanced by the angular rate times
    /// `delta`, less one full turn if it reached one.
    pub open spec fn rotated(self, delta: Fixed) -> ParticlePhysics {
        let r = self.rotation.add_spec(Fixed { raw: ROTATION_STEP }.mul_spec(delta));
        ParticlePhysics {
            rotation: if r.raw >= TWO_PI {
                r.sub_spec(Fixed { raw: TWO_PI })
            } else {
                r
            },
            ..self
        }
    }

    /// Advances the rotation by `delta` seconds, wrapping around once.
    pub fn update_rotation(&mut self, delta: Fixed)
        ensures
            *final(self) == old(self).rotated(delta),
            0 <= old(self).rotation.raw < TWO_PI && 0 <= delta.raw <= TWO_PI
                ==> 0 <= final(self).rotation.raw < TWO_PI,
    {
        proof {
            lemma_mul_one(delta);
        }
        self.rotation = self.rotation + Fixed::from_raw(ROTATION_STEP) * delta;
        if self.rotation.raw >= TWO_PI {
            self.rotation = self.rotation - Fixed::from_raw(TWO_PI);
        }
    }

    /// The state one step of `delta` seconds later, before the boundary is
    /// looked at.
    pub open spec fn advanced(self, particle: Particle, delta: Fixed) -> ParticlePhysics {
        self.loaded(particle.gravity).integrated(delta, particle.mass).rotated(delta)
    }

    /// Whether the particle has left the simulated area: to the right of the
    /// world, or below it.
    pub open spec fn out_of_bounds(self, world_size: Vec2Fixed) -> bool {
        self.position.x.raw > world_size.x.raw || self.position.y.raw < 0
    }

    /// The state of a particle that enters at the top of the world at `x`,
    /// at rest, turned by `rotation`.
    pub open spec fn respawned(x: Fixed, rotation: Fixed, world_size: Vec2Fixed) -> ParticlePhysics {
        ParticlePhysics {
            speed: Fixed { raw: 0 },
            rotation,
            position: TVec2 { x, y: world_size.y },
            velocity: zero_vec(),
            forces: zero_vec(),
        }
    }

    /// The state of a particle that enters at the top of the world at `x`,
    /// at rest, turned by `rotation`.
    pub fn respawn(x: Fixed, rotation: Fixed, world_size: Vec2Fixed) -> (p: ParticlePhysics)
        ensures
            p == Self::respawned(x, rotation, world_size),
    {
        ParticlePhysics {
            speed: Fixed::from_raw(0),
            rotation,
            position: TVec2::new(x, world_size.y),
            velocity: TVec2::new(Fixed::from_raw(0), Fixed::from_raw(0)),
            forces: TVec2::new(Fixed::from_raw(0), Fixed::from_raw(0)),
        }
    }

    /// Whether this is the state of a particle that has just entered a world
    /// of the given size: at its top, within its width, at rest.
    pub open spec fn is_fresh(self, world_size: Vec2Fixed) -> bool {
        &&& self.speed.raw == 0
        &&& self.velocity == zero_vec()
        &&& self.forces == zero_vec()
        &&& self.position.y == world_size.y
        &&& 0 <= self.position.x.raw < world_size.x.raw
        &&& 0 <= self.rotation.raw < TWO_PI
    }
}

} // verus!
