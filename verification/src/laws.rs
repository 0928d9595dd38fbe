//! What holds of every world: what fixed steps keep, what the time
//! accumulator makes of frame times however they are cut, and what a
//! recycled particle looks like.

use crate::fixed::lemma_lerp_of_equals;
use crate::fixed::lemma_mul_one;
use crate::fixed::Fixed;
use crate::particles::physics::FIXED_STEP;
use crate::particles::physics::MAX_FRAME_TIME;
use crate::particles::physics::TWO_PI;
use crate::particles::ParticlePhysics;
use crate::world::particle_stepped;
use crate::world::WorldView;
use vstd::prelude::*;

verus! {

/// A rotation that is wrapped stays wrapped when it advances by no more than
/// one fixed step.
pub proof fn lemma_rotation_stays_wrapped(p: ParticlePhysics, dt: Fixed)
    requires
        0 <= p.rotation.raw < TWO_PI,
        0 <= dt.raw <= FIXED_STEP,
    ensures
        0 <= p.rotated(dt).rotation.raw < TWO_PI,
{
    lemma_mul_one(dt);
}

/// A fixed step keeps the world well formed: the snapshots stay as long as
/// the list of particles, and every rotation stays wrapped.
pub proof fn lemma_step_keeps_bodies_wf(first: WorldView, next: WorldView, dt: Fixed)
    requires
        first.bodies_wf(),
        0 < dt.raw <= FIXED_STEP,
        first.step(next, dt),
    ensures
        next.bodies_wf(),
{
    assert forall|i: int| 0 <= i < next.current.len() implies 0 <= (#[trigger] next.current[i]).rotation.raw
        < TWO_PI && 0 <= next.previous[i].rotation.raw < TWO_PI by {
        let before = first.current[i];
        let particle = first.particles[i];
        assert(particle_stepped(
            before,
            particle,
            dt,
            first.world_size,
            next.previous[i],
            next.current[i],
        ));
        lemma_rotation_stays_wrapped(
            before.loaded(particle.gravity).integrated(dt, particle.mass),
            dt,
        );
    }
    assert forall|i: int| 0 <= i < next.previous.len() implies 0 <= (#[trigger] next.previous[i]).rotation.raw
        < TWO_PI by {
        assert(0 <= next.current[i].rotation.raw < TWO_PI);
    }
}

/// Any number of fixed steps keeps the world well formed.
pub proof fn lemma_steps_keep_bodies_wf(first: WorldView, last: WorldView, k: nat)
    requires
        first.bodies_wf(),
        first.steps(last, k, first.delta_step),
    ensures
        last.bodies_wf(),
    decreases k,
{
    if k > 0 {
        let dt = first.delta_step;
        let mid = choose|mid: WorldView|
            first.steps(mid, (k - 1) as nat, dt) && #[trigger] mid.step(last, dt);
        lemma_steps_keep_bodies_wf(first, mid, (k - 1) as nat);
        lemma_step_keeps_bodies_wf(mid, last, dt);
    }
}

/// An update keeps the world well formed, and leaves less than one fixed
/// step of time over.
pub proof fn lemma_update_keeps_wf(first: WorldView, frame_time: Fixed, last: WorldView)
    requires
        first.wf(),
        first.updated(frame_time, last),
    ensures
        last.wf(),
{
    lemma_steps_keep_bodies_wf(
        first,
        last.with_time(first.accumulated_time),
        first.steps_due(frame_time),
    );
    assert(last.with_time(first.accumulated_time).bodies_wf());
    assert(last.bodies_wf());
}

/// Every fixed step leaves the static data, the bounds and the clock alone,
/// and so does any number of them.
pub proof fn lemma_steps_keep_frame(first: WorldView, last: WorldView, k: nat, dt: Fixed)
    requires
        first.steps(last, k, dt),
    ensures
        last.particles == first.particles,
        last.world_size == first.world_size,
        last.accumulated_time == first.accumulated_time,
        last.delta_step == first.delta_step,
        last.previous.len() == first.previous.len(),
        last.current.len() == first.current.len(),
    decreases k,
{
    if k > 0 {
        let mid = choose|mid: WorldView|
            first.steps(mid, (k - 1) as nat, dt) && #[trigger] mid.step(last, dt);
        lemma_steps_keep_frame(first, mid, (k - 1) as nat, dt);
    }
}

/// Fixed steps do not look at the clock: what they make of a world they make
/// of it at any reading of the time left over.
pub proof fn lemma_steps_ignore_time(first: WorldView, last: WorldView, k: nat, dt: Fixed, t: Fixed)
    requires
        first.steps(last, k, dt),
    ensures
        first.with_time(t).steps(last.with_time(t), k, dt),
    decreases k,
{
    if k > 0 {
        let mid = choose|mid: WorldView|
            first.steps(mid, (k - 1) as nat, dt) && #[trigger] mid.step(last, dt);
        lemma_steps_ignore_time(first, mid, (k - 1) as nat, dt, t);
        assert(mid.with_time(t).step(last.with_time(t), dt));
    }
}

/// `j` steps and then `k` steps are `j + k` steps.
pub proof fn lemma_steps_compose(
    first: WorldView,
    mid: WorldView,
    last: WorldView,
    j: nat,
    k: nat,
    dt: Fixed,
)
    requires
        first.steps(mid, j, dt),
        mid.steps(last, k, dt),
    ensures
        first.steps(last, j + k, dt),
    decreases k,
{
    if k > 0 {
        let before = choose|before: WorldView|
            mid.steps(before, (k - 1) as nat, dt) && #[trigger] before.step(last, dt);
        lemma_steps_compose(first, mid, before, j, (k - 1) as nat, dt);
        assert(first.steps(before, (j + k - 1) as nat, dt) && before.step(last, dt));
    }
}

/// `j + k` steps pass through a state that is `j` steps after the first and
/// `k` steps before the last.
pub proof fn lemma_steps_split(first: WorldView, last: WorldView, j: nat, k: nat, dt: Fixed) -> (mid:
    WorldView)
    requires
        first.steps(last, j + k, dt),
    ensures
        first.steps(mid, j, dt),
        mid.steps(last, k, dt),
    decreases k,
{
    if k == 0 {
        last
    } else {
        let before = choose|before: WorldView|
            first.steps(before, (j + k - 1) as nat, dt) && #[trigger] before.step(last, dt);
        let mid = lemma_steps_split(first, before, j, (k - 1) as nat, dt);
        assert(mid.steps(before, (k - 1) as nat, dt) && before.step(last, dt));
        mid
    }
}

/// A particle that leaves the bounds during a step is fresh in both
/// snapshots right after it, at the top of the world, and is drawn where it
/// re-entered whatever the interpolation fraction: no streak is drawn from
/// where it left.
pub proof fn lemma_reset_is_atomic(first: WorldView, next: WorldView, dt: Fixed, i: int, f: Fixed)
    requires
        first.step(next, dt),
        0 <= i < first.current.len(),
        first.current[i].advanced(first.particles[i], dt).out_of_bounds(first.world_size),
    ensures
        next.previous[i] == next.current[i],
        next.current[i].is_fresh(next.world_size),
        next.current[i].position.y == next.world_size.y,
        next.instance(i, f).position == next.on_screen(next.current[i].position),
        next.instance(i, f).rotation == next.current[i].rotation,
{
    assert(particle_stepped(
        first.current[i],
        first.particles[i],
        dt,
        first.world_size,
        next.previous[i],
        next.current[i],
    ));
    let at = next.on_screen(next.current[i].position);
    lemma_lerp_of_equals(at.x, f);
    lemma_lerp_of_equals(at.y, f);
    lemma_lerp_of_equals(next.current[i].rotation, f);
}

/// Whether no frame time of the sequence would be clamped.
pub open spec fn frames_unclamped(frames: Seq<Fixed>) -> bool {
    forall|i: int| 0 <= i < frames.len() ==> 0 <= (#[trigger] frames[i]).raw <= MAX_FRAME_TIME
}

/// The sum of the frame times of the sequence.
pub open spec fn total_time(frames: Seq<Fixed>) -> int
    decreases frames.len(),
{
    if frames.len() == 0 {
        0
    } else {
        total_time(frames.drop_last()) + frames.last().raw
    }
}

/// `last` is a state of the world after one update for each frame time of
/// the sequence, in order.
pub open spec fn updated_all(first: WorldView, frames: Seq<Fixed>, last: WorldView) -> bool
    decreases frames.len(),
{
    if frames.len() == 0 {
        last == first
    } else {
        exists|mid: WorldView|
            updated_all(first, frames.drop_last(), mid) && #[trigger] mid.updated(
                frames.last(),
                last,
            )
    }
}

/// `last` is a state of the world after `total` seconds have been added to
/// the time left over and every whole fixed step in the sum has been run.
pub open spec fn advanced_by(first: WorldView, total: int, last: WorldView) -> bool {
    let t = first.accumulated_time.raw + total;
    &&& last.accumulated_time.raw == t % (FIXED_STEP as int)
    &&& first.steps(
        last.with_time(first.accumulated_time),
        (t / (FIXED_STEP as int)) as nat,
        first.delta_step,
    )
}

/// The sum of frame times that are not negative is not negative.
pub proof fn lemma_total_time_is_not_negative(frames: Seq<Fixed>)
    requires
        frames_unclamped(frames),
    ensures
        total_time(frames) >= 0,
    decreases frames.len(),
{
    if frames.len() > 0 {
        lemma_total_time_is_not_negative(frames.drop_last());
    }
}

/// A run of updates, none of them clamped, does to the world what their
/// summed frame time does: how the time is cut into frames makes no
/// difference.
pub proof fn lemma_updates_depend_on_sum(first: WorldView, frames: Seq<Fixed>, last: WorldView)
    requires
        first.wf(),
        frames_unclamped(frames),
    ensures
        updated_all(first, frames, last) <==> advanced_by(first, total_time(frames), last),
    decreases frames.len(),
{
    let a0 = first.accumulated_time;
    if frames.len() == 0 {
        assert(last.with_time(a0) == first && last.accumulated_time == a0 <==> last == first);
    } else {
        let fs = frames.drop_last();
        let f = frames.last();
        let dt = first.delta_step;
        lemma_total_time_is_not_negative(fs);
        let sum = total_time(fs);
        let step = FIXED_STEP as int;
        let k1 = ((a0.raw + sum) / step) as nat;
        let k2 = (((a0.raw + sum) % step + f.raw) / step) as nat;
        assert(k1 + k2 == (a0.raw + sum + f.raw) / step);
        assert(((a0.raw + sum) % step + f.raw) % step == (a0.raw + sum + f.raw) % step);
        if updated_all(first, frames, last) {
            let mid = choose|mid: WorldView|
                updated_all(first, fs, mid) && #[trigger] mid.updated(f, last);
            lemma_updates_depend_on_sum(first, fs, mid);
            lemma_steps_keep_frame(first, mid.with_time(a0), k1, dt);
            lemma_steps_ignore_time(mid, last.with_time(mid.accumulated_time), k2, dt, a0);
            assert(mid.with_time(a0).steps(last.with_time(a0), k2, dt)) by {
                assert(last.with_time(mid.accumulated_time).with_time(a0) == last.with_time(a0));
            }
            lemma_steps_compose(first, mid.with_time(a0), last.with_time(a0), k1, k2, dt);
        }
        if advanced_by(first, total_time(frames), last) {
            let b = lemma_steps_split(first, last.with_time(a0), k1, k2, dt);
            lemma_steps_keep_frame(first, b, k1, dt);
            let t = Fixed { raw: ((a0.raw + sum) % step) as i64 };
            let mid = b.with_time(t);
            assert(mid.with_time(a0) == b);
            lemma_updates_depend_on_sum(first, fs, mid);
            lemma_steps_ignore_time(b, last.with_time(a0), k2, dt, t);
            assert(last.with_time(a0).with_time(t) == last.with_time(t));
            assert(mid.updated(f, last));
        }
    }
}

/// Determinism of the accumulator: two runs of updates, none of them
/// clamped, whose frame times have one sum lead from one state of the world
/// to the same states.
pub proof fn lemma_chunking_is_irrelevant(
    first: WorldView,
    one: Seq<Fixed>,
    other: Seq<Fixed>,
    last: WorldView,
)
    requires
        first.wf(),
        frames_unclamped(one),
        frames_unclamped(other),
        total_time(one) == total_time(other),
    ensures
        updated_all(first, one, last) <==> updated_all(first, other, last),
{
    lemma_updates_depend_on_sum(first, one, last);
    lemma_updates_depend_on_sum(first, other, last);
}

/// An update by no time at all changes nothing.
pub proof fn lemma_empty_update_changes_nothing(first: WorldView, frame_time: Fixed, last: WorldView)
    requires
        first.wf(),
        frame_time.raw <= 0,
        first.updated(frame_time, last),
    ensures
        last == first,
        last.fraction() == first.fraction(),
{
    assert(last.with_time(first.accumulated_time) == first);
}

/// However long the frame, an update runs no more fixed steps than fit into
/// the longest frame time, and none for a frame time that is not positive.
pub proof fn lemma_steps_are_bounded(first: WorldView, frame_time: Fixed)
    requires
        first.wf(),
    ensures
        first.steps_due(frame_time) <= MAX_FRAME_TIME / FIXED_STEP,
        frame_time.raw <= 0 ==> first.steps_due(frame_time) == 0,
{
}

} // verus!
