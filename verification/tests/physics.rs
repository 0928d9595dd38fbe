use particles::fixed::Fixed;
use particles::fixed::SCALE;
use particles::particles::physics::FIXED_STEP;
use particles::particles::physics::GRAVITY_ACCEL;
use particles::particles::physics::MAX_FRAME_TIME;
use particles::particles::physics::MAX_RADIUS;
use particles::particles::physics::MIN_RADIUS;
use particles::particles::physics::SPRITE_COUNT;
use particles::particles::physics::TWO_PI;
use particles::particles::Particle;
use particles::particles::ParticlePhysics;
use particles::vec2::TVec2;
use particles::vec2::Vec2Fixed;
use particles::world::PhysicsState;

fn fx(raw: i64) -> Fixed {
    Fixed::from_raw(raw)
}

fn vec(x: i64, y: i64) -> Vec2Fixed {
    TVec2::new(fx(x), fx(y))
}

fn unit_mass() -> Particle {
    Particle {
        radius: Fixed::from_int(16),
        mass: Fixed::from_int(1),
        gravity: vec(0, GRAVITY_ACCEL),
        texid: 2,
    }
}

fn at_rest(x: i64, y: i64) -> ParticlePhysics {
    ParticlePhysics {
        speed: fx(0),
        rotation: fx(0),
        position: vec(x, y),
        velocity: vec(0, 0),
        forces: vec(0, 0),
    }
}

fn hundred() -> Vec2Fixed {
    vec(100 * SCALE, 100 * SCALE)
}

fn one_particle(state: ParticlePhysics) -> PhysicsState {
    PhysicsState::from_parts(hundred(), vec![unit_mass()], vec![state], 1).unwrap()
}

fn snapshot(w: &PhysicsState) -> (Vec<ParticlePhysics>, Vec<ParticlePhysics>, Fixed) {
    let mut previous = Vec::new();
    let mut current = Vec::new();
    for i in 0..w.len() {
        previous.push(w.previous(i));
        current.push(w.current(i));
    }
    (previous, current, w.accumulated_time())
}

#[test]
fn loads_are_gravity_alone() {
    let mut p = at_rest(0, 0);
    p.forces = vec(5, 5);
    p.compute_loads(vec(1, -2));
    assert_eq!(p.forces, vec(1, -2));
}

#[test]
fn euler_step_is_semi_implicit() {
    let mut p = at_rest(50 * SCALE, 100 * SCALE);
    p.forces = vec(3 * SCALE, -4 * SCALE);
    p.update_body_euler(Fixed::from_ratio(1, 2), Fixed::from_int(2));
    assert_eq!(p.velocity, vec(900_000, -1_200_000));
    assert_eq!(p.position, vec(60_450_000, 119_400_000));
    assert_eq!(p.speed, fx(1_500_000));
    p.update_body_euler(Fixed::from_ratio(1, 2), Fixed::from_int(2));
    assert_eq!(p.velocity, vec(1_800_000, -2_400_000));
    assert_eq!(p.position, vec(61_350_000, 118_200_000));
    assert_eq!(p.speed, Fixed::from_ratio(5, 2));
}

#[test]
fn rotation_wraps_once() {
    let mut p = at_rest(0, 0);
    p.update_rotation(fx(FIXED_STEP));
    assert_eq!(p.rotation, fx(FIXED_STEP));
    p.rotation = fx(TWO_PI - 1);
    p.update_rotation(fx(FIXED_STEP));
    assert_eq!(p.rotation, fx(FIXED_STEP - 1));
    p.rotation = fx(TWO_PI - FIXED_STEP);
    p.update_rotation(fx(FIXED_STEP));
    assert_eq!(p.rotation, fx(0));
    p.rotation = fx(TWO_PI - FIXED_STEP - 1);
    p.update_rotation(fx(FIXED_STEP));
    assert_eq!(p.rotation, fx(TWO_PI - 1));
}

#[test]
fn mass_grows_with_radius() {
    let p = Particle::new(Fixed::from_int(16), 1);
    assert_eq!(p.mass, Fixed::from_ratio(16, 1000));
    assert_eq!(p.mass, fx(19_200));
    assert_eq!(p.gravity, TVec2::new(fx(0), Fixed::from_ratio(-98, 10)));
    assert_eq!(p.texid, 1);
    assert_eq!(Particle::new(fx(76_799_999), 0).mass, fx(76_799));
}

#[test]
fn new_world_is_fresh() {
    let w = PhysicsState::new(hundred(), 64, 7);
    assert_eq!(w.len(), 64);
    assert_eq!(w.accumulated_time(), fx(0));
    assert_eq!(w.delta_step(), fx(FIXED_STEP));
    assert_eq!(w.delta_step(), Fixed::from_ratio(1, 120));
    assert_eq!(w.world_size(), hundred());
    let mut xs = Vec::new();
    for i in 0..w.len() {
        let c = w.current(i);
        assert_eq!(w.previous(i), c);
        assert_eq!(c.position.y, fx(100 * SCALE));
        assert!(0 <= c.position.x.raw && c.position.x.raw < 100 * SCALE);
        assert!(0 <= c.rotation.raw && c.rotation.raw < TWO_PI);
        assert_eq!(c.velocity, vec(0, 0));
        assert_eq!(c.forces, vec(0, 0));
        assert_eq!(c.speed, fx(0));
        let p = w.particle(i);
        assert!(MIN_RADIUS <= p.radius.raw && p.radius.raw < MAX_RADIUS);
        assert_eq!(p.mass, p.radius * Fixed::from_ratio(1, 1000));
        assert!(p.texid < SPRITE_COUNT);
        assert_eq!(p.gravity, vec(0, GRAVITY_ACCEL));
        xs.push(c.position.x);
    }
    xs.sort_by_key(|x| x.raw);
    xs.dedup();
    assert!(xs.len() > 32);
}

#[test]
fn seed_fixes_the_world() {
    let a = PhysicsState::new(hundred(), 32, 99);
    let b = PhysicsState::new(hundred(), 32, 99);
    let c = PhysicsState::new(hundred(), 32, 100);
    assert_eq!(snapshot(&a), snapshot(&b));
    assert_ne!(snapshot(&a), snapshot(&c));
}

#[test]
fn parts_are_checked() {
    let ok = |w: Vec2Fixed, p: Vec<Particle>, s: Vec<ParticlePhysics>| {
        PhysicsState::from_parts(w, p, s, 0).is_some()
    };
    assert!(ok(hundred(), vec![], vec![]));
    assert!(ok(hundred(), vec![unit_mass()], vec![at_rest(0, 0)]));
    assert!(!ok(hundred(), vec![unit_mass()], vec![]));
    assert!(!ok(hundred(), vec![], vec![at_rest(0, 0)]));
    assert!(!ok(vec(0, 100), vec![unit_mass()], vec![at_rest(0, 0)]));
    assert!(!ok(vec(-1, 100), vec![], vec![]));
    let mut weightless = unit_mass();
    weightless.mass = fx(0);
    assert!(!ok(hundred(), vec![weightless], vec![at_rest(0, 0)]));
    let mut turned = at_rest(0, 0);
    turned.rotation = fx(TWO_PI);
    assert!(!ok(hundred(), vec![unit_mass()], vec![turned]));
    turned.rotation = fx(-1);
    assert!(!ok(hundred(), vec![unit_mass()], vec![turned]));
    turned.rotation = fx(TWO_PI - 1);
    assert!(ok(hundred(), vec![unit_mass()], vec![turned]));
}

#[test]
fn one_step_of_free_fall() {
    let mut w = one_particle(at_rest(50 * SCALE, 100 * SCALE));
    w.integrate(fx(FIXED_STEP));
    assert_eq!(w.previous(0), at_rest(50 * SCALE, 100 * SCALE));
    let c = w.current(0);
    assert_eq!(c.forces, vec(0, GRAVITY_ACCEL));
    assert_eq!(c.velocity, vec(0, -98_000));
    assert_eq!(c.position, vec(50 * SCALE, 100 * SCALE - 816));
    assert_eq!(c.speed, fx(98_000));
    assert_eq!(c.rotation, fx(FIXED_STEP));
    assert_eq!(w.accumulated_time(), fx(0));
}

#[test]
fn free_fall_for_a_second() {
    let mut w = one_particle(at_rest(50 * SCALE, 100 * SCALE));
    let mut last_y = w.current(0).position.y.raw;
    for step in 1..=120 {
        let f = w.update(fx(FIXED_STEP));
        assert_eq!(f, fx(0));
        let c = w.current(0);
        assert!(c.position.y.raw < last_y);
        assert_eq!(w.previous(0).position.y.raw, last_y);
        assert_eq!(c.velocity.y.raw, -98_000 * step);
        last_y = c.position.y.raw;
    }
    let c = w.current(0);
    assert_eq!(c.velocity.y, Fixed::from_ratio(-98, 10));
    assert_eq!(c.velocity.x, fx(0));
    assert_eq!(c.position.x, fx(50 * SCALE));
    assert_eq!(c.position.y, fx(114_071_040));
    assert_eq!(c.speed, Fixed::from_ratio(98, 10));
}

#[test]
fn a_second_in_four_frames_is_120_steps() {
    let mut stepped = one_particle(at_rest(50 * SCALE, 100 * SCALE));
    for _ in 0..120 {
        stepped.update(fx(FIXED_STEP));
    }
    let mut framed = one_particle(at_rest(50 * SCALE, 100 * SCALE));
    for _ in 0..4 {
        let f = framed.update(Fixed::from_ratio(1, 4));
        assert_eq!(framed.accumulated_time(), fx(0));
        assert_eq!(f, fx(0));
    }
    assert_eq!(snapshot(&framed), snapshot(&stepped));
    assert_eq!(framed.current(0).velocity.y, Fixed::from_ratio(-98, 10));
}

#[test]
fn long_frames_are_clamped() {
    let mut w = one_particle(at_rest(50 * SCALE, 100 * SCALE));
    assert_eq!(MAX_FRAME_TIME / FIXED_STEP, 30);
    let f = w.update(Fixed::from_int(1000));
    assert_eq!(w.current(0).velocity.y.raw, -98_000 * 30);
    assert_eq!(w.accumulated_time(), fx(0));
    assert_eq!(f, fx(0));

    let mut other = one_particle(at_rest(50 * SCALE, 100 * SCALE));
    other.update(fx(MAX_FRAME_TIME));
    assert_eq!(snapshot(&w), snapshot(&other));
}

#[test]
fn leftover_time_buys_no_step_beyond_the_bound() {
    let mut w = one_particle(at_rest(50 * SCALE, 100 * SCALE));
    w.update(fx(FIXED_STEP - 1));
    assert_eq!(w.current(0).velocity.y.raw, 0);
    assert_eq!(w.accumulated_time(), fx(FIXED_STEP - 1));
    let f = w.update(Fixed::from_int(1000));
    assert_eq!(w.current(0).velocity.y.raw, -98_000 * 30);
    assert_eq!(w.accumulated_time(), fx(FIXED_STEP - 1));
    assert_eq!(f, fx(1_199_880));
}

#[test]
fn negative_frames_count_as_zero() {
    let mut w = one_particle(at_rest(50 * SCALE, 100 * SCALE));
    w.update(fx(5_000));
    let before = snapshot(&w);
    let f = w.update(Fixed::from_int(-1));
    assert_eq!(snapshot(&w), before);
    assert_eq!(f, w.fraction());
    let f = w.update(fx(i64::MIN));
    assert_eq!(snapshot(&w), before);
    assert_eq!(f, fx(5_000) / fx(FIXED_STEP));
}

#[test]
fn empty_update_changes_nothing() {
    let mut w = PhysicsState::new(hundred(), 16, 3);
    w.update(fx(100_000));
    let before = snapshot(&w);
    let fraction = w.fraction();
    for _ in 0..5 {
        assert_eq!(w.update(fx(0)), fraction);
        assert_eq!(snapshot(&w), before);
    }
}

#[test]
fn fraction_is_a_proper_fraction() {
    let mut w = PhysicsState::new(hundred(), 4, 11);
    let mut frame = 1;
    for _ in 0..500 {
        frame = (frame * 7919 + 13) % 300_000;
        let f = w.update(fx(frame));
        assert!(0 <= f.raw && f.raw < SCALE);
        assert_eq!(f, w.fraction());
        assert_eq!(f, w.accumulated_time() / w.delta_step());
        assert!(0 <= w.accumulated_time().raw && w.accumulated_time().raw < FIXED_STEP);
    }
}

#[test]
fn fraction_has_its_exact_value() {
    let mut w = one_particle(at_rest(50 * SCALE, 100 * SCALE));
    assert_eq!(w.update(fx(4_000)), Fixed::from_ratio(4, 10));
    assert_eq!(w.update(fx(4_000)), Fixed::from_ratio(8, 10));
    assert_eq!(w.update(fx(2_000)), fx(0));
    assert_eq!(w.update(fx(9_999)), fx(1_199_880));
    assert_eq!(w.update(fx(6_666)), fx(799_800));
}

#[test]
fn chunking_makes_no_difference() {
    let chunkings: [&[i64]; 5] = [
        &[3 * FIXED_STEP],
        &[FIXED_STEP, FIXED_STEP, FIXED_STEP],
        &[1, 3 * FIXED_STEP - 2, 1],
        &[2 * FIXED_STEP + 5, FIXED_STEP - 5],
        &[0, 4_000, 4_000, 4_000, 4_000, 4_000, 4_000, 6_000, 0],
    ];
    let mut outcomes = Vec::new();
    for frames in chunkings.iter() {
        let mut w = one_particle(at_rest(50 * SCALE, 100 * SCALE));
        for frame in frames.iter() {
            w.update(fx(*frame));
        }
        outcomes.push(snapshot(&w));
    }
    for outcome in outcomes.iter() {
        assert_eq!(outcome, &outcomes[0]);
    }
    assert_eq!(outcomes[0].1[0].velocity.y.raw, -98_000 * 3);
}

#[test]
fn chunking_makes_no_difference_to_recycling() {
    let tall = vec(100 * SCALE, 2 * SCALE);
    let mut whole = PhysicsState::new(tall, 256, 5);
    let mut halves = PhysicsState::new(tall, 256, 5);
    let mut steps = PhysicsState::new(tall, 256, 5);
    assert_eq!(snapshot(&whole), snapshot(&halves));
    for _ in 0..20 {
        whole.update(fx(24 * FIXED_STEP));
        halves.update(fx(12 * FIXED_STEP));
        halves.update(fx(12 * FIXED_STEP));
        for _ in 0..24 {
            steps.update(fx(FIXED_STEP));
        }
        assert_eq!(snapshot(&whole), snapshot(&halves));
        assert_eq!(snapshot(&whole), snapshot(&steps));
    }
    let recycled = (0..whole.len())
        .filter(|i| whole.current(*i).position.x != PhysicsState::new(tall, 256, 5).current(*i).position.x)
        .count();
    assert!(recycled > 0);
}

#[test]
fn falling_out_resets_both_snapshots() {
    let mut low = at_rest(50 * SCALE, 100);
    low.velocity = vec(0, -SCALE);
    low.rotation = fx(SCALE);
    let mut w = one_particle(low);
    w.update(fx(FIXED_STEP));
    let c = w.current(0);
    assert_eq!(c.position.y, fx(100 * SCALE));
    assert_eq!(w.world_size().y, c.position.y);
    assert!(0 <= c.position.x.raw && c.position.x.raw < 100 * SCALE);
    assert!(0 <= c.rotation.raw && c.rotation.raw < TWO_PI);
    assert_eq!(c.velocity, vec(0, 0));
    assert_eq!(c.forces, vec(0, 0));
    assert_eq!(c.speed, fx(0));
    assert_eq!(w.previous(0), c);
    for f in [0, 1, 300_000, SCALE - 1, SCALE] {
        let drawn = w.instance(0, fx(f));
        assert_eq!(drawn.position, vec(c.position.x.raw, 0));
        assert_eq!(drawn.rotation, c.rotation);
    }
}

#[test]
fn leaving_to_the_right_resets() {
    let mut fast = at_rest(100 * SCALE, 50 * SCALE);
    fast.velocity = vec(SCALE, 0);
    let mut w = one_particle(fast);
    w.update(fx(FIXED_STEP));
    let c = w.current(0);
    assert_eq!(c.position.y, fx(100 * SCALE));
    assert!(c.position.x.raw < 100 * SCALE);
    assert_eq!(w.previous(0), c);
}

#[test]
fn the_right_edge_itself_is_in_bounds() {
    let mut w = one_particle(at_rest(100 * SCALE, 50 * SCALE));
    w.update(fx(FIXED_STEP));
    assert_eq!(w.previous(0), at_rest(100 * SCALE, 50 * SCALE));
    assert_eq!(w.current(0).position.x, fx(100 * SCALE));
    assert_eq!(w.current(0).position.y, fx(50 * SCALE - 816));
}

#[test]
fn the_floor_itself_is_in_bounds() {
    let mut resting = at_rest(50 * SCALE, 816);
    resting.rotation = fx(5);
    let mut w = one_particle(resting);
    w.update(fx(FIXED_STEP));
    assert_eq!(w.previous(0), resting);
    assert_eq!(w.current(0).position, vec(50 * SCALE, 0));
    w.update(fx(FIXED_STEP));
    assert_eq!(w.current(0).position.y, fx(100 * SCALE));
    assert_eq!(w.previous(0), w.current(0));
}

#[test]
fn resize_moves_the_bounds_only() {
    let mut w = PhysicsState::new(hundred(), 8, 2);
    w.update(fx(20_000));
    let before = snapshot(&w);
    w.resize(640, 480);
    assert_eq!(w.world_size(), vec(640 * SCALE, 480 * SCALE));
    assert_eq!(snapshot(&w), before);
    w.resize(1, -5);
    assert_eq!(w.world_size(), vec(SCALE, -5 * SCALE));
}

#[test]
fn shrinking_recycles_at_the_next_step() {
    let mut w = one_particle(at_rest(50 * SCALE, 50 * SCALE));
    w.resize(10, 20);
    assert_eq!(w.current(0), at_rest(50 * SCALE, 50 * SCALE));
    w.update(fx(FIXED_STEP));
    let c = w.current(0);
    assert_eq!(c.position.y, fx(20 * SCALE));
    assert!(0 <= c.position.x.raw && c.position.x.raw < 10 * SCALE);
    assert_eq!(w.previous(0), c);
}

#[test]
fn instances_blend_the_snapshots() {
    let mut start = at_rest(50 * SCALE, 100 * SCALE);
    start.velocity = vec(1_440_000, 0);
    start.rotation = fx(SCALE);
    let mut w = one_particle(start);
    w.update(fx(FIXED_STEP));
    let p = w.previous(0);
    let c = w.current(0);
    assert_eq!(p.position, vec(50 * SCALE, 100 * SCALE));
    assert_eq!(c.position, vec(50 * SCALE + 12_000, 100 * SCALE - 816));
    let at = |f: i64| w.instance(0, fx(f));
    assert_eq!(at(0).position, vec(50 * SCALE, 0));
    assert_eq!(at(SCALE).position, vec(50 * SCALE + 12_000, 816));
    assert_eq!(at(SCALE / 2).position, vec(50 * SCALE + 6_000, 408));
    assert_eq!(at(SCALE / 4).position, vec(50 * SCALE + 3_000, 204));
    assert_eq!(at(1).position, vec(50 * SCALE, 0));
    assert_eq!(at(SCALE - 1).position, vec(50 * SCALE + 11_999, 815));
    assert_eq!(at(0).rotation, fx(SCALE));
    assert_eq!(at(SCALE).rotation, fx(SCALE + FIXED_STEP));
    assert_eq!(at(SCALE / 2).rotation, fx(SCALE + FIXED_STEP / 2));
    assert_eq!(at(SCALE / 2).texid, 2);
    assert_eq!(at(SCALE / 2).scale, Fixed::from_int(16));
    let all = w.instances(fx(SCALE / 4));
    assert_eq!(all, vec![at(SCALE / 4)]);
}

#[test]
fn instances_come_in_order() {
    let mut w = PhysicsState::new(hundred(), 50, 8);
    let f = w.update(fx(100_000));
    let all = w.instances(f);
    assert_eq!(all.len(), 50);
    for i in 0..50 {
        assert_eq!(all[i], w.instance(i, f));
        assert_eq!(all[i].texid, w.particle(i).texid);
        assert_eq!(all[i].scale, w.particle(i).radius);
    }
}

#[test]
fn respawn_is_at_the_top_at_rest() {
    let p = ParticlePhysics::respawn(fx(7), fx(9), vec(100, 200));
    assert_eq!(
        p,
        ParticlePhysics {
            speed: fx(0),
            rotation: fx(9),
            position: vec(7, 200),
            velocity: vec(0, 0),
            forces: vec(0, 0),
        }
    );
}
