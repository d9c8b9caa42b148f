use nalgebra::Vector3 as Vec3;
use spiderweb_sim::scalar::{Scalar, Vector3};
use spiderweb_sim::web::{Particle, ParticleType, SilkStrand, Spiderweb, StrandProbe};
use spiderweb_sim::webgen::{
    Anchor, FramePoint, SpiralWalk, Stage, Webgen, MAX_SUBDIVISIONS, NUM_RINGS, PARTICLES_PER_RING,
};

fn enc(x: f64) -> Scalar {
    Scalar::from_bits(x.to_bits())
}

fn dec(s: Scalar) -> f64 {
    f64::from_bits(s.to_bits())
}

fn enc3(v: Vec3<f64>) -> Vector3 {
    Vector3::new(enc(v.x), enc(v.y), enc(v.z))
}

fn at(web: &Spiderweb, particle: usize) -> Vec3<f64> {
    let p = web.particles[particle].position;
    Vec3::new(dec(p.x), dec(p.y), dec(p.z))
}

fn gap_to_segment(point: Vec3<f64>, start: Vec3<f64>, end: Vec3<f64>) -> f64 {
    let v = end - start;
    let w = point - start;
    let t = (w.dot(&v) / v.dot(&v)).clamp(0.0, 1.0);
    (point - (start + v * t)).magnitude()
}

fn measure(web: &Spiderweb, point: Vec3<f64>) -> Vec<StrandProbe> {
    web.strands
        .iter()
        .map(|strand| {
            let start = at(web, strand.start);
            let end = at(web, strand.end);
            StrandProbe {
                distance: enc(gap_to_segment(point, start, end)),
                to_start: enc((point - start).magnitude()),
                to_end: enc((point - end).magnitude()),
            }
        })
        .collect()
}

fn silk(point: Vec3<f64>) -> Particle {
    Particle::new(enc3(point), Vector3::zeros(), enc(1.0), false, ParticleType::Silk)
}

fn strand(start: usize, end: usize, length: f64) -> SilkStrand {
    SilkStrand::new(start, end, enc(length), enc(1000.0), enc(10.0))
}

/// Numbers between 0 and 1 that repeat from run to run.
struct Dice(u64);

impl Dice {
    fn roll(&mut self) -> f64 {
        self.0 = self.0.wrapping_mul(6364136223846793005).wrapping_add(1442695040888963407);
        (self.0 >> 11) as f64 / (1u64 << 53) as f64
    }

    fn between(&mut self, low: f64, high: f64) -> f64 {
        low + (high - low) * self.roll()
    }
}

fn quadrant_of(angle: f64) -> usize {
    ((angle % 360.0) / 90.0).floor() as usize
}

fn frame_points(ends: &[Vec3<f64>]) -> Vec<FramePoint> {
    let count = ends.len();
    (0..count)
        .map(|i| FramePoint {
            position: enc3(ends[i]),
            to_center: enc(ends[i].norm()),
            to_previous: enc((ends[i] - ends[(i + count - 1) % count]).norm()),
        })
        .collect()
}

fn build_frame(webgen: &mut Webgen, dice: &mut Dice) {
    let genes = webgen.genes;
    let count = genes.num_first_radii;
    let mut cur_angle = 90.0 - dec(genes.phase_angle_offset);
    let spacing = 360.0 / count as f64;
    let mut ends = Vec::new();
    for _ in 0..count {
        cur_angle += dice.between(dec(genes.variability_factor.0), dec(genes.variability_factor.1))
            + spacing;
        let (from, to) = genes.direction_bias_span(quadrant_of(cur_angle));
        let bias = dec(from) + (dec(to) - dec(from)) * ((cur_angle % 360.0) % 90.0 / 90.0);
        let radius = 1.0 + bias;
        ends.push(Vec3::new(
            radius * cur_angle.to_radians().cos(),
            radius * cur_angle.to_radians().sin(),
            0.0,
        ));
    }
    assert!(webgen.stage_1(&frame_points(&ends)));
}

fn fill_gaps(webgen: &mut Webgen) {
    let genes = webgen.genes;
    let mut cur_angle = 90.0 - dec(genes.phase_angle_offset);
    while let Some((base, next)) = webgen.stage_2_target() {
        let web = webgen.web();
        let between = (at(web, next) - at(web, 0)).angle(&(at(web, base) - at(web, 0))).to_degrees();
        let limit = cur_angle + between;
        let start_angle = cur_angle;
        loop {
            let advanced = cur_angle + dec(genes.sub_radii_bias_in(quadrant_of(cur_angle)));
            let web = webgen.web();
            let point = at(web, base).lerp(&at(web, next), (advanced - start_angle) / between);
            let probes = measure(web, point);
            if !webgen.stage_2_point(
                enc(advanced + 5.0),
                enc(limit),
                enc3(point),
                enc(point.norm()),
                &probes,
            ) {
                break;
            }
            cur_angle = advanced;
        }
    }
    let web = webgen.web();
    let anchors: Vec<Anchor> = webgen
        .base_radii()
        .iter()
        .map(|&radius| Anchor {
            position: enc3(at(web, radius) * 2.0),
            length: enc(at(web, radius).norm()),
        })
        .collect();
    assert!(webgen.stage_2_anchors(&anchors));
}

fn lay_first_loop(webgen: &mut Webgen) {
    let genes = webgen.genes;
    let mut magnitude = dec(genes.first_radial_point_offset);
    while let Some(radius) = webgen.stage_3_target() {
        let web = webgen.web();
        let point = at(web, radius).normalize() * magnitude;
        let probes = measure(web, point);
        let to_previous = (point - at(web, web.particles.len() - 1)).norm();
        assert!(webgen.stage_3_point(enc3(point), &probes, enc(to_previous)));
        magnitude += dec(genes.radial_point_offset);
    }
}

/// Grows the spiral for at most `budget` steps and says how many it took,
/// or `None` where the walk had not ended by then.
fn grow_spiral(webgen: &mut Webgen, dice: &mut Dice, budget: usize) -> Option<usize> {
    let deviation = dec(webgen.genes.deviation_value);
    let points = webgen.radial_points();
    let (first, last) = (points[0], points[points.len() - 1]);
    let gap = (at(webgen.web(), first) - at(webgen.web(), last)).norm();
    assert!(webgen.stage_4_begin(enc(gap)));
    for taken in 0..budget {
        let (from, boundary) = match webgen.stage_4_target() {
            Some(target) => target,
            None => return Some(taken),
        };
        let walk = webgen.stage_4_walk().unwrap();
        let web = webgen.web();
        let stride = dec(walk.last_dist) * at(web, from).normalize();
        let point = at(web, from) + stride;
        let step = stride.norm() + dice.between(-deviation, deviation);
        let probes = measure(web, point);
        let to_previous = (point - at(web, web.particles.len() - 1)).norm();
        webgen.stage_4_point(
            enc(point.norm()),
            enc(at(web, boundary).norm()),
            enc3(point),
            enc(step),
            &probes,
            enc(to_previous),
        );
    }
    if webgen.stage() == Stage::Done {
        Some(budget)
    } else {
        None
    }
}

fn generate(webgen: &mut Webgen, seed: u64, budget: usize) -> Option<usize> {
    let mut dice = Dice(seed);
    webgen.reset();
    build_frame(webgen, &mut dice);
    fill_gaps(webgen);
    lay_first_loop(webgen);
    grow_spiral(webgen, &mut dice, budget)
}

fn every_index_names_a_particle(webgen: &Webgen) -> bool {
    let count = webgen.web().particles.len();
    webgen.web().is_well_formed()
        && webgen.base_radii().iter().all(|&i| i < count)
        && webgen.all_radii().iter().all(|&i| i < count)
        && webgen.radial_points().iter().all(|&i| i < count)
}

/// A triangle of radius ends around the centre.
fn triangle() -> Vec<Vec3<f64>> {
    vec![Vec3::new(1.0, 0.0, 0.0), Vec3::new(-0.5, 0.8, 0.0), Vec3::new(-0.5, -0.8, 0.0)]
}

fn framed() -> Webgen {
    let mut webgen = Webgen::new();
    assert!(webgen.stage_1(&frame_points(&triangle())));
    webgen
}

/// A generator whose gaps are closed with no radius between the base radii,
/// and whose anchors are set.
fn anchored() -> Webgen {
    let mut webgen = framed();
    for _ in 0..3 {
        let probes = measure(webgen.web(), Vec3::zeros());
        assert!(!webgen.stage_2_point(enc(1.0), enc(0.0), Vector3::zeros(), enc(0.0), &probes));
    }
    let anchors: Vec<Anchor> = triangle()
        .iter()
        .map(|end| Anchor { position: enc3(end * 2.0), length: enc(end.norm()) })
        .collect();
    assert!(webgen.stage_2_anchors(&anchors));
    webgen
}

/// A generator whose first loop is closed, with the points 0.1, 0.2, .. from
/// the centre.
fn looped() -> Webgen {
    let mut webgen = anchored();
    let mut k = 1.0;
    while let Some(radius) = webgen.stage_3_target() {
        let point = at(webgen.web(), radius).normalize() * (0.1 * k);
        let probes = measure(webgen.web(), point);
        assert!(webgen.stage_3_point(enc3(point), &probes, enc(0.1)));
        k += 1.0;
    }
    webgen
}

/// Takes one step of the spiral, within the frame or beyond it.
fn spiral_step(webgen: &mut Webgen, within: bool) -> bool {
    let (from, _) = webgen.stage_4_target().unwrap();
    let point = at(webgen.web(), from) * 1.01;
    let probes = measure(webgen.web(), point);
    let reached = if within { 0.5 } else { 2.0 };
    webgen.stage_4_point(enc(reached), enc(1.0), enc3(point), enc(0.01), &probes, enc(0.02))
}

fn walk_of(webgen: &Webgen) -> SpiralWalk {
    webgen.stage_4_walk().unwrap()
}

#[test]
fn default_genes_are_as_documented() {
    let genes = Webgen::new().genes;
    assert_eq!(genes.num_first_radii, 3);
    assert_eq!(dec(genes.phase_angle_offset), 60.0);
    assert_eq!((dec(genes.variability_factor.0), dec(genes.variability_factor.1)), (-5.0, 5.0));
    let b = genes.direction_biases;
    assert_eq!((dec(b.0), dec(b.1), dec(b.2), dec(b.3)), (0.1, 0.1, 0.1, 1.0));
    assert!(!genes.function_type);
    assert_eq!(dec(genes.influence_factor), 0.5);
    let r = genes.sub_radii_bias;
    assert_eq!((dec(r.0), dec(r.1), dec(r.2), dec(r.3)), (30.0, 30.0, 30.0, 15.0));
    assert_eq!(dec(genes.first_radial_point_offset), 0.04);
    assert_eq!(dec(genes.radial_point_offset), 0.002);
    assert_eq!(dec(genes.deviation_value), 0.02);
}

#[test]
fn genes_can_be_set_one_by_one() {
    let mut webgen = Webgen::new();
    webgen.genes.num_first_radii = 7;
    webgen.genes.deviation_value = enc(0.5);
    webgen.genes.direction_biases.2 = enc(0.9);
    assert_eq!(webgen.genes.num_first_radii, 7);
    assert_eq!(dec(webgen.genes.deviation_value), 0.5);
    assert_eq!(dec(webgen.genes.direction_biases.2), 0.9);
    assert_eq!(dec(webgen.genes.radial_point_offset), 0.002);
    assert_eq!(webgen.stage(), Stage::Frame);
}

#[test]
fn bias_span_runs_round_the_quadrants() {
    let mut genes = Webgen::new().genes;
    genes.direction_biases = (enc(1.0), enc(2.0), enc(3.0), enc(4.0));
    assert_eq!(genes.direction_bias_span(0), (enc(1.0), enc(2.0)));
    assert_eq!(genes.direction_bias_span(1), (enc(2.0), enc(3.0)));
    assert_eq!(genes.direction_bias_span(2), (enc(3.0), enc(4.0)));
    assert_eq!(genes.direction_bias_span(3), (enc(4.0), enc(1.0)));
}

#[test]
fn sub_radii_bias_goes_by_quadrant() {
    let genes = Webgen::new().genes;
    assert_eq!(dec(genes.sub_radii_bias_in(0)), 30.0);
    assert_eq!(dec(genes.sub_radii_bias_in(1)), 30.0);
    assert_eq!(dec(genes.sub_radii_bias_in(2)), 30.0);
    assert_eq!(dec(genes.sub_radii_bias_in(3)), 15.0);
}

#[test]
fn simple_web_has_25_particles_and_45_strands() {
    let mut webgen = Webgen::new();
    let mut places: Vec<Vec3<f64>> = Vec::new();
    for ring in 0..5 {
        let radius = 0.15 * (ring as f64 + 1.0);
        for i in 0..5 {
            let angle = 2.0 * std::f64::consts::PI * (i as f64) / 5.0;
            places.push(Vec3::new(radius * angle.cos(), radius * angle.sin(), 0.0));
        }
    }
    let positions: Vec<Vector3> = places.iter().map(|&p| enc3(p)).collect();
    let plan = Webgen::simple_web_plan();
    let lengths: Vec<Scalar> =
        plan.iter().map(|&(a, b)| enc((places[a] - places[b]).norm())).collect();
    let web = webgen.simple_web(&positions, &lengths);

    assert_eq!((NUM_RINGS, PARTICLES_PER_RING), (5, 5));
    assert_eq!(web.particles.len(), 25);
    assert_eq!(web.strands.len(), 45);
    let around = web.strands.iter().filter(|s| s.start / 5 == s.end / 5).count();
    let outward = web.strands.iter().filter(|s| s.start / 5 + 1 == s.end / 5).count();
    assert_eq!((around, outward), (25, 20));
    for (k, particle) in web.particles.iter().enumerate() {
        assert_eq!(particle.fixed, k >= 20, "particle {k}");
        assert_eq!(particle.position, positions[k]);
        assert_eq!(particle.prev_position, positions[k]);
        assert_eq!(particle.velocity, Vector3::zeros());
        assert_eq!(dec(particle.mass), 0.1);
        assert_eq!(particle.particle_type, ParticleType::Silk);
    }
    for (k, strand) in web.strands.iter().enumerate() {
        assert_eq!((strand.start, strand.end), plan[k]);
        assert_eq!(strand.length, lengths[k]);
        assert_eq!(dec(strand.stiffness), 1.0);
        assert_eq!(dec(strand.damping), 0.2);
    }
    assert!(web.is_well_formed());
    assert_eq!(webgen.stage(), Stage::Done);
    assert_eq!(webgen.web().strands, web.strands);
    assert_eq!(webgen.to_web().particles, web.particles);
    // A ring strand of the innermost ring is as long as the chord of a fifth
    // of its circle.
    let chord = 2.0 * 0.15 * (std::f64::consts::PI / 5.0).sin();
    assert!((dec(web.strands[0].length) - chord).abs() < 1e-12);
    // A radial strand is as long as the rings are apart.
    assert!((dec(web.strands[25].length) - 0.15).abs() < 1e-12);
}

#[test]
fn simple_web_plan_goes_round_the_rings_and_then_outward() {
    let plan = Webgen::simple_web_plan();
    assert_eq!(plan.len(), 45);
    assert_eq!(&plan[0..5], &[(0, 1), (1, 2), (2, 3), (3, 4), (4, 0)]);
    assert_eq!(&plan[20..25], &[(20, 21), (21, 22), (22, 23), (23, 24), (24, 20)]);
    assert_eq!(&plan[25..29], &[(0, 5), (5, 10), (10, 15), (15, 20)]);
    assert_eq!(&plan[41..45], &[(4, 9), (9, 14), (14, 19), (19, 24)]);
}

#[test]
fn frame_is_a_ring_of_radii_round_the_centre() {
    let webgen = framed();
    let ends = triangle();
    let web = webgen.web();
    assert_eq!(web.particles.len(), 4);
    assert_eq!(web.particles[0], silk(Vec3::zeros()));
    for i in 0..3 {
        assert_eq!(web.particles[i + 1], silk(ends[i]));
    }
    let side = |a: usize, b: usize| (ends[a] - ends[b]).norm();
    assert_eq!(
        web.strands,
        vec![
            strand(0, 1, ends[0].norm()),
            strand(0, 2, ends[1].norm()),
            strand(1, 2, side(1, 0)),
            strand(0, 3, ends[2].norm()),
            strand(2, 3, side(2, 1)),
            strand(3, 1, side(0, 2)),
        ]
    );
    assert_eq!(webgen.base_radii(), &vec![1, 2, 3]);
    assert_eq!(webgen.all_radii(), &vec![1]);
    assert!(webgen.radial_points().is_empty());
    assert_eq!(webgen.stage(), Stage::Subdivision { base: 1, count: 0 });
    assert_eq!(webgen.stage_2_target(), Some((1, 2)));
}

#[test]
fn frame_of_one_radius_closes_on_itself() {
    let mut webgen = Webgen::new();
    webgen.genes.num_first_radii = 1;
    let end = Vec3::new(0.0, 1.5, 0.0);
    assert!(webgen.stage_1(&frame_points(&[end])));
    assert_eq!(webgen.web().strands, vec![strand(0, 1, 1.5), strand(1, 1, 0.0)]);
    assert_eq!(webgen.stage_2_target(), Some((1, 1)));
}

#[test]
fn frame_without_radii_is_refused() {
    let mut webgen = Webgen::new();
    webgen.genes.num_first_radii = 0;
    assert!(!webgen.stage_1(&Vec::new()));
    assert_eq!(webgen.stage(), Stage::Frame);
    assert!(webgen.web().particles.is_empty());
    assert!(webgen.web().strands.is_empty());
}

#[test]
fn frame_of_the_wrong_size_is_refused() {
    let mut webgen = Webgen::new();
    let two = frame_points(&triangle()[0..2]);
    assert!(!webgen.stage_1(&two));
    assert_eq!(webgen.stage(), Stage::Frame);
    assert!(webgen.web().particles.is_empty());
}

#[test]
fn frame_is_built_once() {
    let mut webgen = framed();
    assert!(!webgen.stage_1(&frame_points(&triangle())));
    assert_eq!(webgen.web().particles.len(), 4);
    assert_eq!(webgen.web().strands.len(), 6);
}

#[test]
fn stages_out_of_turn_change_nothing() {
    let mut webgen = framed();
    let probes = measure(webgen.web(), Vec3::zeros());
    assert!(!webgen.stage_2_anchors(&Vec::new()));
    assert!(!webgen.stage_3_point(Vector3::zeros(), &probes, enc(0.0)));
    assert!(!webgen.stage_4_begin(enc(0.1)));
    assert!(!webgen.stage_4_point(enc(0.0), enc(1.0), Vector3::zeros(), enc(0.0), &probes, enc(0.0)));
    assert_eq!(webgen.stage_3_target(), None);
    assert_eq!(webgen.stage_4_target(), None);
    assert_eq!(webgen.stage_4_walk(), None);
    assert_eq!(webgen.stage(), Stage::Subdivision { base: 1, count: 0 });
    assert_eq!(webgen.web().particles.len(), 4);
    assert_eq!(webgen.web().strands.len(), 6);
}

#[test]
fn a_radius_in_a_gap_is_spliced_and_tied_to_the_centre() {
    let mut webgen = framed();
    let ends = triangle();
    let point = ends[0].lerp(&ends[1], 0.25);
    let probes = measure(webgen.web(), point);
    assert!(webgen.stage_2_point(enc(40.0), enc(100.0), enc3(point), enc(point.norm()), &probes));
    let web = webgen.web();
    // The point is there twice: once as the radius end, once as the joint of
    // the frame strand that it was put into.
    assert_eq!(web.particles.len(), 6);
    assert_eq!(web.particles[4], silk(point));
    assert_eq!(web.particles[5], silk(point));
    assert_eq!(web.strands.len(), 8);
    // The nearest strand was the frame strand from 1 to 2, strand 2. The last
    // strand took its place.
    assert_eq!(web.strands[2], strand(3, 1, (ends[0] - ends[2]).norm()));
    assert_eq!(web.strands[5], strand(1, 5, (point - ends[0]).norm()));
    assert_eq!(web.strands[6], strand(5, 2, (point - ends[1]).norm()));
    assert_eq!(web.strands[7], strand(0, 4, point.norm()));
    assert_eq!(webgen.all_radii(), &vec![1, 4]);
    assert_eq!(webgen.stage(), Stage::Subdivision { base: 1, count: 1 });
    assert!(every_index_names_a_particle(&webgen));
}

#[test]
fn a_gap_closes_when_the_next_radius_has_no_room() {
    let mut webgen = framed();
    let probes = measure(webgen.web(), Vec3::zeros());
    // Just at the limit there is room.
    assert!(webgen.stage_2_point(enc(100.0), enc(100.0), Vector3::zeros(), enc(0.0), &probes));
    let probes = measure(webgen.web(), Vec3::zeros());
    assert!(!webgen.stage_2_point(enc(100.5), enc(100.0), Vector3::zeros(), enc(0.0), &probes));
    assert_eq!(webgen.stage(), Stage::Subdivision { base: 2, count: 0 });
    assert_eq!(webgen.stage_2_target(), Some((2, 3)));
    assert_eq!(webgen.all_radii(), &vec![1, 4, 2]);
    assert_eq!(webgen.web().particles.len(), 6);
}

#[test]
fn the_last_gap_runs_back_to_the_first_radius() {
    let mut webgen = framed();
    for expected in [Some((1, 2)), Some((2, 3)), Some((3, 1))] {
        assert_eq!(webgen.stage_2_target(), expected);
        let probes = measure(webgen.web(), Vec3::zeros());
        assert!(!webgen.stage_2_point(enc(1.0), enc(0.0), Vector3::zeros(), enc(0.0), &probes));
    }
    assert_eq!(webgen.stage_2_target(), None);
    assert_eq!(webgen.stage(), Stage::Anchoring);
    assert_eq!(webgen.all_radii(), &vec![1, 2, 3]);
}

#[test]
fn a_gap_takes_a_thousand_radii_and_no_more() {
    let mut webgen = framed();
    let ends = triangle();
    let mut placed = 0;
    loop {
        let point = ends[0].lerp(&ends[1], 0.5);
        let probes = measure(webgen.web(), point);
        if !webgen.stage_2_point(enc(0.0), enc(1.0), enc3(point), enc(point.norm()), &probes) {
            break;
        }
        placed += 1;
        assert!(placed <= MAX_SUBDIVISIONS);
    }
    assert_eq!(placed, 1000);
    assert_eq!(webgen.stage(), Stage::Subdivision { base: 2, count: 0 });
    assert_eq!(webgen.web().particles.len(), 4 + 2 * 1000);
    assert_eq!(webgen.web().strands.len(), 6 + 2 * 1000);
    assert_eq!(webgen.all_radii().len(), 1 + 1000 + 1);
    assert!(every_index_names_a_particle(&webgen));
}

#[test]
fn anchors_are_fixed_and_tied_to_the_base_radii() {
    let webgen = anchored();
    let ends = triangle();
    let web = webgen.web();
    assert_eq!(web.particles.len(), 7);
    assert_eq!(web.strands.len(), 9);
    for i in 0..3 {
        let anchor = web.particles[4 + i];
        assert!(anchor.fixed);
        assert_eq!(anchor.position, enc3(ends[i] * 2.0));
        assert_eq!(anchor.particle_type, ParticleType::Silk);
        assert_eq!(web.strands[6 + i], strand(i + 1, 4 + i, ends[i].norm()));
    }
    assert!(web.particles[0..4].iter().all(|p| !p.fixed));
    assert_eq!(webgen.stage(), Stage::FirstLoop { placed: 0 });
}

#[test]
fn anchors_must_be_one_for_each_base_radius() {
    let mut webgen = framed();
    for _ in 0..3 {
        let probes = measure(webgen.web(), Vec3::zeros());
        webgen.stage_2_point(enc(1.0), enc(0.0), Vector3::zeros(), enc(0.0), &probes);
    }
    let two = vec![Anchor { position: Vector3::zeros(), length: enc(1.0) }; 2];
    assert!(!webgen.stage_2_anchors(&two));
    assert_eq!(webgen.stage(), Stage::Anchoring);
    assert_eq!(webgen.web().particles.len(), 4);
}

#[test]
fn first_loop_crosses_every_radius_and_closes_on_the_first() {
    let mut webgen = anchored();
    let mut radii = Vec::new();
    while let Some(radius) = webgen.stage_3_target() {
        radii.push(radius);
        let point = at(webgen.web(), radius).normalize() * 0.1;
        let probes = measure(webgen.web(), point);
        let strands = webgen.web().strands.len();
        let particles = webgen.web().particles.len();
        assert!(webgen.stage_3_point(enc3(point), &probes, enc(0.25)));
        let web = webgen.web();
        assert_eq!(web.particles.len(), particles + 2);
        if radii.len() == 1 {
            assert_eq!(web.strands.len(), strands + 1);
        } else {
            assert_eq!(web.strands.len(), strands + 2);
            assert_eq!(*web.strands.last().unwrap(), strand(particles, particles - 1, 0.25));
        }
        assert_eq!(*webgen.radial_points().last().unwrap(), particles);
    }
    assert_eq!(radii, vec![1, 2, 3, 1]);
    assert_eq!(webgen.radial_points().len(), webgen.all_radii().len() + 1);
    assert_eq!(webgen.stage(), Stage::FirstLoop { placed: 4 });
    let probes = measure(webgen.web(), Vec3::zeros());
    assert!(!webgen.stage_3_point(Vector3::zeros(), &probes, enc(0.0)));
    assert!(every_index_names_a_particle(&webgen));
}

#[test]
fn spiral_starts_at_the_first_radial_point() {
    let mut webgen = looped();
    assert!(webgen.stage_4_begin(enc(0.3)));
    assert_eq!(
        walk_of(&webgen),
        SpiralWalk {
            index: 0,
            outward: true,
            has_flipped: false,
            just_flipped: false,
            last_dist: enc(0.3)
        }
    );
    let first = webgen.radial_points()[0];
    let bound = webgen.all_radii()[first % webgen.all_radii().len()];
    assert_eq!(webgen.stage_4_target(), Some((first, bound)));
}

#[test]
fn spiral_does_not_start_before_the_loop_is_closed() {
    let mut webgen = anchored();
    assert!(!webgen.stage_4_begin(enc(0.3)));
    assert_eq!(webgen.stage(), Stage::FirstLoop { placed: 0 });
}

#[test]
fn a_spiral_step_adds_a_point_and_moves_on() {
    let mut webgen = looped();
    assert!(webgen.stage_4_begin(enc(0.3)));
    let particles = webgen.web().particles.len();
    let strands = webgen.web().strands.len();
    let points = webgen.radial_points().len();
    assert!(spiral_step(&mut webgen, true));
    assert_eq!(webgen.web().particles.len(), particles + 2);
    assert_eq!(webgen.web().strands.len(), strands + 2);
    assert_eq!(*webgen.web().strands.last().unwrap(), strand(particles, particles - 1, 0.02));
    assert_eq!(webgen.radial_points().len(), points + 1);
    assert_eq!(*webgen.radial_points().last().unwrap(), particles);
    let walk = walk_of(&webgen);
    assert_eq!((walk.index, walk.outward, walk.has_flipped, walk.just_flipped), (1, true, false, false));
    assert_eq!(walk.last_dist, enc(0.01));
    assert!(every_index_names_a_particle(&webgen));
}

#[test]
fn a_point_on_the_frame_is_within_it() {
    let mut webgen = looped();
    assert!(webgen.stage_4_begin(enc(0.3)));
    let (from, _) = webgen.stage_4_target().unwrap();
    let point = at(webgen.web(), from);
    let probes = measure(webgen.web(), point);
    assert!(webgen.stage_4_point(enc(1.0), enc(1.0), enc3(point), enc(0.0), &probes, enc(0.0)));
}

#[test]
fn the_first_violation_turns_the_walk_inward_two_points_back() {
    let mut webgen = looped();
    assert!(webgen.stage_4_begin(enc(0.3)));
    for _ in 0..3 {
        assert!(spiral_step(&mut webgen, true));
    }
    assert_eq!(walk_of(&webgen).index, 3);
    let particles = webgen.web().particles.len();
    assert!(!spiral_step(&mut webgen, false));
    assert_eq!(webgen.web().particles.len(), particles);
    let walk = walk_of(&webgen);
    assert_eq!((walk.index, walk.outward, walk.has_flipped, walk.just_flipped), (1, false, true, true));
    assert_eq!(walk.last_dist, enc(0.01));
}

#[test]
fn two_violations_in_a_row_end_the_web() {
    let mut webgen = looped();
    assert!(webgen.stage_4_begin(enc(0.3)));
    for _ in 0..3 {
        assert!(spiral_step(&mut webgen, true));
    }
    assert!(!spiral_step(&mut webgen, false));
    assert_eq!(webgen.stage_4_walk().map(|w| w.just_flipped), Some(true));
    assert!(!spiral_step(&mut webgen, false));
    assert_eq!(webgen.stage(), Stage::Done);
    assert_eq!(webgen.stage_4_target(), None);
}

#[test]
fn a_violation_near_the_start_ends_the_web() {
    for accepted in 0..2 {
        let mut webgen = looped();
        assert!(webgen.stage_4_begin(enc(0.3)));
        for _ in 0..accepted {
            assert!(spiral_step(&mut webgen, true));
        }
        assert!(!spiral_step(&mut webgen, false));
        assert_eq!(webgen.stage(), Stage::Done, "after {accepted} steps");
    }
}

#[test]
fn an_inward_walk_runs_to_the_first_point_and_ends() {
    let mut webgen = looped();
    assert!(webgen.stage_4_begin(enc(0.3)));
    for _ in 0..5 {
        assert!(spiral_step(&mut webgen, true));
    }
    assert!(!spiral_step(&mut webgen, false));
    assert_eq!(walk_of(&webgen).index, 3);
    for expected in [2, 1, 0] {
        assert!(spiral_step(&mut webgen, true));
        let walk = walk_of(&webgen);
        assert_eq!((walk.index, walk.outward, walk.just_flipped), (expected, false, false));
    }
    assert!(spiral_step(&mut webgen, true));
    assert_eq!(webgen.stage(), Stage::Done);
}

#[test]
fn an_inward_violation_repeats_the_step_outward() {
    let mut webgen = looped();
    assert!(webgen.stage_4_begin(enc(0.3)));
    for _ in 0..5 {
        assert!(spiral_step(&mut webgen, true));
    }
    assert!(!spiral_step(&mut webgen, false));
    assert!(spiral_step(&mut webgen, true));
    assert_eq!(walk_of(&webgen).index, 2);
    assert!(!spiral_step(&mut webgen, false));
    let walk = walk_of(&webgen);
    assert_eq!((walk.index, walk.outward, walk.has_flipped, walk.just_flipped), (2, true, true, true));
    // The same step leaves the frame again, and that ends the walk.
    assert!(!spiral_step(&mut webgen, false));
    assert_eq!(webgen.stage(), Stage::Done);
}

#[test]
fn reset_goes_back_to_the_frame_and_keeps_the_genes() {
    let mut webgen = looped();
    webgen.genes.num_first_radii = 3;
    webgen.genes.deviation_value = enc(0.125);
    webgen.reset();
    assert_eq!(webgen.stage(), Stage::Frame);
    assert!(webgen.web().particles.is_empty());
    assert!(webgen.web().strands.is_empty());
    assert!(webgen.base_radii().is_empty());
    assert!(webgen.all_radii().is_empty());
    assert!(webgen.radial_points().is_empty());
    assert_eq!(dec(webgen.genes.deviation_value), 0.125);
    assert!(webgen.stage_1(&frame_points(&triangle())));
}

#[test]
fn generation_halts_and_every_strand_joins_particles() {
    let spread = [
        (3, 0.002, 0.02),
        (3, 0.002, 0.0),
        (3, 0.01, 0.005),
        (4, 0.004, 0.02),
        (5, 0.002, 0.02),
        (8, 0.003, 0.01),
    ];
    for (seed, &(radii, offset, deviation)) in spread.iter().enumerate() {
        let mut webgen = Webgen::new();
        webgen.genes.num_first_radii = radii;
        webgen.genes.radial_point_offset = enc(offset);
        webgen.genes.deviation_value = enc(deviation);
        let taken = generate(&mut webgen, 17 + seed as u64, 4000);
        assert!(taken.is_some(), "{radii} radii, offset {offset}, deviation {deviation}");
        assert_eq!(webgen.stage(), Stage::Done);
        assert!(every_index_names_a_particle(&webgen));

        let web = webgen.web();
        let gaps = webgen.all_radii().len() - radii;
        let loop_points = webgen.all_radii().len() + 1;
        let spiral_points = webgen.radial_points().len() - loop_points;
        assert!(spiral_points > 0);
        assert_eq!(
            web.particles.len(),
            1 + radii + 2 * gaps + radii + 2 * loop_points + 2 * spiral_points
        );
        assert_eq!(
            web.strands.len(),
            2 * radii + 2 * gaps + radii + (2 * loop_points - 1) + 2 * spiral_points
        );
        let fixed = web.particles.iter().filter(|p| p.fixed).count();
        assert_eq!(fixed, radii);
        assert_eq!(webgen.to_web().strands, web.strands);
    }
}

#[test]
fn a_spiral_that_does_not_widen_never_meets_the_frame() {
    // With no step from radius to radius and no deviation the first loop is a
    // circle and each further step lands where it started. Nothing turns
    // such a walk: it is still under way when the budget is spent.
    let mut webgen = Webgen::new();
    webgen.genes.radial_point_offset = enc(0.0);
    webgen.genes.deviation_value = enc(0.0);
    assert_eq!(generate(&mut webgen, 1, 300), None);
    let walk = walk_of(&webgen);
    assert_eq!((walk.index, walk.outward, walk.has_flipped), (300, true, false));
    assert!(every_index_names_a_particle(&webgen));
}
