//! The generator: a web built from its genes in four stages.
//!
//! The frame comes first: a centre, a ring of radius ends around it, and the
//! strands between them. Then the gaps between neighbouring radii are filled
//! with further radii and the frame is tied to fixed anchors. Then one loop
//! of the capture spiral is laid across all radii, and last the spiral grows
//! until it has met the frame twice in a row or has run back to its inner
//! end.
//!
//! The generator decides what is built and in what order. Where a point
//! lies and how far it is from the strands is for the driver to work out:
//! each stage says what it wants next, takes the measurements, and moves on.
use crate::scalar::{Scalar, Vector3};
use crate::web::{closest, Particle, ParticleType, SilkStrand, Spiderweb, StrandProbe, WebView};
use vstd::prelude::*;

verus! {

/// The encoding of 1.0, the mass of a silk particle.
pub const MASS_BITS: u64 = 0x3FF0_0000_0000_0000;

/// The encoding of 1000.0, the stiffness of a strand.
pub const STIFFNESS_BITS: u64 = 0x408F_4000_0000_0000;

/// The encoding of 10.0, the damping of a strand.
pub const DAMPING_BITS: u64 = 0x4024_0000_0000_0000;

/// How many radii at most are put between two neighbouring base radii.
pub const MAX_SUBDIVISIONS: usize = 1000;

/// How many rings the ring lattice has.
pub const NUM_RINGS: usize = 5;

/// How many particles each ring of the ring lattice has.
pub const PARTICLES_PER_RING: usize = 5;

/// The encoding of 0.1, the mass of a particle of the ring lattice.
pub const LATTICE_MASS_BITS: u64 = 0x3FB9_9999_9999_999A;

/// The encoding of 1.0, the stiffness of a strand of the ring lattice.
pub const LATTICE_STIFFNESS_BITS: u64 = 0x3FF0_0000_0000_0000;

/// The encoding of 0.2, the damping of a strand of the ring lattice.
pub const LATTICE_DAMPING_BITS: u64 = 0x3FC9_9999_9999_999A;

/// The parameters that shape a web.
#[derive(Clone, Copy, Debug)]
pub struct Genes {
    /// How many radii the frame has.
    pub num_first_radii: usize,
    /// By how many degrees the first radius is turned away from north.
    pub phase_angle_offset: Scalar,
    /// The range from which the jitter of each radius's angle is drawn.
    pub variability_factor: (Scalar, Scalar),
    /// How much longer a radius is at 0, 90, 180 and 270 degrees.
    pub direction_biases: (Scalar, Scalar, Scalar, Scalar),
    /// Kept for later stages. Nothing reads it.
    pub function_type: bool,
    /// Kept for later stages. Nothing reads it.
    pub influence_factor: Scalar,
    /// The angle between two subdivided radii, for each quadrant.
    pub sub_radii_bias: (Scalar, Scalar, Scalar, Scalar),
    /// How far from the centre the capture spiral starts.
    pub first_radial_point_offset: Scalar,
    /// By how much the spiral moves outward from one radius to the next.
    pub radial_point_offset: Scalar,
    /// The bound of the random deviation of each spiral step.
    pub deviation_value: Scalar,
}

impl Genes {
    /// The two direction biases between which a radius in quadrant
    /// `quadrant` is interpolated: that of the quadrant's lower bound and
    /// that of its upper bound, the last quadrant ending where the first
    /// begins.
    pub fn direction_bias_span(&self, quadrant: usize) -> (span: (Scalar, Scalar))
        requires
            quadrant < 4,
        ensures
            quadrant == 0 ==> span == (self.direction_biases.0, self.direction_biases.1),
            quadrant == 1 ==> span == (self.direction_biases.1, self.direction_biases.2),
            quadrant == 2 ==> span == (self.direction_biases.2, self.direction_biases.3),
            quadrant == 3 ==> span == (self.direction_biases.3, self.direction_biases.0),
    {
        if quadrant == 0 {
            (self.direction_biases.0, self.direction_biases.1)
        } else if quadrant == 1 {
            (self.direction_biases.1, self.direction_biases.2)
        } else if quadrant == 2 {
            (self.direction_biases.2, self.direction_biases.3)
        } else {
            (self.direction_biases.3, self.direction_biases.0)
        }
    }

    /// The angle between two subdivided radii in quadrant `quadrant`.
    pub fn sub_radii_bias_in(&self, quadrant: usize) -> (bias: Scalar)
        requires
            quadrant < 4,
        ensures
            quadrant == 0 ==> bias == self.sub_radii_bias.0,
            quadrant == 1 ==> bias == self.sub_radii_bias.1,
            quadrant == 2 ==> bias == self.sub_radii_bias.2,
            quadrant == 3 ==> bias == self.sub_radii_bias.3,
    {
        if quadrant == 0 {
            self.sub_radii_bias.0
        } else if quadrant == 1 {
            self.sub_radii_bias.1
        } else if quadrant == 2 {
            self.sub_radii_bias.2
        } else {
            self.sub_radii_bias.3
        }
    }
}

/// One radius end of the frame.
#[derive(Clone, Copy, Debug, PartialEq, Eq, Structural)]
pub struct FramePoint {
    pub position: Vector3,
    /// Its distance from the centre.
    pub to_center: Scalar,
    /// Its distance from the radius end before it; for the first, from the
    /// last.
    pub to_previous: Scalar,
}

/// The fixed point that a base radius is tied to.
#[derive(Clone, Copy, Debug, PartialEq, Eq, Structural)]
pub struct Anchor {
    pub position: Vector3,
    /// Its distance from the base radius's end.
    pub length: Scalar,
}

/// Where the growing spiral stands.
#[derive(Clone, Copy, Debug, PartialEq, Eq, Structural)]
pub struct SpiralWalk {
    /// Which radial point the next step starts from.
    pub index: usize,
    /// Whether the walk moves to later radial points.
    pub outward: bool,
    /// Whether the walk has ever turned.
    pub has_flipped: bool,
    /// Whether the step before this one turned the walk.
    pub just_flipped: bool,
    /// The length of the last step taken.
    pub last_dist: Scalar,
}

impl SpiralWalk {
    /// The walk after a step of length `step` was taken, or `None` where it
    /// has run off the spiral's inner end.
    pub open spec fn after_accept(self, step: Scalar) -> Option<SpiralWalk> {
        if !self.has_flipped || self.outward {
            Some(
                SpiralWalk {
                    index: (self.index + 1) as usize,
                    just_flipped: false,
                    last_dist: step,
                    ..self
                },
            )
        } else if self.index == 0 {
            None
        } else {
            Some(
                SpiralWalk {
                    index: (self.index - 1) as usize,
                    just_flipped: false,
                    last_dist: step,
                    ..self
                },
            )
        }
    }

    /// The walk after a step would have left the frame: turned round, or
    /// `None` where it had turned just before or has run off the spiral's
    /// inner end.
    pub open spec fn after_violation(self) -> Option<SpiralWalk> {
        if self.just_flipped {
            None
        } else if self.outward {
            if self.index < 2 {
                None
            } else {
                Some(
                    SpiralWalk {
                        index: (self.index - 2) as usize,
                        outward: false,
                        has_flipped: true,
                        just_flipped: true,
                        ..self
                    },
                )
            }
        } else {
            Some(SpiralWalk { outward: true, has_flipped: true, just_flipped: true, ..self })
        }
    }
}

/// The walk one step further. `violated` says whether the step would have
/// left the frame, `step` how long it was if it did not.
pub open spec fn advance(walk: SpiralWalk, violated: bool, step: Scalar) -> Option<SpiralWalk> {
    if violated {
        walk.after_violation()
    } else {
        walk.after_accept(step)
    }
}

/// The walk `n` steps further, or `None` where it has ended by then.
/// `violates(index, last_dist)` says whether the step from radial point
/// `index` after a step of length `last_dist` leaves the frame: the points
/// that are placed do not move, so the same step meets the same verdict.
/// `steps(i)` is the length of step number `i`, counted from `from`.
pub open spec fn walk_after(
    walk: Option<SpiralWalk>,
    violates: spec_fn(usize, Scalar) -> bool,
    steps: spec_fn(nat) -> Scalar,
    from: nat,
    n: nat,
) -> Option<SpiralWalk>
    decreases n,
{
    if n == 0 {
        walk
    } else {
        match walk {
            None => None,
            Some(w) => walk_after(
                advance(w, violates(w.index, w.last_dist), steps(from)),
                violates,
                steps,
                from + 1,
                (n - 1) as nat,
            ),
        }
    }
}

/// Two steps in a row that would leave the frame end the walk.
pub proof fn lemma_double_flip_ends(walk: SpiralWalk)
    ensures
        match walk.after_violation() {
            Some(turned) => turned.after_violation() is None,
            None => true,
        },
{
}

/// A walk that has ended by step `n` has ended by every later step.
pub proof fn lemma_ended_walk_stays_ended(
    walk: Option<SpiralWalk>,
    violates: spec_fn(usize, Scalar) -> bool,
    steps: spec_fn(nat) -> Scalar,
    from: nat,
    n: nat,
    more: nat,
)
    requires
        walk_after(walk, violates, steps, from, n) is None,
    ensures
        walk_after(walk, violates, steps, from, n + more) is None,
    decreases n,
{
    if n > 0 {
        match walk {
            None => {},
            Some(w) => {
                lemma_ended_walk_stays_ended(
                    advance(w, violates(w.index, w.last_dist), steps(from)),
                    violates,
                    steps,
                    from + 1,
                    (n - 1) as nat,
                    more,
                );
            },
        }
    }
}

/// A walk that has turned inward ends within `index + 2` steps, whatever
/// the verdicts and the step lengths are: each step that stays within the
/// frame brings it one radial point nearer to the first, and one that does
/// not turns it round to repeat the same step, which ends it.
pub proof fn lemma_inward_walk_ends(
    walk: SpiralWalk,
    violates: spec_fn(usize, Scalar) -> bool,
    steps: spec_fn(nat) -> Scalar,
    from: nat,
)
    requires
        walk.has_flipped,
        !walk.outward,
    ensures
        walk_after(Some(walk), violates, steps, from, (walk.index + 2) as nat) is None,
    decreases walk.index,
{
    reveal_with_fuel(walk_after, 3);
    if violates(walk.index, walk.last_dist) {
    } else if walk.index > 0 {
        let next = walk.after_accept(steps(from))->Some_0;
        lemma_inward_walk_ends(next, violates, steps, from + 1);
    }
}

/// Once a step would leave the frame, the walk ends within `index + 2`
/// steps, that step counted, whichever way it moves. So the spiral stops
/// growing as soon as it has met the frame once. Until then each step adds a
/// point, and nothing but the frame stops it.
pub proof fn lemma_walk_ends_after_violation(
    walk: SpiralWalk,
    violates: spec_fn(usize, Scalar) -> bool,
    steps: spec_fn(nat) -> Scalar,
    from: nat,
)
    requires
        violates(walk.index, walk.last_dist),
    ensures
        walk_after(Some(walk), violates, steps, from, (walk.index + 2) as nat) is None,
{
    reveal_with_fuel(walk_after, 3);
    if walk.just_flipped {
    } else if walk.outward {
        if walk.index >= 2 {
            let turned = walk.after_violation()->Some_0;
            lemma_inward_walk_ends(turned, violates, steps, from + 1);
            lemma_ended_walk_stays_ended(
                Some(turned),
                violates,
                steps,
                from + 1,
                walk.index as nat,
                1,
            );
        }
    } else {
    }
}

/// How far the generator has come.
#[derive(Clone, Copy, Debug, PartialEq, Eq, Structural)]
pub enum Stage {
    /// Nothing is built. The frame is wanted.
    Frame,
    /// The gap after base radius `base` is being filled and holds `count`
    /// new radii so far.
    Subdivision { base: usize, count: usize },
    /// All gaps are filled. The anchors are wanted.
    Anchoring,
    /// The first loop of the spiral holds `placed` points so far.
    FirstLoop { placed: usize },
    /// The spiral grows.
    Spiral { walk: SpiralWalk },
    /// The web is complete.
    Done,
}

/// A free silk particle at rest.
pub open spec fn silk(position: Vector3) -> Particle {
    Particle {
        position,
        prev_position: position,
        velocity: Vector3::spec_zeros(),
        mass: Scalar { bits: MASS_BITS },
        fixed: false,
        particle_type: ParticleType::Silk,
    }
}

/// A strand of the generator's stiffness and damping.
pub open spec fn silk_strand(start: usize, end: usize, length: Scalar) -> SilkStrand {
    SilkStrand {
        start,
        end,
        length,
        stiffness: Scalar { bits: STIFFNESS_BITS },
        damping: Scalar { bits: DAMPING_BITS },
    }
}

/// The web after a point was placed: a particle is appended at `position`,
/// and a second one like it is put into the strand nearest to it, each half
/// as long as the point is far from that end.
pub open spec fn placed(web: WebView, position: Vector3, probes: Seq<StrandProbe>) -> WebView {
    let k = closest(probes);
    web.push_particle(silk(position)).insert(
        silk(position),
        k,
        probes[k].to_start,
        probes[k].to_end,
    )
}

/// The strands of the frame after `k` radius ends: for each its radius from
/// the centre and, from the second on, the frame strand from the one before.
pub open spec fn frame_strands(frame: Seq<FramePoint>, k: int) -> Seq<SilkStrand>
    decreases k,
{
    if k <= 0 {
        Seq::empty()
    } else {
        let radius = frame_strands(frame, k - 1).push(
            silk_strand(0, k as usize, frame[k - 1].to_center),
        );
        if k >= 2 {
            radius.push(silk_strand((k - 1) as usize, k as usize, frame[k - 1].to_previous))
        } else {
            radius
        }
    }
}

/// The frame after `k` radius ends has a radius for each and a frame strand
/// for each but the first.
pub proof fn lemma_frame_strands_len(frame: Seq<FramePoint>, k: int)
    requires
        k >= 1,
    ensures
        frame_strands(frame, k).len() == 2 * k - 1,
    decreases k,
{
    if k >= 2 {
        lemma_frame_strands_len(frame, k - 1);
    } else {
        assert(frame_strands(frame, 0).len() == 0);
    }
}

/// The two particles that strand `k` of the ring lattice joins. Particle
/// `i` of ring `r` has the index `r * PARTICLES_PER_RING + i`. The first
/// strands run round the rings, ring after ring, each from a particle to the
/// next of its ring and from the last to the first. The others run outward,
/// for one place in the ring after the other, each from a ring to the next.
pub open spec fn ring_edge(k: int) -> (usize, usize) {
    let per = PARTICLES_PER_RING as int;
    let around = NUM_RINGS * per;
    if k < around {
        ((k / per * per + k % per) as usize, (k / per * per + (k % per + 1) % per) as usize)
    } else {
        let gaps = NUM_RINGS - 1;
        let j = k - around;
        ((j % gaps * per + j / gaps) as usize, ((j % gaps + 1) * per + j / gaps) as usize)
    }
}

/// How many strands the ring lattice has.
pub open spec fn ring_edge_count() -> int {
    NUM_RINGS * PARTICLES_PER_RING + (NUM_RINGS - 1) * PARTICLES_PER_RING
}

/// The ring lattice: a particle at each of `positions`, those of the
/// outermost ring fixed, and the strands of [`ring_edge`] with the rest
/// lengths `lengths`.
pub open spec fn ring_lattice(positions: Seq<Vector3>, lengths: Seq<Scalar>) -> WebView {
    WebView {
        particles: Seq::new(
            (NUM_RINGS * PARTICLES_PER_RING) as nat,
            |k: int|
                Particle {
                    position: positions[k],
                    prev_position: positions[k],
                    velocity: Vector3::spec_zeros(),
                    mass: Scalar { bits: LATTICE_MASS_BITS },
                    fixed: k / (PARTICLES_PER_RING as int) == NUM_RINGS - 1,
                    particle_type: ParticleType::Silk,
                },
        ),
        strands: Seq::new(
            ring_edge_count() as nat,
            |k: int|
                SilkStrand {
                    start: ring_edge(k).0,
                    end: ring_edge(k).1,
                    length: lengths[k],
                    stiffness: Scalar { bits: LATTICE_STIFFNESS_BITS },
                    damping: Scalar { bits: LATTICE_DAMPING_BITS },
                },
        ),
    }
}

/// The generator as a value.
pub struct GenView {
    pub genes: Genes,
    pub web: WebView,
    /// The radius ends of the frame.
    pub base_radii: Seq<usize>,
    /// All radius ends, in angular order.
    pub all_radii: Seq<usize>,
    /// The points of the capture spiral, from the centre outward.
    pub radial_points: Seq<usize>,
    pub stage: Stage,
}

impl GenView {
    /// The invariant of a generator. The web is well formed and the three
    /// lists name particles of it. From the frame on, the base radii are the
    /// particles 1, 2, .. and the web has a strand. Each stage's counter is
    /// in its range.
    pub open spec fn well_formed(self) -> bool {
        &&& self.web.well_formed()
        &&& forall|i: int|
            0 <= i < self.base_radii.len() ==> #[trigger] self.base_radii[i] == i + 1
        &&& self.base_radii.len() < self.web.particles.len() || self.stage == Stage::Frame
        &&& forall|i: int|
            0 <= i < self.all_radii.len() ==> #[trigger] self.all_radii[i]
                < self.web.particles.len()
        &&& forall|i: int|
            0 <= i < self.radial_points.len() ==> #[trigger] self.radial_points[i]
                < self.web.particles.len()
        &&& match self.stage {
            Stage::Frame => {
                &&& self.web.particles.len() == 0
                &&& self.web.strands.len() == 0
                &&& self.base_radii.len() == 0
                &&& self.all_radii.len() == 0
                &&& self.radial_points.len() == 0
            },
            Stage::Subdivision { base, count } => {
                &&& 1 <= base <= self.base_radii.len()
                &&& count <= MAX_SUBDIVISIONS
                &&& self.web.strands.len() >= 1
                &&& self.all_radii.len() >= 1
                &&& self.radial_points.len() == 0
            },
            Stage::Anchoring => {
                &&& self.base_radii.len() >= 1
                &&& self.web.strands.len() >= 1
                &&& self.all_radii.len() >= 1
                &&& self.radial_points.len() == 0
            },
            Stage::FirstLoop { placed } => {
                &&& placed <= self.all_radii.len() + 1
                &&& self.radial_points.len() == placed
                &&& self.web.strands.len() >= 1
                &&& self.all_radii.len() >= 1
            },
            Stage::Spiral { walk } => {
                &&& walk.index < self.radial_points.len()
                &&& self.web.strands.len() >= 1
                &&& self.all_radii.len() >= 1
            },
            Stage::Done => true,
        }
    }

    /// The generator after the frame was built from `frame`: the centre at
    /// the origin and the radius ends after it, the strands of
    /// [`frame_strands`] and the strand that closes the ring from the last
    /// radius end to the first. The first gap is open.
    pub open spec fn after_frame(self, frame: Seq<FramePoint>) -> GenView {
        let n = frame.len() as int;
        GenView {
            genes: self.genes,
            web: WebView {
                particles: seq![silk(Vector3::spec_zeros())] + Seq::new(
                    frame.len(),
                    |i: int| silk(frame[i].position),
                ),
                strands: frame_strands(frame, n).push(
                    silk_strand(n as usize, 1, frame[0].to_previous),
                ),
            },
            base_radii: Seq::new(frame.len(), |i: int| (i + 1) as usize),
            all_radii: seq![1usize],
            radial_points: Seq::empty(),
            stage: Stage::Subdivision { base: 1, count: 0 },
        }
    }

    /// The two base radii on either side of the open gap: the one it starts
    /// at and the next in the ring, which for the last is the first.
    pub open spec fn open_gap(self) -> Option<(usize, usize)> {
        match self.stage {
            Stage::Subdivision { base, count } => Some(
                (
                    base,
                    if base == self.base_radii.len() {
                        1usize
                    } else {
                        (base + 1) as usize
                    },
                ),
            ),
            _ => None,
        }
    }

    /// How many radii stage two can still take, the refusals that close the
    /// gaps counted in: for each gap that is still to come one more than
    /// [`MAX_SUBDIVISIONS`], and for the open gap what it has room for.
    pub open spec fn subdivision_budget(self) -> int {
        match self.stage {
            Stage::Subdivision { base, count } => (self.base_radii.len() - base) * (
            MAX_SUBDIVISIONS + 1) + (MAX_SUBDIVISIONS - count) + 1,
            _ => 0,
        }
    }

    /// Whether one more radius goes into the open gap: the gap holds fewer
    /// than [`MAX_SUBDIVISIONS`], and the angle `reached`, which leaves room
    /// for the next radius, does not go beyond `limit`, the far side of the
    /// gap.
    pub open spec fn subdivides(self, reached: Scalar, limit: Scalar) -> bool {
        match self.stage {
            Stage::Subdivision { base, count } => count < MAX_SUBDIVISIONS && !limit.less(reached),
            _ => false,
        }
    }

    /// The generator after a radius end was put into the open gap: the point
    /// is placed, a radius runs to it from the centre, and it joins the list
    /// of all radii.
    pub open spec fn after_sub_radius(
        self,
        position: Vector3,
        to_center: Scalar,
        probes: Seq<StrandProbe>,
    ) -> GenView {
        let p = self.web.particles.len() as usize;
        GenView {
            web: placed(self.web, position, probes).push_strand(silk_strand(0, p, to_center)),
            all_radii: self.all_radii.push(p),
            stage: match self.stage {
                Stage::Subdivision { base, count } => Stage::Subdivision {
                    base,
                    count: (count + 1) as usize,
                },
                other => other,
            },
            ..self
        }
    }

    /// The generator after the open gap was closed: the next gap opens and
    /// its base radius joins the list of all radii, or, after the last gap,
    /// the anchors are wanted.
    pub open spec fn after_gap(self) -> GenView {
        match self.stage {
            Stage::Subdivision { base, count } => if base == self.base_radii.len() {
                GenView { stage: Stage::Anchoring, ..self }
            } else {
                GenView {
                    stage: Stage::Subdivision { base: (base + 1) as usize, count: 0 },
                    all_radii: self.all_radii.push((base + 1) as usize),
                    ..self
                }
            },
            _ => self,
        }
    }

    /// The generator after each base radius was tied to its anchor: a fixed
    /// particle for each anchor, and a strand to it from its base radius.
    pub open spec fn after_anchors(self, anchors: Seq<Anchor>) -> GenView {
        let first = self.web.particles.len();
        GenView {
            web: WebView {
                particles: self.web.particles + Seq::new(
                    anchors.len(),
                    |i: int| Particle { fixed: true, ..silk(anchors[i].position) },
                ),
                strands: self.web.strands + Seq::new(
                    anchors.len(),
                    |i: int| silk_strand(self.base_radii[i], (first + i) as usize, anchors[i].length),
                ),
            },
            stage: Stage::FirstLoop { placed: 0 },
            ..self
        }
    }

    /// The radius along which the next point of the first loop lies: each
    /// radius in turn, and once more the first to close the loop.
    pub open spec fn loop_radius(self) -> Option<usize> {
        match self.stage {
            Stage::FirstLoop { placed } => if placed < self.all_radii.len() {
                Some(self.all_radii[placed as int])
            } else if placed == self.all_radii.len() {
                Some(self.all_radii[0])
            } else {
                None
            },
            _ => None,
        }
    }

    /// The generator after a point of the first loop was laid: the point is
    /// placed and recorded as a radial point, and from the second point on a
    /// strand runs from it to the particle appended last before it.
    pub open spec fn after_loop_point(
        self,
        position: Vector3,
        probes: Seq<StrandProbe>,
        to_previous: Scalar,
    ) -> GenView {
        let p = self.web.particles.len() as usize;
        let web = placed(self.web, position, probes);
        GenView {
            web: if self.radial_points.len() > 0 {
                web.push_strand(silk_strand(p, (p - 1) as usize, to_previous))
            } else {
                web
            },
            radial_points: self.radial_points.push(p),
            stage: Stage::FirstLoop { placed: (self.radial_points.len() + 1) as usize },
            ..self
        }
    }

    /// Whether the first loop is closed and the spiral can start to grow.
    pub open spec fn loop_closed(self) -> bool {
        match self.stage {
            Stage::FirstLoop { placed } => placed == self.all_radii.len() + 1,
            _ => false,
        }
    }

    /// The radial point that the spiral's next step starts from, and the
    /// radius end that bounds it: of all radii the one whose place in the
    /// list is the radial point's index modulo their number.
    pub open spec fn spiral_target(self) -> Option<(usize, usize)> {
        match self.stage {
            Stage::Spiral { walk } => {
                let from = self.radial_points[walk.index as int];
                Some((from, self.all_radii[from as int % self.all_radii.len() as int]))
            },
            _ => None,
        }
    }

    /// Whether the spiral takes its next step: it grows, and the point's
    /// distance from the centre, `reached`, is not greater than that of the
    /// bounding radius end, `limit`.
    pub open spec fn grows(self, reached: Scalar, limit: Scalar) -> bool {
        self.stage is Spiral && !limit.less(reached)
    }

    /// The generator after the spiral took a step of length `step`: the point
    /// is placed and recorded as a radial point, a strand runs from it to
    /// the particle appended last before it, and the walk moves on.
    pub open spec fn after_spiral_point(
        self,
        position: Vector3,
        step: Scalar,
        probes: Seq<StrandProbe>,
        to_previous: Scalar,
    ) -> GenView {
        let p = self.web.particles.len() as usize;
        GenView {
            web: placed(self.web, position, probes).push_strand(
                silk_strand(p, (p - 1) as usize, to_previous),
            ),
            radial_points: self.radial_points.push(p),
            stage: match self.stage {
                Stage::Spiral { walk } => match walk.after_accept(step) {
                    Some(next) => Stage::Spiral { walk: next },
                    None => Stage::Done,
                },
                other => other,
            },
            ..self
        }
    }

    /// The generator after a step of the spiral would have left the frame:
    /// nothing is built, and the walk turns round or ends.
    pub open spec fn after_spiral_violation(self) -> GenView {
        match self.stage {
            Stage::Spiral { walk } => GenView {
                stage: match walk.after_violation() {
                    Some(next) => Stage::Spiral { walk: next },
                    None => Stage::Done,
                },
                ..self
            },
            _ => self,
        }
    }
}

/// Stage two ends: each radius that is placed and each gap that is closed
/// brings the budget down by at least one, and at a budget of 0 no gap is
/// open. So a gap is closed after [`MAX_SUBDIVISIONS`] radii at the latest,
/// whatever the angles are, and the stage takes no more steps than its
/// budget at the start.
pub proof fn lemma_subdivision_ends(
    gen: GenView,
    position: Vector3,
    to_center: Scalar,
    probes: Seq<StrandProbe>,
)
    requires
        gen.well_formed(),
        gen.base_radii.len() <= usize::MAX,
        gen.stage is Subdivision,
    ensures
        gen.subdivision_budget() > 0,
        gen.subdivision_budget() <= gen.base_radii.len() * (MAX_SUBDIVISIONS + 1),
        gen.stage matches Stage::Subdivision { base, count } && count < MAX_SUBDIVISIONS ==> 0
            <= gen.after_sub_radius(position, to_center, probes).subdivision_budget()
            < gen.subdivision_budget(),
        0 <= gen.after_gap().subdivision_budget() < gen.subdivision_budget(),
        gen.after_gap().subdivision_budget() == 0 <==> gen.after_gap().stage == Stage::Anchoring,
{
    match gen.stage {
        Stage::Subdivision { base, count } => {
            let n = gen.base_radii.len() as int;
            let step = MAX_SUBDIVISIONS + 1;
            assert((n - base) * step >= 0) by (nonlinear_arith)
                requires
                    n - base >= 0,
                    step > 0,
            ;
            assert((n - base) * step <= (n - 1) * step) by (nonlinear_arith)
                requires
                    base >= 1,
                    step > 0,
            ;
            assert((n - 1) * step + step == n * step) by (nonlinear_arith);
            if base < n {
                assert((n - (base + 1)) * step + step == (n - base) * step) by (nonlinear_arith);
                assert((n - (base + 1)) * step >= 0) by (nonlinear_arith)
                    requires
                        n - (base + 1) >= 0,
                        step > 0,
                ;
            }
        },
        _ => {},
    }
}

/// The generator: the genes, the web under construction, the lists of
/// radius ends and spiral points, and the stage reached. All but the genes
/// change only through the stages, which keep the invariant.
pub struct Webgen {
    pub genes: Genes,
    web: Spiderweb,
    base_radii: Vec<usize>,
    all_radii: Vec<usize>,
    radial_points: Vec<usize>,
    stage: Stage,
}

impl View for Webgen {
    type V = GenView;

    closed spec fn view(&self) -> GenView {
        GenView {
            genes: self.genes,
            web: self.web@,
            base_radii: self.base_radii@,
            all_radii: self.all_radii@,
            radial_points: self.radial_points@,
            stage: self.stage,
        }
    }
}

impl Webgen {
    /// The invariant of a generator: that of its value.
    pub open spec fn well_formed(&self) -> bool {
        self@.well_formed()
    }

    /// A generator with the default genes, about to build the frame.
    pub fn new() -> (gen: Webgen)
        ensures
            gen@.genes == default_genes(),
            gen@.stage == Stage::Frame,
            gen.well_formed(),
    {
        Webgen {
            web: Spiderweb::new(),
            genes: Genes {
                num_first_radii: 3,
                phase_angle_offset: Scalar { bits: 0x404E_0000_0000_0000 },
                variability_factor: (
                    Scalar { bits: 0xC014_0000_0000_0000 },
                    Scalar { bits: 0x4014_0000_0000_0000 },
                ),
                direction_biases: (
                    Scalar { bits: 0x3FB9_9999_9999_999A },
                    Scalar { bits: 0x3FB9_9999_9999_999A },
                    Scalar { bits: 0x3FB9_9999_9999_999A },
                    Scalar { bits: 0x3FF0_0000_0000_0000 },
                ),
                function_type: false,
                influence_factor: Scalar { bits: 0x3FE0_0000_0000_0000 },
                sub_radii_bias: (
                    Scalar { bits: 0x403E_0000_0000_0000 },
                    Scalar { bits: 0x403E_0000_0000_0000 },
                    Scalar { bits: 0x403E_0000_0000_0000 },
                    Scalar { bits: 0x402E_0000_0000_0000 },
                ),
                first_radial_point_offset: Scalar { bits: 0x3FA4_7AE1_47AE_147B },
                radial_point_offset: Scalar { bits: 0x3F60_624D_D2F1_A9FC },
                deviation_value: Scalar { bits: 0x3F94_7AE1_47AE_147B },
            },
            base_radii: Vec::new(),
            all_radii: Vec::new(),
            radial_points: Vec::new(),
            stage: Stage::Frame,
        }
    }

    /// Throws away what was built and goes back to the frame. The genes stay.
    pub fn reset(&mut self)
        ensures
            final(self)@.genes == old(self)@.genes,
            final(self)@.stage == Stage::Frame,
            final(self).well_formed(),
    {
        self.web = Spiderweb::new();
        self.base_radii = Vec::new();
        self.all_radii = Vec::new();
        self.radial_points = Vec::new();
        self.stage = Stage::Frame;
    }

    /// How far the generator has come.
    pub fn stage(&self) -> (stage: Stage)
        ensures
            stage == self@.stage,
    {
        self.stage
    }

    /// The web as built so far.
    pub fn web(&self) -> (web: &Spiderweb)
        ensures
            web@ == self@.web,
    {
        &self.web
    }

    /// The radius ends of the frame.
    pub fn base_radii(&self) -> (list: &Vec<usize>)
        ensures
            list@ == self@.base_radii,
    {
        &self.base_radii
    }

    /// All radius ends, in angular order.
    pub fn all_radii(&self) -> (list: &Vec<usize>)
        ensures
            list@ == self@.all_radii,
    {
        &self.all_radii
    }

    /// The points of the capture spiral, from the centre outward.
    pub fn radial_points(&self) -> (list: &Vec<usize>)
        ensures
            list@ == self@.radial_points,
    {
        &self.radial_points
    }

    fn new_silk(position: Vector3) -> (p: Particle)
        ensures
            p == silk(position),
    {
        Particle::new(
            position,
            Vector3::zeros(),
            Scalar::from_bits(MASS_BITS),
            false,
            ParticleType::Silk,
        )
    }

    fn new_strand(start: usize, end: usize, length: Scalar) -> (s: SilkStrand)
        ensures
            s == silk_strand(start, end, length),
    {
        SilkStrand::new(
            start,
            end,
            length,
            Scalar::from_bits(STIFFNESS_BITS),
            Scalar::from_bits(DAMPING_BITS),
        )
    }

    /// Stage one. Builds the frame from its radius ends, `frame`, in angular
    /// order: the centre, a radius to each end, a frame strand from each end
    /// to the next, and one that closes the ring.
    ///
    /// Nothing is built, and the answer is `false`, unless the generator
    /// stands at the frame and `frame` holds as many radius ends as the genes
    /// ask for, and at least one.
    pub fn stage_1(&mut self, frame: &Vec<FramePoint>) -> (built: bool)
        requires
            old(self).well_formed(),
        ensures
            built == (old(self)@.stage == Stage::Frame && frame@.len() > 0 && frame@.len() == old(
                self,
            )@.genes.num_first_radii),
            built ==> final(self)@ == old(self)@.after_frame(frame@),
            built ==> final(self)@.web.particles.len() == frame@.len() + 1,
            built ==> final(self)@.web.strands.len() == 2 * frame@.len(),
            !built ==> final(self)@ == old(self)@,
            final(self).well_formed(),
    {
        if !(self.stage == Stage::Frame) || frame.len() == 0 || frame.len()
            != self.genes.num_first_radii {
            return false;
        }
        let center = self.web.push_particle(Webgen::new_silk(Vector3::zeros()));
        let mut prev = center;
        let mut i: usize = 0;
        while i < frame.len()
            invariant
                i <= frame@.len(),
                center == 0,
                i > 0 ==> prev == i,
                self.web@.particles =~= (seq![silk(Vector3::spec_zeros())] + Seq::new(
                    frame@.len(),
                    |j: int| silk(frame@[j].position),
                )).take(i + 1),
                self.web@.strands == frame_strands(frame@, i as int),
                self.base_radii@ =~= Seq::new(i as nat, |j: int| (j + 1) as usize),
                self.web.well_formed(),
                self.genes == old(self).genes,
                self.all_radii@.len() == 0,
                self.radial_points@.len() == 0,
            decreases frame@.len() - i,
        {
            let point = frame[i];
            let particle = self.web.push_particle(Webgen::new_silk(point.position));
            self.web.push_strand(Webgen::new_strand(center, particle, point.to_center));
            self.base_radii.push(particle);
            if i > 0 {
                self.web.push_strand(Webgen::new_strand(prev, particle, point.to_previous));
            }
            prev = particle;
            i += 1;
        }
        self.web.push_strand(Webgen::new_strand(prev, 1, frame[0].to_previous));
        self.all_radii.push(1);
        self.stage = Stage::Subdivision { base: 1, count: 0 };
        proof {
            lemma_frame_strands_len(frame@, frame@.len() as int);
            assert(self@.web.particles =~= old(self)@.after_frame(frame@).web.particles);
            assert(self@.base_radii =~= old(self)@.after_frame(frame@).base_radii);
            assert(self@.all_radii =~= old(self)@.after_frame(frame@).all_radii);
            assert(self@.radial_points =~= old(self)@.after_frame(frame@).radial_points);
        }
        true
    }

    /// Places a point: appends a particle at `position` and puts a second
    /// one like it into the strand nearest to it. Returns the index of the
    /// first.
    fn place(&mut self, position: Vector3, probes: &Vec<StrandProbe>) -> (p: usize)
        requires
            old(self).web.well_formed(),
            old(self).web@.strands.len() >= 1,
            probes@.len() == old(self).web@.strands.len(),
        ensures
            final(self).web@ == placed(old(self).web@, position, probes@),
            final(self).web.well_formed(),
            p == old(self).web@.particles.len(),
            final(self).web@.particles.len() == old(self).web@.particles.len() + 2,
            final(self).web@.strands.len() == old(self).web@.strands.len() + 1,
            final(self).genes == old(self).genes,
            final(self).base_radii == old(self).base_radii,
            final(self).all_radii == old(self).all_radii,
            final(self).radial_points == old(self).radial_points,
            final(self).stage == old(self).stage,
    {
        let particle = Webgen::new_silk(position);
        let p = self.web.push_particle(particle);
        let k = self.web.get_closest_strand(probes);
        self.web.insert_particle_into_web(particle, k, probes[k].to_start, probes[k].to_end);
        p
    }

    /// The two base radii on either side of the gap that is being filled,
    /// while stage two fills gaps.
    pub fn stage_2_target(&self) -> (gap: Option<(usize, usize)>)
        requires
            self.well_formed(),
        ensures
            gap == self@.open_gap(),
    {
        match self.stage {
            Stage::Subdivision { base, count } => {
                if base == self.base_radii.len() {
                    Some((base, 1))
                } else {
                    Some((base, base + 1))
                }
            },
            _ => None,
        }
    }

    /// Stage two, one radius. `reached` is the angle at which a radius after
    /// this one would still have room, `limit` the angle of the gap's far
    /// side. While the gap has room and holds fewer than
    /// [`MAX_SUBDIVISIONS`] radii, the radius end at `position` is placed,
    /// tied to the centre by a strand of length `to_center`, and the answer
    /// is `true`. Otherwise nothing is built, the gap is closed, and the
    /// answer is `false`. `probes` holds what was measured of each strand
    /// from `position`.
    pub fn stage_2_point(
        &mut self,
        reached: Scalar,
        limit: Scalar,
        position: Vector3,
        to_center: Scalar,
        probes: &Vec<StrandProbe>,
    ) -> (placed: bool)
        requires
            old(self).well_formed(),
            probes@.len() == old(self)@.web.strands.len(),
        ensures
            placed == old(self)@.subdivides(reached, limit),
            placed ==> final(self)@ == old(self)@.after_sub_radius(position, to_center, probes@),
            placed ==> final(self)@.web.particles.len() == old(self)@.web.particles.len() + 2,
            placed ==> final(self)@.web.strands.len() == old(self)@.web.strands.len() + 2,
            !placed ==> final(self)@ == old(self)@.after_gap(),
            final(self).well_formed(),
    {
        match self.stage {
            Stage::Subdivision { base, count } => {
                if count < MAX_SUBDIVISIONS && !reached.gt(limit) {
                    let p = self.place(position, probes);
                    self.web.push_strand(Webgen::new_strand(0, p, to_center));
                    self.all_radii.push(p);
                    self.stage = Stage::Subdivision { base, count: count + 1 };
                    true
                } else {
                    if base == self.base_radii.len() {
                        self.stage = Stage::Anchoring;
                    } else {
                        self.all_radii.push(base + 1);
                        self.stage = Stage::Subdivision { base: base + 1, count: 0 };
                    }
                    false
                }
            },
            _ => false,
        }
    }

    /// Stage two, the end. Ties each base radius to its anchor: `anchors`
    /// holds one for each base radius, in their order.
    ///
    /// Nothing is built, and the answer is `false`, unless all gaps are
    /// closed and there is one anchor for each base radius.
    pub fn stage_2_anchors(&mut self, anchors: &Vec<Anchor>) -> (tied: bool)
        requires
            old(self).well_formed(),
        ensures
            tied == (old(self)@.stage == Stage::Anchoring && anchors@.len() == old(
                self,
            )@.base_radii.len()),
            tied ==> final(self)@ == old(self)@.after_anchors(anchors@),
            !tied ==> final(self)@ == old(self)@,
            final(self).well_formed(),
    {
        if !(self.stage == Stage::Anchoring) || anchors.len() != self.base_radii.len() {
            return false;
        }
        let mut i: usize = 0;
        while i < anchors.len()
            invariant
                i <= anchors@.len(),
                anchors@.len() == self.base_radii@.len(),
                old(self).well_formed(),
                self.web.well_formed(),
                self.web@.particles =~= old(self)@.web.particles + Seq::new(
                    i as nat,
                    |j: int| Particle { fixed: true, ..silk(anchors@[j].position) },
                ),
                self.web@.strands =~= old(self)@.web.strands + Seq::new(
                    i as nat,
                    |j: int|
                        silk_strand(
                            old(self)@.base_radii[j],
                            (old(self)@.web.particles.len() + j) as usize,
                            anchors@[j].length,
                        ),
                ),
                self.genes == old(self).genes,
                self.base_radii == old(self).base_radii,
                self.all_radii == old(self).all_radii,
                self.radial_points == old(self).radial_points,
                self.stage == old(self).stage,
            decreases anchors@.len() - i,
        {
            let anchor = anchors[i];
            let mut particle = Webgen::new_silk(anchor.position);
            particle.fixed = true;
            let base = self.base_radii[i];
            let further = self.web.push_particle(particle);
            self.web.push_strand(Webgen::new_strand(base, further, anchor.length));
            i += 1;
        }
        self.stage = Stage::FirstLoop { placed: 0 };
        proof {
            assert(self@.web.particles =~= old(self)@.after_anchors(anchors@).web.particles);
            assert(self@.web.strands =~= old(self)@.after_anchors(anchors@).web.strands);
        }
        true
    }

    /// The radius along which the next point of the first loop lies, while
    /// stage three lays the loop.
    pub fn stage_3_target(&self) -> (radius: Option<usize>)
        requires
            self.well_formed(),
        ensures
            radius == self@.loop_radius(),
    {
        match self.stage {
            Stage::FirstLoop { placed } => {
                if placed < self.all_radii.len() {
                    Some(self.all_radii[placed])
                } else if placed == self.all_radii.len() {
                    Some(self.all_radii[0])
                } else {
                    None
                }
            },
            _ => None,
        }
    }

    /// Stage three, one point. Places the point at `position`, records it as
    /// a radial point and, from the second point on, joins it by a strand of
    /// length `to_previous` to the particle appended last before it.
    /// `probes` holds what was measured of each strand from `position`.
    ///
    /// Nothing is built, and the answer is `false`, unless the first loop is
    /// being laid and is not closed yet.
    pub fn stage_3_point(
        &mut self,
        position: Vector3,
        probes: &Vec<StrandProbe>,
        to_previous: Scalar,
    ) -> (laid: bool)
        requires
            old(self).well_formed(),
            probes@.len() == old(self)@.web.strands.len(),
        ensures
            laid == old(self)@.loop_radius().is_some(),
            laid ==> final(self)@ == old(self)@.after_loop_point(position, probes@, to_previous),
            laid ==> final(self)@.web.particles.len() == old(self)@.web.particles.len() + 2,
            laid ==> final(self)@.web.strands.len() == old(self)@.web.strands.len() + (if old(
                self,
            )@.radial_points.len() > 0 {
                2int
            } else {
                1int
            }),
            !laid ==> final(self)@ == old(self)@,
            final(self).well_formed(),
    {
        match self.stage {
            Stage::FirstLoop { placed } => {
                if placed > self.all_radii.len() {
                    return false;
                }
                let p = self.place(position, probes);
                if placed > 0 {
                    self.web.push_strand(Webgen::new_strand(p, p - 1, to_previous));
                }
                self.radial_points.push(p);
                self.stage = Stage::FirstLoop { placed: self.radial_points.len() };
                true
            },
            _ => false,
        }
    }

    /// Stage four, the start. `last_dist` is the distance between the first
    /// and the last point of the first loop. The walk starts at the first
    /// radial point and moves to later ones.
    ///
    /// Nothing changes, and the answer is `false`, unless the first loop is
    /// closed.
    pub fn stage_4_begin(&mut self, last_dist: Scalar) -> (started: bool)
        requires
            old(self).well_formed(),
        ensures
            started == old(self)@.loop_closed(),
            started ==> final(self)@ == (GenView {
                stage: Stage::Spiral {
                    walk: SpiralWalk {
                        index: 0,
                        outward: true,
                        has_flipped: false,
                        just_flipped: false,
                        last_dist,
                    },
                },
                ..old(self)@
            }),
            !started ==> final(self)@ == old(self)@,
            final(self).well_formed(),
    {
        match self.stage {
            Stage::FirstLoop { placed } => {
                if placed == 0 || placed - 1 != self.all_radii.len() {
                    return false;
                }
                self.stage = Stage::Spiral {
                    walk: SpiralWalk {
                        index: 0,
                        outward: true,
                        has_flipped: false,
                        just_flipped: false,
                        last_dist,
                    },
                };
                true
            },
            _ => false,
        }
    }

    /// The radial point that the spiral's next step starts from and the
    /// radius end that bounds the step, while stage four grows the spiral.
    pub fn stage_4_target(&self) -> (target: Option<(usize, usize)>)
        requires
            self.well_formed(),
        ensures
            target == self@.spiral_target(),
    {
        match self.stage {
            Stage::Spiral { walk } => {
                let from = self.radial_points[walk.index];
                Some((from, self.all_radii[from % self.all_radii.len()]))
            },
            _ => None,
        }
    }

    /// The walk, while stage four grows the spiral.
    pub fn stage_4_walk(&self) -> (walk: Option<SpiralWalk>)
        ensures
            walk == match self@.stage {
                Stage::Spiral { walk } => Some(walk),
                _ => None,
            },
    {
        match self.stage {
            Stage::Spiral { walk } => Some(walk),
            _ => None,
        }
    }

    /// Stage four, one step. `reached` is the distance of the point at
    /// `position` from the centre, `limit` that of the bounding radius end.
    /// Where the point lies within the frame it is placed, recorded as a
    /// radial point and joined by a strand of length `to_previous` to the
    /// particle appended last before it; `step` becomes the length of the
    /// last step, the walk moves on, and the answer is `true`. Where the
    /// point lies beyond the frame nothing is built and the answer is
    /// `false`: the walk turns round, or, if it had turned just before, the
    /// web is complete. `probes` holds what was measured of each strand from
    /// `position`.
    pub fn stage_4_point(
        &mut self,
        reached: Scalar,
        limit: Scalar,
        position: Vector3,
        step: Scalar,
        probes: &Vec<StrandProbe>,
        to_previous: Scalar,
    ) -> (grown: bool)
        requires
            old(self).well_formed(),
            probes@.len() == old(self)@.web.strands.len(),
        ensures
            grown == old(self)@.grows(reached, limit),
            grown ==> final(self)@ == old(self)@.after_spiral_point(
                position,
                step,
                probes@,
                to_previous,
            ),
            grown ==> final(self)@.web.particles.len() == old(self)@.web.particles.len() + 2,
            grown ==> final(self)@.web.strands.len() == old(self)@.web.strands.len() + 2,
            !grown ==> final(self)@ == old(self)@.after_spiral_violation(),
            final(self).well_formed(),
    {
        match self.stage {
            Stage::Spiral { walk } => {
                if reached.gt(limit) {
                    if walk.just_flipped {
                        self.stage = Stage::Done;
                    } else if walk.outward {
                        if walk.index < 2 {
                            self.stage = Stage::Done;
                        } else {
                            self.stage = Stage::Spiral {
                                walk: SpiralWalk {
                                    index: walk.index - 2,
                                    outward: false,
                                    has_flipped: true,
                                    just_flipped: true,
                                    last_dist: walk.last_dist,
                                },
                            };
                        }
                    } else {
                        self.stage = Stage::Spiral {
                            walk: SpiralWalk {
                                index: walk.index,
                                outward: true,
                                has_flipped: true,
                                just_flipped: true,
                                last_dist: walk.last_dist,
                            },
                        };
                    }
                    false
                } else {
                    let p = self.place(position, probes);
                    self.web.push_strand(Webgen::new_strand(p, p - 1, to_previous));
                    self.radial_points.push(p);
                    let points = self.radial_points.len();
                    assert(walk.index + 1 < points);
                    if !walk.has_flipped || walk.outward {
                        self.stage = Stage::Spiral {
                            walk: SpiralWalk {
                                index: walk.index + 1,
                                outward: walk.outward,
                                has_flipped: walk.has_flipped,
                                just_flipped: false,
                                last_dist: step,
                            },
                        };
                    } else if walk.index == 0 {
                        self.stage = Stage::Done;
                    } else {
                        self.stage = Stage::Spiral {
                            walk: SpiralWalk {
                                index: walk.index - 1,
                                outward: walk.outward,
                                has_flipped: walk.has_flipped,
                                just_flipped: false,
                                last_dist: step,
                            },
                        };
                    }
                    true
                }
            },
            _ => false,
        }
    }

    /// A copy of the web as it stands.
    pub fn to_web(&self) -> (web: Spiderweb)
        ensures
            web@ == self@.web,
    {
        self.web.copy()
    }

    /// The pairs of particles that the strands of the ring lattice join, in
    /// the order of the strands.
    pub fn simple_web_plan() -> (plan: Vec<(usize, usize)>)
        ensures
            plan@ == Seq::new(ring_edge_count() as nat, |k: int| ring_edge(k)),
    {
        let mut plan: Vec<(usize, usize)> = Vec::new();
        let mut ring: usize = 0;
        while ring < NUM_RINGS
            invariant
                ring <= NUM_RINGS,
                plan@ =~= Seq::new((ring * PARTICLES_PER_RING) as nat, |k: int| ring_edge(k)),
            decreases NUM_RINGS - ring,
        {
            let mut i: usize = 0;
            while i < PARTICLES_PER_RING
                invariant
                    ring < NUM_RINGS,
                    i <= PARTICLES_PER_RING,
                    plan@ =~= Seq::new(
                        (ring * PARTICLES_PER_RING + i) as nat,
                        |k: int| ring_edge(k),
                    ),
                decreases PARTICLES_PER_RING - i,
            {
                let start = ring * PARTICLES_PER_RING + i;
                let end = ring * PARTICLES_PER_RING + (i + 1) % PARTICLES_PER_RING;
                plan.push((start, end));
                i += 1;
            }
            ring += 1;
        }
        let mut i: usize = 0;
        while i < PARTICLES_PER_RING
            invariant
                i <= PARTICLES_PER_RING,
                plan@ =~= Seq::new(
                    (NUM_RINGS * PARTICLES_PER_RING + i * (NUM_RINGS - 1)) as nat,
                    |k: int| ring_edge(k),
                ),
            decreases PARTICLES_PER_RING - i,
        {
            let mut ring: usize = 0;
            while ring < NUM_RINGS - 1
                invariant
                    i < PARTICLES_PER_RING,
                    ring <= NUM_RINGS - 1,
                    plan@ =~= Seq::new(
                        (NUM_RINGS * PARTICLES_PER_RING + i * (NUM_RINGS - 1) + ring) as nat,
                        |k: int| ring_edge(k),
                    ),
                decreases NUM_RINGS - 1 - ring,
            {
                let start = ring * PARTICLES_PER_RING + i;
                let end = (ring + 1) * PARTICLES_PER_RING + i;
                proof {
                    let j = i * 4 + ring;
                    assert(j / 4 == i && j % 4 == ring);
                    assert(ring_edge(20 + 5 + j) == (start, end));
                }
                plan.push((start, end));
                ring += 1;
            }
            assert((i + 1) * (NUM_RINGS - 1) == i * (NUM_RINGS - 1) + ring) by (nonlinear_arith)
                requires
                    ring == NUM_RINGS - 1,
            ;
            i += 1;
        }
        plan
    }

    /// Builds the ring lattice in place of whatever was built, and returns a
    /// copy of it: rings of particles around the centre, the outermost ring
    /// fixed, with strands round each ring and from each ring to the next.
    /// `positions` holds where the particles lie, ring after ring, and
    /// `lengths` the rest length of each strand, in the order of
    /// [`Self::simple_web_plan`]. The genes play no part, and the generator
    /// is done.
    pub fn simple_web(&mut self, positions: &Vec<Vector3>, lengths: &Vec<Scalar>) -> (web:
        Spiderweb)
        requires
            positions@.len() == NUM_RINGS * PARTICLES_PER_RING,
            lengths@.len() == ring_edge_count(),
        ensures
            web@ == ring_lattice(positions@, lengths@),
            web.well_formed(),
            final(self)@ == (GenView {
                genes: old(self)@.genes,
                web: ring_lattice(positions@, lengths@),
                base_radii: Seq::empty(),
                all_radii: Seq::empty(),
                radial_points: Seq::empty(),
                stage: Stage::Done,
            }),
            final(self).well_formed(),
    {
        let mut web = Spiderweb::new();
        let mut ring: usize = 0;
        while ring < NUM_RINGS
            invariant
                ring <= NUM_RINGS,
                positions@.len() == NUM_RINGS * PARTICLES_PER_RING,
                web@.strands.len() == 0,
                web@.particles =~= ring_lattice(positions@, lengths@).particles.take(
                    ring * PARTICLES_PER_RING,
                ),
            decreases NUM_RINGS - ring,
        {
            let mut i: usize = 0;
            while i < PARTICLES_PER_RING
                invariant
                    ring < NUM_RINGS,
                    i <= PARTICLES_PER_RING,
                    positions@.len() == NUM_RINGS * PARTICLES_PER_RING,
                    web@.strands.len() == 0,
                    web@.particles =~= ring_lattice(positions@, lengths@).particles.take(
                        ring * PARTICLES_PER_RING + i,
                    ),
                decreases PARTICLES_PER_RING - i,
            {
                let position = positions[ring * PARTICLES_PER_RING + i];
                let particle = Particle::new(
                    position,
                    Vector3::zeros(),
                    Scalar::from_bits(LATTICE_MASS_BITS),
                    ring == NUM_RINGS - 1,
                    ParticleType::Silk,
                );
                web.push_particle(particle);
                i += 1;
            }
            ring += 1;
        }
        let plan = Webgen::simple_web_plan();
        let mut k: usize = 0;
        while k < plan.len()
            invariant
                k <= plan@.len(),
                plan@ == Seq::new(ring_edge_count() as nat, |j: int| ring_edge(j)),
                lengths@.len() == ring_edge_count(),
                web@.particles == ring_lattice(positions@, lengths@).particles,
                web@.strands =~= ring_lattice(positions@, lengths@).strands.take(k as int),
                web.well_formed(),
            decreases plan@.len() - k,
        {
            let strand = SilkStrand::new(
                plan[k].0,
                plan[k].1,
                lengths[k],
                Scalar::from_bits(LATTICE_STIFFNESS_BITS),
                Scalar::from_bits(LATTICE_DAMPING_BITS),
            );
            web.push_strand(strand);
            k += 1;
        }
        assert(web@.strands =~= ring_lattice(positions@, lengths@).strands);
        let copy = web.copy();
        self.web = web;
        self.base_radii = Vec::new();
        self.all_radii = Vec::new();
        self.radial_points = Vec::new();
        self.stage = Stage::Done;
        copy
    }
}

/// The genes of a new generator: three radii turned 60 degrees from north
/// with a jitter between -5 and 5 degrees, direction biases of 0.1 but for
/// 1.0 at 270 degrees, a subdivided radius every 30 degrees but for every 15
/// in the last quadrant, and a spiral that starts 0.04 from the centre, moves
/// outward by 0.002 a radius and deviates by up to 0.02.
pub open spec fn default_genes() -> Genes {
    Genes {
        num_first_radii: 3,
        phase_angle_offset: Scalar { bits: 0x404E_0000_0000_0000 },
        variability_factor: (
            Scalar { bits: 0xC014_0000_0000_0000 },
            Scalar { bits: 0x4014_0000_0000_0000 },
        ),
        direction_biases: (
            Scalar { bits: 0x3FB9_9999_9999_999A },
            Scalar { bits: 0x3FB9_9999_9999_999A },
            Scalar { bits: 0x3FB9_9999_9999_999A },
            Scalar { bits: 0x3FF0_0000_0000_0000 },
        ),
        function_type: false,
        influence_factor: Scalar { bits: 0x3FE0_0000_0000_0000 },
        sub_radii_bias: (
            Scalar { bits: 0x403E_0000_0000_0000 },
            Scalar { bits: 0x403E_0000_0000_0000 },
            Scalar { bits: 0x403E_0000_0000_0000 },
            Scalar { bits: 0x402E_0000_0000_0000 },
        ),
        first_radial_point_offset: Scalar { bits: 0x3FA4_7AE1_47AE_147B },
        radial_point_offset: Scalar { bits: 0x3F60_624D_D2F1_A9FC },
        deviation_value: Scalar { bits: 0x3F94_7AE1_47AE_147B },
    }
}

} // verus!
