//! The simulator: a web, the bugs that fly towards it, and the step that
//! moves both.
//!
//! One step runs in this order. The driver measures every bug against every
//! strand and [`Simulator::detect_collisions`] says which bug sticks where.
//! For each such pair in turn the driver works out the two rest lengths and
//! [`Simulator::stick_to_web`] splices the bug in; [`Simulator::remove_stuck`]
//! then takes the stuck bugs off the bug list. The driver sums the forces on
//! each particle, with [`Simulator::connected_strands`] to tell it which
//! strands pull, integrates, and [`Simulator::step`] commits the staged
//! state.
use crate::scalar::{Scalar, Vector3};
use crate::web::{
    lemma_insert_keeps_topology, Particle, ParticleType, SilkStrand, Spiderweb, WebView,
};
use rand::Rng;
use vstd::prelude::*;

verus! {

/// The encoding of 0.03, the radius within which a bug touches a strand.
pub const BUG_RADIUS_BITS: u64 = 0x3F9E_B851_EB85_1EB8;

/// The encoding of -1.0.
pub const MINUS_ONE_BITS: u64 = 0xBFF0_0000_0000_0000;

/// The encoding of 0.05.
pub const DEFAULT_WIND_STRENGTH_BITS: u64 = 0x3FA9_9999_9999_999A;

/// The encoding of 10.0.
pub const DEFAULT_MAX_FORCE_BITS: u64 = 0x4024_0000_0000_0000;

/// The force field that the wind follows.
#[derive(Clone, Copy, Debug, PartialEq, Eq, Structural)]
pub enum WindField {
    /// Sways with time along each axis at its own pace, and grows with a
    /// particle's height.
    Oscillating,
    /// Turns about the z axis, stronger near it.
    Loopy,
}

/// What was measured of one strand from one bug.
#[derive(Clone, Copy, Debug, PartialEq, Eq, Structural)]
pub struct Contact {
    /// The strand's rest length plus the bug radius.
    pub reach: Scalar,
    /// From the bug to the strand's start particle.
    pub to_start: Scalar,
    /// From the bug to the strand's end particle.
    pub to_end: Scalar,
    /// From the bug to the nearest point of the strand's segment.
    pub distance: Scalar,
}

/// Whether the bug touches the strand: it is not farther than `reach` from
/// both ends, and its distance from the segment is at most the bug radius.
pub open spec fn touches(c: Contact) -> bool {
    &&& !(c.reach.less(c.to_start) && c.reach.less(c.to_end))
    &&& c.distance.less_eq(Scalar { bits: BUG_RADIUS_BITS })
}

/// Whether strand `s` is the first in `row` that the bug touches.
pub open spec fn is_first_touch(row: Seq<Contact>, s: int) -> bool {
    &&& 0 <= s < row.len()
    &&& touches(row[s])
    &&& forall|j: int| 0 <= j < s ==> !touches(#[trigger] row[j])
}

/// Whether the bugs named in `pending` rise from entry to entry.
pub open spec fn rising(pending: Seq<(usize, usize)>) -> bool {
    forall|i: int, j: int|
        0 <= i < j < pending.len() ==> (#[trigger] pending[i]).0 < (#[trigger] pending[j]).0
}

/// Whether `pending` names bug `bug`.
pub open spec fn names(pending: Seq<(usize, usize)>, bug: usize) -> bool {
    exists|i: int| 0 <= i < pending.len() && (#[trigger] pending[i]).0 == bug
}

/// Whether `pending` is what a collision scan of `contacts` records: each
/// bug that touches a strand once, with the first strand it touches, in the
/// order of the bugs.
pub open spec fn is_pending(contacts: Seq<Vec<Contact>>, pending: Seq<(usize, usize)>) -> bool {
    &&& forall|i: int|
        0 <= i < pending.len() ==> (#[trigger] pending[i]).0 < contacts.len() && is_first_touch(
            contacts[pending[i].0 as int]@,
            pending[i].1 as int,
        )
    &&& rising(pending)
    &&& forall|b: int, s: int|
        0 <= b < contacts.len() && 0 <= s < contacts[b]@.len() && touches(
            #[trigger] contacts[b]@[s],
        ) ==> names(pending, b as usize)
}

/// Whether the bugs named in `pending` rise and lie within `count` bugs.
pub open spec fn rising_within(pending: Seq<(usize, usize)>, count: int) -> bool {
    &&& forall|i: int| 0 <= i < pending.len() ==> (#[trigger] pending[i]).0 < count
    &&& rising(pending)
}

/// The bugs left when those named in `pending` are taken out, the last named
/// first.
pub open spec fn without_stuck(bugs: Seq<Particle>, pending: Seq<(usize, usize)>) -> Seq<Particle>
    decreases pending.len(),
{
    if pending.len() == 0 {
        bugs
    } else {
        without_stuck(bugs.remove(pending.last().0 as int), pending.drop_last())
    }
}

/// The strands that hold `particle`, each with its index and the particle at
/// its other end, in arena order. A strand that starts at `particle` counts
/// by its start.
pub open spec fn touching(strands: Seq<SilkStrand>, particle: usize) -> Seq<(usize, usize)>
    decreases strands.len(),
{
    if strands.len() == 0 {
        Seq::empty()
    } else {
        let rest = touching(strands.drop_last(), particle);
        let k = (strands.len() - 1) as usize;
        if strands.last().start == particle {
            rest.push((k, strands.last().end))
        } else if strands.last().end == particle {
            rest.push((k, strands.last().start))
        } else {
            rest
        }
    }
}

/// Those of `links` whose force is greater than `limit`, in order.
pub open spec fn overloaded(links: Seq<(usize, usize)>, forces: Seq<Scalar>, limit: Scalar) -> Seq<
    (usize, usize),
>
    decreases links.len(),
{
    if links.len() == 0 || forces.len() != links.len() {
        Seq::empty()
    } else {
        let rest = overloaded(links.drop_last(), forces.drop_last(), limit);
        if limit.less(forces.last()) {
            rest.push(links.last())
        } else {
            rest
        }
    }
}

/// A particle after a step in which it was free to move.
pub open spec fn moved(p: Particle, position: Vector3, velocity: Vector3) -> Particle {
    Particle { position, prev_position: p.position, velocity, ..p }
}

/// The bug as it enters the web: at rest.
pub open spec fn stuck(bug: Particle) -> Particle {
    Particle { velocity: Vector3::spec_zeros(), ..bug }
}

/// The simulator as a value.
pub struct SimView {
    pub web: WebView,
    pub timestep: Scalar,
    pub sim_time: Scalar,
    pub gravity: Vector3,
    pub drag_coefficient: Scalar,
    pub wind_fn: WindField,
    pub bugs: Seq<Particle>,
    pub wind_strength: Scalar,
    pub max_silk_strand_force: Scalar,
}

impl SimView {
    /// The simulator after bug `bug` has stuck to strand `strand`, before it
    /// leaves the bug list.
    pub open spec fn stick_to_web(
        self,
        bug: int,
        strand: int,
        start_length: Scalar,
        end_length: Scalar,
    ) -> SimView {
        SimView {
            web: self.web.insert(stuck(self.bugs[bug]), strand, start_length, end_length),
            ..self
        }
    }

    /// The simulator after the bugs named in `pending` have left the bug
    /// list.
    pub open spec fn remove_stuck(self, pending: Seq<(usize, usize)>) -> SimView {
        SimView { bugs: without_stuck(self.bugs, pending), ..self }
    }

    /// The simulator after a step to `sim_time` with the staged positions and
    /// velocities. A fixed particle stays as it is. A bug flies on at the
    /// velocity it has.
    pub open spec fn step(
        self,
        sim_time: Scalar,
        staged: Seq<(Vector3, Vector3)>,
        staged_bugs: Seq<Vector3>,
    ) -> SimView {
        SimView {
            sim_time,
            web: WebView {
                particles: Seq::new(
                    self.web.particles.len(),
                    |i: int|
                        if self.web.particles[i].fixed {
                            self.web.particles[i]
                        } else {
                            moved(self.web.particles[i], staged[i].0, staged[i].1)
                        },
                ),
                strands: self.web.strands,
            },
            bugs: Seq::new(
                self.bugs.len(),
                |i: int| moved(self.bugs[i], staged_bugs[i], self.bugs[i].velocity),
            ),
            ..self
        }
    }
}

/// A web, the bugs that have not reached it, the clock, and what the forces
/// are tuned by.
#[derive(Debug)]
pub struct Simulator {
    pub web: Spiderweb,
    pub timestep: Scalar,
    pub sim_time: Scalar,
    pub gravity: Vector3,
    pub drag_coefficient: Scalar,
    pub wind_fn: WindField,
    pub bugs: Vec<Particle>,
    pub wind_strength: Scalar,
    pub max_silk_strand_force: Scalar,
}

impl View for Simulator {
    type V = SimView;

    open spec fn view(&self) -> SimView {
        SimView {
            web: self.web@,
            timestep: self.timestep,
            sim_time: self.sim_time,
            gravity: self.gravity,
            drag_coefficient: self.drag_coefficient,
            wind_fn: self.wind_fn,
            bugs: self.bugs@,
            wind_strength: self.wind_strength,
            max_silk_strand_force: self.max_silk_strand_force,
        }
    }
}

/// `rand::Rng::gen_range` on the generator that `rand::thread_rng` gives, for
/// the range from 0 up to and without `count`. The method panics on an empty
/// range, so `count` is not 0. Its documentation promises a value of the
/// range and no more: which one comes is chance.
#[verifier::external_body]
fn random_below(count: usize) -> (index: usize)
    requires
        count > 0,
    ensures
        index < count,
{
    rand::thread_rng().gen_range(0..count)
}

impl Simulator {
    /// A simulator at time zero around `web`, with no bugs, gravity of one
    /// unit down the y axis, no drag, the oscillating wind at strength 0.05
    /// and a strand force limit of 10.
    pub fn new(timestep: Scalar, web: Spiderweb) -> (sim: Simulator)
        ensures
            sim@ == (SimView {
                web: web@,
                timestep,
                sim_time: Scalar { bits: 0 },
                gravity: Vector3 {
                    x: Scalar { bits: 0 },
                    y: Scalar { bits: MINUS_ONE_BITS },
                    z: Scalar { bits: 0 },
                },
                drag_coefficient: Scalar { bits: 0 },
                wind_fn: WindField::Oscillating,
                bugs: Seq::empty(),
                wind_strength: Scalar { bits: DEFAULT_WIND_STRENGTH_BITS },
                max_silk_strand_force: Scalar { bits: DEFAULT_MAX_FORCE_BITS },
            }),
    {
        Simulator {
            web,
            timestep,
            sim_time: Scalar::zero(),
            gravity: Vector3::new(
                Scalar::zero(),
                Scalar::from_bits(MINUS_ONE_BITS),
                Scalar::zero(),
            ),
            drag_coefficient: Scalar::zero(),
            wind_fn: WindField::Oscillating,
            bugs: Vec::new(),
            wind_strength: Scalar::from_bits(DEFAULT_WIND_STRENGTH_BITS),
            max_silk_strand_force: Scalar::from_bits(DEFAULT_MAX_FORCE_BITS),
        }
    }

    /// The radius within which a bug touches a strand.
    pub fn bug_radius() -> (r: Scalar)
        ensures
            r.bits == BUG_RADIUS_BITS,
    {
        Scalar::from_bits(BUG_RADIUS_BITS)
    }

    /// Appends a free bug to the bug list.
    pub fn add_bug(&mut self, position: Vector3, velocity: Vector3, mass: Scalar)
        ensures
            final(self)@ == (SimView {
                bugs: old(self)@.bugs.push(
                    Particle {
                        position,
                        prev_position: position,
                        velocity,
                        mass,
                        fixed: false,
                        particle_type: ParticleType::Bug,
                    },
                ),
                ..old(self)@
            }),
    {
        let bug = Particle::new(position, velocity, mass, false, ParticleType::Bug);
        self.bugs.push(bug);
    }

    /// The web, to read or to change in place.
    pub fn get_web(&mut self) -> (web: &mut Spiderweb)
        ensures
            *web == old(self).web,
            final(self)@ == (SimView { web: final(web)@, ..old(self)@ }),
    {
        &mut self.web
    }

    /// A particle of the web drawn at random, for a new bug to fly at, or
    /// `None` where the web has no particle. Whichever index is drawn names a
    /// particle of the web.
    pub fn random_web_particle(&self) -> (target: Option<usize>)
        ensures
            target is None <==> self@.web.particles.len() == 0,
            match target {
                Some(index) => index < self@.web.particles.len(),
                None => true,
            },
    {
        if self.web.particles.len() == 0 {
            None
        } else {
            Some(random_below(self.web.particles.len()))
        }
    }

    /// The strands that pull at particle `particle`, each with its index and
    /// the particle at its other end.
    pub fn connected_strands(&self, particle: usize) -> (links: Vec<(usize, usize)>)
        ensures
            links@ == touching(self@.web.strands, particle),
    {
        let mut links: Vec<(usize, usize)> = Vec::new();
        let mut k: usize = 0;
        while k < self.web.strands.len()
            invariant
                k <= self.web.strands@.len(),
                links@ == touching(self.web.strands@.take(k as int), particle),
            decreases self.web.strands@.len() - k,
        {
            let strand = self.web.strands[k];
            proof {
                assert(self.web.strands@.take(k + 1).drop_last() == self.web.strands@.take(
                    k as int,
                ));
            }
            if strand.start == particle {
                links.push((k, strand.end));
            } else if strand.end == particle {
                links.push((k, strand.start));
            }
            k += 1;
        }
        proof {
            assert(self.web.strands@.take(k as int) == self.web.strands@);
        }
        links
    }

    /// The strands on which the force is greater than the limit
    /// `max_silk_strand_force`: of `links`, as [`Self::connected_strands`]
    /// gave them, those whose entry in `forces` exceeds it. This is a report.
    /// Nothing in the simulator acts on it, and no strand breaks.
    pub fn overloaded_strands(&self, links: &Vec<(usize, usize)>, forces: &Vec<Scalar>) -> (report:
        Vec<(usize, usize)>)
        requires
            forces@.len() == links@.len(),
        ensures
            report@ == overloaded(links@, forces@, self.max_silk_strand_force),
    {
        let mut report: Vec<(usize, usize)> = Vec::new();
        let mut k: usize = 0;
        while k < links.len()
            invariant
                k <= links@.len(),
                forces@.len() == links@.len(),
                report@ == overloaded(
                    links@.take(k as int),
                    forces@.take(k as int),
                    self.max_silk_strand_force,
                ),
            decreases links@.len() - k,
        {
            proof {
                assert(links@.take(k + 1).drop_last() == links@.take(k as int));
                assert(forces@.take(k + 1).drop_last() == forces@.take(k as int));
            }
            if forces[k].gt(self.max_silk_strand_force) {
                report.push(links[k]);
            }
            k += 1;
        }
        proof {
            assert(links@.take(k as int) == links@);
            assert(forces@.take(k as int) == forces@);
        }
        report
    }

    /// The first strand of `row` that the bug touches, if it touches any.
    pub fn first_touch(row: &Vec<Contact>) -> (found: Option<usize>)
        ensures
            match found {
                Some(s) => is_first_touch(row@, s as int),
                None => forall|j: int| 0 <= j < row@.len() ==> !touches(#[trigger] row@[j]),
            },
    {
        let radius = Simulator::bug_radius();
        let mut s: usize = 0;
        while s < row.len()
            invariant
                s <= row@.len(),
                radius.bits == BUG_RADIUS_BITS,
                forall|j: int| 0 <= j < s ==> !touches(#[trigger] row@[j]),
            decreases row@.len() - s,
        {
            let c = row[s];
            let far = c.to_start.gt(c.reach) && c.to_end.gt(c.reach);
            if !far && c.distance.le(radius) {
                return Some(s);
            }
            s += 1;
        }
        None
    }

    /// Scans the bugs against the strands, `contacts[b][s]` being what was
    /// measured of strand `s` from bug `b`, and returns the pairs of bug and
    /// strand that stick. A bug sticks once, to the first strand it touches,
    /// whether or not a later strand is nearer.
    pub fn detect_collisions(&self, contacts: &Vec<Vec<Contact>>) -> (pending: Vec<(usize, usize)>)
        requires
            contacts@.len() == self.bugs@.len(),
            forall|b: int|
                0 <= b < contacts@.len() ==> (#[trigger] contacts@[b])@.len()
                    == self.web.strands@.len(),
        ensures
            is_pending(contacts@, pending@),
            rising_within(pending@, self@.bugs.len() as int),
            forall|i: int|
                0 <= i < pending@.len() ==> (#[trigger] pending@[i]).1 < self@.web.strands.len(),
    {
        let mut pending: Vec<(usize, usize)> = Vec::new();
        let mut b: usize = 0;
        while b < contacts.len()
            invariant
                b <= contacts@.len(),
                contacts@.len() == self.bugs@.len(),
                forall|b: int|
                    0 <= b < contacts@.len() ==> (#[trigger] contacts@[b])@.len()
                        == self.web.strands@.len(),
                forall|i: int|
                    0 <= i < pending@.len() ==> (#[trigger] pending@[i]).0 < b && is_first_touch(
                        contacts@[pending@[i].0 as int]@,
                        pending@[i].1 as int,
                    ),
                forall|i: int, j: int|
                    0 <= i < j < pending@.len() ==> (#[trigger] pending@[i]).0 < (
                    #[trigger] pending@[j]).0,
                forall|c: int, s: int|
                    0 <= c < b && 0 <= s < contacts@[c]@.len() && touches(
                        #[trigger] contacts@[c]@[s],
                    ) ==> exists|i: int| 0 <= i < pending@.len() && (#[trigger] pending@[i]).0 == c,
            decreases contacts@.len() - b,
        {
            let ghost before = pending@;
            match Simulator::first_touch(&contacts[b]) {
                Some(s) => {
                    pending.push((b, s));
                    proof {
                        let last = before.len() as int;
                        assert(pending@[last] == (b, s));
                        assert forall|c: int, t: int|
                            0 <= c < b + 1 && 0 <= t < contacts@[c]@.len() && touches(
                                #[trigger] contacts@[c]@[t],
                            ) implies exists|i: int|
                            0 <= i < pending@.len() && (#[trigger] pending@[i]).0 == c by {
                            if c < b {
                                let i = choose|i: int|
                                    0 <= i < before.len() && (#[trigger] before[i]).0 == c;
                                assert(pending@[i] == before[i]);
                            } else {
                                assert(pending@[last].0 == c);
                            }
                        }
                    }
                },
                None => {},
            }
            b += 1;
        }
        pending
    }

    /// Sticks bug `bug_index` to strand `strand_index`: a copy of the bug,
    /// brought to rest, is put into the strand with the rest lengths given.
    /// The bug list does not change.
    pub fn stick_to_web(
        &mut self,
        bug_index: usize,
        strand_index: usize,
        start_length: Scalar,
        end_length: Scalar,
    )
        requires
            old(self).web.well_formed(),
            bug_index < old(self).bugs@.len(),
            strand_index < old(self).web.strands@.len(),
        ensures
            final(self)@ == old(self)@.stick_to_web(
                bug_index as int,
                strand_index as int,
                start_length,
                end_length,
            ),
            final(self).web.well_formed(),
    {
        let mut bug = self.bugs[bug_index];
        bug.velocity = Vector3::zeros();
        self.web.insert_particle_into_web(bug, strand_index, start_length, end_length);
    }

    /// Takes the bugs named in `pending` off the bug list, from the last to
    /// the first, so that each index still names its bug when its turn comes.
    pub fn remove_stuck(&mut self, pending: &Vec<(usize, usize)>)
        requires
            rising_within(pending@, old(self).bugs@.len() as int),
        ensures
            final(self)@ == old(self)@.remove_stuck(pending@),
            final(self)@.bugs.len() == old(self)@.bugs.len() - pending@.len(),
    {
        let mut i: usize = pending.len();
        proof {
            assert(pending@.take(i as int) == pending@);
        }
        while i > 0
            invariant
                i <= pending@.len(),
                rising_within(pending@, old(self).bugs@.len() as int),
                self.bugs@.len() == old(self).bugs@.len() - (pending@.len() - i),
                without_stuck(old(self).bugs@, pending@) == without_stuck(
                    self.bugs@,
                    pending@.take(i as int),
                ),
                self@ == (SimView { bugs: self.bugs@, ..old(self)@ }),
            decreases i,
        {
            proof {
                lemma_rising_gap(pending@, i - 1, pending@.len() - 1);
                assert(pending@.take(i as int).drop_last() == pending@.take(i - 1));
                assert(pending@.take(i as int).last() == pending@[i - 1]);
            }
            i -= 1;
            self.bugs.remove(pending[i].0);
        }
        proof {
            assert(pending@.take(0) == Seq::<(usize, usize)>::empty());
        }
    }

    /// Commits a step: the clock moves to `sim_time`, each particle that is
    /// not fixed takes its staged position and velocity, each bug its staged
    /// position, and each of them remembers as its previous position where it
    /// stood before. All of `staged` was worked out from the state before the
    /// step, so no particle sees another half-moved.
    pub fn step(
        &mut self,
        sim_time: Scalar,
        staged: &Vec<(Vector3, Vector3)>,
        staged_bugs: &Vec<Vector3>,
    )
        requires
            staged@.len() == old(self).web.particles@.len(),
            staged_bugs@.len() == old(self).bugs@.len(),
        ensures
            final(self)@ == old(self)@.step(sim_time, staged@, staged_bugs@),
            old(self).web.well_formed() ==> final(self).web.well_formed(),
    {
        self.sim_time = sim_time;
        let mut i: usize = 0;
        while i < self.web.particles.len()
            invariant
                i <= self.web.particles@.len(),
                self.web.particles@.len() == old(self).web.particles@.len(),
                staged@.len() == old(self).web.particles@.len(),
                self@ == (SimView {
                    sim_time,
                    web: WebView { particles: self.web.particles@, strands: old(self)@.web.strands },
                    ..old(self)@
                }),
                forall|j: int|
                    0 <= j < i ==> #[trigger] self.web.particles@[j] == old(self)@.step(
                        sim_time,
                        staged@,
                        staged_bugs@,
                    ).web.particles[j],
                forall|j: int|
                    i <= j < self.web.particles@.len() ==> #[trigger] self.web.particles@[j] == old(
                        self,
                    ).web.particles@[j],
            decreases self.web.particles@.len() - i,
        {
            let mut p = self.web.particles[i];
            if !p.fixed {
                p.prev_position = p.position;
                p.position = staged[i].0;
                p.velocity = staged[i].1;
                self.web.particles.set(i, p);
            }
            i += 1;
        }
        let mut b: usize = 0;
        while b < self.bugs.len()
            invariant
                b <= self.bugs@.len(),
                self.bugs@.len() == old(self).bugs@.len(),
                staged_bugs@.len() == old(self).bugs@.len(),
                self@ == (SimView {
                    sim_time,
                    web: WebView { particles: self.web.particles@, strands: old(self)@.web.strands },
                    bugs: self.bugs@,
                    ..old(self)@
                }),
                self.web.particles@ == old(self)@.step(
                    sim_time,
                    staged@,
                    staged_bugs@,
                ).web.particles,
                forall|j: int|
                    0 <= j < b ==> #[trigger] self.bugs@[j] == old(self)@.step(
                        sim_time,
                        staged@,
                        staged_bugs@,
                    ).bugs[j],
                forall|j: int|
                    b <= j < self.bugs@.len() ==> #[trigger] self.bugs@[j] == old(self).bugs@[j],
            decreases self.bugs@.len() - b,
        {
            let mut bug = self.bugs[b];
            bug.prev_position = bug.position;
            bug.position = staged_bugs[b];
            self.bugs.set(b, bug);
            b += 1;
        }
        proof {
            assert(self.bugs@ =~= old(self)@.step(sim_time, staged@, staged_bugs@).bugs);
        }
    }
}

/// In a rising list, entries `j - i` places apart name bugs at least that
/// far apart.
proof fn lemma_rising_gap(pending: Seq<(usize, usize)>, i: int, j: int)
    requires
        forall|a: int, b: int|
            0 <= a < b < pending.len() ==> (#[trigger] pending[a]).0 < (#[trigger] pending[b]).0,
        0 <= i <= j < pending.len(),
    ensures
        pending[i].0 + (j - i) <= pending[j].0,
    decreases j - i,
{
    if i < j {
        lemma_rising_gap(pending, i, j - 1);
    }
}

/// A stick event, in which a bug sticks to a strand and leaves the bug list,
/// takes one bug off that list and puts one particle into the web, the bug
/// at rest. The web keeps its invariant and has one strand more than before:
/// one is taken out and two are put in.
pub proof fn lemma_stick_event(
    sim: SimView,
    bug: usize,
    strand: usize,
    start_length: Scalar,
    end_length: Scalar,
)
    requires
        sim.web.well_formed(),
        sim.web.particles.len() <= usize::MAX,
        bug < sim.bugs.len(),
        strand < sim.web.strands.len(),
    ensures
        ({
            let after = sim.stick_to_web(
                bug as int,
                strand as int,
                start_length,
                end_length,
            ).remove_stuck(seq![(bug, strand)]);
            &&& after.bugs.len() == sim.bugs.len() - 1
            &&& after.bugs == sim.bugs.remove(bug as int)
            &&& after.web.particles.len() == sim.web.particles.len() + 1
            &&& after.web.particles.last() == stuck(sim.bugs[bug as int])
            &&& after.web.strands.len() == sim.web.strands.len() - 1 + 2
            &&& after.web.well_formed()
        }),
{
    lemma_insert_keeps_topology(
        sim.web,
        stuck(sim.bugs[bug as int]),
        strand as int,
        start_length,
        end_length,
    );
    let pending = seq![(bug, strand)];
    assert(pending.last() == (bug, strand));
    assert(pending.drop_last() == Seq::<(usize, usize)>::empty());
    assert(without_stuck(sim.bugs, pending) == without_stuck(
        sim.bugs.remove(bug as int),
        pending.drop_last(),
    ));
}

/// Taking stuck bugs off the bug list shortens it by their number.
pub proof fn lemma_without_stuck_len(bugs: Seq<Particle>, pending: Seq<(usize, usize)>)
    requires
        rising_within(pending, bugs.len() as int),
    ensures
        without_stuck(bugs, pending).len() == bugs.len() - pending.len(),
    decreases pending.len(),
{
    if pending.len() > 0 {
        let rest = pending.drop_last();
        let fewer = bugs.remove(pending.last().0 as int);
        assert forall|i: int| 0 <= i < rest.len() implies (#[trigger] rest[i]).0 < fewer.len() by {
            assert(rest[i] == pending[i]);
            assert(pending[i].0 < pending[pending.len() - 1].0);
        }
        assert forall|i: int, j: int| 0 <= i < j < rest.len() implies (#[trigger] rest[i]).0 < (
        #[trigger] rest[j]).0 by {
            assert(rest[i] == pending[i]);
            assert(rest[j] == pending[j]);
        }
        lemma_without_stuck_len(fewer, rest);
    }
}

/// How many of the bugs named in `pending` come before bug `bug`.
pub open spec fn named_below(pending: Seq<(usize, usize)>, bug: int) -> int
    decreases pending.len(),
{
    if pending.len() == 0 {
        0
    } else {
        named_below(pending.drop_last(), bug) + if pending.last().0 < bug {
            1int
        } else {
            0int
        }
    }
}

/// Where every bug named comes before `bug`, all of them do.
proof fn lemma_all_named_below(pending: Seq<(usize, usize)>, bug: int)
    requires
        forall|i: int| 0 <= i < pending.len() ==> (#[trigger] pending[i]).0 < bug,
    ensures
        named_below(pending, bug) == pending.len(),
    decreases pending.len(),
{
    if pending.len() > 0 {
        let rest = pending.drop_last();
        assert forall|i: int| 0 <= i < rest.len() implies (#[trigger] rest[i]).0 < bug by {
            assert(rest[i] == pending[i]);
        }
        lemma_all_named_below(rest, bug);
        assert(pending.last() == pending[pending.len() - 1]);
    }
}

/// A bug that did not stick stays on the bug list, as it was, and moves up
/// by as many places as stuck bugs stood before it. So the bugs that stay
/// keep their order.
pub proof fn lemma_free_bug_stays(bugs: Seq<Particle>, pending: Seq<(usize, usize)>, bug: int)
    requires
        rising_within(pending, bugs.len() as int),
        0 <= bug < bugs.len(),
        !names(pending, bug as usize),
        bugs.len() <= usize::MAX,
    ensures
        0 <= bug - named_below(pending, bug) < without_stuck(bugs, pending).len(),
        without_stuck(bugs, pending)[bug - named_below(pending, bug)] == bugs[bug],
    decreases pending.len(),
{
    if pending.len() > 0 {
        let rest = pending.drop_last();
        let last = pending.last().0 as int;
        let fewer = bugs.remove(last);
        assert(pending.last() == pending[pending.len() - 1]);
        assert forall|i: int| 0 <= i < rest.len() implies (#[trigger] rest[i]).0 < last by {
            assert(rest[i] == pending[i]);
            assert(pending[i].0 < pending[pending.len() - 1].0);
        }
        assert(rising(rest)) by {
            assert forall|i: int, j: int| 0 <= i < j < rest.len() implies (#[trigger] rest[i]).0 < (
            #[trigger] rest[j]).0 by {
                assert(rest[i] == pending[i]);
                assert(rest[j] == pending[j]);
            }
        }
        assert(bug != last) by {
            if bug == last {
                assert(pending[pending.len() - 1].0 == bug as usize);
            }
        }
        if bug < last {
            assert(!names(rest, bug as usize)) by {
                if names(rest, bug as usize) {
                    let i = choose|i: int| 0 <= i < rest.len() && (#[trigger] rest[i]).0 == bug;
                    assert(pending[i] == rest[i]);
                }
            }
            lemma_free_bug_stays(fewer, rest, bug);
        } else {
            assert(!names(rest, (bug - 1) as usize)) by {
                if names(rest, (bug - 1) as usize) {
                    let i = choose|i: int|
                        0 <= i < rest.len() && (#[trigger] rest[i]).0 == (bug - 1) as usize;
                }
            }
            lemma_all_named_below(rest, bug);
            lemma_all_named_below(rest, bug - 1);
            lemma_free_bug_stays(fewer, rest, bug - 1);
        }
    }
}

/// Two rising lists that name the same bugs name them at the same places.
proof fn lemma_same_bugs(p: Seq<(usize, usize)>, q: Seq<(usize, usize)>)
    requires
        rising(p),
        rising(q),
        forall|i: int| 0 <= i < p.len() ==> names(q, (#[trigger] p[i]).0),
        forall|j: int| 0 <= j < q.len() ==> names(p, (#[trigger] q[j]).0),
    ensures
        p.len() == q.len(),
        forall|i: int| 0 <= i < p.len() ==> (#[trigger] p[i]).0 == q[i].0,
    decreases p.len(),
{
    if p.len() == 0 {
        if q.len() > 0 {
            assert(names(p, q[0].0));
        }
    } else if q.len() == 0 {
        assert(names(q, p[0].0));
    } else {
        let pl = p.len() - 1;
        let ql = q.len() - 1;
        assert(names(q, p[pl].0));
        let j = choose|j: int| 0 <= j < q.len() && (#[trigger] q[j]).0 == p[pl].0;
        assert(names(p, q[ql].0));
        let i = choose|i: int| 0 <= i < p.len() && (#[trigger] p[i]).0 == q[ql].0;
        if j < ql {
            assert(q[j].0 < q[ql].0);
        }
        if i < pl {
            assert(p[i].0 < p[pl].0);
        }
        assert(p[pl].0 == q[ql].0);
        let pp = p.drop_last();
        let qq = q.drop_last();
        assert forall|a: int| 0 <= a < pp.len() implies names(qq, (#[trigger] pp[a]).0) by {
            assert(pp[a] == p[a]);
            assert(names(q, p[a].0));
            let b = choose|b: int| 0 <= b < q.len() && (#[trigger] q[b]).0 == p[a].0;
            assert(p[a].0 < p[pl].0);
            assert(b < ql);
            assert(qq[b] == q[b]);
        }
        assert forall|b: int| 0 <= b < qq.len() implies names(pp, (#[trigger] qq[b]).0) by {
            assert(qq[b] == q[b]);
            assert(names(p, q[b].0));
            let a = choose|a: int| 0 <= a < p.len() && (#[trigger] p[a]).0 == q[b].0;
            assert(q[b].0 < q[ql].0);
            assert(a < pl);
            assert(pp[a] == p[a]);
        }
        assert(rising(pp)) by {
            assert forall|a: int, b: int| 0 <= a < b < pp.len() implies (#[trigger] pp[a]).0 < (
            #[trigger] pp[b]).0 by {
                assert(pp[a] == p[a]);
                assert(pp[b] == p[b]);
            }
        }
        assert(rising(qq)) by {
            assert forall|a: int, b: int| 0 <= a < b < qq.len() implies (#[trigger] qq[a]).0 < (
            #[trigger] qq[b]).0 by {
                assert(qq[a] == q[a]);
                assert(qq[b] == q[b]);
            }
        }
        lemma_same_bugs(pp, qq);
        assert forall|a: int| 0 <= a < p.len() implies (#[trigger] p[a]).0 == q[a].0 by {
            if a < pl {
                assert(pp[a] == p[a]);
                assert(qq[a] == q[a]);
            }
        }
    }
}

/// A collision scan has one outcome: two lists that both are what a scan of
/// `contacts` records are the same list. So a bug sticks to the first strand
/// it touches and to no other.
pub proof fn lemma_pending_unique(
    contacts: Seq<Vec<Contact>>,
    p: Seq<(usize, usize)>,
    q: Seq<(usize, usize)>,
)
    requires
        is_pending(contacts, p),
        is_pending(contacts, q),
    ensures
        p == q,
{
    assert forall|i: int| 0 <= i < p.len() implies names(q, (#[trigger] p[i]).0) by {
        assert(touches(contacts[p[i].0 as int]@[p[i].1 as int]));
    }
    assert forall|j: int| 0 <= j < q.len() implies names(p, (#[trigger] q[j]).0) by {
        assert(touches(contacts[q[j].0 as int]@[q[j].1 as int]));
    }
    lemma_same_bugs(p, q);
    assert forall|i: int| 0 <= i < p.len() implies p[i] == q[i] by {
        let row = contacts[p[i].0 as int]@;
        assert(p[i].0 == q[i].0);
        assert(is_first_touch(row, p[i].1 as int));
        assert(is_first_touch(row, q[i].1 as int));
        if p[i].1 < q[i].1 {
            assert(!touches(row[p[i].1 as int]));
        } else if q[i].1 < p[i].1 {
            assert(!touches(row[q[i].1 as int]));
        }
    }
    assert(p =~= q);
}

/// A strand that holds `particle` is among the strands that pull at it,
/// with the particle at its other end.
pub proof fn lemma_touching_has(strands: Seq<SilkStrand>, particle: usize, k: int)
    requires
        0 <= k < strands.len() <= usize::MAX,
        strands[k].start == particle || strands[k].end == particle,
    ensures
        touching(strands, particle).contains(
            (
                k as usize,
                if strands[k].start == particle {
                    strands[k].end
                } else {
                    strands[k].start
                },
            ),
        ),
    decreases strands.len(),
{
    let rest = touching(strands.drop_last(), particle);
    let all = touching(strands, particle);
    if k == strands.len() - 1 {
        assert(all.last() == (
            k as usize,
            if strands[k].start == particle {
                strands[k].end
            } else {
                strands[k].start
            },
        ));
    } else {
        lemma_touching_has(strands.drop_last(), particle, k);
        let link = (
            k as usize,
            if strands[k].start == particle {
                strands[k].end
            } else {
                strands[k].start
            },
        );
        let at = choose|at: int| 0 <= at < rest.len() && rest[at] == link;
        assert(all[at] == link);
    }
}

/// Whatever is among the strands that pull at `particle` is a strand that
/// holds it, with the particle at its other end.
pub proof fn lemma_touching_only(strands: Seq<SilkStrand>, particle: usize, link: (usize, usize))
    requires
        strands.len() <= usize::MAX,
        touching(strands, particle).contains(link),
    ensures
        link.0 < strands.len(),
        strands[link.0 as int].start == particle || strands[link.0 as int].end == particle,
        link.1 == if strands[link.0 as int].start == particle {
            strands[link.0 as int].end
        } else {
            strands[link.0 as int].start
        },
    decreases strands.len(),
{
    if strands.len() > 0 {
        let rest = touching(strands.drop_last(), particle);
        let all = touching(strands, particle);
        let at = choose|at: int| 0 <= at < all.len() && all[at] == link;
        if at < rest.len() {
            assert(rest[at] == link);
            lemma_touching_only(strands.drop_last(), particle, link);
        }
    }
}

/// A strand pulls at both its ends: it is among the strands of its start
/// with its end as the far particle, and among those of its end with its
/// start. So each force that a strand exerts has its counterpart at the
/// strand's other end.
pub proof fn lemma_strand_pulls_both_ends(strands: Seq<SilkStrand>, k: int)
    requires
        0 <= k < strands.len() <= usize::MAX,
        strands[k].start != strands[k].end,
    ensures
        touching(strands, strands[k].start).contains((k as usize, strands[k].end)),
        touching(strands, strands[k].end).contains((k as usize, strands[k].start)),
{
    lemma_touching_has(strands, strands[k].start, k);
    lemma_touching_has(strands, strands[k].end, k);
}

} // verus!
