//! The web: an arena of particles and an arena of strands between them.
use crate::scalar::{Scalar, Vector3, INFINITY_BITS};
use vstd::prelude::*;

verus! {

/// What a particle is: a bug that stuck to the web, or a joint of silk.
#[derive(Clone, Copy, Debug, PartialEq, Eq, Structural)]
pub enum ParticleType {
    Bug,
    Silk,
}

/// A point mass. `prev_position` is where it stood one step ago.
#[derive(Clone, Copy, Debug, PartialEq, Eq, Structural)]
pub struct Particle {
    pub position: Vector3,
    pub prev_position: Vector3,
    pub velocity: Vector3,
    pub mass: Scalar,
    pub fixed: bool,
    pub particle_type: ParticleType,
}

impl Particle {
    /// A particle at rest in its history: it stood one step ago where it
    /// stands now.
    pub fn new(
        position: Vector3,
        velocity: Vector3,
        mass: Scalar,
        fixed: bool,
        particle_type: ParticleType,
    ) -> (p: Particle)
        ensures
            p == (Particle {
                position,
                prev_position: position,
                velocity,
                mass,
                fixed,
                particle_type,
            }),
    {
        Particle { position, prev_position: position, velocity, mass, fixed, particle_type }
    }
}

/// A damped spring between the particles `start` and `end`.
#[derive(Clone, Copy, Debug, PartialEq, Eq, Structural)]
pub struct SilkStrand {
    pub start: usize,
    pub end: usize,
    pub length: Scalar,
    pub stiffness: Scalar,
    pub damping: Scalar,
}

impl SilkStrand {
    pub fn new(start: usize, end: usize, length: Scalar, stiffness: Scalar, damping: Scalar) -> (s:
        SilkStrand)
        ensures
            s == (SilkStrand { start, end, length, stiffness, damping }),
    {
        SilkStrand { start, end, length, stiffness, damping }
    }
}

/// What was measured of one strand from one point.
#[derive(Clone, Copy, Debug, PartialEq, Eq, Structural)]
pub struct StrandProbe {
    /// From the point to the nearest point of the strand's segment.
    pub distance: Scalar,
    /// From the point to the strand's start particle.
    pub to_start: Scalar,
    /// From the point to the strand's end particle.
    pub to_end: Scalar,
}

/// The web as a value: its particles and its strands, each in arena order.
pub struct WebView {
    pub particles: Seq<Particle>,
    pub strands: Seq<SilkStrand>,
}

impl WebView {
    /// The invariant of a web: every strand joins two of its particles.
    pub open spec fn well_formed(self) -> bool {
        forall|k: int|
            0 <= k < self.strands.len() ==> (#[trigger] self.strands[k]).start
                < self.particles.len() && self.strands[k].end < self.particles.len()
    }

    /// The web with `particle` appended.
    pub open spec fn push_particle(self, particle: Particle) -> WebView {
        WebView { particles: self.particles.push(particle), strands: self.strands }
    }

    /// The web with `strand` appended.
    pub open spec fn push_strand(self, strand: SilkStrand) -> WebView {
        WebView { particles: self.particles, strands: self.strands.push(strand) }
    }

    /// The web after `particle` has been put into strand `k`. The particle
    /// is appended. The last strand takes the place of strand `k`, and the
    /// two halves of strand `k` follow at the end, with its stiffness and
    /// damping.
    pub open spec fn insert(
        self,
        particle: Particle,
        k: int,
        start_length: Scalar,
        end_length: Scalar,
    ) -> WebView {
        let joint = self.particles.len() as usize;
        let cut = self.strands[k];
        WebView {
            particles: self.particles.push(particle),
            strands: self.strands.update(k, self.strands.last()).drop_last().push(
                SilkStrand {
                    start: cut.start,
                    end: joint,
                    length: start_length,
                    stiffness: cut.stiffness,
                    damping: cut.damping,
                },
            ).push(
                SilkStrand {
                    start: joint,
                    end: cut.end,
                    length: end_length,
                    stiffness: cut.stiffness,
                    damping: cut.damping,
                },
            ),
        }
    }
}

/// Whether a strand at this distance can be the nearest: the distance is
/// below infinity and no NaN.
pub open spec fn in_reach(probe: StrandProbe) -> bool {
    probe.distance.less(Scalar { bits: INFINITY_BITS })
}

/// Whether `r` is the index that the search for the nearest strand gives:
/// the strand in reach whose distance none undercuts, and among several such
/// the one with the lowest index; 0 where no strand is in reach.
pub open spec fn is_closest(probes: Seq<StrandProbe>, r: int) -> bool {
    if exists|j: int| 0 <= j < probes.len() && in_reach(#[trigger] probes[j]) {
        &&& 0 <= r < probes.len()
        &&& in_reach(probes[r])
        &&& forall|j: int|
            0 <= j < probes.len() ==> !(#[trigger] probes[j]).distance.less(probes[r].distance)
        &&& forall|j: int|
            0 <= j < r ==> (#[trigger] probes[j]).distance.is_nan() || probes[r].distance.less(
                probes[j].distance,
            )
    } else {
        r == 0
    }
}

/// The index that the search for the nearest strand gives.
pub open spec fn closest(probes: Seq<StrandProbe>) -> int {
    choose|r: int| is_closest(probes, r)
}

/// The search for the nearest strand has one answer: of two strands at the
/// same least distance only the one with the lower index is it.
pub proof fn lemma_closest_unique(probes: Seq<StrandProbe>, r: int, q: int)
    requires
        is_closest(probes, r),
        is_closest(probes, q),
    ensures
        r == q,
        closest(probes) == r,
{
    if r < q {
        assert(probes[r].distance.is_nan() || probes[q].distance.less(probes[r].distance));
    } else if q < r {
        assert(probes[q].distance.is_nan() || probes[r].distance.less(probes[q].distance));
    }
    let c = closest(probes);
    if c < r {
        assert(probes[c].distance.is_nan() || probes[r].distance.less(probes[c].distance));
    } else if r < c {
        assert(probes[r].distance.is_nan() || probes[c].distance.less(probes[r].distance));
    }
}

/// Particles and the strands between them. A strand names its two
/// particles by their indices. Particles are only ever appended, so an index
/// names the same particle for good. A strand's index does not last: a
/// splice moves the last strand into the place of the strand it cuts.
#[derive(Debug)]
pub struct Spiderweb {
    pub particles: Vec<Particle>,
    pub strands: Vec<SilkStrand>,
}

impl View for Spiderweb {
    type V = WebView;

    open spec fn view(&self) -> WebView {
        WebView { particles: self.particles@, strands: self.strands@ }
    }
}

impl Spiderweb {
    /// The invariant of a web: every strand joins two of its particles.
    pub open spec fn well_formed(&self) -> bool {
        self@.well_formed()
    }

    /// A web with no particle and no strand.
    pub fn new() -> (web: Spiderweb)
        ensures
            web@.particles.len() == 0,
            web@.strands.len() == 0,
            web.well_formed(),
    {
        Spiderweb { particles: Vec::new(), strands: Vec::new() }
    }

    /// A second web with the same particles and strands.
    pub fn copy(&self) -> (web: Spiderweb)
        ensures
            web@ == self@,
    {
        let particles = self.particles.clone();
        let strands = self.strands.clone();
        assert(particles@ =~= self.particles@);
        assert(strands@ =~= self.strands@);
        Spiderweb { particles, strands }
    }

    /// Appends a particle and returns its index. No strand changes.
    pub fn push_particle(&mut self, particle: Particle) -> (index: usize)
        ensures
            final(self)@ == old(self)@.push_particle(particle),
            index == old(self)@.particles.len(),
            old(self).well_formed() ==> final(self).well_formed(),
    {
        let index = self.particles.len();
        self.particles.push(particle);
        index
    }

    /// Appends a strand between two particles of the web and returns its
    /// index.
    pub fn push_strand(&mut self, strand: SilkStrand) -> (index: usize)
        requires
            strand.start < old(self).particles@.len(),
            strand.end < old(self).particles@.len(),
        ensures
            final(self)@ == old(self)@.push_strand(strand),
            index == old(self)@.strands.len(),
            old(self).well_formed() ==> final(self).well_formed(),
    {
        let index = self.strands.len();
        self.strands.push(strand);
        index
    }

    /// Whether every strand joins two particles of the web, found by looking
    /// at each.
    pub fn is_well_formed(&self) -> (ok: bool)
        ensures
            ok == self.well_formed(),
    {
        let count = self.particles.len();
        let mut k: usize = 0;
        while k < self.strands.len()
            invariant
                k <= self.strands@.len(),
                count == self.particles@.len(),
                forall|j: int|
                    0 <= j < k ==> (#[trigger] self.strands@[j]).start < count
                        && self.strands@[j].end < count,
            decreases self.strands@.len() - k,
        {
            if self.strands[k].start >= count || self.strands[k].end >= count {
                assert(self@.strands[k as int] == self.strands@[k as int]);
                return false;
            }
            k += 1;
        }
        true
    }

    /// Puts `particle` into strand `strand_idx`: the particle is appended,
    /// the strand leaves the arena by swap-remove, and two strands take its
    /// place at the end, from its start to the particle and from the particle
    /// to its end, with its stiffness and damping and the rest lengths given.
    pub fn insert_particle_into_web(
        &mut self,
        particle: Particle,
        strand_idx: usize,
        start_length: Scalar,
        end_length: Scalar,
    )
        requires
            old(self).well_formed(),
            strand_idx < old(self).strands@.len(),
        ensures
            final(self)@ == old(self)@.insert(particle, strand_idx as int, start_length, end_length),
            final(self).well_formed(),
    {
        let joint = self.push_particle(particle);
        let strand = self.strands.swap_remove(strand_idx);
        self.strands.push(
            SilkStrand::new(strand.start, joint, start_length, strand.stiffness, strand.damping),
        );
        self.strands.push(
            SilkStrand::new(joint, strand.end, end_length, strand.stiffness, strand.damping),
        );
    }

    /// The strand nearest to the point that `probes` was measured from, one
    /// probe for each strand in the arena's order. Of several strands at the
    /// least distance the first wins; where no strand is in reach the answer
    /// is 0.
    pub fn get_closest_strand(&self, probes: &Vec<StrandProbe>) -> (index: usize)
        requires
            probes@.len() == self.strands@.len(),
        ensures
            is_closest(probes@, index as int),
            index == closest(probes@),
            index < self@.strands.len() || index == 0,
    {
        let mut closest = Scalar::infinity();
        let mut index: usize = 0;
        let mut k: usize = 0;
        while k < probes.len()
            invariant
                k <= probes@.len(),
                !closest.is_nan(),
                closest.less_eq(Scalar { bits: INFINITY_BITS }),
                forall|j: int| 0 <= j < k ==> !(#[trigger] probes@[j]).distance.less(closest),
                closest.bits == INFINITY_BITS ==> index == 0,
                closest.bits != INFINITY_BITS ==> {
                    &&& index < k
                    &&& probes@[index as int].distance == closest
                    &&& forall|j: int|
                        0 <= j < index ==> (#[trigger] probes@[j]).distance.is_nan()
                            || closest.less(probes@[j].distance)
                },
            decreases probes@.len() - k,
        {
            if probes[k].distance.lt(closest) {
                closest = probes[k].distance;
                index = k;
            }
            k += 1;
        }
        proof {
            if closest.bits != INFINITY_BITS {
                assert(in_reach(probes@[index as int]));
            }
            lemma_closest_unique(probes@, index as int, index as int);
        }
        index
    }
}

/// Putting a particle into a strand keeps the web's invariant, adds one
/// particle, and leaves one strand more than before: one is taken out and
/// two are put in. The new particle is the joint of the two, which run to
/// the ends of the strand taken out and have its stiffness and damping.
pub proof fn lemma_insert_keeps_topology(
    web: WebView,
    particle: Particle,
    k: int,
    start_length: Scalar,
    end_length: Scalar,
)
    requires
        web.well_formed(),
        0 <= k < web.strands.len(),
        web.particles.len() <= usize::MAX,
    ensures
        web.insert(particle, k, start_length, end_length).well_formed(),
        web.insert(particle, k, start_length, end_length).particles.len() == web.particles.len()
            + 1,
        web.insert(particle, k, start_length, end_length).strands.len() == web.strands.len() - 1
            + 2,
        web.insert(particle, k, start_length, end_length).particles.last() == particle,
        ({
            let after = web.insert(particle, k, start_length, end_length).strands;
            let first = after[after.len() - 2];
            let second = after[after.len() - 1];
            &&& first.start == web.strands[k].start
            &&& first.end == web.particles.len()
            &&& second.start == web.particles.len()
            &&& second.end == web.strands[k].end
            &&& first.length == start_length
            &&& second.length == end_length
            &&& first.stiffness == web.strands[k].stiffness
            &&& second.stiffness == web.strands[k].stiffness
            &&& first.damping == web.strands[k].damping
            &&& second.damping == web.strands[k].damping
        }),
{
    let after = web.insert(particle, k, start_length, end_length);
    assert forall|j: int| 0 <= j < after.strands.len() implies (#[trigger] after.strands[j]).start
        < after.particles.len() && after.strands[j].end < after.particles.len() by {
        if j < web.strands.len() - 1 {
            if j == k {
                assert(after.strands[j] == web.strands.last());
            } else {
                assert(after.strands[j] == web.strands[j]);
            }
        }
    }
}

} // verus!
