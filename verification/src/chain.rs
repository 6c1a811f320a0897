//! The state of the chain: two fixed anchors, and for every particle a
//! position, a velocity, an acceleration and the position it started from.

use crate::error::{ConfigError, StateError};
use crate::schedule::{Progress, Schedule};
use crate::vector::{bits_of, vec2_bits, zero_vector};
use glam::Vec2;
use vstd::prelude::*;

verus! {

/// What a chain holds, every vector given by the bit patterns of its two
/// coordinates.
pub struct ChainState {
    pub start: (u32, u32),
    pub end: (u32, u32),
    pub positions: Seq<(u32, u32)>,
    pub velocities: Seq<(u32, u32)>,
    pub accelerations: Seq<(u32, u32)>,
    pub initial_positions: Seq<(u32, u32)>,
}

impl ChainState {
    /// The number of particles.
    pub open spec fn len(self) -> nat {
        self.positions.len()
    }

    /// There is at least one particle, and every particle has one entry in
    /// each of the four sequences.
    pub open spec fn well_formed(self) -> bool {
        &&& self.positions.len() >= 1
        &&& self.velocities.len() == self.positions.len()
        &&& self.accelerations.len() == self.positions.len()
        &&& self.initial_positions.len() == self.positions.len()
    }

    /// The chain as it is set up: the particles rest at `positions`, which
    /// are also kept as their initial positions, and `acceleration` acts on
    /// every one of them.
    pub open spec fn at_rest(
        start: (u32, u32),
        end: (u32, u32),
        positions: Seq<(u32, u32)>,
        acceleration: (u32, u32),
    ) -> ChainState {
        ChainState {
            start,
            end,
            positions,
            velocities: Seq::new(positions.len(), |i: int| (0u32, 0u32)),
            accelerations: Seq::new(positions.len(), |i: int| acceleration),
            initial_positions: positions,
        }
    }

    /// The chain after a reset: every particle is back at its initial
    /// position, with zero velocity.
    pub open spec fn reset(self) -> ChainState {
        ChainState {
            positions: self.initial_positions,
            velocities: Seq::new(self.len(), |i: int| (0u32, 0u32)),
            ..self
        }
    }

    /// The chain with new positions and velocities.
    pub open spec fn with_motion(
        self,
        positions: Seq<(u32, u32)>,
        velocities: Seq<(u32, u32)>,
    ) -> ChainState {
        ChainState { positions, velocities, ..self }
    }

    /// The chain with `acceleration` acting on every particle.
    pub open spec fn with_uniform_acceleration(self, acceleration: (u32, u32)) -> ChainState {
        ChainState { accelerations: Seq::new(self.len(), |i: int| acceleration), ..self }
    }

    /// A reset after a reset changes nothing: the positions are the initial
    /// ones and every velocity is zero after the first already.
    pub proof fn lemma_reset_idempotent(self)
        requires
            self.well_formed(),
        ensures
            self.reset().reset() == self.reset(),
            self.reset().positions == self.initial_positions,
            self.reset().velocities.len() == self.len(),
            forall|i: int| 0 <= i < self.len() ==> self.reset().velocities[i] == (0u32, 0u32),
    {
    }

    /// No operation on a chain moves an anchor.
    pub proof fn lemma_anchors_fixed(
        self,
        positions: Seq<(u32, u32)>,
        velocities: Seq<(u32, u32)>,
        acceleration: (u32, u32),
    )
        ensures
            self.reset().start == self.start,
            self.reset().end == self.end,
            self.with_motion(positions, velocities).start == self.start,
            self.with_motion(positions, velocities).end == self.end,
            self.with_uniform_acceleration(acceleration).start == self.start,
            self.with_uniform_acceleration(acceleration).end == self.end,
    {
    }

    /// Every operation on a chain keeps one entry per particle in each of
    /// the four sequences, and keeps the number of particles.
    pub proof fn lemma_lengths_kept(
        self,
        positions: Seq<(u32, u32)>,
        velocities: Seq<(u32, u32)>,
        acceleration: (u32, u32),
    )
        requires
            self.well_formed(),
            positions.len() == self.len(),
            velocities.len() == self.len(),
        ensures
            self.reset().well_formed(),
            self.reset().len() == self.len(),
            self.with_motion(positions, velocities).well_formed(),
            self.with_motion(positions, velocities).len() == self.len(),
            self.with_uniform_acceleration(acceleration).well_formed(),
            self.with_uniform_acceleration(acceleration).len() == self.len(),
    {
    }
}

/// A chain of particles between two anchors.
#[derive(Debug)]
pub struct Chain {
    start: Vec2,
    end: Vec2,
    positions: Vec<Vec2>,
    velocities: Vec<Vec2>,
    accelerations: Vec<Vec2>,
    previous_positions: Vec<Vec2>,
}

impl View for Chain {
    type V = ChainState;

    closed spec fn view(&self) -> ChainState {
        ChainState {
            start: vec2_bits(self.start),
            end: vec2_bits(self.end),
            positions: bits_of(self.positions@),
            velocities: bits_of(self.velocities@),
            accelerations: bits_of(self.accelerations@),
            initial_positions: bits_of(self.previous_positions@),
        }
    }
}

/// A copy of `source`, vector by vector.
fn copy_of(source: &Vec<Vec2>) -> (copy: Vec<Vec2>)
    ensures
        copy@ == source@,
{
    let mut copy: Vec<Vec2> = Vec::new();
    let mut i: usize = 0;
    while i < source.len()
        invariant
            i <= source.len(),
            copy.len() == i,
            forall|j: int| 0 <= j < i ==> copy[j] == source[j],
        decreases source.len() - i,
    {
        copy.push(source[i]);
        i = i + 1;
    }
    assert(copy@ =~= source@);
    copy
}

/// `count` times the vector `value`.
fn filled(count: usize, value: Vec2) -> (all: Vec<Vec2>)
    ensures
        all@ == Seq::new(count as nat, |i: int| value),
{
    let mut all: Vec<Vec2> = Vec::new();
    let mut i: usize = 0;
    while i < count
        invariant
            i <= count,
            all.len() == i,
            forall|j: int| 0 <= j < i ==> all[j] == value,
        decreases count - i,
    {
        all.push(value);
        i = i + 1;
    }
    assert(all@ =~= Seq::new(count as nat, |i: int| value));
    all
}

impl Chain {
    #[verifier::type_invariant]
    spec fn inv(self) -> bool {
        &&& self.positions.len() >= 1
        &&& self.velocities.len() == self.positions.len()
        &&& self.accelerations.len() == self.positions.len()
        &&& self.previous_positions.len() == self.positions.len()
    }

    /// Sets up a chain between the anchors `start` and `end` whose particles
    /// rest at `positions`, in chain order, under the same `acceleration`.
    /// The positions are kept for a later reset. A chain without particles
    /// is refused.
    pub fn new(start: Vec2, end: Vec2, positions: Vec<Vec2>, acceleration: Vec2) -> (r: Result<
        Chain,
        ConfigError,
    >)
        ensures
            positions.len() == 0 <==> r is Err,
            r matches Err(e) ==> e == ConfigError::EmptyChain,
            r matches Ok(chain) ==> chain@ == ChainState::at_rest(
                vec2_bits(start),
                vec2_bits(end),
                bits_of(positions@),
                vec2_bits(acceleration),
            ) && chain@.well_formed(),
    {
        let count: usize = positions.len();
        if count == 0 {
            return Err(ConfigError::EmptyChain);
        }
        let velocities = filled(count, zero_vector());
        let accelerations = filled(count, acceleration);
        let previous_positions = copy_of(&positions);
        let chain = Chain {
            start,
            end,
            positions,
            velocities,
            accelerations,
            previous_positions,
        };
        proof {
            let model = ChainState::at_rest(
                vec2_bits(start),
                vec2_bits(end),
                bits_of(positions@),
                vec2_bits(acceleration),
            );
            assert(chain@.velocities =~= model.velocities);
            assert(chain@.accelerations =~= model.accelerations);
        }
        Ok(chain)
    }

    /// Puts every particle back at its initial position and sets every
    /// velocity to zero. Anchors, accelerations and the initial positions
    /// stay as they are.
    pub fn reset(&mut self)
        ensures
            final(self)@ == old(self)@.reset(),
            final(self)@.well_formed(),
    {
        proof {
            use_type_invariant(&*self);
        }
        let count: usize = self.positions.len();
        let positions = copy_of(&self.previous_positions);
        let velocities = filled(count, zero_vector());
        self.positions = positions;
        self.velocities = velocities;
        proof {
            assert(self@.velocities =~= old(self)@.reset().velocities);
        }
    }

    /// Takes over the positions and velocities that a frame has computed.
    /// They are refused, and the chain stays as it is, unless there is one
    /// of each for every particle.
    pub fn store(&mut self, positions: Vec<Vec2>, velocities: Vec<Vec2>) -> (r: Result<
        (),
        StateError,
    >)
        ensures
            r is Ok <==> positions.len() == old(self)@.len() && velocities.len() == old(
                self,
            )@.len(),
            r matches Err(e) ==> e == StateError::LengthMismatch && final(self)@ == old(self)@,
            r is Ok ==> final(self)@ == old(self)@.with_motion(
                bits_of(positions@),
                bits_of(velocities@),
            ),
            final(self)@.well_formed(),
    {
        proof {
            use_type_invariant(&*self);
        }
        let count: usize = self.positions.len();
        if positions.len() != count || velocities.len() != count {
            return Err(StateError::LengthMismatch);
        }
        self.velocities = velocities;
        self.positions = positions;
        Ok(())
    }

    /// Lets `acceleration` act on every particle.
    pub fn set_uniform_acceleration(&mut self, acceleration: Vec2)
        ensures
            final(self)@ == old(self)@.with_uniform_acceleration(vec2_bits(acceleration)),
            final(self)@.well_formed(),
    {
        proof {
            use_type_invariant(&*self);
        }
        let count: usize = self.positions.len();
        let accelerations = filled(count, acceleration);
        self.accelerations = accelerations;
        proof {
            assert(self@.accelerations =~= old(self)@.with_uniform_acceleration(
                vec2_bits(acceleration),
            ).accelerations);
        }
    }

    /// The schedule of one frame of `sub_steps` sub-steps for this chain.
    pub fn frame(&self, sub_steps: usize) -> (schedule: Schedule)
        ensures
            schedule@ == Progress::fresh(self@.len(), sub_steps as nat),
            schedule@.well_formed(),
    {
        proof {
            use_type_invariant(self);
        }
        Schedule::for_particles(self.positions.len(), sub_steps)
    }

    /// The positions and the velocities of the particles, in chain order.
    pub fn snapshot(&self) -> (r: (&Vec<Vec2>, &Vec<Vec2>))
        ensures
            bits_of(r.0@) == self@.positions,
            bits_of(r.1@) == self@.velocities,
            r.0.len() == r.1.len(),
            self@.well_formed(),
    {
        proof {
            use_type_invariant(self);
        }
        (&self.positions, &self.velocities)
    }

    /// The number of particles, which is at least one.
    pub fn len(&self) -> (count: usize)
        ensures
            count == self@.len(),
            count >= 1,
            self@.well_formed(),
    {
        proof {
            use_type_invariant(self);
        }
        self.positions.len()
    }

    /// The anchor that the first particle is tied to.
    pub fn start(&self) -> (anchor: Vec2)
        ensures
            vec2_bits(anchor) == self@.start,
    {
        self.start
    }

    /// The anchor that the last particle is tied to.
    pub fn end(&self) -> (anchor: Vec2)
        ensures
            vec2_bits(anchor) == self@.end,
    {
        self.end
    }

    /// The positions of the particles, in chain order.
    pub fn positions(&self) -> (r: &Vec<Vec2>)
        ensures
            bits_of(r@) == self@.positions,
    {
        &self.positions
    }

    /// The velocities of the particles, in chain order.
    pub fn velocities(&self) -> (r: &Vec<Vec2>)
        ensures
            bits_of(r@) == self@.velocities,
    {
        &self.velocities
    }

    /// The accelerations that act on the particles, in chain order.
    pub fn accelerations(&self) -> (r: &Vec<Vec2>)
        ensures
            bits_of(r@) == self@.accelerations,
    {
        &self.accelerations
    }

    /// The positions that a reset puts the particles back to.
    pub fn initial_positions(&self) -> (r: &Vec<Vec2>)
        ensures
            bits_of(r@) == self@.initial_positions,
    {
        &self.previous_positions
    }
}

} // verus!
