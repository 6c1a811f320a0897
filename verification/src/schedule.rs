//! The order of work within one displayed frame.
//!
//! A frame is a fixed number of sub-steps. Each sub-step integrates every
//! particle once and then sweeps the distance constraints once, from the
//! start anchor along the chain to the end anchor, so that a later constraint
//! sees what an earlier one did to the velocities. A [`Schedule`] hands these
//! operations out one at a time; the caller carries each one out before it
//! asks for the next.

use crate::error::ConfigError;
use vstd::prelude::*;

verus! {

/// A distance constraint of the chain, named by the two points it ties.
#[derive(Clone, Copy, Debug, PartialEq, Eq)]
pub enum Constraint {
    /// The start anchor and the first particle.
    StartAnchor,
    /// Particle `i` and particle `i + 1`.
    Link(usize),
    /// The last particle and the end anchor.
    EndAnchor,
}

/// One unit of work of a sub-step.
#[derive(Clone, Copy, Debug, PartialEq, Eq)]
pub enum Op {
    /// Advance the velocity and then the position of every particle.
    Integrate,
    /// Test one constraint and, where it is stretched, correct the velocities
    /// of the particles it ties.
    Resolve(Constraint),
}

/// The constraint in place `k` of the sweep over a chain of `particles`
/// particles: the start anchor first, then the links in chain order, the end
/// anchor last.
pub open spec fn constraint_in_sweep(particles: nat, k: nat) -> Constraint {
    if k == 0 {
        Constraint::StartAnchor
    } else if k < particles {
        Constraint::Link((k - 1) as usize)
    } else {
        Constraint::EndAnchor
    }
}

/// The operation in place `slot` of a sub-step: the integration in place 0,
/// the sweep after it.
pub open spec fn op_in_slot(particles: nat, slot: nat) -> Op {
    if slot == 0 {
        Op::Integrate
    } else {
        Op::Resolve(constraint_in_sweep(particles, (slot - 1) as nat))
    }
}

/// How far a frame has come: `sub_step` sub-steps are complete, and of the
/// current one the operations before place `slot` have been handed out.
pub struct Progress {
    pub particles: nat,
    pub sub_steps: nat,
    pub sub_step: nat,
    pub slot: nat,
}

impl Progress {
    /// The start of a frame.
    pub open spec fn fresh(particles: nat, sub_steps: nat) -> Progress {
        Progress { particles, sub_steps, sub_step: 0, slot: 0 }
    }

    /// A sub-step has `particles + 2` places, and a finished frame stands at
    /// place 0 behind its last sub-step.
    pub open spec fn well_formed(self) -> bool {
        &&& self.particles >= 1
        &&& self.sub_step <= self.sub_steps
        &&& self.slot <= self.particles + 1
        &&& self.sub_step == self.sub_steps ==> self.slot == 0
    }

    /// Every sub-step of the frame is complete.
    pub open spec fn finished(self) -> bool {
        self.sub_step >= self.sub_steps
    }

    /// The operation that is handed out next.
    pub open spec fn pending(self) -> Op {
        op_in_slot(self.particles, self.slot)
    }

    /// The progress once the pending operation has been handed out.
    pub open spec fn advanced(self) -> Progress {
        if self.slot == self.particles + 1 {
            Progress { sub_step: self.sub_step + 1, slot: 0, ..self }
        } else {
            Progress { slot: self.slot + 1, ..self }
        }
    }

    /// The progress once `count` operations have been handed out.
    pub open spec fn advanced_by(self, count: nat) -> Progress
        decreases count,
    {
        if count == 0 {
            self
        } else {
            self.advanced_by((count - 1) as nat).advanced()
        }
    }

    /// The order of a frame, laid out flat. Operation number
    /// `sub_step * (particles + 2) + slot` of a frame is the one in place
    /// `slot` of sub-step `sub_step`: every sub-step is one integration
    /// followed by one whole sweep, and no operation is left out or repeated.
    pub proof fn lemma_frame_order(particles: nat, sub_steps: nat, sub_step: nat, slot: nat)
        requires
            particles >= 1,
            sub_step < sub_steps,
            slot <= particles + 1,
        ensures
            Progress::fresh(particles, sub_steps).advanced_by(sub_step * (particles + 2) + slot)
                == (Progress { particles, sub_steps, sub_step, slot }),
            !Progress::fresh(particles, sub_steps).advanced_by(
                sub_step * (particles + 2) + slot,
            ).finished(),
            Progress::fresh(particles, sub_steps).advanced_by(
                sub_step * (particles + 2) + slot,
            ).pending() == op_in_slot(particles, slot),
        decreases sub_step, slot,
    {
        let start = Progress::fresh(particles, sub_steps);
        let count = sub_step * (particles + 2) + slot;
        if slot > 0 {
            Self::lemma_frame_order(particles, sub_steps, sub_step, (slot - 1) as nat);
            assert(start.advanced_by(count) == start.advanced_by((count - 1) as nat).advanced());
        } else if sub_step > 0 {
            Self::lemma_frame_order(particles, sub_steps, (sub_step - 1) as nat, particles + 1);
            assert((sub_step - 1) * (particles + 2) + (particles + 1) + 1 == sub_step * (particles
                + 2)) by (nonlinear_arith)
                requires
                    sub_step >= 1,
            ;
            assert(start.advanced_by(count) == start.advanced_by((count - 1) as nat).advanced());
        } else {
            assert(count == 0) by (nonlinear_arith)
                requires
                    count == sub_step * (particles + 2) + slot,
                    sub_step == 0,
                    slot == 0,
            ;
        }
    }

    /// A frame of `sub_steps` sub-steps is finished after exactly
    /// `sub_steps * (particles + 2)` operations, and not before: it holds
    /// `sub_steps` integrations, neither more nor fewer, so that sub-steps of
    /// one `sub_steps`-th of the frame's time add up to the whole of it.
    pub proof fn lemma_frame_length(particles: nat, sub_steps: nat)
        requires
            particles >= 1,
        ensures
            Progress::fresh(particles, sub_steps).advanced_by(sub_steps * (particles + 2))
                == (Progress { particles, sub_steps, sub_step: sub_steps, slot: 0 }),
            Progress::fresh(particles, sub_steps).advanced_by(
                sub_steps * (particles + 2),
            ).finished(),
            forall|count: nat|
                count < sub_steps * (particles + 2) ==> !(#[trigger] Progress::fresh(
                    particles,
                    sub_steps,
                ).advanced_by(count)).finished(),
    {
        let start = Progress::fresh(particles, sub_steps);
        let total = sub_steps * (particles + 2);
        if sub_steps == 0 {
            assert(total == 0) by (nonlinear_arith)
                requires
                    total == sub_steps * (particles + 2),
                    sub_steps == 0,
            ;
        } else {
            Self::lemma_frame_order(particles, sub_steps, (sub_steps - 1) as nat, particles + 1);
            assert((sub_steps - 1) * (particles + 2) + (particles + 1) + 1 == total)
                by (nonlinear_arith)
                requires
                    sub_steps >= 1,
                    total == sub_steps * (particles + 2),
            ;
            assert(start.advanced_by(total) == start.advanced_by((total - 1) as nat).advanced());
        }
        assert forall|count: nat| count < total implies !(#[trigger] start.advanced_by(
            count,
        )).finished() by {
            let width = particles + 2;
            let s = count / width;
            let r = count % width;
            assert(count == s * width + r && 0 <= r < width && s < sub_steps)
                by (nonlinear_arith)
                requires
                    s == count / width,
                    r == count % width,
                    width >= 1,
                    count < sub_steps * width,
            ;
            Self::lemma_frame_order(particles, sub_steps, s, r);
        }
    }
}

/// The operations of one frame, handed out in order.
#[derive(Debug)]
pub struct Schedule {
    particles: usize,
    sub_steps: usize,
    sub_step: usize,
    /// The place in the sweep of the constraint that comes next, or `None`
    /// where the integration comes next.
    sweep: Option<usize>,
}

impl View for Schedule {
    type V = Progress;

    closed spec fn view(&self) -> Progress {
        Progress {
            particles: self.particles as nat,
            sub_steps: self.sub_steps as nat,
            sub_step: self.sub_step as nat,
            slot: match self.sweep {
                None => 0,
                Some(k) => (k + 1) as nat,
            },
        }
    }
}

impl Schedule {
    #[verifier::type_invariant]
    spec fn inv(self) -> bool {
        &&& self.particles >= 1
        &&& self.sub_step <= self.sub_steps
        &&& match self.sweep {
            None => true,
            Some(k) => k <= self.particles && self.sub_step < self.sub_steps,
        }
    }

    /// The schedule of one frame of `sub_steps` sub-steps for a chain of
    /// `particles` particles. A chain without particles has no first and no
    /// last particle to anchor, and is refused.
    pub fn new(particles: usize, sub_steps: usize) -> (r: Result<Schedule, ConfigError>)
        ensures
            particles == 0 <==> r is Err,
            r matches Err(e) ==> e == ConfigError::EmptyChain,
            r matches Ok(s) ==> s@ == Progress::fresh(particles as nat, sub_steps as nat),
    {
        if particles == 0 {
            return Err(ConfigError::EmptyChain);
        }
        Ok(Schedule::for_particles(particles, sub_steps))
    }

    /// The schedule of one frame for a chain that is known to have a
    /// particle.
    pub(crate) fn for_particles(particles: usize, sub_steps: usize) -> (s: Schedule)
        requires
            particles >= 1,
        ensures
            s@ == Progress::fresh(particles as nat, sub_steps as nat),
    {
        Schedule { particles, sub_steps, sub_step: 0, sweep: None }
    }

    /// Hands out the next operation of the frame and moves past it, or
    /// returns `None`, and stays as it is, once the frame is finished.
    pub fn next_op(&mut self) -> (op: Option<Op>)
        ensures
            old(self)@.well_formed(),
            final(self)@.well_formed(),
            old(self)@.finished() ==> op is None && final(self)@ == old(self)@,
            !old(self)@.finished() ==> op == Some(old(self)@.pending()) && final(self)@ == old(
                self,
            )@.advanced(),
    {
        proof {
            use_type_invariant(&*self);
        }
        if self.sub_step >= self.sub_steps {
            return None;
        }
        match self.sweep {
            None => {
                self.sweep = Some(0);
                Some(Op::Integrate)
            },
            Some(k) => {
                let constraint = if k == 0 {
                    Constraint::StartAnchor
                } else if k < self.particles {
                    Constraint::Link(k - 1)
                } else {
                    Constraint::EndAnchor
                };
                if k < self.particles {
                    self.sweep = Some(k + 1);
                } else {
                    self.sweep = None;
                    self.sub_step = self.sub_step + 1;
                }
                Some(Op::Resolve(constraint))
            },
        }
    }
}

} // verus!
