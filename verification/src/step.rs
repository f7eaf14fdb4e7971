//! The step driver: advances the two timers and runs what is due.

use crate::chip8::Chip8;
use crate::semantics::{
    count_down, execute, fetched, lemma_tick_keeps_program, next_fault, next_word, repaints,
    step, step_execute, step_fault, step_refused, step_result,
};
use crate::state::{Fault, State, StepResult};
use crate::timer::{duration_nanos, tick_timer, timer_elapsed_time, timer_just_finished};
use std::time::Duration;
use vstd::arithmetic::div_mod::lemma_mod_bound;
use vstd::prelude::*;

verus! {

impl Chip8 {
    /// Advances both timers by `delta` and returns whether the instruction
    /// clock and the 60 Hz timer completed an interval.
    fn tick(&mut self, delta: Duration) -> (fired: (bool, bool))
        requires
            old(self).wf(),
            old(self)@.can_tick(duration_nanos(delta)),
        ensures
            final(self).wf(),
            final(self)@ == old(self)@.ticked(duration_nanos(delta)),
            fired.0 == old(self)@.clock.fires(duration_nanos(delta)),
            fired.1 == old(self)@.frame.fires(duration_nanos(delta)),
    {
        proof {
            let s = old(self)@;
            let d = duration_nanos(delta);
            if s.clock.period > 0 {
                lemma_mod_bound((s.clock.elapsed + d) as int, s.clock.period as int);
            }
            lemma_mod_bound((s.frame.elapsed + d) as int, s.frame.period as int);
        }
        tick_timer(&mut self.timer_clock, delta);
        tick_timer(&mut self.timer_60hz, delta);
        (timer_just_finished(&self.timer_clock), timer_just_finished(&self.timer_60hz))
    }

    /// Whether both timers can take `delta` more.
    pub fn can_tick(&self, delta: Duration) -> (can: bool)
        requires
            self.wf(),
        ensures
            can == self@.can_tick(duration_nanos(delta)),
    {
        let limit: u128 = 18_446_744_073_709_551_615_999_999_999;
        let nanos: u128 = delta.as_nanos();
        let clock: u128 = timer_elapsed_time(&self.timer_clock).as_nanos();
        let frame: u128 = timer_elapsed_time(&self.timer_60hz).as_nanos();
        clock + nanos <= limit && frame + nanos <= limit
    }

    /// Fetches the next instruction and executes it.
    fn run_next(&mut self) -> (repaint: bool)
        requires
            old(self).wf(),
            next_fault(old(self)@) is None,
        ensures
            final(self).wf(),
            exists|random: u8|
                final(self)@ == #[trigger] execute(
                    fetched(old(self)@),
                    next_word(old(self)@),
                    random,
                ),
            repaint == repaints(fetched(old(self)@), next_word(old(self)@)),
    {
        let instr = self.fetch();
        self.execute(instr)
    }

    /// Counts the delay and sound registers down by one, stopping at zero.
    fn count_down(&mut self)
        requires
            old(self).wf(),
        ensures
            final(self).wf(),
            final(self)@ == (State {
                delay: count_down(old(self)@.delay),
                sound: count_down(old(self)@.sound),
                ..old(self)@
            }),
    {
        if self.delay_timer > 0 {
            self.delay_timer -= 1;
        }
        if self.sound_timer > 0 {
            self.sound_timer -= 1;
        }
    }

    /// What a step does once its timers have advanced: runs the next
    /// instruction if it is due, then counts down if that is due.
    fn advance(&mut self, due: (bool, bool), Ghost(s): Ghost<State>, Ghost(d): Ghost<nat>) -> (res:
        StepResult)
        requires
            s.wf(),
            step_fault(s, d) is None,
            old(self).wf(),
            old(self)@ == s.ticked(d),
            due.0 == s.clock.fires(d),
            due.1 == s.frame.fires(d),
        ensures
            final(self).wf(),
            exists|random: u8|
                final(self)@ == #[trigger] step(s, d, random) && res == step_result(s, d, random),
    {
        let ghost t = self@;
        let mut drawn = false;
        let ghost mut random = 0u8;
        if !self.running || due.0 {
            proof {
                lemma_tick_keeps_program(s, d);
            }
            drawn = self.run_next();
            proof {
                random = choose|r: u8| self@ == #[trigger] execute(fetched(t), next_word(t), r);
            }
        }
        assert(self@ == step_execute(s, d, random));
        if !self.running || due.1 {
            self.count_down();
        }
        assert(self@ == step(s, d, random));
        StepResult { drawn, beep: self.running && self.sound_timer > 0 }
    }

    /// Advances the machine by `delta`: runs the next instruction if the
    /// machine is paused or the instruction clock completed an interval, then
    /// counts the delay and sound registers down once if the machine is
    /// paused or the 60 Hz timer completed an interval.
    ///
    /// The timers must be able to take `delta`, and the instruction that is
    /// due must be one the machine can run. `try_step` checks both for the
    /// caller.
    pub fn step(&mut self, delta: Duration) -> (res: StepResult)
        requires
            old(self).wf(),
            step_fault(old(self)@, duration_nanos(delta)) is None,
        ensures
            final(self).wf(),
            exists|random: u8|
                final(self)@ == #[trigger] step(old(self)@, duration_nanos(delta), random) && res
                    == step_result(old(self)@, duration_nanos(delta), random),
    {
        proof {
            old(self).lemma_wf();
        }
        let due = self.tick(delta);
        self.advance(due, Ghost(old(self)@), Ghost(duration_nanos(delta)))
    }

    /// Advances the machine by `delta` as `step` does, unless the timers
    /// cannot take `delta` or the instruction that is due cannot be run: then
    /// the fault is returned, and at most the timers have advanced.
    pub fn try_step(&mut self, delta: Duration) -> (res: Result<StepResult, Fault>)
        requires
            old(self).wf(),
        ensures
            final(self).wf(),
            match res {
                Ok(r) => step_fault(old(self)@, duration_nanos(delta)) is None && exists|
                    random: u8,
                |
                    final(self)@ == #[trigger] step(old(self)@, duration_nanos(delta), random)
                        && r == step_result(old(self)@, duration_nanos(delta), random),
                Err(f) => step_fault(old(self)@, duration_nanos(delta)) == Some(f)
                    && final(self)@ == step_refused(old(self)@, duration_nanos(delta)),
            },
    {
        proof {
            old(self).lemma_wf();
        }
        if !self.can_tick(delta) {
            return Err(Fault::Overrun);
        }
        let due = self.tick(delta);
        if !self.running || due.0 {
            proof {
                lemma_tick_keeps_program(old(self)@, duration_nanos(delta));
            }
            match self.fault() {
                Some(f) => {
                    return Err(f);
                },
                None => {},
            }
        }
        Ok(self.advance(due, Ghost(old(self)@), Ghost(duration_nanos(delta))))
    }
}

} // verus!
