use vstd::prelude::*;

verus! {

/// Simulation steps taken between two redraws of the scene.
pub const REDRAW_AMOUNT: u16 = 2500;

/// What the driver does on one frame of its loop.
#[derive(Clone, Copy, Debug, PartialEq, Eq, Structural)]
pub struct FrameAction {
    /// Advance the elapsed time by one time step and run the dynamics once.
    pub step: bool,
    /// Draw the scene and handle the input gathered since the last redraw.
    pub redraw: bool,
}

/// The time control of a simulation: whether time runs, how many steps
/// have run, and how many frames have gone by since the last redraw.
#[derive(Clone, Copy, Debug, PartialEq, Eq, Structural)]
pub struct SimulationClock {
    pub time_stopped: bool,
    pub elapsed_steps: u64,
    pub calculation_amount: u16,
}

impl SimulationClock {
    pub open spec fn wf(&self) -> bool {
        self.calculation_amount <= REDRAW_AMOUNT
    }

    /// A clock with time running, no step taken and no frame since the
    /// last redraw.
    pub fn new() -> (r: SimulationClock)
        ensures
            r.wf(),
            !r.time_stopped,
            r.elapsed_steps == 0,
            r.calculation_amount == 0,
    {
        SimulationClock { time_stopped: false, elapsed_steps: 0, calculation_amount: 0 }
    }

    pub fn is_paused(&self) -> (r: bool)
        ensures
            r == self.time_stopped,
    {
        self.time_stopped
    }

    pub fn elapsed_steps(&self) -> (r: u64)
        ensures
            r == self.elapsed_steps,
    {
        self.elapsed_steps
    }

    /// Pauses time.
    pub fn stop_time(&mut self)
        ensures
            *final(self) == (SimulationClock { time_stopped: true, ..*old(self) }),
    {
        self.time_stopped = true;
    }

    /// Lets time run again.
    pub fn resume_time(&mut self)
        ensures
            *final(self) == (SimulationClock { time_stopped: false, ..*old(self) }),
    {
        self.time_stopped = false;
    }

    /// Pauses running time, or resumes paused time.
    pub fn toggle_time(&mut self)
        ensures
            *final(self) == (SimulationClock { time_stopped: !old(self).time_stopped, ..*old(self) }),
    {
        self.time_stopped = !self.time_stopped;
    }

    /// Decides whether this tick advances the simulation: it does unless
    /// time is paused, and then counts the step. A paused tick changes
    /// nothing.
    pub fn tick(&mut self) -> (r: bool)
        requires
            old(self).elapsed_steps < u64::MAX,
        ensures
            r == !old(self).time_stopped,
            r ==> *final(self) == (SimulationClock {
                elapsed_steps: (old(self).elapsed_steps + 1) as u64,
                ..*old(self)
            }),
            !r ==> *final(self) == *old(self),
    {
        if self.time_stopped {
            false
        } else {
            self.elapsed_steps = self.elapsed_steps + 1;
            true
        }
    }

    /// Counts one calculation toward the next redraw; says whether the
    /// redraw is due now, which starts the count again.
    pub fn redraw_due(&mut self) -> (r: bool)
        ensures
            r == (old(self).calculation_amount >= REDRAW_AMOUNT),
            final(self).calculation_amount == (if r {
                0
            } else {
                old(self).calculation_amount + 1
            }),
            final(self).time_stopped == old(self).time_stopped,
            final(self).elapsed_steps == old(self).elapsed_steps,
            old(self).wf() ==> final(self).wf(),
    {
        if self.calculation_amount < REDRAW_AMOUNT {
            self.calculation_amount = self.calculation_amount + 1;
            false
        } else {
            self.calculation_amount = 0;
            true
        }
    }

    /// The decisions of one frame of the driver's loop: a tick, then the
    /// redraw count.
    pub fn frame(&mut self) -> (r: FrameAction)
        requires
            old(self).elapsed_steps < u64::MAX,
        ensures
            r.step == !old(self).time_stopped,
            r.redraw == (old(self).calculation_amount >= REDRAW_AMOUNT),
            final(self).time_stopped == old(self).time_stopped,
            final(self).elapsed_steps == (if r.step {
                old(self).elapsed_steps + 1
            } else {
                old(self).elapsed_steps as int
            }),
            final(self).calculation_amount == (if r.redraw {
                0
            } else {
                old(self).calculation_amount + 1
            }),
            old(self).wf() ==> final(self).wf(),
    {
        let step = self.tick();
        let redraw = self.redraw_due();
        FrameAction { step, redraw }
    }
}

} // verus!
