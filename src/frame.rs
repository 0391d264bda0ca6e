//! The per-frame acquire / submit / present cycle, as a state machine.
//!
//! The caller performs every GPU call. Each tick it calls, in this order,
//! `begin_tick`, `on_acquire`, `on_submit` (only where `on_acquire` asked for
//! a submission) and `end_tick`, handing each the outcome of its own work.

use vstd::prelude::*;

verus! {

/// What the scheduler holds of the most recently submitted GPU work.
#[derive(Clone, Copy, Debug, PartialEq, Eq, Structural)]
pub enum InFlight {
    /// No future is held.
    Empty,
    /// A placeholder future that is already complete.
    Completed,
    /// The future of work that was submitted and may still be running.
    Pending,
}

/// Where the scheduler stands within a tick.
#[derive(Clone, Copy, Debug, PartialEq, Eq, Structural)]
pub enum Phase {
    /// Between ticks.
    Idle,
    /// Waiting for the outcome of acquiring the next image.
    Acquiring,
    /// Waiting for the outcome of submitting and presenting an image.
    Submitting { suboptimal: bool },
    /// Waiting for the recreation check that closes the tick.
    Finishing,
}

/// The outcome of asking the swapchain for its next image.
#[derive(Clone, Copy, Debug, PartialEq, Eq, Structural)]
pub enum AcquireOutcome {
    Acquired { image_index: usize, suboptimal: bool },
    OutOfDate,
    Failed,
}

/// The outcome of executing the command buffer, presenting the image and
/// flushing the whole chain.
#[derive(Clone, Copy, Debug, PartialEq, Eq, Structural)]
pub enum SubmitOutcome {
    Presented,
    OutOfDate,
    Failed,
}

/// What the caller is to do after an acquisition.
#[derive(Clone, Copy, Debug, PartialEq, Eq, Structural)]
pub enum FrameAction {
    /// Submit nothing and present nothing this tick.
    Skip,
    /// Execute the command buffer at `image_index` and present that image;
    /// the work waits on the previous future joined with the image's
    /// availability where `join_prior` holds, on the availability alone
    /// otherwise.
    Submit { image_index: usize, join_prior: bool },
}

/// The state that the frame loop carries from one tick to the next.
#[derive(Clone, Copy, Debug, PartialEq, Eq, Structural)]
pub struct FrameScheduler {
    /// Set by a resize or a stale swapchain; cleared when a recreation starts.
    pub recreate_requested: bool,
    pub in_flight: InFlight,
    pub phase: Phase,
}

impl FrameScheduler {
    pub open spec fn resize_spec(self) -> FrameScheduler {
        FrameScheduler { recreate_requested: true, ..self }
    }

    pub open spec fn begin_spec(self) -> (FrameScheduler, bool) {
        (FrameScheduler { phase: Phase::Acquiring, ..self }, self.in_flight != InFlight::Empty)
    }

    /// The transition on the outcome of an acquisition, where
    /// `command_buffers` is the number of recorded command buffers.
    pub open spec fn acquire_spec(self, outcome: AcquireOutcome, command_buffers: usize) -> (
        FrameScheduler,
        FrameAction,
    ) {
        match outcome {
            AcquireOutcome::Acquired { image_index, suboptimal } => {
                if image_index < command_buffers {
                    (
                        FrameScheduler {
                            in_flight: InFlight::Empty,
                            phase: Phase::Submitting { suboptimal },
                            ..self
                        },
                        FrameAction::Submit {
                            image_index,
                            join_prior: self.in_flight != InFlight::Empty,
                        },
                    )
                } else {
                    (
                        FrameScheduler {
                            recreate_requested: true,
                            phase: Phase::Finishing,
                            ..self
                        },
                        FrameAction::Skip,
                    )
                }
            },
            AcquireOutcome::OutOfDate => (
                FrameScheduler {
                    recreate_requested: true,
                    in_flight: InFlight::Completed,
                    phase: Phase::Finishing,
                },
                FrameAction::Skip,
            ),
            AcquireOutcome::Failed => (
                FrameScheduler { in_flight: InFlight::Empty, phase: Phase::Finishing, ..self },
                FrameAction::Skip,
            ),
        }
    }

    /// The transition on the outcome of a submission, where `suboptimal` is
    /// what the acquisition reported.
    pub open spec fn submit_spec(self, outcome: SubmitOutcome, suboptimal: bool) -> FrameScheduler {
        let in_flight = match outcome {
            SubmitOutcome::Presented => InFlight::Pending,
            SubmitOutcome::OutOfDate => InFlight::Completed,
            SubmitOutcome::Failed => InFlight::Empty,
        };
        FrameScheduler {
            recreate_requested: self.recreate_requested || outcome == SubmitOutcome::OutOfDate
                || suboptimal,
            in_flight,
            phase: Phase::Finishing,
        }
    }

    pub open spec fn end_spec(self) -> (FrameScheduler, bool) {
        (
            FrameScheduler { recreate_requested: false, phase: Phase::Idle, ..self },
            self.recreate_requested,
        )
    }

    /// A scheduler before the first tick: no future held, no recreation asked.
    pub fn new() -> (r: FrameScheduler)
        ensures
            r == (FrameScheduler {
                recreate_requested: false,
                in_flight: InFlight::Empty,
                phase: Phase::Idle,
            }),
    {
        FrameScheduler { recreate_requested: false, in_flight: InFlight::Empty, phase: Phase::Idle }
    }

    /// The window was resized: the swapchain is to be rebuilt at the end of
    /// the next tick.
    pub fn on_resize(&mut self)
        ensures
            *final(self) == old(self).resize_spec(),
    {
        self.recreate_requested = true;
    }

    /// Opens a tick. Returns whether a future is held, whose finished
    /// resources the caller then reclaims without blocking.
    pub fn begin_tick(&mut self) -> (cleanup: bool)
        requires
            old(self).phase == Phase::Idle,
        ensures
            (*final(self), cleanup) == old(self).begin_spec(),
    {
        self.phase = Phase::Acquiring;
        match self.in_flight {
            InFlight::Empty => false,
            _ => true,
        }
    }

    /// Takes the outcome of acquiring the next image and says whether to
    /// submit. An image without a recorded command buffer (the frame
    /// resources are stale after a failed rebuild) is skipped and asks for a
    /// recreation.
    pub fn on_acquire(&mut self, outcome: AcquireOutcome, command_buffers: usize) -> (r: FrameAction)
        requires
            old(self).phase == Phase::Acquiring,
        ensures
            (*final(self), r) == old(self).acquire_spec(outcome, command_buffers),
    {
        match outcome {
            AcquireOutcome::Acquired { image_index, suboptimal } => {
                if image_index < command_buffers {
                    let join_prior = match self.in_flight {
                        InFlight::Empty => false,
                        _ => true,
                    };
                    self.in_flight = InFlight::Empty;
                    self.phase = Phase::Submitting { suboptimal };
                    FrameAction::Submit { image_index, join_prior }
                } else {
                    self.recreate_requested = true;
                    self.phase = Phase::Finishing;
                    FrameAction::Skip
                }
            },
            AcquireOutcome::OutOfDate => {
                self.recreate_requested = true;
                self.in_flight = InFlight::Completed;
                self.phase = Phase::Finishing;
                FrameAction::Skip
            },
            AcquireOutcome::Failed => {
                self.in_flight = InFlight::Empty;
                self.phase = Phase::Finishing;
                FrameAction::Skip
            },
        }
    }

    /// Takes the outcome of executing, presenting and flushing the frame.
    pub fn on_submit(&mut self, outcome: SubmitOutcome)
        requires
            old(self).phase is Submitting,
        ensures
            *final(self) == old(self).submit_spec(
                outcome,
                old(self).phase->Submitting_suboptimal,
            ),
    {
        let suboptimal = match self.phase {
            Phase::Submitting { suboptimal } => suboptimal,
            _ => false,
        };
        match outcome {
            SubmitOutcome::Presented => {
                self.in_flight = InFlight::Pending;
            },
            SubmitOutcome::OutOfDate => {
                self.recreate_requested = true;
                self.in_flight = InFlight::Completed;
            },
            SubmitOutcome::Failed => {
                self.in_flight = InFlight::Empty;
            },
        }
        if suboptimal {
            self.recreate_requested = true;
        }
        self.phase = Phase::Finishing;
    }

    /// Closes the tick. Returns whether the swapchain and everything built on
    /// it are to be rebuilt now; the request is cleared either way.
    pub fn end_tick(&mut self) -> (recreate: bool)
        requires
            old(self).phase == Phase::Finishing,
        ensures
            (*final(self), recreate) == old(self).end_spec(),
    {
        let recreate = self.recreate_requested;
        self.recreate_requested = false;
        self.phase = Phase::Idle;
        recreate
    }
}

/// An image found out of date at acquisition: nothing is submitted or
/// presented in that tick, the held future becomes an already-complete
/// placeholder, and the tick closes by rebuilding the swapchain, whatever
/// resizes arrive before it closes.
pub proof fn lemma_out_of_date_acquire(s: FrameScheduler, command_buffers: usize, resized: bool)
    requires
        s.phase == Phase::Acquiring,
    ensures
        ({
            let (s1, action) = s.acquire_spec(AcquireOutcome::OutOfDate, command_buffers);
            let s2 = if resized { s1.resize_spec() } else { s1 };
            &&& action == FrameAction::Skip
            &&& s1.in_flight == InFlight::Completed
            &&& s1.phase == Phase::Finishing
            &&& s2.end_spec().1
        }),
{
}

/// An acquisition reported as suboptimal asks for a recreation at the close
/// of the tick, however the submission went, a clean presentation included.
pub proof fn lemma_suboptimal_acquire(s: FrameScheduler, outcome: SubmitOutcome)
    requires
        s.phase == (Phase::Submitting { suboptimal: true }),
    ensures
        s.submit_spec(outcome, true).recreate_requested,
        s.submit_spec(outcome, true).end_spec().1,
        outcome == SubmitOutcome::Presented ==> s.submit_spec(outcome, true).in_flight
            == InFlight::Pending,
{
}

/// A recreation asked for before or during a tick (a resize) is carried out
/// when that tick closes, whatever the acquisition and the submission
/// report, clean outcomes included.
pub proof fn lemma_request_survives_tick(
    s: FrameScheduler,
    acquired: AcquireOutcome,
    command_buffers: usize,
    submitted: SubmitOutcome,
)
    requires
        s.phase == Phase::Idle,
        s.recreate_requested,
    ensures
        ({
            let s1 = s.begin_spec().0;
            let (s2, action) = s1.acquire_spec(acquired, command_buffers);
            let s3 = if action is Submit {
                s2.submit_spec(submitted, s2.phase->Submitting_suboptimal)
            } else {
                s2
            };
            &&& s3.phase == Phase::Finishing
            &&& s3.end_spec().1
            &&& s3.end_spec().0.phase == Phase::Idle
            &&& !s3.end_spec().0.recreate_requested
        }),
{
}

} // verus!
