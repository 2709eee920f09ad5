//! Stream lifecycle control: the running / stop-requested flag pair, the
//! idempotent start request, and the bounded-wait stop protocol.
use vstd::prelude::*;

use crate::STOP_POLL_MAX_ATTEMPTS;
use crate::frame::{EncodedFrame, SharedFrameSlot};

verus! {

/// Process-wide state of the camera subsystem: lifecycle flags plus the
/// shared frame slot.  One instance stands for one camera; nothing here is
/// static, so tests may hold several.
pub struct CameraService {
    pub(crate) running: bool,
    pub(crate) stop_requested: bool,
    pub(crate) slot: SharedFrameSlot,
}

/// What a start request decided.
#[derive(PartialEq, Eq, Structural)]
pub enum StartStatus {
    /// The service was idle: it is now marked running and exactly one
    /// capture worker must be spawned.
    Started,
    /// A worker is already active: no-op, nothing to spawn.
    AlreadyRunning,
}

/// What a stop request decided before any waiting.
#[derive(PartialEq, Eq, Structural)]
pub enum StopBegin {
    /// No worker was active: the stop succeeds immediately.
    NotRunning,
    /// The stop flag is set; the caller must now poll for worker exit.
    PollNeeded,
}

/// One step of the stop-polling protocol.
#[derive(PartialEq, Eq, Structural)]
pub enum StopPollStep {
    /// The worker has exited; the stop succeeded.
    Stopped,
    /// Still running and attempts remain: sleep one interval and poll again.
    SleepAgain,
    /// Still running after the bounded number of attempts: report failure.
    TimedOut,
}

impl CameraService {
    /// True from the moment a start request admits a worker until that
    /// worker has fully cleaned up.
    pub closed spec fn spec_running(&self) -> bool {
        self.running
    }

    /// True from a stop request until the worker observes it during cleanup.
    pub closed spec fn spec_stop_requested(&self) -> bool {
        self.stop_requested
    }

    /// Contents of the shared frame slot.
    pub closed spec fn spec_frame(&self) -> Option<EncodedFrame> {
        self.slot.spec_frame()
    }

    pub fn new() -> (s: Self)
        ensures
            !s.spec_running(),
            !s.spec_stop_requested(),
            s.spec_frame() is None,
    {
        CameraService { running: false, stop_requested: false, slot: SharedFrameSlot::new() }
    }

    pub fn is_running(&self) -> (r: bool)
        ensures
            r == self.spec_running(),
    {
        self.running
    }

    pub fn is_stop_requested(&self) -> (r: bool)
        ensures
            r == self.spec_stop_requested(),
    {
        self.stop_requested
    }

    pub fn has_frame(&self) -> (r: bool)
        ensures
            r == (self.spec_frame() is Some),
    {
        self.slot.has_frame()
    }

    /// Copy out the bytes of the cached frame, if any.
    pub fn read_frame_bytes(&self) -> (r: Option<Vec<u8>>)
        ensures
            match r {
                Some(b) => self.spec_frame() is Some && b@ == self.spec_frame()->Some_0.bytes@,
                None => self.spec_frame() is None,
            },
    {
        self.slot.read_bytes()
    }

    pub(crate) fn set_flags(&mut self, running: bool, stop_requested: bool)
        ensures
            final(self).spec_running() == running,
            final(self).spec_stop_requested() == stop_requested,
            final(self).spec_frame() == old(self).spec_frame(),
    {
        self.running = running;
        self.stop_requested = stop_requested;
    }

    pub(crate) fn publish_slot(&mut self, f: EncodedFrame)
        ensures
            final(self).spec_running() == old(self).spec_running(),
            final(self).spec_stop_requested() == old(self).spec_stop_requested(),
            final(self).spec_frame() == Some(f),
    {
        self.slot.publish(f);
    }

    pub(crate) fn clear_slot(&mut self)
        ensures
            final(self).spec_running() == old(self).spec_running(),
            final(self).spec_stop_requested() == old(self).spec_stop_requested(),
            final(self).spec_frame() is None,
    {
        self.slot.clear();
    }

    /// Admit or refuse a start request.  Idempotent: while a worker is
    /// active a second start changes nothing and spawns nothing, so at most
    /// one worker is ever admitted at a time.
    pub fn request_start(&mut self) -> (r: StartStatus)
        ensures
            (r is Started) == !old(self).spec_running(),
            old(self).spec_running() ==> *final(self) == *old(self),
            !old(self).spec_running() ==> final(self).spec_running()
                && !final(self).spec_stop_requested()
                && final(self).spec_frame() == old(self).spec_frame(),
    {
        if self.running {
            StartStatus::AlreadyRunning
        } else {
            self.stop_requested = false;
            self.running = true;
            StartStatus::Started
        }
    }

    /// Begin a stop request.  A stop while idle succeeds immediately and
    /// changes nothing; otherwise the stop flag is raised for the worker to
    /// observe and the caller must poll.
    pub fn request_stop_begin(&mut self) -> (r: StopBegin)
        ensures
            (r is PollNeeded) == old(self).spec_running(),
            !old(self).spec_running() ==> *final(self) == *old(self),
            old(self).spec_running() ==> final(self).spec_running()
                && final(self).spec_stop_requested()
                && final(self).spec_frame() == old(self).spec_frame(),
    {
        if !self.running {
            StopBegin::NotRunning
        } else {
            self.stop_requested = true;
            StopBegin::PollNeeded
        }
    }

    /// One poll of the stop protocol, after `attempts` sleeps so far.
    pub fn stop_poll_step(&self, attempts: usize) -> (d: StopPollStep)
        ensures
            !self.spec_running() ==> d is Stopped,
            self.spec_running() && attempts < STOP_POLL_MAX_ATTEMPTS ==> d is SleepAgain,
            self.spec_running() && attempts >= STOP_POLL_MAX_ATTEMPTS ==> d is TimedOut,
    {
        if !self.running {
            StopPollStep::Stopped
        } else if attempts < STOP_POLL_MAX_ATTEMPTS {
            StopPollStep::SleepAgain
        } else {
            StopPollStep::TimedOut
        }
    }
}

/// Outcome of the bounded stop wait: whether the worker was seen to exit,
/// and how many poll sleeps were spent before that (each one poll interval
/// long, so the caller blocks for at most
/// `STOP_POLL_MAX_ATTEMPTS * STOP_POLL_INTERVAL_MS` milliseconds).
pub struct StopWaitOutcome {
    pub stopped: bool,
    pub sleeps: usize,
}

/// The stop-wait protocol over a sequence of observations of the running
/// flag: `observed[i]` is what the i-th poll of the flag would read.  The
/// caller sleeps once between consecutive polls.  The wait succeeds as soon
/// as a poll reads false, and gives up after the bounded number of sleeps:
/// the caller is blocked for at most the configured timeout, and failure is
/// reported exactly when the worker never cleared the flag within it.
pub fn stop_wait(observed: &Vec<bool>) -> (r: StopWaitOutcome)
    requires
        observed.len() > STOP_POLL_MAX_ATTEMPTS,
    ensures
        r.sleeps <= STOP_POLL_MAX_ATTEMPTS,
        r.stopped <==> exists|i: int|
            0 <= i <= STOP_POLL_MAX_ATTEMPTS && !observed@[i],
        r.stopped ==> !observed@[r.sleeps as int] && forall|j: int|
            0 <= j < r.sleeps ==> observed@[j],
        !r.stopped ==> r.sleeps == STOP_POLL_MAX_ATTEMPTS && forall|i: int|
            0 <= i <= STOP_POLL_MAX_ATTEMPTS ==> observed@[i],
{
    let mut attempts: usize = 0;
    loop
        invariant
            attempts <= STOP_POLL_MAX_ATTEMPTS,
            observed.len() > STOP_POLL_MAX_ATTEMPTS,
            forall|j: int| 0 <= j < attempts ==> observed@[j],
        decreases STOP_POLL_MAX_ATTEMPTS - attempts,
    {
        if !observed[attempts] {
            return StopWaitOutcome { stopped: true, sleeps: attempts };
        }
        if attempts >= STOP_POLL_MAX_ATTEMPTS {
            return StopWaitOutcome { stopped: false, sleeps: attempts };
        }
        attempts = attempts + 1;
    }
}

/// The externally visible lifecycle events of the subsystem: the two
/// caller requests, and the acts of the worker they admit.  Each worker
/// act carries the guard under which the exec transition permits it: a
/// publish and an exit are acts of a live worker (`process_frame`,
/// `publish_frame` and `worker_cleanup` require the running flag), and a
/// fatal open failure strikes only while its worker is still opening the
/// device, before the first publish of that worker's life.
pub enum LifecycleOp {
    StartRequest,
    StopRequest,
    WorkerPublish,
    WorkerFatal,
    WorkerExit,
}

/// The abstract lifecycle state: the two flags, whether the slot holds a
/// frame, whether the current worker is still opening its device, and how
/// many workers are live.
pub struct LifecycleState {
    pub running: bool,
    pub stop_requested: bool,
    pub slot_full: bool,
    pub opening: bool,
    pub live_workers: int,
}

pub open spec fn lifecycle_init() -> LifecycleState {
    LifecycleState {
        running: false,
        stop_requested: false,
        slot_full: false,
        opening: false,
        live_workers: 0,
    }
}

/// One lifecycle event applied to a state.  An event whose guard does not
/// hold cannot occur and changes nothing.
pub open spec fn lifecycle_step(s: LifecycleState, op: LifecycleOp) -> LifecycleState {
    match op {
        LifecycleOp::StartRequest => if !s.running {
            LifecycleState {
                running: true,
                stop_requested: false,
                opening: true,
                live_workers: s.live_workers + 1,
                ..s
            }
        } else {
            s
        },
        LifecycleOp::StopRequest => if s.running {
            LifecycleState { stop_requested: true, ..s }
        } else {
            s
        },
        LifecycleOp::WorkerPublish => if s.running {
            LifecycleState { slot_full: true, opening: false, ..s }
        } else {
            s
        },
        LifecycleOp::WorkerFatal => if s.running && s.opening {
            LifecycleState { running: false, opening: false, live_workers: s.live_workers - 1, ..s }
        } else {
            s
        },
        LifecycleOp::WorkerExit => if s.running {
            LifecycleState {
                running: false,
                stop_requested: false,
                slot_full: false,
                opening: false,
                live_workers: s.live_workers - 1,
            }
        } else {
            s
        },
    }
}

pub open spec fn lifecycle_after(ops: Seq<LifecycleOp>) -> LifecycleState
    decreases ops.len(),
{
    if ops.len() == 0 {
        lifecycle_init()
    } else {
        lifecycle_step(lifecycle_after(ops.drop_last()), ops.last())
    }
}

/// Lifecycle laws, for every sequence of caller requests and worker acts:
/// at most one capture worker is ever live — a start request while running
/// admits none — and whenever no worker is live the slot is empty, because
/// a worker's exit clears the slot and a fatal failure strikes only while
/// the slot of its worker's life is still empty.
pub proof fn lemma_lifecycle_invariant(ops: Seq<LifecycleOp>)
    ensures
        lifecycle_after(ops).live_workers == if lifecycle_after(ops).running {
            1int
        } else {
            0int
        },
        0 <= lifecycle_after(ops).live_workers <= 1,
        !lifecycle_after(ops).running ==> !lifecycle_after(ops).slot_full,
        lifecycle_after(ops).opening ==> !lifecycle_after(ops).slot_full,
    decreases ops.len(),
{
    if ops.len() > 0 {
        lemma_lifecycle_invariant(ops.drop_last());
    }
}

} // verus!
