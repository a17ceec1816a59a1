//! The per-device connection driver: a state machine owning the reconnect
//! and probe gates, the interest count, the bounded job queue, and the
//! decision, per job, between the real print path and the simulated one.
//!
//! The surrounding event loop performs the actions these transitions return
//! (dialing, sending, sleeping, persisting) and feeds the outcomes back in;
//! every decision itself is taken here. Exactly one of {no work, a connect
//! attempt, a print or simulation task} is in flight at any time.

use vstd::prelude::*;

use crate::config::LabelVirtualization;
use crate::status::HostIdentification;

verus! {

/// Signal that tells a driver's loop to finish its iteration and exit.
pub struct ShutdownToken;

/// A queued print job, identified by a handle the surrounding loop uses to
/// look up the job's content.
#[derive(Clone, Copy, PartialEq, Eq, Structural, Debug)]
pub struct Task {
    pub job_id: u64,
}

/// Submission failed because the job queue is full; the caller retries
/// later.
#[derive(Clone, Copy, PartialEq, Eq, Structural, Debug)]
pub struct QueueFull;

/// Where the device connection stands.
#[derive(Clone, Copy, PartialEq, Eq, Structural, Debug)]
pub enum ConnPhase {
    /// No socket.
    Down,
    /// A connect attempt is in flight only to confirm liveness; the
    /// connection will be closed once probed.
    Probing,
    /// A connect attempt is in flight and the connection will be kept.
    Holding,
    /// A connection is open and idle.
    Ready,
    /// The open connection is lent to the task in flight.
    Lent,
}

/// What the surrounding loop should do with a dispatched job.
pub enum Dispatch {
    /// Render the job and send it to the device over the lent connection,
    /// then wait until the device reports the print finished.
    Print { task: Task },
    /// Render the job, optionally persist the rendered commands into the
    /// given directory, wait the given time, and send nothing to any device.
    Simulate {
        task: Task,
        wait_time_ms: u64,
        persist: Option<String>,
        dpmm_override: Option<u32>,
        /// Whether the open connection is lent to the simulation for its
        /// device identification.
        uses_connection: bool,
    },
}

/// Capacity of the job queue: submission beyond it fails immediately.
pub const JOB_QUEUE_BOUND: usize = 8;

/// The driver's state between events.
pub struct Driver {
    /// How jobs for this device are handled.
    pub virtualization: LabelVirtualization,
    /// Jobs accepted and not yet dispatched, oldest first.
    pub queue: Vec<Task>,
    /// How many parties currently want the connection held open.
    pub interest: u64,
    /// Where the device connection stands.
    pub phase: ConnPhase,
    /// A print or simulation task is in flight.
    pub printing: bool,
    /// A reconnect interval has elapsed since the last connect attempt.
    pub retry_gate: bool,
    /// A disinterest-probe interval has elapsed since the last probe, so the
    /// next attempt may be a liveness probe even with nobody interested.
    pub probe_gate: bool,
    /// The device has been seen up at least once.
    pub is_up: bool,
    /// When the status was last refreshed, in seconds since the epoch.
    pub updated_at: u64,
    /// A shutdown signal has been received.
    pub shutdown: bool,
}

/// The read-only status snapshot exposed to reporting surfaces.
pub struct StatusInformation {
    pub is_up: bool,
    pub updated_at_unix: u64,
}

/// Fields other than the queue are unchanged.
pub open spec fn frame_except_queue(pre: Driver, post: Driver) -> bool {
    &&& post.virtualization == pre.virtualization
    &&& post.probe_gate == pre.probe_gate
    &&& post.interest == pre.interest
    &&& post.phase == pre.phase
    &&& post.printing == pre.printing
    &&& post.retry_gate == pre.retry_gate
    &&& post.is_up == pre.is_up
    &&& post.updated_at == pre.updated_at
    &&& post.shutdown == pre.shutdown
}

/// Fields other than the interest count are unchanged.
pub open spec fn frame_except_interest(pre: Driver, post: Driver) -> bool {
    &&& post.virtualization == pre.virtualization
    &&& post.probe_gate == pre.probe_gate
    &&& post.queue@ == pre.queue@
    &&& post.phase == pre.phase
    &&& post.printing == pre.printing
    &&& post.retry_gate == pre.retry_gate
    &&& post.is_up == pre.is_up
    &&& post.updated_at == pre.updated_at
    &&& post.shutdown == pre.shutdown
}

/// Fields other than the connection phase and the retry gate are unchanged.
pub open spec fn frame_except_connection(pre: Driver, post: Driver) -> bool {
    &&& post.virtualization == pre.virtualization
    &&& post.queue@ == pre.queue@
    &&& post.interest == pre.interest
    &&& post.printing == pre.printing
    &&& post.is_up == pre.is_up
    &&& post.updated_at == pre.updated_at
    &&& post.shutdown == pre.shutdown
}

/// Fields other than the queue, the phase and the printing flag are
/// unchanged.
pub open spec fn frame_except_dispatch(pre: Driver, post: Driver) -> bool {
    &&& post.virtualization == pre.virtualization
    &&& post.probe_gate == pre.probe_gate
    &&& post.interest == pre.interest
    &&& post.retry_gate == pre.retry_gate
    &&& post.is_up == pre.is_up
    &&& post.updated_at == pre.updated_at
    &&& post.shutdown == pre.shutdown
}

/// Fields other than the status snapshot are unchanged.
pub open spec fn frame_except_status(pre: Driver, post: Driver) -> bool {
    &&& post.virtualization == pre.virtualization
    &&& post.probe_gate == pre.probe_gate
    &&& post.queue@ == pre.queue@
    &&& post.interest == pre.interest
    &&& post.phase == pre.phase
    &&& post.printing == pre.printing
    &&& post.retry_gate == pre.retry_gate
    &&& post.shutdown == pre.shutdown
}

impl Driver {
    /// The queue respects its bound, and a policy that never connects never
    /// holds a connection.
    pub open spec fn wf(&self) -> bool {
        &&& self.queue@.len() <= JOB_QUEUE_BOUND
        &&& !self.virtualization.spec_is_connected() ==> self.phase is Down
    }

    /// A fresh driver: no jobs, no interest, no connection, no task in
    /// flight; the first connect attempt needs no elapsed reconnect
    /// interval.
    pub fn new(virtualization: LabelVirtualization) -> (r: Driver)
        ensures
            r.wf(),
            r.virtualization == virtualization,
            r.queue@.len() == 0,
            r.interest == 0,
            r.phase is Down,
            !r.printing,
            r.retry_gate,
            r.probe_gate,
            !r.is_up,
            r.updated_at == 0,
            !r.shutdown,
    {
        Driver {
            virtualization,
            queue: Vec::new(),
            interest: 0,
            phase: ConnPhase::Down,
            printing: false,
            retry_gate: true,
            probe_gate: true,
            is_up: false,
            updated_at: 0,
            shutdown: false,
        }
    }

    /// Accepts a job unless the queue is full; a full queue rejects the job
    /// immediately, leaving the driver untouched, and the caller retries.
    pub fn send_job(&mut self, t: Task) -> (r: Result<(), QueueFull>)
        requires
            old(self).wf(),
        ensures
            final(self).wf(),
            frame_except_queue(*old(self), *final(self)),
            old(self).queue@.len() >= JOB_QUEUE_BOUND ==> r is Err && final(self).queue@ == old(
                self,
            ).queue@,
            old(self).queue@.len() < JOB_QUEUE_BOUND ==> r is Ok && final(self).queue@ == old(
                self,
            ).queue@.push(t),
    {
        if self.queue.len() >= JOB_QUEUE_BOUND {
            Err(QueueFull)
        } else {
            self.queue.push(t);
            Ok(())
        }
    }

    /// One more party wants the connection held open.
    pub fn acquire_interest(&mut self)
        requires
            old(self).wf(),
            old(self).interest < u64::MAX,
        ensures
            final(self).wf(),
            frame_except_interest(*old(self), *final(self)),
            final(self).interest == old(self).interest + 1,
    {
        self.interest = self.interest + 1;
    }

    /// One party no longer wants the connection held open.
    pub fn release_interest(&mut self)
        requires
            old(self).wf(),
            old(self).interest > 0,
        ensures
            final(self).wf(),
            frame_except_interest(*old(self), *final(self)),
            final(self).interest == old(self).interest - 1,
    {
        self.interest = self.interest - 1;
    }

    /// Whether at least one party wants the connection held open, right now.
    pub fn has_strong_interest(&self) -> (r: bool)
        ensures
            r == (self.interest > 0),
    {
        self.interest > 0
    }

    /// A reconnect interval has elapsed: the next connect attempt may
    /// proceed.
    pub fn reconnect_tick(&mut self)
        requires
            old(self).wf(),
        ensures
            final(self).wf(),
            frame_except_connection(*old(self), *final(self)),
            final(self).phase == old(self).phase,
            final(self).probe_gate == old(self).probe_gate,
            final(self).retry_gate,
    {
        self.retry_gate = true;
    }

    /// A disinterest-probe interval has elapsed: while nothing needs the
    /// device, the next connect attempt may be a throwaway liveness probe.
    pub fn probe_tick(&mut self)
        requires
            old(self).wf(),
        ensures
            final(self).wf(),
            frame_except_connection(*old(self), *final(self)),
            final(self).phase == old(self).phase,
            final(self).retry_gate == old(self).retry_gate,
            final(self).probe_gate,
    {
        self.probe_gate = true;
    }

    /// Begins a connect attempt, when one is due: only with the reconnect
    /// gate open (so attempts are spaced by the reconnect interval), only
    /// when someone holds interest or the low-frequency probe gate is open
    /// (so an unwanted device is not dialed at all between probes), with no
    /// connection and no task in flight, a policy that connects at all, and
    /// no shutdown under way. The attempt is a probe unless someone holds
    /// interest at this decision: a probe connection will not be kept, and it
    /// consumes the probe gate.
    pub fn begin_connect(&mut self) -> (r: Option<bool>)
        requires
            old(self).wf(),
        ensures
            final(self).wf(),
            frame_except_connection(*old(self), *final(self)),
            r is Some <==> (old(self).retry_gate && (old(self).interest > 0 || old(
                self,
            ).probe_gate) && old(self).phase is Down && !old(self).printing && old(
                self,
            ).virtualization.spec_is_connected() && !old(self).shutdown),
            match r {
                Some(keep) => {
                    &&& keep == (old(self).interest > 0)
                    &&& !final(self).retry_gate
                    &&& final(self).probe_gate == (old(self).probe_gate && keep)
                    &&& final(self).phase == (if keep {
                        ConnPhase::Holding
                    } else {
                        ConnPhase::Probing
                    })
                },
                None => final(self).phase == old(self).phase && final(self).retry_gate == old(
                    self,
                ).retry_gate && final(self).probe_gate == old(self).probe_gate,
            },
    {
        let due = self.retry_gate && (self.interest > 0 || self.probe_gate) && matches!(
            self.phase,
            ConnPhase::Down,
        ) && !self.printing && self.virtualization.is_connnected() && !self.shutdown;
        if due {
            let keep = self.interest > 0;
            self.retry_gate = false;
            if !keep {
                self.probe_gate = false;
            }
            self.phase = if keep {
                ConnPhase::Holding
            } else {
                ConnPhase::Probing
            };
            Some(keep)
        } else {
            None
        }
    }

    /// Records the outcome of the connect attempt in flight. A successful
    /// probe is closed again, not escalated to a held connection: only an
    /// attempt begun under interest becomes ready.
    pub fn connect_finished(&mut self, success: bool)
        requires
            old(self).wf(),
        ensures
            final(self).wf(),
            frame_except_connection(*old(self), *final(self)),
            final(self).retry_gate == old(self).retry_gate,
            final(self).probe_gate == old(self).probe_gate,
            final(self).phase == match old(self).phase {
                ConnPhase::Holding => if success {
                    ConnPhase::Ready
                } else {
                    ConnPhase::Down
                },
                ConnPhase::Probing => ConnPhase::Down,
                other => other,
            },
    {
        match self.phase {
            ConnPhase::Holding => {
                self.phase = if success {
                    ConnPhase::Ready
                } else {
                    ConnPhase::Down
                };
            },
            ConnPhase::Probing => {
                self.phase = ConnPhase::Down;
            },
            _ => {},
        }
    }

    /// Records the outcome of a keepalive verification of the idle
    /// connection; a failure or a timeout closes it.
    pub fn keepalive_result(&mut self, ok: bool)
        requires
            old(self).wf(),
        ensures
            final(self).wf(),
            frame_except_connection(*old(self), *final(self)),
            final(self).retry_gate == old(self).retry_gate,
            final(self).probe_gate == old(self).probe_gate,
            final(self).phase == (if old(self).phase is Ready && !ok {
                ConnPhase::Down
            } else {
                old(self).phase
            }),
    {
        if matches!(self.phase, ConnPhase::Ready) && !ok {
            self.phase = ConnPhase::Down;
        }
    }

    /// The idle interval elapsed: an idle connection nobody is interested in
    /// is closed.
    pub fn idle_tick(&mut self)
        requires
            old(self).wf(),
        ensures
            final(self).wf(),
            frame_except_connection(*old(self), *final(self)),
            final(self).retry_gate == old(self).retry_gate,
            final(self).probe_gate == old(self).probe_gate,
            final(self).phase == (if old(self).phase is Ready && old(self).interest == 0 {
                ConnPhase::Down
            } else {
                old(self).phase
            }),
    {
        if matches!(self.phase, ConnPhase::Ready) && self.interest == 0 {
            self.phase = ConnPhase::Down;
        }
    }

    /// Pulls the next job, when one may run: never while a task is in
    /// flight or a shutdown is under way, and a physical print only once a
    /// connection is open. A simulated job borrows the open connection when
    /// there is one (for its device identification) and touches the device
    /// in no other way.
    pub fn next_task(&mut self) -> (r: Option<Dispatch>)
        requires
            old(self).wf(),
        ensures
            final(self).wf(),
            frame_except_dispatch(*old(self), *final(self)),
            r is None ==> *final(self) == *old(self),
            r is Some <==> (!old(self).printing && !old(self).shutdown && old(self).queue@.len() > 0
                && (old(self).virtualization is Physical ==> old(self).phase is Ready)),
            match r {
                Some(d) => {
                    &&& final(self).queue@ == old(self).queue@.drop_first()
                    &&& final(self).printing
                    &&& final(self).phase == (if old(self).phase is Ready {
                        ConnPhase::Lent
                    } else {
                        old(self).phase
                    })
                    &&& match d {
                        Dispatch::Print { task } => old(self).virtualization is Physical && task
                            == old(self).queue@[0],
                        Dispatch::Simulate {
                            task,
                            wait_time_ms,
                            persist,
                            dpmm_override,
                            uses_connection,
                        } => {
                            &&& task == old(self).queue@[0]
                            &&& uses_connection == (old(self).phase is Ready)
                            &&& match old(self).virtualization {
                                LabelVirtualization::DropJobs { persist: p, wait_time_ms: w } => {
                                    &&& persist == p
                                    &&& wait_time_ms == w
                                    &&& dpmm_override is None
                                },
                                LabelVirtualization::ZplOnly {
                                    dpmm,
                                    persist: p,
                                    wait_time_ms: w,
                                } => {
                                    &&& persist == p
                                    &&& wait_time_ms == w
                                    &&& dpmm_override == dpmm
                                },
                                LabelVirtualization::Physical => false,
                            }
                        },
                    }
                },
                None => true,
            },
    {
        if self.printing || self.shutdown || self.queue.len() == 0 {
            return None;
        }
        let ready = matches!(self.phase, ConnPhase::Ready);
        match &self.virtualization {
            LabelVirtualization::Physical => {
                if !ready {
                    return None;
                }
                let task = self.queue.remove(0);
                self.printing = true;
                self.phase = ConnPhase::Lent;
                Some(Dispatch::Print { task })
            },
            LabelVirtualization::DropJobs { persist, wait_time_ms } => {
                let persist = persist.clone();
                let wait_time_ms = *wait_time_ms;
                let task = self.queue.remove(0);
                self.printing = true;
                if ready {
                    self.phase = ConnPhase::Lent;
                }
                Some(
                    Dispatch::Simulate {
                        task,
                        wait_time_ms,
                        persist,
                        dpmm_override: None,
                        uses_connection: ready,
                    },
                )
            },
            LabelVirtualization::ZplOnly { dpmm, persist, wait_time_ms } => {
                let dpmm = *dpmm;
                let persist = persist.clone();
                let wait_time_ms = *wait_time_ms;
                let task = self.queue.remove(0);
                self.printing = true;
                if ready {
                    self.phase = ConnPhase::Lent;
                }
                Some(
                    Dispatch::Simulate {
                        task,
                        wait_time_ms,
                        persist,
                        dpmm_override: dpmm,
                        uses_connection: ready,
                    },
                )
            },
        }
    }

    /// Records that the task in flight finished. A lent connection comes
    /// back to the ready pool only when the task reports it unharmed; a
    /// failed task's connection is treated as possibly unusable and dropped.
    pub fn job_finished(&mut self, connection_returned: bool)
        requires
            old(self).wf(),
        ensures
            final(self).wf(),
            frame_except_dispatch(*old(self), *final(self)),
            final(self).queue@ == old(self).queue@,
            !final(self).printing,
            final(self).phase == (if old(self).phase is Lent {
                if connection_returned {
                    ConnPhase::Ready
                } else {
                    ConnPhase::Down
                }
            } else {
                old(self).phase
            }),
    {
        self.printing = false;
        if matches!(self.phase, ConnPhase::Lent) {
            self.phase = if connection_returned {
                ConnPhase::Ready
            } else {
                ConnPhase::Down
            };
        }
    }

    /// Records a shutdown signal: the loop finishes its iteration and exits;
    /// nothing new is connected or dispatched afterwards.
    pub fn shutdown(&mut self)
        requires
            old(self).wf(),
        ensures
            final(self).wf(),
            final(self).shutdown,
            final(self).virtualization == old(self).virtualization,
            final(self).queue@ == old(self).queue@,
            final(self).interest == old(self).interest,
            final(self).phase == old(self).phase,
            final(self).printing == old(self).printing,
            final(self).retry_gate == old(self).retry_gate,
            final(self).probe_gate == old(self).probe_gate,
            final(self).is_up == old(self).is_up,
            final(self).updated_at == old(self).updated_at,
    {
        self.shutdown = true;
    }

    /// Refreshes the status snapshot: the last-seen-up flag latches once a
    /// held connection is ready, and the timestamp is set on every pass.
    pub fn note_status(&mut self, now_unix: u64)
        requires
            old(self).wf(),
        ensures
            final(self).wf(),
            frame_except_status(*old(self), *final(self)),
            final(self).is_up == (old(self).is_up || old(self).phase is Ready),
            final(self).updated_at == now_unix,
    {
        self.is_up = self.is_up || matches!(self.phase, ConnPhase::Ready);
        self.updated_at = now_unix;
    }

    /// The read-only status snapshot for a reporting surface; the raw socket
    /// and the queue internals stay private to the driver.
    pub fn status(&self) -> (r: StatusInformation)
        ensures
            r.is_up == self.is_up,
            r.updated_at_unix == self.updated_at,
    {
        StatusInformation { is_up: self.is_up, updated_at_unix: self.updated_at }
    }
}

/// The device identification a simulated job renders against: the real one
/// when a connection supplied it, otherwise a synthesized record using the
/// configured dots-per-millimetre override, or eight dots per millimetre as
/// the fallback.
pub fn simulation_identification(device: Option<&HostIdentification>, dpmm_override: Option<u32>)
    -> (r: HostIdentification)
    ensures
        match device {
            Some(h) => r.model@ == h.model@ && r.version@ == h.version@ && r.dpmm == h.dpmm
                && r.memory@ == h.memory@,
            None => r.model@ == Seq::<char>::empty() && r.version@ == Seq::<char>::empty()
                && r.memory@ == Seq::<char>::empty() && r.dpmm == (match dpmm_override {
                Some(d) => d,
                None => 8,
            }),
        },
{
    match device {
        Some(h) => HostIdentification {
            model: h.model.clone(),
            version: h.version.clone(),
            dpmm: h.dpmm,
            memory: h.memory.clone(),
        },
        None => HostIdentification {
            model: String::new(),
            version: String::new(),
            dpmm: match dpmm_override {
                Some(d) => d,
                None => 8,
            },
            memory: String::new(),
        },
    }
}

} // verus!
