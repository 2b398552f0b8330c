//! Capture session state and the command surface the GUI shell consumes.
//!
//! One process-wide record says whether capture is active, carries the
//! last-known published counters, and owns the running loop while one is
//! alive. The shell holds it behind its own lock and calls the operations
//! here with exclusive access; each one is synchronous, so no lock need ever
//! be held across an awaited operation.

use vstd::prelude::*;

use crate::admin::check_windivert_driver;
use crate::admin::driver_gate_satisfied;
use crate::admin::is_running_as_admin;
use crate::admin::privilege_gate_satisfied;
use crate::admin::DriverProbe;
use crate::admin::PrivilegeProbe;
use crate::engine::CaptureEngine;
use crate::engine::CaptureEvent;
use crate::engine::StepOutcome;
use crate::engine::StopReason;
use crate::error::CaptureError;
use crate::packet::CapturedPacket;
use crate::packet::CAPTURE_MTU;
use crate::timefmt::format_rfc3339_ms;
use crate::timefmt::rfc3339_of;
use crate::timefmt::valid_timestamp_ms;

verus! {

/// What the privilege and driver gate found, for UI status display.
#[derive(Debug, Clone, Copy, PartialEq, Eq, Structural)]
pub struct AdminStatus {
    /// The process token carries administrative rights.
    pub is_admin: bool,
    /// Both gate conditions hold: capture may start.
    pub can_capture: bool,
    /// The capture driver's files were found.
    pub windivert_driver_found: bool,
}

/// A snapshot of the capture session, as reported to the shell.
#[derive(Debug, Clone, PartialEq, Eq)]
pub struct CaptureStatus {
    /// A capture run is active.
    pub is_running: bool,
    /// Last-known packet counter of the run.
    pub packet_count: u64,
    /// Last-known throughput, in whole bytes per second.
    pub bytes_per_second: u64,
    /// Last-known packet receive time, RFC 3339 / ISO 8601, if any packet has
    /// been seen.
    pub last_packet_time: Option<String>,
}

/// The process-wide capture session record.
pub struct CaptureState {
    /// A capture run is active. The single source of truth: exactly one
    /// capture loop may be live per session, and only while this is set.
    pub is_capturing: bool,
    /// Last-known packet counter, published by the loop.
    pub packet_count: u64,
    /// Last-known throughput in whole bytes per second, published by the
    /// loop.
    pub bytes_per_second: u64,
    /// Last-known packet receive time in milliseconds since the Unix epoch,
    /// UTC, published by the loop.
    pub last_packet_time: Option<i64>,
    /// The running capture loop. Present exactly while capturing; taken
    /// (removed) on stop, so a second stop cannot shut anything down twice.
    pub engine: Option<CaptureEngine>,
}

/// Evaluate the privilege and driver preconditions for UI display.
///
/// Combines the privilege check with the driver lookup. A failed elevation
/// query or an absent driver is an error here — the caller gets the
/// remediation message, not a silent `false` — while an unelevated token is
/// an ordinary answer: `is_admin` false, `can_capture` false.
pub fn check_admin_privileges(
    privilege: &PrivilegeProbe,
    driver: &DriverProbe,
) -> (r: Result<AdminStatus, String>)
    ensures
        !privilege.query_succeeded ==> (r matches Err(m) && m@
            == CaptureError::PrivilegeDetectionFailed(privilege.failure_cause).spec_message()),
        privilege.query_succeeded && !driver_gate_satisfied(*driver) ==> (r matches Err(m)
            && m@ == CaptureError::WinDivertDriverNotFound.spec_message()),
        privilege.query_succeeded && driver_gate_satisfied(*driver) ==> r == Ok::<
            AdminStatus,
            String,
        >(
            AdminStatus {
                is_admin: privilege.token_elevated,
                can_capture: privilege.token_elevated,
                windivert_driver_found: true,
            },
        ),
{
    let is_admin = match is_running_as_admin(privilege) {
        Ok(b) => b,
        Err(e) => {
            return Err(e.message());
        },
    };
    let driver_found = match check_windivert_driver(driver) {
        Ok(b) => b,
        Err(e) => {
            return Err(e.message());
        },
    };
    Ok(
        AdminStatus {
            is_admin,
            can_capture: is_admin && driver_found,
            windivert_driver_found: driver_found,
        },
    )
}

impl CaptureState {
    /// Well-formedness: a run is active exactly while a loop is owned, the
    /// owned loop is itself sound, and the published receive time can be
    /// rendered.
    pub open spec fn wf(&self) -> bool {
        &&& self.is_capturing <==> self.engine is Some
        &&& self.engine matches Some(e) ==> e.wf()
        &&& self.last_packet_time matches Some(t) ==> valid_timestamp_ms(t)
    }

    /// The session as created at process start: nothing captured yet.
    pub fn new() -> (r: CaptureState)
        ensures
            r.wf(),
            !r.is_capturing,
            r.packet_count == 0,
            r.bytes_per_second == 0,
            r.last_packet_time is None,
            r.engine is None,
    {
        CaptureState {
            is_capturing: false,
            packet_count: 0,
            bytes_per_second: 0,
            last_packet_time: None,
            engine: None,
        }
    }

    /// A snapshot of the session: running flag and last-known counters, the
    /// receive time rendered as RFC 3339. Never fails; mutates nothing.
    pub fn get_capture_status(&self) -> (r: CaptureStatus)
        requires
            self.wf(),
        ensures
            r.is_running == self.is_capturing,
            r.packet_count == self.packet_count,
            r.bytes_per_second == self.bytes_per_second,
            self.last_packet_time is None ==> r.last_packet_time is None,
            self.last_packet_time matches Some(t) ==> r.last_packet_time matches Some(s)
                && s@ == rfc3339_of(t as int),
    {
        let last_packet_time = match &self.last_packet_time {
            Some(t) => Some(format_rfc3339_ms(*t)),
            None => None,
        };
        CaptureStatus {
            is_running: self.is_capturing,
            packet_count: self.packet_count,
            bytes_per_second: self.bytes_per_second,
            last_packet_time,
        }
    }

    /// The preconditions checked before a capture may start: nothing may
    /// already be running, the elevation query must succeed and report an
    /// elevated token, and the driver must be found. Checked synchronously,
    /// before anything is spawned or opened, so a failure never leaves a
    /// half-started capture. Mutates nothing.
    pub fn start_precheck(
        &self,
        privilege: &PrivilegeProbe,
        driver: &DriverProbe,
    ) -> (r: Result<(), String>)
        ensures
            self.is_capturing ==> (r matches Err(m) && m@ == "Capture is already running"@),
            !self.is_capturing && !privilege.query_succeeded ==> (r matches Err(m) && m@
                == CaptureError::PrivilegeDetectionFailed(
                privilege.failure_cause,
            ).spec_message()),
            !self.is_capturing && privilege.query_succeeded && !privilege.token_elevated ==> (
            r matches Err(m) && m@ == CaptureError::RequiresAdminPrivileges.spec_message()),
            !self.is_capturing && privilege_gate_satisfied(*privilege)
                && !driver_gate_satisfied(*driver) ==> (r matches Err(m) && m@
                == CaptureError::WinDivertDriverNotFound.spec_message()),
            !self.is_capturing && privilege_gate_satisfied(*privilege) && driver_gate_satisfied(
                *driver,
            ) ==> r is Ok,
    {
        if self.is_capturing {
            return Err(String::from_str("Capture is already running"));
        }
        let is_admin = match is_running_as_admin(privilege) {
            Ok(b) => b,
            Err(e) => {
                return Err(e.message());
            },
        };
        if !is_admin {
            return Err(CaptureError::RequiresAdminPrivileges.message());
        }
        if let Err(e) = check_windivert_driver(driver) {
            return Err(e.message());
        }
        Ok(())
    }

    /// Start a capture run.
    ///
    /// Runs the precondition checks; a session already running, or a failed
    /// check, changes nothing and reports why. `open_outcome` is what
    /// opening the kernel interception interface came to — the caller opens
    /// it only after the checks pass — and its failure also changes nothing.
    /// Otherwise a fresh loop starts: counters reset to zero, the running
    /// flag set, and the zeroed snapshot returned.
    pub fn start_capture(
        &mut self,
        privilege: &PrivilegeProbe,
        driver: &DriverProbe,
        open_outcome: Result<(), String>,
        now_ms: i64,
    ) -> (r: Result<CaptureStatus, String>)
        requires
            old(self).wf(),
            valid_timestamp_ms(now_ms),
        ensures
            final(self).wf(),
            old(self).is_capturing ==> {
                &&& r matches Err(m) && m@ == "Capture is already running"@
                &&& *final(self) == *old(self)
            },
            !old(self).is_capturing && !privilege.query_succeeded ==> {
                &&& r matches Err(m) && m@ == CaptureError::PrivilegeDetectionFailed(
                    privilege.failure_cause,
                ).spec_message()
                &&& *final(self) == *old(self)
            },
            !old(self).is_capturing && privilege.query_succeeded && !privilege.token_elevated
                ==> {
                &&& r matches Err(m) && m@
                    == CaptureError::RequiresAdminPrivileges.spec_message()
                &&& *final(self) == *old(self)
            },
            !old(self).is_capturing && privilege_gate_satisfied(*privilege)
                && !driver_gate_satisfied(*driver) ==> {
                &&& r matches Err(m) && m@
                    == CaptureError::WinDivertDriverNotFound.spec_message()
                &&& *final(self) == *old(self)
            },
            !old(self).is_capturing && privilege_gate_satisfied(*privilege)
                && driver_gate_satisfied(*driver) && open_outcome is Err ==> {
                &&& r matches Err(m) && m@ == CaptureError::WinDivertInitFailed(
                    open_outcome->Err_0,
                ).spec_message()
                &&& *final(self) == *old(self)
            },
            !old(self).is_capturing && privilege_gate_satisfied(*privilege)
                && driver_gate_satisfied(*driver) && open_outcome is Ok ==> {
                &&& final(self).is_capturing
                &&& final(self).packet_count == 0
                &&& final(self).bytes_per_second == 0
                &&& final(self).last_packet_time is None
                &&& final(self).engine matches Some(e) && e.state is Running
                    && e.stats.packet_count == 0 && e.stats.bytes_captured == 0
                    && e.channel.queued().len() == 0 && !e.channel.closed && e.pending is None
                    && e.last_check_ms == now_ms
                &&& r == Ok::<CaptureStatus, String>(
                    CaptureStatus {
                        is_running: true,
                        packet_count: 0,
                        bytes_per_second: 0,
                        last_packet_time: None,
                    },
                )
            },
    {
        if let Err(m) = self.start_precheck(privilege, driver) {
            return Err(m);
        }
        if let Err(cause) = open_outcome {
            return Err(CaptureError::WinDivertInitFailed(cause).message());
        }
        self.engine = Some(CaptureEngine::new(now_ms));
        self.is_capturing = true;
        self.packet_count = 0;
        self.bytes_per_second = 0;
        self.last_packet_time = None;
        Ok(
            CaptureStatus {
                is_running: true,
                packet_count: 0,
                bytes_per_second: 0,
                last_packet_time: None,
            },
        )
    }

    /// Stop the capture run.
    ///
    /// A session not running changes nothing and reports so. Otherwise the
    /// loop is taken out of the record — a second stop finds nothing to shut
    /// down — the running flag cleared, and the final counters returned. The
    /// shell signals the loop's task and, after the grace period, aborts it;
    /// both act on handles the shell holds, never on this record again.
    pub fn stop_capture(&mut self) -> (r: Result<CaptureStatus, String>)
        requires
            old(self).wf(),
        ensures
            final(self).wf(),
            !old(self).is_capturing ==> {
                &&& r matches Err(m) && m@ == "Capture is not running"@
                &&& *final(self) == *old(self)
            },
            old(self).is_capturing ==> {
                &&& !final(self).is_capturing
                &&& final(self).engine is None
                &&& final(self).packet_count == old(self).packet_count
                &&& final(self).bytes_per_second == old(self).bytes_per_second
                &&& final(self).last_packet_time == old(self).last_packet_time
                &&& r matches Ok(s) && ({
                    &&& s.is_running == false
                    &&& s.packet_count == old(self).packet_count
                    &&& s.bytes_per_second == old(self).bytes_per_second
                    &&& old(self).last_packet_time is None ==> s.last_packet_time is None
                    &&& old(self).last_packet_time matches Some(t) ==> s.last_packet_time
                        matches Some(txt) && txt@ == rfc3339_of(t as int)
                })
            },
    {
        if !self.is_capturing {
            return Err(String::from_str("Capture is not running"));
        }
        let _taken = self.engine.take();
        self.is_capturing = false;
        Ok(self.get_capture_status())
    }

    /// Publish the loop's current statistics into the session's last-known
    /// counters: the loop's periodic status publication. A session without a
    /// live loop is left unchanged.
    pub fn publish_stats(&mut self)
        requires
            old(self).wf(),
        ensures
            final(self).wf(),
            final(self).is_capturing == old(self).is_capturing,
            final(self).engine == old(self).engine,
            old(self).engine matches Some(e) ==> {
                &&& final(self).packet_count == e.stats.packet_count
                &&& final(self).bytes_per_second == e.rate_bps
                &&& final(self).last_packet_time == e.stats.last_packet_time
            },
            old(self).engine is None ==> *final(self) == *old(self),
    {
        match &self.engine {
            Some(e) => {
                self.packet_count = e.stats.packet_count;
                self.bytes_per_second = e.rate_bps;
                self.last_packet_time = e.stats.last_packet_time;
            },
            None => {},
        }
    }

    /// One iteration of the live capture loop, followed by the publication of
    /// its statistics: the caller observes one event on the kernel interface
    /// and hands it here; every decision — stop, continue, account and
    /// forward, stall on the full channel — is taken inside.
    pub fn on_capture_event(&mut self, event: CaptureEvent) -> (r: StepOutcome)
        requires
            old(self).wf(),
            old(self).is_capturing,
            old(self).engine matches Some(e) && e.state is Running && e.pending is None
                && e.stats.packet_count < u64::MAX,
            event matches CaptureEvent::Packet(data, ts) ==> {
                &&& old(self).engine->0.stats.bytes_captured + data@.len() <= u64::MAX
                &&& valid_timestamp_ms(ts)
                &&& data@.len() <= CAPTURE_MTU
                &&& match old(self).engine->0.stats.last_packet_time {
                    Some(t) => t <= ts,
                    None => old(self).engine->0.last_check_ms <= ts,
                }
            },
        ensures
            final(self).wf(),
            final(self).is_capturing,
            final(self).engine is Some,
            final(self).engine->0.stats.packet_count >= old(self).engine->0.stats.packet_count,
            final(self).engine->0.stats.bytes_captured >= old(
                self,
            ).engine->0.stats.bytes_captured,
            final(self).packet_count == final(self).engine->0.stats.packet_count,
            final(self).bytes_per_second == final(self).engine->0.rate_bps,
            final(self).last_packet_time == final(self).engine->0.stats.last_packet_time,
            match event {
                CaptureEvent::ShutdownRequested => {
                    &&& r == StepOutcome::Exited(StopReason::Graceful)
                    &&& final(self).engine->0.state == crate::engine::LoopState::Stopped(
                        StopReason::Graceful,
                    )
                    &&& final(self).packet_count == old(self).engine->0.stats.packet_count
                },
                CaptureEvent::Timeout => {
                    &&& r == StepOutcome::Continued
                    &&& final(self).engine == old(self).engine
                },
                CaptureEvent::Packet(data, ts) => {
                    &&& final(self).packet_count == old(self).engine->0.stats.packet_count + 1
                    &&& final(self).last_packet_time == Some(ts)
                    &&& final(self).engine->0.stats.bytes_captured == old(
                        self,
                    ).engine->0.stats.bytes_captured + data@.len()
                    &&& (!old(self).engine->0.channel.closed && old(
                        self,
                    ).engine->0.channel.queued().len() < crate::engine::CHANNEL_CAPACITY ==> {
                        &&& r matches StepOutcome::Forwarded(_)
                        &&& final(self).engine->0.channel.queued() == old(
                            self,
                        ).engine->0.channel.queued().push(
                            final(self).engine->0.channel.queued().last(),
                        )
                        &&& final(self).engine->0.channel.queued().last().data@ == data@
                        &&& final(self).engine->0.channel.queued().last().timestamp == ts
                    })
                    &&& (!old(self).engine->0.channel.closed && old(
                        self,
                    ).engine->0.channel.queued().len() == crate::engine::CHANNEL_CAPACITY ==> {
                        &&& r == StepOutcome::WouldBlock
                        &&& final(self).engine->0.channel.queued() == old(
                            self,
                        ).engine->0.channel.queued()
                        &&& final(self).engine->0.pending matches Some(p) && p.data@ == data@
                    })
                    &&& (old(self).engine->0.channel.closed ==> r == StepOutcome::Exited(
                        StopReason::ChannelClosed,
                    ))
                },
                CaptureEvent::ReadError(_) => {
                    &&& r == StepOutcome::Exited(StopReason::Error)
                    &&& final(self).engine->0.state == crate::engine::LoopState::Stopped(
                        StopReason::Error,
                    )
                    &&& final(self).packet_count == old(self).engine->0.stats.packet_count
                },
            },
    {
        let r = match &mut self.engine {
            Some(e) => e.step(event),
            None => StepOutcome::Continued,
        };
        self.publish_stats();
        r
    }

    /// Consumer side of the pipeline: take the oldest captured packet from
    /// the live loop's channel, if there is one.
    pub fn take_captured(&mut self) -> (r: Option<CapturedPacket>)
        requires
            old(self).wf(),
        ensures
            final(self).wf(),
            final(self).is_capturing == old(self).is_capturing,
            final(self).packet_count == old(self).packet_count,
            final(self).bytes_per_second == old(self).bytes_per_second,
            final(self).last_packet_time == old(self).last_packet_time,
            old(self).engine is None ==> r is None && *final(self) == *old(self),
            old(self).engine matches Some(e) ==> ({
                &&& final(self).engine is Some
                &&& final(self).engine->0.state == e.state
                &&& final(self).engine->0.stats == e.stats
                &&& (e.channel.queued().len() == 0 ==> r is None && final(self).engine->0.channel.queued() == e.channel.queued())
                &&& (e.channel.queued().len() > 0 ==> ({
                    &&& r == Some(e.channel.queued()[0])
                    &&& final(self).engine->0.channel.delivered@
                        == e.channel.delivered@.push(e.channel.queued()[0])
                }))
                &&& (e.channel.queued().len() > 0 && e.pending is None ==> final(self).engine->0.channel.queued() == e.channel.queued().drop_first())
                &&& (e.channel.queued().len() > 0 && e.pending is Some && !e.channel.closed
                    ==> ({
                    &&& final(self).engine->0.pending is None
                    &&& final(self).engine->0.channel.queued()
                        == e.channel.queued().drop_first().push(e.pending->0)
                }))

            }),
    {
        match &mut self.engine {
            Some(e) => e.recv_captured(),
            None => None,
        }
    }
}

impl Default for CaptureState {
    /// The record every process starts with: not capturing, zero counters,
    /// no packet seen, no loop owned.
    fn default() -> (r: CaptureState)
        ensures
            r.wf(),
            !r.is_capturing,
            r.packet_count == 0,
            r.bytes_per_second == 0,
            r.last_packet_time is None,
            r.engine is None,
    {
        CaptureState::new()
    }
}

} // verus!
