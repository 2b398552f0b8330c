//! The capture loop, modelled as a state machine.
//!
//! The loop proper alternates outside work — a bounded wait on the kernel
//! interface, an awaited channel send — with decisions. The outside work is
//! the shell's; every decision lives here: each thing the loop can observe in
//! one iteration arrives as a [`CaptureEvent`], and [`CaptureEngine::step`]
//! moves the machine `Running → Stopped(..)`, keeps the statistics, applies
//! backpressure through the bounded channel, and computes the throughput
//! observations, exactly as one iteration of the loop would.

use vstd::prelude::*;

use crate::channel::PacketChannel;
use crate::channel::SendOutcome;
use crate::packet::CaptureStats;
use crate::packet::CapturedPacket;
use crate::packet::CAPTURE_MTU;
use crate::timefmt::valid_timestamp_ms;

verus! {

/// Bound of the backpressure channel, in packets. Provisional: chosen for
/// typical burst patterns pending real measurement.
pub const CHANNEL_CAPACITY: usize = 1000;

/// How long one kernel-interface read may block, in milliseconds. This wait
/// bounds how late the loop can notice a shutdown request.
pub const RECV_TIMEOUT_MS: u64 = 100;

/// Grace granted to a capture loop between the polite shutdown signal and
/// the forced abort, in milliseconds.
pub const SHUTDOWN_GRACE_MS: u64 = 500;

/// The traffic-volume reference: 10 MiB per `THRESHOLD_WINDOW_MS`
/// milliseconds (one hour). Purely observational.
pub const THRESHOLD_BYTES: u64 = 10_485_760;

/// The window over which `THRESHOLD_BYTES` is measured: one hour.
pub const THRESHOLD_WINDOW_MS: u64 = 3_600_000;

/// Throughput is recomputed once this much wall-clock time has passed since
/// the last checkpoint: about once per second.
pub const THROUGHPUT_INTERVAL_MS: i64 = 1000;

/// Every this many packets, the fresh throughput is also compared against the
/// volume reference — a coarser cadence for the noisier observation.
pub const VOLUME_CHECK_EVERY: u64 = 600;

/// Why a capture loop stopped.
#[derive(Debug, Clone, Copy, PartialEq, Eq, Structural)]
pub enum StopReason {
    /// A shutdown request was observed at the loop's checkpoint.
    Graceful,
    /// The consumer dropped its end of the channel: no one is left to read.
    ChannelClosed,
    /// The kernel interface reported a read error; such errors are fatal for
    /// the capture session and are not retried.
    Error,
}

/// The loop's lifecycle. There is no way back from `Stopped` to `Running`
/// without creating a new loop instance.
#[derive(Debug, Clone, Copy, PartialEq, Eq, Structural)]
pub enum LoopState {
    /// The loop is live and observing events.
    Running,
    /// The loop has exited, for the recorded reason.
    Stopped(StopReason),
}

/// One thing the loop can observe in one iteration.
pub enum CaptureEvent {
    /// A shutdown request is pending at the iteration's checkpoint.
    ShutdownRequested,
    /// The bounded kernel read returned no packet within its wait.
    Timeout,
    /// The kernel interface delivered a packet: its bytes, and the wall-clock
    /// receive time in milliseconds since the Unix epoch, UTC.
    Packet(Vec<u8>, i64),
    /// The kernel read failed with the given rendered OS error.
    ReadError(String),
}

/// What one step of the loop decided.
pub enum StepOutcome {
    /// Nothing to do; observe the next event.
    Continued,
    /// A packet was accounted for and accepted by the channel. The payload is
    /// the volume observation for this step: absent at most steps, and on the
    /// coarse cadence `Some(true)` when fresh throughput exceeds the
    /// reference, `Some(false)` when it lies within it. It never alters
    /// control flow.
    Forwarded(Option<bool>),
    /// A packet was accounted for, but the channel is full: the producer must
    /// suspend until the consumer makes room, then finish this send through
    /// [`CaptureEngine::resume`]. Nothing was dropped.
    WouldBlock,
    /// The loop exited for the given reason.
    Exited(StopReason),
}

/// Whether `delta` bytes over `elapsed_ms` milliseconds exceed the
/// 10 MiB/hour reference rate.
pub open spec fn spec_exceeds_threshold(delta: nat, elapsed_ms: nat) -> bool {
    delta * THRESHOLD_WINDOW_MS > THRESHOLD_BYTES * elapsed_ms
}

/// The throughput over a checkpoint window, in whole bytes per second.
pub open spec fn spec_rate_bps(delta: nat, elapsed_ms: nat) -> nat
    recommends
        elapsed_ms > 0,
{
    delta * 1000 / elapsed_ms
}

/// The volume observation one successful send reports: only when the
/// throughput checkpoint advanced on this packet (the interval had passed)
/// and the packet counter sits on the coarse cadence, and then whether the
/// window's rate exceeded the reference.
pub open spec fn spec_volume_report(
    delta: nat,
    elapsed_ms: nat,
    new_count: u64,
) -> Option<bool> {
    if elapsed_ms >= THROUGHPUT_INTERVAL_MS && new_count % VOLUME_CHECK_EVERY == 0 {
        Some(spec_exceeds_threshold(delta, elapsed_ms))
    } else {
        None
    }
}

/// The capture loop's whole state: lifecycle, statistics, the bounded
/// channel, the packet a full channel turned away, and the throughput
/// checkpoint.
pub struct CaptureEngine {
    /// Where the loop stands in its lifecycle.
    pub state: LoopState,
    /// Monotonic counters and the latest receive time for this run.
    pub stats: CaptureStats,
    /// The backpressure channel this loop produces into.
    pub channel: PacketChannel,
    /// A packet already accounted for but not yet accepted by the full
    /// channel; the producer is suspended on it.
    pub pending: Option<CapturedPacket>,
    /// When the throughput was last computed, in milliseconds since the Unix
    /// epoch, UTC.
    pub last_check_ms: i64,
    /// `stats.bytes_captured` as of the last throughput checkpoint.
    pub bytes_at_last_check: u64,
    /// The throughput computed at the last checkpoint, in whole bytes per
    /// second; zero until the first checkpoint.
    pub rate_bps: u64,
    /// The byte sizes of every packet this run has observed, in order.
    pub observed: Ghost<Seq<nat>>,
}

impl CaptureEngine {
    /// Well-formedness, maintained by every step: the channel is sound, the
    /// counters match the observed sizes exactly, the checkpoint never runs
    /// ahead of the byte counter or of the clock, and a suspended packet is
    /// itself sound.
    pub open spec fn wf(&self) -> bool {
        &&& self.channel.wf()
        &&& self.channel.capacity == CHANNEL_CAPACITY
        &&& self.stats.packet_count == self.observed@.len()
        &&& self.stats.bytes_captured == crate::packet::sum_of_sizes(self.observed@)
        &&& self.bytes_at_last_check <= self.stats.bytes_captured
        &&& valid_timestamp_ms(self.last_check_ms)
        &&& match self.stats.last_packet_time {
            Some(t) => valid_timestamp_ms(t) && self.last_check_ms <= t,
            None => true,
        }
        &&& match self.pending {
            Some(p) => p.wf() && self.state is Running,
            None => true,
        }
    }

    /// A fresh loop: running, zero counters, an empty open channel at the
    /// fixed bound, and the throughput checkpoint anchored at `now_ms`.
    pub fn new(now_ms: i64) -> (r: CaptureEngine)
        requires
            valid_timestamp_ms(now_ms),
        ensures
            r.wf(),
            r.state == LoopState::Running,
            r.stats.packet_count == 0,
            r.stats.bytes_captured == 0,
            r.stats.last_packet_time is None,
            r.pending is None,
            r.rate_bps == 0,
            r.last_check_ms == now_ms,
            r.channel.queued().len() == 0,
            !r.channel.closed,
            r.observed@.len() == 0,
    {
        CaptureEngine {
            state: LoopState::Running,
            stats: CaptureStats::new(),
            channel: PacketChannel::new(CHANNEL_CAPACITY),
            pending: None,
            last_check_ms: now_ms,
            bytes_at_last_check: 0,
            rate_bps: 0,
            observed: Ghost(Seq::empty()),
        }
    }

    /// One iteration of the capture loop, given the one thing it observed.
    ///
    /// A shutdown request stops the loop gracefully; a timeout merely loops
    /// back (this is how shutdown stays observable with no traffic); a read
    /// error stops the loop fatally; a packet is copied, stamped, counted,
    /// and offered to the channel — a full channel suspends the producer
    /// (`WouldBlock`, the packet kept as pending), a closed one stops the
    /// loop. After a successful send, once a second of wall-clock time, the
    /// throughput checkpoint advances.
    pub fn step(&mut self, event: CaptureEvent) -> (r: StepOutcome)
        requires
            old(self).wf(),
            old(self).state is Running,
            old(self).pending is None,
            old(self).stats.packet_count < u64::MAX,
            event matches CaptureEvent::Packet(data, ts) ==> {
                &&& old(self).stats.bytes_captured + data@.len() <= u64::MAX
                &&& valid_timestamp_ms(ts)
                &&& data@.len() <= CAPTURE_MTU
                &&& match old(self).stats.last_packet_time {
                    Some(t) => t <= ts,
                    None => old(self).last_check_ms <= ts,
                }
            },
        ensures
            final(self).wf(),
            final(self).stats.packet_count >= old(self).stats.packet_count,
            final(self).stats.bytes_captured >= old(self).stats.bytes_captured,
            final(self).channel.capacity == old(self).channel.capacity,
            final(self).channel.closed == old(self).channel.closed,
            final(self).channel.delivered == old(self).channel.delivered,
            match event {
                CaptureEvent::ShutdownRequested => {
                    &&& r == StepOutcome::Exited(StopReason::Graceful)
                    &&& final(self).state == LoopState::Stopped(StopReason::Graceful)
                    &&& final(self).stats == old(self).stats
                    &&& final(self).channel == old(self).channel
                    &&& final(self).observed == old(self).observed
                },
                CaptureEvent::Timeout => {
                    &&& r == StepOutcome::Continued
                    &&& *final(self) == *old(self)
                },
                CaptureEvent::Packet(data, ts) => {
                    &&& final(self).stats.packet_count == old(self).stats.packet_count + 1
                    &&& final(self).stats.bytes_captured == old(self).stats.bytes_captured
                        + data@.len()
                    &&& final(self).stats.last_packet_time == Some(ts)
                    &&& final(self).observed@ == old(self).observed@.push(data@.len() as nat)
                    &&& if old(self).channel.closed {
                        &&& r == StepOutcome::Exited(StopReason::ChannelClosed)
                        &&& final(self).state == LoopState::Stopped(StopReason::ChannelClosed)
                        &&& final(self).channel.queued() == old(self).channel.queued()
                        &&& final(self).pending is None
                    } else if old(self).channel.queued().len() < CHANNEL_CAPACITY {
                        &&& r == StepOutcome::Forwarded(
                            spec_volume_report(
                                (old(self).stats.bytes_captured + data@.len() - old(
                                    self,
                                ).bytes_at_last_check) as nat,
                                (ts - old(self).last_check_ms) as nat,
                                (old(self).stats.packet_count + 1) as u64,
                            ),
                        )
                        &&& final(self).state is Running
                        &&& final(self).pending is None
                        &&& final(self).channel.queued().len() == old(
                            self,
                        ).channel.queued().len() + 1
                        &&& final(self).channel.queued().last().wf()
                        &&& final(self).channel.queued().last().data@ == data@
                        &&& final(self).channel.queued().last().timestamp == ts
                        &&& final(self).channel.queued() == old(self).channel.queued().push(
                            final(self).channel.queued().last(),
                        )
                    } else {
                        &&& r == StepOutcome::WouldBlock
                        &&& final(self).state is Running
                        &&& final(self).channel.queued() == old(self).channel.queued()
                        &&& final(self).pending matches Some(p) && p.wf() && p.data@ == data@
                            && p.timestamp == ts
                    }
                },
                CaptureEvent::ReadError(_) => {
                    &&& r == StepOutcome::Exited(StopReason::Error)
                    &&& final(self).state == LoopState::Stopped(StopReason::Error)
                    &&& final(self).stats == old(self).stats
                    &&& final(self).channel == old(self).channel
                    &&& final(self).observed == old(self).observed
                },
            },
            match event {
                CaptureEvent::Packet(data, ts) => {
                    if !old(self).channel.closed && old(self).channel.queued().len()
                        < CHANNEL_CAPACITY && ts - old(self).last_check_ms
                        >= THROUGHPUT_INTERVAL_MS {
                        &&& final(self).last_check_ms == ts
                        &&& final(self).bytes_at_last_check == final(self).stats.bytes_captured
                        &&& final(self).rate_bps == spec_rate_bps(
                            (old(self).stats.bytes_captured + data@.len() - old(
                                self,
                            ).bytes_at_last_check) as nat,
                            (ts - old(self).last_check_ms) as nat,
                        )
                    } else {
                        &&& final(self).last_check_ms == old(self).last_check_ms
                        &&& final(self).bytes_at_last_check == old(self).bytes_at_last_check
                        &&& final(self).rate_bps == old(self).rate_bps
                    }
                },
                _ => {
                    &&& final(self).last_check_ms == old(self).last_check_ms
                    &&& final(self).bytes_at_last_check == old(self).bytes_at_last_check
                    &&& final(self).rate_bps == old(self).rate_bps
                },
            },
    {
        match event {
            CaptureEvent::ShutdownRequested => {
                self.state = LoopState::Stopped(StopReason::Graceful);
                StepOutcome::Exited(StopReason::Graceful)
            },
            CaptureEvent::Timeout => StepOutcome::Continued,
            CaptureEvent::ReadError(_) => {
                self.state = LoopState::Stopped(StopReason::Error);
                StepOutcome::Exited(StopReason::Error)
            },
            CaptureEvent::Packet(data, ts) => {
                let length = data.len();
                self.stats.record(length, ts);
                proof {
                    assert(crate::packet::sum_of_sizes(self.observed@.push(length as nat))
                        == crate::packet::sum_of_sizes(self.observed@) + length) by {
                        assert(self.observed@.push(length as nat).drop_last()
                            =~= self.observed@);
                    }
                }
                self.observed = Ghost(self.observed@.push(length as nat));
                let packet = CapturedPacket::new(data, ts);
                match self.channel.try_send(packet) {
                    SendOutcome::Sent => {
                        let report = self.advance_throughput(ts);
                        StepOutcome::Forwarded(report)
                    },
                    SendOutcome::Full(p) => {
                        self.pending = Some(p);
                        StepOutcome::WouldBlock
                    },
                    SendOutcome::Closed(_) => {
                        self.state = LoopState::Stopped(StopReason::ChannelClosed);
                        StepOutcome::Exited(StopReason::ChannelClosed)
                    },
                }
            },
        }
    }

    /// Advance the throughput checkpoint if at least the interval has passed:
    /// recompute the rate over the elapsed window, re-anchor the checkpoint,
    /// and on the coarse packet cadence report the volume comparison.
    fn advance_throughput(&mut self, now_ms: i64) -> (r: Option<bool>)
        requires
            old(self).wf(),
            valid_timestamp_ms(now_ms),
            old(self).last_check_ms <= now_ms,
            old(self).stats.last_packet_time matches Some(t) ==> now_ms <= t,
        ensures
            final(self).wf(),
            final(self).state == old(self).state,
            final(self).stats == old(self).stats,
            final(self).channel == old(self).channel,
            final(self).pending == old(self).pending,
            final(self).observed == old(self).observed,
            r == spec_volume_report(
                (old(self).stats.bytes_captured - old(self).bytes_at_last_check) as nat,
                (now_ms - old(self).last_check_ms) as nat,
                old(self).stats.packet_count,
            ),
            now_ms - old(self).last_check_ms >= THROUGHPUT_INTERVAL_MS ==> {
                &&& final(self).last_check_ms == now_ms
                &&& final(self).bytes_at_last_check == final(self).stats.bytes_captured
                &&& final(self).rate_bps == spec_rate_bps(
                    (old(self).stats.bytes_captured - old(self).bytes_at_last_check) as nat,
                    (now_ms - old(self).last_check_ms) as nat,
                )
            },
            now_ms - old(self).last_check_ms < THROUGHPUT_INTERVAL_MS ==> {
                &&& final(self).last_check_ms == old(self).last_check_ms
                &&& final(self).bytes_at_last_check == old(self).bytes_at_last_check
                &&& final(self).rate_bps == old(self).rate_bps
            },
    {
        let elapsed_ms: i64 = now_ms - self.last_check_ms;
        if elapsed_ms < THROUGHPUT_INTERVAL_MS {
            return None;
        }
        let delta: u64 = self.stats.bytes_captured - self.bytes_at_last_check;
        let rate128: u128 = (delta as u128) * 1000 / (elapsed_ms as u128);
        proof {
            assert((delta as int) * 1000 / (elapsed_ms as int) <= delta as int)
                by (nonlinear_arith)
                requires
                    elapsed_ms >= 1000,
                    0 <= delta,
            ;
        }
        self.rate_bps = rate128 as u64;
        self.bytes_at_last_check = self.stats.bytes_captured;
        self.last_check_ms = now_ms;
        if self.stats.packet_count % VOLUME_CHECK_EVERY == 0 {
            proof {
                assert((delta as int) * (THRESHOLD_WINDOW_MS as int) <= (u64::MAX as int) * (
                THRESHOLD_WINDOW_MS as int)) by (nonlinear_arith)
                    requires
                        0 <= delta <= u64::MAX,
                ;
                assert((THRESHOLD_BYTES as int) * (elapsed_ms as int) <= (THRESHOLD_BYTES as int)
                    * (i64::MAX as int)) by (nonlinear_arith)
                    requires
                        0 <= elapsed_ms <= i64::MAX,
                ;
            }
            let exceeds: bool = (delta as u128) * (THRESHOLD_WINDOW_MS as u128) > (
            THRESHOLD_BYTES as u128) * (elapsed_ms as u128);
            Some(exceeds)
        } else {
            None
        }
    }

    /// Finish a suspended send: the consumer has made room, so the pending
    /// packet — and no other — enters the channel, order preserved.
    pub fn resume(&mut self) -> (r: StepOutcome)
        requires
            old(self).wf(),
            old(self).pending is Some,
            old(self).channel.queued().len() < CHANNEL_CAPACITY,
            !old(self).channel.closed,
        ensures
            final(self).wf(),
            final(self).pending is None,
            final(self).state == old(self).state,
            final(self).stats == old(self).stats,
            final(self).observed == old(self).observed,
            final(self).channel.delivered == old(self).channel.delivered,
            final(self).channel.closed == old(self).channel.closed,
            old(self).pending matches Some(p) ==> final(self).channel.queued() == old(
                self,
            ).channel.queued().push(p),
            r == StepOutcome::Forwarded(None::<bool>),
    {
        let packet = self.pending.take().unwrap();
        match self.channel.try_send(packet) {
            SendOutcome::Sent => StepOutcome::Forwarded(None),
            SendOutcome::Full(p) => {
                self.pending = Some(p);
                StepOutcome::WouldBlock
            },
            SendOutcome::Closed(_) => {
                self.state = LoopState::Stopped(StopReason::ChannelClosed);
                StepOutcome::Exited(StopReason::ChannelClosed)
            },
        }
    }

    /// Consumer side: take the oldest captured packet, if any. If a producer
    /// send was suspended on a full channel, the freed slot completes it at
    /// once, so the suspended packet keeps its place in the order.
    pub fn recv_captured(&mut self) -> (r: Option<CapturedPacket>)
        requires
            old(self).wf(),
        ensures
            final(self).wf(),
            final(self).state == old(self).state,
            final(self).stats == old(self).stats,
            final(self).observed == old(self).observed,
            final(self).channel.closed == old(self).channel.closed,
            old(self).channel.queued().len() == 0 ==> r is None && final(self).pending == old(
                self,
            ).pending && final(self).channel.queued() == old(self).channel.queued(),
            old(self).channel.queued().len() > 0 ==> {
                &&& r == Some(old(self).channel.queued()[0])
                &&& final(self).channel.delivered@ == old(self).channel.delivered@.push(
                    old(self).channel.queued()[0],
                )
            },
            old(self).channel.queued().len() > 0 && old(self).pending is None ==> final(self).pending is None && final(self).channel.queued() == old(
                self,
            ).channel.queued().drop_first(),
            old(self).channel.queued().len() > 0 && old(self).pending is Some && !old(
                self,
            ).channel.closed ==> {
                &&& final(self).pending is None
                &&& final(self).channel.queued() == old(self).channel.queued().drop_first().push(
                    old(self).pending->0,
                )
            },
    {
        let r = self.channel.recv();
        if r.is_some() && self.pending.is_some() && !self.channel.closed {
            if self.channel.len() < CHANNEL_CAPACITY {
                let _ = self.resume();
            }
        }
        r
    }

    /// Consumer side: drop the receiving end. The next send observes it and
    /// the loop stops with `ChannelClosed`.
    pub fn close_channel(&mut self)
        requires
            old(self).wf(),
        ensures
            final(self).wf(),
            final(self).channel.closed,
            final(self).state == old(self).state,
            final(self).stats == old(self).stats,
    {
        self.channel.close();
    }
}

/// Law: the statistics are exact — whatever run of steps produced a
/// well-formed engine, the packet counter equals the number of packets
/// observed and the byte counter equals the exact sum of their sizes.
pub proof fn lemma_stats_exact(e: &CaptureEngine)
    requires
        e.wf(),
    ensures
        e.stats.packet_count == e.observed@.len(),
        e.stats.bytes_captured == crate::packet::sum_of_sizes(e.observed@),
{
}

} // verus!
