//! Captured packets and the running statistics of one capture run.

use vstd::prelude::*;

use crate::timefmt::valid_timestamp_ms;

verus! {

/// Capture MTU: a packet read from the kernel interface fits in this many
/// bytes per read.
pub const CAPTURE_MTU: usize = 1500;

/// One packet as delivered to the consumer: the raw bytes in an owned buffer,
/// the receive time (milliseconds since the Unix epoch, UTC), and a cached
/// length. Immutable once created.
#[derive(Debug, Clone)]
pub struct CapturedPacket {
    /// The raw packet bytes, owned by this record.
    pub data: Vec<u8>,
    /// Receive time in non-leap milliseconds since the Unix epoch, UTC.
    pub timestamp: i64,
    /// Cached length of `data` in bytes.
    pub length: usize,
}

impl CapturedPacket {
    /// The cached length is the buffer's, and the receive time is renderable.
    pub open spec fn wf(&self) -> bool {
        &&& self.length == self.data@.len()
        &&& valid_timestamp_ms(self.timestamp)
    }

    /// Stamp raw bytes with their receive time.
    pub fn new(data: Vec<u8>, timestamp: i64) -> (r: CapturedPacket)
        requires
            valid_timestamp_ms(timestamp),
        ensures
            r.wf(),
            r.data@ == data@,
            r.timestamp == timestamp,
            r.length == data@.len(),
    {
        let length = data.len();
        CapturedPacket { data, timestamp, length }
    }
}

/// Running statistics of one capture run: monotonic packet and byte counters
/// and the receive time of the latest packet (absent until the first one).
/// Mutated only by the capture loop; reset only when a new run starts.
#[derive(Debug, Clone, Default)]
pub struct CaptureStats {
    /// Packets observed so far in this run.
    pub packet_count: u64,
    /// Bytes observed so far in this run, summed over the packets.
    pub bytes_captured: u64,
    /// Receive time of the most recent packet, if any, in milliseconds since
    /// the Unix epoch, UTC.
    pub last_packet_time: Option<i64>,
}

/// The byte sizes of a run of packets, summed.
pub open spec fn sum_of_sizes(sizes: Seq<nat>) -> nat
    decreases sizes.len(),
{
    if sizes.len() == 0 {
        0
    } else {
        sum_of_sizes(sizes.drop_last()) + sizes.last()
    }
}

impl CaptureStats {
    /// Fresh statistics: both counters zero, no packet seen yet.
    pub fn new() -> (r: CaptureStats)
        ensures
            r.packet_count == 0,
            r.bytes_captured == 0,
            r.last_packet_time is None,
    {
        CaptureStats { packet_count: 0, bytes_captured: 0, last_packet_time: None }
    }

    /// Account for one packet of `length` bytes received at `timestamp`:
    /// both counters grow, and the latest receive time is replaced.
    pub fn record(&mut self, length: usize, timestamp: i64)
        requires
            old(self).packet_count < u64::MAX,
            old(self).bytes_captured + length <= u64::MAX,
        ensures
            final(self).packet_count == old(self).packet_count + 1,
            final(self).bytes_captured == old(self).bytes_captured + length,
            final(self).last_packet_time == Some(timestamp),
    {
        self.packet_count = self.packet_count + 1;
        self.bytes_captured = self.bytes_captured + length as u64;
        self.last_packet_time = Some(timestamp);
    }
}

} // verus!
