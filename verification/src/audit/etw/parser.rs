//! Decoding of the DPC and ISR kernel trace events.
use vstd::prelude::*;

use vstd::bytes::{spec_u64_from_le_bytes, u64_from_le_bytes};
use vstd::slice::slice_subrange;

use crate::audit::etw::monitor::{after_dpc, after_isr, dpc_fits, isr_fits, stats_or_zero, LatencyMonitor};

verus! {

/// Latency statistics of one driver routine.
#[derive(Debug, Clone, Copy)]
pub struct LatencyStats {
    pub dpc_count: u64,
    pub dpc_total_us: u64,
    pub dpc_max_us: u64,
    pub isr_count: u64,
    pub isr_total_us: u64,
    pub isr_max_us: u64,
}

impl Default for LatencyStats {
    fn default() -> (r: Self)
        ensures
            r.dpc_count == 0 && r.dpc_total_us == 0 && r.dpc_max_us == 0,
            r.isr_count == 0 && r.isr_total_us == 0 && r.isr_max_us == 0,
    {
        LatencyStats {
            dpc_count: 0,
            dpc_total_us: 0,
            dpc_max_us: 0,
            isr_count: 0,
            isr_total_us: 0,
            isr_max_us: 0,
        }
    }
}

/// Decodes DPC and ISR trace events into latency statistics.
pub struct EtwParser;

impl EtwParser {
    pub fn new() -> (r: Self) {
        EtwParser
    }
}

impl Default for EtwParser {
    fn default() -> (r: Self) {
        EtwParser
    }
}

/// The opcode of an ISR event (PerfInfo group).
pub open spec fn isr_opcode() -> u8 {
    67
}

/// The opcode of a DPC event (PerfInfo group).
pub open spec fn dpc_opcode() -> u8 {
    68
}

/// The 64-bit little-endian value at byte `offset` of `data`.
pub open spec fn word_at(data: Seq<u8>, offset: int) -> u64 {
    spec_u64_from_le_bytes(data.subrange(offset, offset + 8))
}

/// The routine and latency (in microseconds) that a DPC or ISR payload
/// reports: bytes 0..8 hold the start time, 8..16 the routine address and
/// 16..24 the end time, in 100 ns ticks. A payload shorter than 24 bytes, or
/// whose end is not after its start, reports nothing.
pub open spec fn payload_sample(data: Seq<u8>) -> Option<(u64, u64)> {
    if data.len() < 24 {
        None
    } else {
        let initial_time = word_at(data, 0);
        let routine = word_at(data, 8);
        let end_time = word_at(data, 16);
        if end_time > initial_time {
            Some((routine, ((end_time - initial_time) / 10) as u64))
        } else {
            None
        }
    }
}

fn read_word(data: &[u8], offset: usize) -> (r: u64)
    requires
        offset <= 16,
        offset + 8 <= data@.len(),
    ensures
        r == word_at(data@, offset as int),
{
    let bytes = slice_subrange(data, offset, offset + 8);
    u64_from_le_bytes(bytes)
}

fn read_sample(data: &[u8]) -> (r: Option<(u64, u64)>)
    ensures
        r == payload_sample(data@),
{
    if data.len() < 24 {
        return None;
    }
    let initial_time = read_word(data, 0);
    let routine = read_word(data, 8);
    let end_time = read_word(data, 16);
    if end_time > initial_time {
        let latency_ticks = end_time - initial_time;
        Some((routine, latency_ticks / 10))
    } else {
        None
    }
}

/// Recording the sample of a DPC payload keeps the counters within 64 bits.
pub open spec fn dpc_payload_fits(m: Map<u64, LatencyStats>, data: Seq<u8>) -> bool {
    match payload_sample(data) {
        Some((routine, latency)) => dpc_fits(m, routine, latency),
        None => true,
    }
}

/// Recording the sample of an ISR payload keeps the counters within 64 bits.
pub open spec fn isr_payload_fits(m: Map<u64, LatencyStats>, data: Seq<u8>) -> bool {
    match payload_sample(data) {
        Some((routine, latency)) => isr_fits(m, routine, latency),
        None => true,
    }
}

/// The statistics after a DPC payload.
pub open spec fn stats_after_dpc_payload(m: Map<u64, LatencyStats>, data: Seq<u8>) -> Map<
    u64,
    LatencyStats,
> {
    match payload_sample(data) {
        Some((routine, latency)) => m.insert(routine, after_dpc(stats_or_zero(m, routine), latency)),
        None => m,
    }
}

/// The statistics after an ISR payload.
pub open spec fn stats_after_isr_payload(m: Map<u64, LatencyStats>, data: Seq<u8>) -> Map<
    u64,
    LatencyStats,
> {
    match payload_sample(data) {
        Some((routine, latency)) => m.insert(routine, after_isr(stats_or_zero(m, routine), latency)),
        None => m,
    }
}

/// The statistics after an event with `opcode` and payload `data`: DPC and
/// ISR events are recorded, other events are ignored.
pub open spec fn stats_after_event(m: Map<u64, LatencyStats>, opcode: u8, data: Seq<u8>) -> Map<
    u64,
    LatencyStats,
> {
    if opcode == isr_opcode() {
        stats_after_isr_payload(m, data)
    } else if opcode == dpc_opcode() {
        stats_after_dpc_payload(m, data)
    } else {
        m
    }
}

/// Recording the event keeps the counters within 64 bits.
pub open spec fn event_fits(m: Map<u64, LatencyStats>, opcode: u8, data: Seq<u8>) -> bool {
    if opcode == isr_opcode() {
        isr_payload_fits(m, data)
    } else if opcode == dpc_opcode() {
        dpc_payload_fits(m, data)
    } else {
        true
    }
}

impl EtwParser {
    /// Records the DPC that the payload reports.
    pub fn handle_dpc(monitor: &mut LatencyMonitor, data: &[u8])
        requires
            dpc_payload_fits(old(monitor).stats(), data@),
        ensures
            final(monitor).stats() == stats_after_dpc_payload(old(monitor).stats(), data@),
    {
        if let Some((routine, latency_us)) = read_sample(data) {
            monitor.update_dpc(routine, latency_us);
        }
    }

    /// Records the ISR that the payload reports.
    pub fn handle_isr(monitor: &mut LatencyMonitor, data: &[u8])
        requires
            isr_payload_fits(old(monitor).stats(), data@),
        ensures
            final(monitor).stats() == stats_after_isr_payload(old(monitor).stats(), data@),
    {
        if let Some((routine, latency_us)) = read_sample(data) {
            monitor.update_isr(routine, latency_us);
        }
    }

    /// Dispatches one trace event by its opcode: 67 is an ISR, 68 a DPC,
    /// anything else is ignored.
    pub fn handle_event(monitor: &mut LatencyMonitor, opcode: u8, data: &[u8])
        requires
            event_fits(old(monitor).stats(), opcode, data@),
        ensures
            final(monitor).stats() == stats_after_event(old(monitor).stats(), opcode, data@),
    {
        if opcode == 67 {
            Self::handle_isr(monitor, data);
        } else if opcode == 68 {
            Self::handle_dpc(monitor, data);
        }
    }

    /// Whether recording the event keeps the counters of `monitor` within 64
    /// bits, which [`EtwParser::handle_event`] needs.
    pub fn event_fits_now(monitor: &LatencyMonitor, opcode: u8, data: &[u8]) -> (r: bool)
        ensures
            r == event_fits(monitor.stats(), opcode, data@),
    {
        if opcode != 67 && opcode != 68 {
            return true;
        }
        match read_sample(data) {
            None => true,
            Some((routine, latency_us)) => {
                let s = monitor.stats_for(routine);
                if opcode == 67 {
                    s.isr_count < u64::MAX && latency_us <= u64::MAX - s.isr_total_us
                } else {
                    s.dpc_count < u64::MAX && latency_us <= u64::MAX - s.dpc_total_us
                }
            },
        }
    }

    /// The statistics gathered so far by `monitor`.
    pub fn get_stats(&self, monitor: &LatencyMonitor) -> (r: Vec<(String, LatencyStats)>)
        ensures
            r@.len() == monitor.stats().dom().len(),
            crate::audit::etw::monitor::reports_all(r@, monitor.stats()),
    {
        monitor.get_all_stats()
    }
}

} // verus!
