//! Per-routine DPC/ISR latency statistics.
use std::collections::HashMap;
use vstd::prelude::*;

use crate::audit::etw::parser::LatencyStats;
use crate::text::{digits, hex_prefixed};

verus! {

broadcast use vstd::std_specs::hash::group_hash_axioms;

/// Latency statistics per kernel routine address.
pub struct LatencyMonitor {
    entries: HashMap<u64, LatencyStats>,
}

/// The statistics of `s` after one DPC of `latency_us` microseconds.
pub open spec fn after_dpc(s: LatencyStats, latency_us: u64) -> LatencyStats {
    LatencyStats {
        dpc_count: (s.dpc_count + 1) as u64,
        dpc_total_us: (s.dpc_total_us + latency_us) as u64,
        dpc_max_us: if latency_us > s.dpc_max_us { latency_us } else { s.dpc_max_us },
        ..s
    }
}

/// The statistics of `s` after one ISR of `latency_us` microseconds.
pub open spec fn after_isr(s: LatencyStats, latency_us: u64) -> LatencyStats {
    LatencyStats {
        isr_count: (s.isr_count + 1) as u64,
        isr_total_us: (s.isr_total_us + latency_us) as u64,
        isr_max_us: if latency_us > s.isr_max_us { latency_us } else { s.isr_max_us },
        ..s
    }
}

/// Statistics with every counter at 0.
pub open spec fn zero_stats() -> LatencyStats {
    LatencyStats {
        dpc_count: 0,
        dpc_total_us: 0,
        dpc_max_us: 0,
        isr_count: 0,
        isr_total_us: 0,
        isr_max_us: 0,
    }
}

/// The statistics recorded for `routine` in `m`, zero when there are none.
pub open spec fn stats_or_zero(m: Map<u64, LatencyStats>, routine: u64) -> LatencyStats {
    if m.contains_key(routine) {
        m[routine]
    } else {
        zero_stats()
    }
}

/// One more DPC for `routine` keeps the counters of `m` within 64 bits.
pub open spec fn dpc_fits(m: Map<u64, LatencyStats>, routine: u64, latency_us: u64) -> bool {
    stats_or_zero(m, routine).dpc_count + 1 <= u64::MAX && stats_or_zero(m, routine).dpc_total_us
        + latency_us <= u64::MAX
}

/// One more ISR for `routine` keeps the counters of `m` within 64 bits.
pub open spec fn isr_fits(m: Map<u64, LatencyStats>, routine: u64, latency_us: u64) -> bool {
    stats_or_zero(m, routine).isr_count + 1 <= u64::MAX && stats_or_zero(m, routine).isr_total_us
        + latency_us <= u64::MAX
}

/// Every entry of `r` is the statistics of a routine of `m` under its key,
/// and every routine of `m` has such an entry.
pub open spec fn reports_all(r: Seq<(String, LatencyStats)>, m: Map<u64, LatencyStats>) -> bool {
    &&& forall|i: int| 0 <= i < r.len() ==> #[trigger] entry_reported(r[i], m)
    &&& forall|k: u64| #[trigger] m.contains_key(k) ==> key_reported(r, m, k)
}

/// `e` is the statistics of a routine of `m` under that routine's key.
pub open spec fn entry_reported(e: (String, LatencyStats), m: Map<u64, LatencyStats>) -> bool {
    exists|k: u64| #[trigger] m.contains_key(k) && e.0@ == routine_key(k) && e.1 == m[k]
}

/// Some entry of `r` is the statistics of `k` in `m` under the key of `k`.
pub open spec fn key_reported(r: Seq<(String, LatencyStats)>, m: Map<u64, LatencyStats>, k: u64) -> bool {
    exists|i: int| 0 <= i < r.len() && #[trigger] r[i].0@ == routine_key(k) && r[i].1 == m[k]
}

/// The larger of the DPC and ISR maxima of `s`.
pub open spec fn peak(s: LatencyStats) -> u64 {
    if s.dpc_max_us >= s.isr_max_us { s.dpc_max_us } else { s.isr_max_us }
}

/// The name under which statistics are reported: the routine address in
/// lowercase hexadecimal with a `0x` prefix.
pub open spec fn routine_key(routine: u64) -> Seq<char> {
    seq!['0', 'x'] + digits(routine as nat, 16, false)
}

impl LatencyMonitor {
    /// The statistics per routine.
    pub closed spec fn stats(&self) -> Map<u64, LatencyStats> {
        self.entries@
    }

    /// A monitor with no statistics.
    pub fn new() -> (r: Self)
        ensures
            r.stats() == Map::<u64, LatencyStats>::empty(),
    {
        LatencyMonitor { entries: HashMap::new() }
    }

    /// The statistics of `routine`, zero when it has none.
    pub fn stats_for(&self, routine: u64) -> (r: LatencyStats)
        ensures
            r == stats_or_zero(self.stats(), routine),
    {
        match self.entries.get(&routine) {
            Some(s) => *s,
            None => LatencyStats::default(),
        }
    }

    /// Records one DPC of `latency_us` microseconds for `routine`.
    pub fn update_dpc(&mut self, routine: u64, latency_us: u64)
        requires
            dpc_fits(old(self).stats(), routine, latency_us),
        ensures
            final(self).stats() == old(self).stats().insert(
                routine,
                after_dpc(stats_or_zero(old(self).stats(), routine), latency_us),
            ),
    {
        let mut entry = self.stats_for(routine);
        entry.dpc_count = entry.dpc_count + 1;
        entry.dpc_total_us = entry.dpc_total_us + latency_us;
        if latency_us > entry.dpc_max_us {
            entry.dpc_max_us = latency_us;
        }
        self.entries.insert(routine, entry);
    }

    /// Records one ISR of `latency_us` microseconds for `routine`.
    pub fn update_isr(&mut self, routine: u64, latency_us: u64)
        requires
            isr_fits(old(self).stats(), routine, latency_us),
        ensures
            final(self).stats() == old(self).stats().insert(
                routine,
                after_isr(stats_or_zero(old(self).stats(), routine), latency_us),
            ),
    {
        let mut entry = self.stats_for(routine);
        entry.isr_count = entry.isr_count + 1;
        entry.isr_total_us = entry.isr_total_us + latency_us;
        if latency_us > entry.isr_max_us {
            entry.isr_max_us = latency_us;
        }
        self.entries.insert(routine, entry);
    }

    /// A copy of the current statistics, each under its routine key, in the
    /// order in which the map hands them out.
    pub fn get_all_stats(&self) -> (r: Vec<(String, LatencyStats)>)
        ensures
            r@.len() == self.stats().dom().len(),
            reports_all(r@, self.stats()),
    {
        let mut r: Vec<(String, LatencyStats)> = Vec::new();
        let ghost all = vstd::std_specs::iter::IteratorSpec::remaining(
            &vstd::std_specs::hash::spec_hash_map_iter(&self.entries),
        );
        for (k, s) in it: self.entries.iter()
            invariant
                it.seq() == all,
                r@.len() == it.index(),
                forall|j: int|
                    0 <= j < it.index() ==> (#[trigger] r@[j]).0@ == routine_key(*all[j].0) && r@[j].1
                        == *all[j].1,
        {
            let key = hex_prefixed(*k);
            proof {
                assert(key@ == routine_key(*k));
            }
            r.push((key, *s));
        }
        proof {
            let m = self.stats();
            let rs = r@;
            assert forall|j: int| 0 <= j < rs.len() implies #[trigger] entry_reported(rs[j], m) by {
                assert(r@[j].0@ == routine_key(*all[j].0));
                assert(m.contains_key(*all[j].0));
            }
            assert forall|k: u64| #[trigger] m.contains_key(k) implies key_reported(rs, m, k) by {
                assert(all.contains((&k, &m[k])));
                let j = choose|j: int| 0 <= j < all.len() && all[j] == (&k, &m[k]);
                assert(r@[j].0@ == routine_key(*all[j].0));
            }
        }
        r
    }

    /// The highest DPC or ISR latency observed, 0 when nothing was observed.
    pub fn get_max_latency(&self) -> (r: u64)
        ensures
            forall|k: u64| #[trigger] self.stats().contains_key(k) ==> peak(self.stats()[k]) <= r,
            r == 0 || exists|k: u64| #[trigger] self.stats().contains_key(k) && peak(self.stats()[k]) == r,
    {
        let mut best: u64 = 0;
        let ghost all = vstd::std_specs::iter::IteratorSpec::remaining(
            &vstd::std_specs::hash::spec_hash_map_iter(&self.entries),
        );
        for (_k, s) in it: self.entries.iter()
            invariant
                it.seq() == all,
                forall|j: int| 0 <= j < it.index() ==> peak(*#[trigger] all[j].1) <= best,
                best == 0 || exists|j: int| 0 <= j < it.index() && peak(*#[trigger] all[j].1) == best,
        {
            let p = if s.dpc_max_us >= s.isr_max_us { s.dpc_max_us } else { s.isr_max_us };
            if p > best {
                best = p;
            }
        }
        proof {
            let m = self.stats();
            assert forall|k: u64| #[trigger] m.contains_key(k) implies peak(m[k]) <= best by {
                assert(all.contains((&k, &m[k])));
                let j = choose|j: int| 0 <= j < all.len() && all[j] == (&k, &m[k]);
                assert(peak(*all[j].1) <= best);
            }
            if best != 0 {
                let j = choose|j: int| 0 <= j < all.len() && peak(*#[trigger] all[j].1) == best;
                assert(m.contains_key(*all[j].0));
            }
        }
        best
    }
}

} // verus!
