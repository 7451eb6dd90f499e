//! The latency part of the status view: drivers ranked by their longest DPC.
use crate::audit::etw::parser::LatencyStats;
use vstd::multiset::Multiset;
use vstd::prelude::*;

verus! {

broadcast use vstd::seq_lib::group_to_multiset_ensures;

/// How many drivers the status view lists.
pub const TOP_OFFENDERS: usize = 5;

/// The longest DPC of each entry does not increase along `s`.
pub open spec fn dpc_descending(s: Seq<(String, LatencyStats)>) -> bool {
    forall|i: int, j: int| 0 <= i < j < s.len() ==> s[i].1.dpc_max_us >= s[j].1.dpc_max_us
}

/// Inserting `x` at `p` adds `x` to the multiset of `s`.
proof fn lemma_insert_multiset(s: Seq<(String, LatencyStats)>, p: int, x: (String, LatencyStats))
    requires
        0 <= p <= s.len(),
    ensures
        s.insert(p, x).to_multiset() =~= s.to_multiset().insert(x),
{
    let t = s.insert(p, x);
    assert(t.remove(p) =~= s);
    assert(t[p] == x);
    assert(t.remove(p).to_multiset() =~= t.to_multiset().remove(x));
    assert(t.contains(x));
}

/// The entries of `stats`, the longest DPC first.
pub fn rank_by_dpc(stats: Vec<(String, LatencyStats)>) -> (r: Vec<(String, LatencyStats)>)
    ensures
        dpc_descending(r@),
        r@.to_multiset() == stats@.to_multiset(),
{
    let mut rest = stats;
    let mut out: Vec<(String, LatencyStats)> = Vec::new();
    while rest.len() > 0
        invariant
            dpc_descending(out@),
            out@.to_multiset().add(rest@.to_multiset()) == stats@.to_multiset(),
        decreases rest.len(),
    {
        let ghost before = rest@;
        let x = rest.pop().unwrap();
        assert(before =~= rest@.push(x));
        let key = x.1.dpc_max_us;
        let mut p: usize = 0;
        while p < out.len() && out[p].1.dpc_max_us >= key
            invariant
                p <= out@.len(),
                forall|i: int| 0 <= i < p ==> (#[trigger] out@[i]).1.dpc_max_us >= key,
            decreases out.len() - p,
        {
            p = p + 1;
        }
        let ghost prev = out@;
        proof {
            lemma_insert_multiset(prev, p as int, x);
        }
        out.insert(p, x);
        assert(dpc_descending(out@)) by {
            assert forall|i: int, j: int| 0 <= i < j < out@.len() implies out@[i].1.dpc_max_us
                >= out@[j].1.dpc_max_us by {
                if j < p {
                } else if j == p {
                } else if i < p {
                    assert(prev[j - 1].1.dpc_max_us <= prev[i].1.dpc_max_us);
                } else if i == p {
                    assert(prev[p as int].1.dpc_max_us < key);
                    assert(prev[j - 1].1.dpc_max_us <= prev[p as int].1.dpc_max_us);
                } else {
                    assert(prev[j - 1].1.dpc_max_us <= prev[i - 1].1.dpc_max_us);
                }
            }
        }
    }
    assert(rest@.to_multiset() =~= Multiset::empty());
    out
}

/// The drivers that the status view lists: the first [`TOP_OFFENDERS`] of the
/// ranking by longest DPC, that is a prefix of some reordering of `stats`
/// whose longest DPCs do not increase.
pub fn top_offenders(stats: Vec<(String, LatencyStats)>) -> (r: Vec<(String, LatencyStats)>)
    ensures
        r@.len() == if stats@.len() < TOP_OFFENDERS {
            stats@.len()
        } else {
            TOP_OFFENDERS as nat
        },
        dpc_descending(r@),
        exists|p: Seq<(String, LatencyStats)>|
            #![trigger p.to_multiset()]
            p.to_multiset() == stats@.to_multiset() && dpc_descending(p) && r@ == p.take(
                r@.len() as int,
            ),
        forall|i: int| 0 <= i < r@.len() ==> stats@.contains(#[trigger] r@[i]),
        forall|e: (String, LatencyStats)|
            #![trigger stats@.contains(e)]
            r@.len() < stats@.len() && stats@.contains(e) && !r@.contains(e) ==> e.1.dpc_max_us
                <= r@.last().1.dpc_max_us,
{
    let ranked = rank_by_dpc(stats);
    let ghost full = ranked@;
    let mut r = ranked;
    r.truncate(TOP_OFFENDERS);
    proof {
        assert(r@ =~= full.take(r@.len() as int));
        assert(full.to_multiset() == stats@.to_multiset());
        assert(full.len() == full.to_multiset().len());
        assert(stats@.len() == stats@.to_multiset().len());
        assert forall|i: int| 0 <= i < r@.len() implies stats@.contains(#[trigger] r@[i]) by {
            assert(full[i] == r@[i]);
            assert(full.to_multiset().count(full[i]) > 0);
        }
        assert forall|e: (String, LatencyStats)|
            #![trigger stats@.contains(e)]
            r@.len() < stats@.len() && stats@.contains(e) && !r@.contains(e) implies e.1.dpc_max_us
                <= r@.last().1.dpc_max_us by {
            assert(stats@.to_multiset().count(e) > 0);
            assert(full.contains(e));
            let k = choose|k: int| 0 <= k < full.len() && full[k] == e;
            if k < r@.len() {
                assert(r@[k] == e);
            }
            assert(full[r@.len() - 1] == r@.last());
        }
    }
    r
}

/// How a driver's longest DPC is shown.
#[derive(Debug, Clone, Copy, PartialEq, Eq, Structural)]
pub enum LatencyBand {
    /// Over 500 µs: shown in red.
    Severe,
    /// Over 100 µs: shown in yellow.
    Elevated,
    /// Otherwise: shown in green.
    Normal,
}

/// The band of a longest DPC of `dpc_max_us` microseconds.
pub fn latency_band(dpc_max_us: u64) -> (r: LatencyBand)
    ensures
        r == if dpc_max_us > 500 {
            LatencyBand::Severe
        } else if dpc_max_us > 100 {
            LatencyBand::Elevated
        } else {
            LatencyBand::Normal
        },
{
    if dpc_max_us > 500 {
        LatencyBand::Severe
    } else if dpc_max_us > 100 {
        LatencyBand::Elevated
    } else {
        LatencyBand::Normal
    }
}

} // verus!
