//! Per-domain sensor conversions and the lazy domain lifecycle.
//!
//! The optional sensor domains (GPU, battery, fans) are probed at most once
//! per process: [`DomainState`] records whether a domain is still unprobed,
//! available, or permanently unavailable. The conversion functions reduce a
//! domain's raw readout — plain values a caller obtained from the machine —
//! to the snapshot field for that domain, applying the fixed defaults and
//! unit conversions; a missing readout simply yields an absent field.

use vstd::prelude::*;
use vstd::seq_lib::lemma_multiset_commutative;
use crate::metrics::{
    AmdGpuMetrics, BatteryMetrics, BatteryState, FanMetric, NvidiaGpuMetrics, ProcessMetric,
    DEFAULT_TEMPERATURE,
};

verus! {

/// The lifecycle of one lazily-probed sensor domain: a domain is probed at
/// most once, and a failed probe disables it for the process lifetime.
#[derive(Clone, Copy, Debug, PartialEq, Eq)]
pub enum DomainState {
    /// The domain has never been probed.
    Uninitialized,
    /// The probe succeeded; readouts may be attempted.
    Available,
    /// The probe failed; the domain stays absent and is never retried.
    Unavailable,
}

/// Where one probe outcome takes a domain: only an unprobed domain moves,
/// and a probed one keeps its verdict forever.
pub open spec fn probe_transition(s: DomainState, ok: bool) -> DomainState {
    match s {
        DomainState::Uninitialized => if ok {
            DomainState::Available
        } else {
            DomainState::Unavailable
        },
        _ => s,
    }
}

impl DomainState {
    /// True exactly when the domain still has to be probed.
    pub fn should_probe(&self) -> (b: bool)
        ensures
            b == (*self is Uninitialized),
    {
        match self {
            DomainState::Uninitialized => true,
            _ => false,
        }
    }

    /// True exactly when readouts may be attempted.
    pub fn is_available(&self) -> (b: bool)
        ensures
            b == (*self is Available),
    {
        match self {
            DomainState::Available => true,
            _ => false,
        }
    }

    /// Records one probe outcome.
    pub fn after_probe(&self, ok: bool) -> (s: DomainState)
        ensures
            s == probe_transition(*self, ok),
    {
        match self {
            DomainState::Uninitialized => if ok {
                DomainState::Available
            } else {
                DomainState::Unavailable
            },
            DomainState::Available => DomainState::Available,
            DomainState::Unavailable => DomainState::Unavailable,
        }
    }
}

/// A probe verdict is permanent: once a domain has left
/// [`DomainState::Uninitialized`], no further probe outcome changes it, so a
/// domain that failed its first probe stays disabled for the process
/// lifetime.
pub proof fn lemma_probe_verdict_permanent(s: DomainState, ok: bool)
    requires
        !(s is Uninitialized),
    ensures
        probe_transition(s, ok) == s,
{
}

/// The probe states of every optional sensor domain, held in one owner and
/// passed to the sampling layer instead of hidden global state.
#[derive(Clone, Copy, Debug, PartialEq, Eq)]
pub struct SensorDomains {
    pub gpu_nvidia: DomainState,
    pub gpu_amd: DomainState,
    pub battery: DomainState,
    pub fans: DomainState,
}

impl SensorDomains {
    /// All domains start unprobed.
    pub fn new() -> (d: SensorDomains)
        ensures
            d.gpu_nvidia is Uninitialized,
            d.gpu_amd is Uninitialized,
            d.battery is Uninitialized,
            d.fans is Uninitialized,
    {
        SensorDomains {
            gpu_nvidia: DomainState::Uninitialized,
            gpu_amd: DomainState::Uninitialized,
            battery: DomainState::Uninitialized,
            fans: DomainState::Uninitialized,
        }
    }
}

/// A raw battery readout: charge in hundredths of a percent, power magnitude
/// in hundredths of a watt, temperature in hundredths of a kelvin, times in
/// whole seconds.
#[derive(Clone, Copy, Debug, PartialEq, Eq)]
pub struct BatteryReadout {
    pub charge: u32,
    pub state: BatteryState,
    pub power: u32,
    pub temperature_kelvin: Option<u32>,
    pub time_to_full_secs: Option<u32>,
    pub time_to_empty_secs: Option<u32>,
}

/// The battery snapshot field one readout yields: the power rate carries a
/// sign (positive only while charging), the temperature moves to degrees
/// Celsius, and each remaining time is kept only in the state it belongs to,
/// converted to hundredths of a minute.
pub open spec fn battery_metrics_spec(r: BatteryReadout) -> BatteryMetrics {
    BatteryMetrics {
        state_of_charge: r.charge,
        state: r.state,
        power_rate: if r.state is Charging {
            r.power as i64
        } else {
            (-(r.power as int)) as i64
        },
        temperature: match r.temperature_kelvin {
            Some(k) => Some((k as int - 27315) as i64),
            None => None,
        },
        time_to_full: if r.state is Charging {
            match r.time_to_full_secs {
                Some(s) => Some(((s as int) * 100 / 60) as u64),
                None => None,
            }
        } else {
            None
        },
        time_to_empty: if r.state is Discharging {
            match r.time_to_empty_secs {
                Some(s) => Some(((s as int) * 100 / 60) as u64),
                None => None,
            }
        } else {
            None
        },
    }
}

/// Reduces a raw battery readout to the battery snapshot field; an absent
/// readout yields an absent field.
pub fn collect_battery_metrics(raw: Option<BatteryReadout>) -> (res: Option<BatteryMetrics>)
    ensures
        res == match raw {
            Some(r) => Some(battery_metrics_spec(r)),
            None => None::<BatteryMetrics>,
        },
{
    let r = match raw {
        Some(r) => r,
        None => {
            return None;
        },
    };
    let charging = match r.state {
        BatteryState::Charging => true,
        _ => false,
    };
    let discharging = match r.state {
        BatteryState::Discharging => true,
        _ => false,
    };
    let power_rate: i64 = if charging {
        r.power as i64
    } else {
        -(r.power as i64)
    };
    let temperature: Option<i64> = match r.temperature_kelvin {
        Some(k) => Some(k as i64 - 27315),
        None => None,
    };
    let time_to_full: Option<u64> = if charging {
        match r.time_to_full_secs {
            Some(s) => Some((s as u64) * 100 / 60),
            None => None,
        }
    } else {
        None
    };
    let time_to_empty: Option<u64> = if discharging {
        match r.time_to_empty_secs {
            Some(s) => Some((s as u64) * 100 / 60),
            None => None,
        }
    } else {
        None
    };
    Some(
        BatteryMetrics {
            state_of_charge: r.charge,
            state: r.state,
            power_rate,
            temperature,
            time_to_full,
            time_to_empty,
        },
    )
}

/// A raw AMD GPU readout: utilization in hundredths of a percent,
/// temperature in hundredths of a degree Celsius, video memory in bytes,
/// power in hundredths of a watt. Absent parts carry the fixed defaults
/// into the snapshot.
#[derive(Clone, Copy, Debug, PartialEq, Eq)]
pub struct AmdReadout {
    pub utilization: Option<u32>,
    pub temperature: Option<i32>,
    pub vram_used: u64,
    pub vram_total: u64,
    pub power: Option<u32>,
}

/// The AMD snapshot field one readout yields: absent utilization reads as
/// zero, absent temperature as the fixed default.
pub open spec fn amd_gpu_metrics_spec(r: AmdReadout) -> AmdGpuMetrics {
    AmdGpuMetrics {
        utilization: match r.utilization {
            Some(u) => u,
            None => 0,
        },
        temperature: match r.temperature {
            Some(t) => t,
            None => DEFAULT_TEMPERATURE,
        },
        memory_used: r.vram_used,
        memory_total: r.vram_total,
        power_draw: r.power,
    }
}

/// Reduces a raw AMD GPU readout to the AMD snapshot field; an absent
/// readout yields an absent field.
pub fn collect_amd_metrics(raw: Option<AmdReadout>) -> (res: Option<AmdGpuMetrics>)
    ensures
        res == match raw {
            Some(r) => Some(amd_gpu_metrics_spec(r)),
            None => None::<AmdGpuMetrics>,
        },
{
    let r = match raw {
        Some(r) => r,
        None => {
            return None;
        },
    };
    let utilization: u32 = match r.utilization {
        Some(u) => u,
        None => 0,
    };
    let temperature: i32 = match r.temperature {
        Some(t) => t,
        None => DEFAULT_TEMPERATURE,
    };
    Some(
        AmdGpuMetrics {
            utilization,
            temperature,
            memory_used: r.vram_used,
            memory_total: r.vram_total,
            power_draw: r.power,
        },
    )
}

/// A raw NVIDIA GPU readout: utilization and fan speed in hundredths of a
/// percent, temperature in hundredths of a degree Celsius, memory as a
/// `(used, total)` byte pair, power in milliwatts.
#[derive(Clone, Copy, Debug, PartialEq, Eq)]
pub struct NvidiaReadout {
    pub utilization: Option<u32>,
    pub temperature: Option<i32>,
    pub memory: Option<(u64, u64)>,
    pub power_milliwatts: Option<u64>,
    pub fan_speed: Option<u32>,
}

/// The NVIDIA snapshot field one readout yields. A readout without memory
/// information yields nothing at all; otherwise absent utilization reads as
/// zero, absent temperature as the fixed default, and the power moves from
/// milliwatts to hundredths of a watt, absent power reading as zero.
pub open spec fn nvidia_gpu_metrics_spec(r: NvidiaReadout) -> Option<NvidiaGpuMetrics> {
    match r.memory {
        None => None,
        Some(mem) => Some(
            NvidiaGpuMetrics {
                utilization: match r.utilization {
                    Some(u) => u,
                    None => 0,
                },
                temperature: match r.temperature {
                    Some(t) => t,
                    None => DEFAULT_TEMPERATURE,
                },
                memory_used: mem.0,
                memory_total: mem.1,
                power_draw: match r.power_milliwatts {
                    Some(mw) => if mw / 10 > u32::MAX as int {
                        u32::MAX
                    } else {
                        (mw / 10) as u32
                    },
                    None => 0,
                },
                fan_speed: r.fan_speed,
            },
        ),
    }
}

/// Reduces a raw NVIDIA GPU readout to the NVIDIA snapshot field; an absent
/// readout, or one without memory information, yields an absent field.
pub fn collect_nvidia_metrics(raw: Option<NvidiaReadout>) -> (res: Option<NvidiaGpuMetrics>)
    ensures
        res == match raw {
            Some(r) => nvidia_gpu_metrics_spec(r),
            None => None::<NvidiaGpuMetrics>,
        },
{
    let r = match raw {
        Some(r) => r,
        None => {
            return None;
        },
    };
    let (memory_used, memory_total) = match r.memory {
        Some(mem) => mem,
        None => {
            return None;
        },
    };
    let utilization: u32 = match r.utilization {
        Some(u) => u,
        None => 0,
    };
    let temperature: i32 = match r.temperature {
        Some(t) => t,
        None => DEFAULT_TEMPERATURE,
    };
    let power_draw: u32 = match r.power_milliwatts {
        Some(mw) => {
            let cw = mw / 10;
            if cw > u32::MAX as u64 {
                u32::MAX
            } else {
                cw as u32
            }
        },
        None => 0,
    };
    Some(
        NvidiaGpuMetrics {
            utilization,
            temperature,
            memory_used,
            memory_total,
            power_draw,
            fan_speed: r.fan_speed,
        },
    )
}

/// One raw fan reading: its optional label and its speed in RPM.
#[derive(Clone, Debug, PartialEq, Eq)]
pub struct FanReading {
    pub label: Option<String>,
    pub rpm: u32,
}

/// The label a fan reading carries into the snapshot: its own, or the fixed
/// placeholder when the sensor reported none.
pub open spec fn fan_label_spec(label: Option<String>) -> Seq<char> {
    match label {
        Some(l) => l@,
        None => "Unknown"@,
    }
}

/// Reduces the raw fan readings to the fan snapshot field: every reading is
/// kept in order with its label (or the fixed placeholder), and no readings
/// at all yield an absent field.
pub fn collect_fan_metrics(readings: Vec<FanReading>) -> (res: Option<Vec<FanMetric>>)
    ensures
        res is Some <==> readings@.len() > 0,
        res matches Some(fans) ==> {
            &&& fans@.len() == readings@.len()
            &&& forall|i: int|
                0 <= i < fans@.len() ==> (#[trigger] fans@[i]).rpm == readings@[i].rpm
                    && fans@[i].label@ == fan_label_spec(readings@[i].label)
        },
{
    if readings.len() == 0 {
        return None;
    }
    let ghost all = readings@;
    let mut remaining = readings;
    let mut fans: Vec<FanMetric> = Vec::new();
    let mut i: usize = 0;
    while remaining.len() > 0
        invariant
            all.len() <= usize::MAX,
            i + remaining@.len() == all.len(),
            remaining@ == all.skip(i as int),
            fans@.len() == i,
            forall|k: int|
                0 <= k < i ==> (#[trigger] fans@[k]).rpm == all[k].rpm && fans@[k].label@
                    == fan_label_spec(all[k].label),
        decreases remaining@.len(),
    {
        let r = remaining.remove(0);
        proof {
            assert(all.skip(i as int)[0] == all[i as int]);
            assert(all.skip(i as int).remove(0) =~= all.skip(i as int + 1));
        }
        let label: String = match r.label {
            Some(l) => l,
            None => "Unknown".to_owned(),
        };
        fans.push(FanMetric { label, rpm: r.rpm });
        i = i + 1;
    }
    Some(fans)
}

/// The busy processes of a full reading: those above a tenth of a percent
/// of CPU, in their original order.
pub open spec fn hot_processes(s: Seq<ProcessMetric>) -> Seq<ProcessMetric> {
    s.filter(|p: ProcessMetric| p.cpu_usage > 10)
}

/// Ordered by CPU share, busiest first.
pub open spec fn sorted_by_cpu_desc(s: Seq<ProcessMetric>) -> bool {
    forall|i: int, j: int| 0 <= i < j < s.len() ==> s[i].cpu_usage >= s[j].cpu_usage
}

/// A count capped to the ranking bound of five.
pub open spec fn capped_len(n: int) -> int {
    if n < 5 {
        n
    } else {
        5
    }
}

/// Inserting an element anywhere in a sequence adds exactly that element to
/// the sequence's multiset.
proof fn lemma_insert_to_multiset(s: Seq<ProcessMetric>, p: int, x: ProcessMetric)
    requires
        0 <= p <= s.len(),
    ensures
        s.insert(p, x).to_multiset() =~= s.to_multiset().insert(x),
{
    broadcast use vstd::seq_lib::group_to_multiset_ensures;
    broadcast use vstd::multiset::group_multiset_axioms;

    let front = s.subrange(0, p);
    let back = s.subrange(p, s.len() as int);
    assert(s.insert(p, x) == front.push(x) + back);
    lemma_multiset_commutative(front.push(x), back);
    assert(front.push(x).to_multiset() =~= front.to_multiset().insert(x));
    assert(s =~= front + back);
    lemma_multiset_commutative(front, back);
}

/// Reduces a full process reading to the per-process ranking: the busy
/// processes ordered busiest first, capped to the five busiest.
///
/// The result is a prefix of some busiest-first ordering of exactly the
/// busy entries, and nothing dropped is busier than anything kept.
#[verifier::loop_isolation(false)]
pub fn collect_top_processes(processes: Vec<ProcessMetric>) -> (res: Vec<ProcessMetric>)
    ensures
        res@.len() == capped_len(hot_processes(processes@).len() as int),
        sorted_by_cpu_desc(res@),
        forall|i: int| 0 <= i < res@.len() ==> (#[trigger] res@[i]).cpu_usage > 10,
        exists|all: Seq<ProcessMetric>|
            sorted_by_cpu_desc(all) && (#[trigger] all.to_multiset()) == hot_processes(
                processes@,
            ).to_multiset() && res@ == all.subrange(0, res@.len() as int),
        forall|k: int|
            0 <= k < processes@.len() && (#[trigger] processes@[k]).cpu_usage > 10 ==> (
            res@.contains(processes@[k]) || (res@.len() == 5 && res@[4].cpu_usage
                >= processes@[k].cpu_usage)),
{
    broadcast use vstd::seq_lib::group_to_multiset_ensures;

    let ghost orig = processes@;
    let mut remaining = processes;
    let total: usize = remaining.len();
    let mut sorted: Vec<ProcessMetric> = Vec::new();
    let mut i: usize = 0;
    while remaining.len() > 0
        invariant
            orig.len() == total,
            i + remaining@.len() == orig.len(),
            remaining@ == orig.skip(i as int),
            sorted_by_cpu_desc(sorted@),
            forall|k: int| 0 <= k < sorted@.len() ==> (#[trigger] sorted@[k]).cpu_usage > 10,
            sorted@.to_multiset() == hot_processes(orig.take(i as int)).to_multiset(),
            sorted@.len() == hot_processes(orig.take(i as int)).len(),
        decreases remaining@.len(),
    {
        let x = remaining.remove(0);
        proof {
            assert(orig.skip(i as int)[0] == orig[i as int]);
            assert(orig.skip(i as int).remove(0) =~= orig.skip(i as int + 1));
            assert(orig.take(i as int + 1).drop_last() =~= orig.take(i as int));
            assert(orig.take(i as int + 1).last() == orig[i as int]);
        }
        proof {
            reveal_with_fuel(Seq::<ProcessMetric>::filter, 2);
        }
        let ghost pre = sorted@;
        if x.cpu_usage > 10 {
            let mut p: usize = 0;
            while p < sorted.len() && sorted[p].cpu_usage >= x.cpu_usage
                invariant
                    p <= sorted@.len(),
                    sorted@ == pre,
                    forall|k: int| 0 <= k < p ==> (#[trigger] sorted@[k]).cpu_usage >= x.cpu_usage,
                decreases sorted@.len() - p,
            {
                p = p + 1;
            }
            sorted.insert(p, x);
            proof {
                lemma_insert_to_multiset(pre, p as int, x);
                pre.insert_ensures(p as int, x);
                assert(hot_processes(orig.take(i as int + 1)) == hot_processes(
                    orig.take(i as int),
                ).push(x));
                assert forall|a: int, b: int|
                    0 <= a < b < sorted@.len() implies (#[trigger] sorted@[a]).cpu_usage >= (
                #[trigger] sorted@[b]).cpu_usage by {
                    if b < p {
                        assert(sorted@[a] == pre[a] && sorted@[b] == pre[b]);
                    } else if a < p && b == p {
                        assert(sorted@[a] == pre[a] && sorted@[b] == x);
                    } else if a < p && b > p {
                        assert(sorted@[a] == pre[a] && sorted@[b] == pre[b - 1]);
                    } else if a == p {
                        assert(sorted@[a] == x && sorted@[b] == pre[b - 1]);
                        assert(p < pre.len() && pre[p as int].cpu_usage < x.cpu_usage);
                        assert(pre[b - 1].cpu_usage <= pre[p as int].cpu_usage);
                    } else {
                        assert(sorted@[a] == pre[a - 1] && sorted@[b] == pre[b - 1]);
                    }
                }
                assert forall|k: int|
                    0 <= k < sorted@.len() implies (#[trigger] sorted@[k]).cpu_usage > 10 by {
                    if k < p {
                        assert(sorted@[k] == pre[k]);
                    } else if k == p {
                        assert(sorted@[k] == x);
                    } else {
                        assert(sorted@[k] == pre[k - 1]);
                    }
                }
            }
        } else {
            proof {
                assert(hot_processes(orig.take(i as int + 1)) == hot_processes(orig.take(i as int)));
            }
        }
        i = i + 1;
    }
    proof {
        assert(orig.take(orig.len() as int) =~= orig);
    }
    let ghost full = sorted@;
    if sorted.len() > 5 {
        sorted.truncate(5);
    }
    proof {
        assert(sorted@ =~= full.subrange(0, sorted@.len() as int));
        assert(sorted@.len() == capped_len(hot_processes(orig).len() as int));
        assert forall|k: int|
            0 <= k < orig.len() && (#[trigger] orig[k]).cpu_usage > 10 implies (sorted@.contains(
            orig[k]) || (sorted@.len() == 5 && sorted@[4].cpu_usage >= orig[k].cpu_usage)) by {
            let x = orig[k];
            orig.lemma_filter_contains(|p: ProcessMetric| p.cpu_usage > 10, k);
            assert(hot_processes(orig).contains(x));
            assert(hot_processes(orig).to_multiset().count(x) > 0);
            assert(full.to_multiset().count(x) > 0);
            assert(full.contains(x));
            let idx = choose|idx: int| 0 <= idx < full.len() && full[idx] == x;
            if idx < sorted@.len() {
                assert(sorted@[idx] == x);
                assert(sorted@.contains(x));
            } else {
                assert(full.len() > sorted@.len());
                assert(sorted@.len() == 5);
                assert(sorted@[4] == full[4]);
                assert(full[4].cpu_usage >= full[idx].cpu_usage);
            }
        }
    }
    sorted
}

} // verus!
