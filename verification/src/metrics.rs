//! The telemetry snapshot and its construction.
//!
//! A [`SystemMetrics`] value is one immutable, fully-reduced reading of every
//! telemetry domain. [`MetricsCollector`] turns one raw readout per tick into
//! a snapshot: it keeps the cumulative counters of the previous tick and
//! derives byte-per-second rates from the counter deltas, saturating at zero
//! when a counter resets. [`smooth_samples`] reduces a window of snapshots to
//! one stable snapshot: gauges are averaged, burst rates take their maximum.
//!
//! Units: percentages are hundredths of a percent (`7500` is 75 %),
//! temperatures are hundredths of a degree Celsius, load averages are
//! hundredths, rates are bytes per second.

use vstd::arithmetic::div_mod::{lemma_div_pos_is_pos, lemma_multiply_divide_le};
use vstd::prelude::*;

verus! {

/// The charge state a battery reports.
#[derive(Clone, Copy, Debug, PartialEq, Eq)]
pub enum BatteryState {
    Charging,
    Discharging,
    Full,
    Empty,
    Unknown,
}

/// One NVIDIA GPU reading, already reduced to plain values.
///
/// `utilization` and `fan_speed` are hundredths of a percent, `temperature`
/// hundredths of a degree Celsius, `power_draw` hundredths of a watt,
/// memory in bytes.
#[derive(Clone, Copy, Debug, PartialEq, Eq)]
pub struct NvidiaGpuMetrics {
    pub utilization: u32,
    pub temperature: i32,
    pub memory_used: u64,
    pub memory_total: u64,
    pub power_draw: u32,
    pub fan_speed: Option<u32>,
}

/// One AMD GPU reading, already reduced to plain values (units as for
/// [`NvidiaGpuMetrics`]).
#[derive(Clone, Copy, Debug, PartialEq, Eq)]
pub struct AmdGpuMetrics {
    pub utilization: u32,
    pub temperature: i32,
    pub memory_used: u64,
    pub memory_total: u64,
    pub power_draw: Option<u32>,
}

/// One battery reading.
///
/// `state_of_charge` is hundredths of a percent, `power_rate` hundredths of
/// a watt (positive while charging, negative otherwise), `temperature`
/// hundredths of a degree Celsius, times hundredths of a minute.
#[derive(Clone, Copy, Debug, PartialEq, Eq)]
pub struct BatteryMetrics {
    pub state_of_charge: u32,
    pub state: BatteryState,
    pub power_rate: i64,
    pub temperature: Option<i64>,
    pub time_to_full: Option<u64>,
    pub time_to_empty: Option<u64>,
}

/// One fan: its label and its speed in RPM.
#[derive(Clone, Debug, PartialEq, Eq)]
pub struct FanMetric {
    pub label: String,
    pub rpm: u32,
}

/// One process in the per-process ranking: name, id, CPU share in
/// hundredths of a percent, and resident memory in bytes.
#[derive(Clone, Debug, PartialEq, Eq)]
pub struct ProcessMetric {
    pub name: String,
    pub pid: u32,
    pub cpu_usage: u32,
    pub memory_usage: u64,
}

/// One immutable, fully-reduced reading of all telemetry domains.
#[derive(Clone, Debug, PartialEq)]
pub struct SystemMetrics {
    /// Overall CPU usage, hundredths of a percent.
    pub cpu_usage: u32,
    /// Memory usage, hundredths of a percent.
    pub memory_usage: u32,
    /// Disk read rate, bytes per second.
    pub disk_read_bytes: u64,
    /// Disk write rate, bytes per second.
    pub disk_write_bytes: u64,
    /// Network receive rate, bytes per second.
    pub network_rx_bytes: u64,
    /// Network transmit rate, bytes per second.
    pub network_tx_bytes: u64,
    /// Average temperature, hundredths of a degree Celsius.
    pub temperature: i32,
    pub gpu_nvidia: Option<NvidiaGpuMetrics>,
    pub gpu_amd: Option<AmdGpuMetrics>,
    pub battery: Option<BatteryMetrics>,
    /// Per-core CPU usage, hundredths of a percent, in core order.
    pub per_core_usage: Vec<u32>,
    /// Load averages over 1, 5 and 15 minutes, in hundredths.
    pub load_avg_1: u32,
    pub load_avg_5: u32,
    pub load_avg_15: u32,
    pub swap_used: u64,
    pub swap_total: u64,
    pub process_count: u64,
    /// Busiest processes, ordered by CPU share descending, at most five.
    pub top_processes: Vec<ProcessMetric>,
    pub fan_speeds: Option<Vec<FanMetric>>,
}

/// The temperature reported when no sensor gives a reading (45 °C).
pub const DEFAULT_TEMPERATURE: i32 = 4500;

/// Cumulative byte counters read from the machine at one tick.
#[derive(Clone, Copy, Debug, PartialEq, Eq)]
pub struct CounterTotals {
    pub disk_read: u64,
    pub disk_write: u64,
    pub net_rx: u64,
    pub net_tx: u64,
}

/// The rate a pair of cumulative counter readings yields: zero when the
/// counter moved backwards (a reset or wraparound), otherwise the byte delta
/// scaled to one second, saturating at `u64::MAX`.
pub open spec fn rate_spec(prev: int, curr: int, elapsed_ms: int) -> int {
    if curr >= prev {
        let r = ((curr - prev) * 1000) / elapsed_ms;
        if r > u64::MAX as int {
            u64::MAX as int
        } else {
            r
        }
    } else {
        0
    }
}

/// Computes a bytes-per-second rate from two cumulative counter readings
/// taken `elapsed_ms` milliseconds apart. The result is never negative; a
/// counter that moved backwards yields zero rather than a wrapped value.
pub fn rate_per_sec(prev: u64, curr: u64, elapsed_ms: u64) -> (r: u64)
    requires
        elapsed_ms > 0,
    ensures
        r == rate_spec(prev as int, curr as int, elapsed_ms as int),
{
    if curr < prev {
        0
    } else {
        let scaled: u128 = ((curr - prev) as u128 * 1000) / (elapsed_ms as u128);
        if scaled > u64::MAX as u128 {
            u64::MAX
        } else {
            scaled as u64
        }
    }
}

/// A computed rate is never negative, whatever the counter pair did:
/// a forward-moving counter yields its scaled delta, a backward-moving one
/// yields zero, never a wrapped value.
pub proof fn lemma_rate_nonnegative(prev: int, curr: int, elapsed_ms: int)
    requires
        elapsed_ms > 0,
    ensures
        rate_spec(prev, curr, elapsed_ms) >= 0,
{
    if curr >= prev {
        lemma_div_pos_is_pos((curr - prev) * 1000, elapsed_ms);
        vstd::arithmetic::mul::lemma_mul_nonnegative(curr - prev, 1000);
    }
}

/// Memory usage in hundredths of a percent: `used * 10000 / total`,
/// saturating at `u32::MAX`, and zero when no total is known.
pub open spec fn memory_percent_spec(used: int, total: int) -> int {
    if total == 0 {
        0
    } else {
        let p = (used * 10000) / total;
        if p > u32::MAX as int {
            u32::MAX as int
        } else {
            p
        }
    }
}

/// Computes memory usage in hundredths of a percent from byte counts.
pub fn memory_percent(used: u64, total: u64) -> (p: u32)
    ensures
        p == memory_percent_spec(used as int, total as int),
{
    if total == 0 {
        0
    } else {
        let scaled: u128 = (used as u128 * 10000) / (total as u128);
        if scaled > u32::MAX as u128 {
            u32::MAX
        } else {
            scaled as u32
        }
    }
}

/// Division that truncates toward zero, as the executable code computes it.
pub open spec fn div_toward_zero(a: int, b: int) -> int {
    if a >= 0 {
        a / b
    } else {
        -((-a) / b)
    }
}

/// The sum of a sequence of sensor temperatures.
pub open spec fn temperature_sum(s: Seq<i32>) -> int
    decreases s.len(),
{
    if s.len() == 0 {
        0
    } else {
        temperature_sum(s.drop_last()) + s.last()
    }
}

/// The average of the given sensor temperatures, or the fixed default when
/// no sensor reported anything.
pub open spec fn average_temperature_spec(s: Seq<i32>) -> int {
    if s.len() == 0 {
        DEFAULT_TEMPERATURE as int
    } else {
        div_toward_zero(temperature_sum(s), s.len() as int)
    }
}

/// Averages the reported sensor temperatures; with no readings at all it
/// falls back to the fixed default, so downstream mapping always has a
/// defined input.
pub fn average_temperature(temps: &Vec<i32>) -> (avg: i32)
    ensures
        avg == average_temperature_spec(temps@),
{
    let n: usize = temps.len();
    if n == 0 {
        return DEFAULT_TEMPERATURE;
    }
    let mut sum: i128 = 0;
    let mut i: usize = 0;
    while i < n
        invariant
            i <= n,
            n == temps@.len(),
            sum == temperature_sum(temps@.take(i as int)),
            -((i as int) * 0x8000_0000) <= sum <= (i as int) * 0x7fff_ffff,
        decreases n - i,
    {
        proof {
            assert(temps@.take(i as int + 1).drop_last() =~= temps@.take(i as int));
            assert(temps@.take(i as int + 1).last() == temps@[i as int]);
        }
        sum = sum + temps[i] as i128;
        i = i + 1;
    }
    proof {
        assert(temps@.take(n as int) =~= temps@);
    }
    if sum >= 0 {
        let q: u128 = (sum as u128) / (n as u128);
        proof {
            lemma_multiply_divide_le(sum as int, n as int, 0x7fff_ffff);
        }
        q as i32
    } else {
        let mag: u128 = ((-sum) as u128) / (n as u128);
        proof {
            lemma_multiply_divide_le((-sum) as int, n as int, 0x8000_0000);
        }
        let neg: i64 = -(mag as i64);
        neg as i32
    }
}

/// The rate one counter pair yields within a tick: zero on a zero-length
/// tick, otherwise [`rate_spec`].
pub open spec fn tick_rate_spec(prev: u64, curr: u64, elapsed_ms: u64) -> int {
    if elapsed_ms == 0 {
        0
    } else {
        rate_spec(prev as int, curr as int, elapsed_ms as int)
    }
}

/// Derives snapshots tick by tick; it keeps only the cumulative counters of
/// the previous tick, from which the next tick's rates are computed.
///
/// A collector is single-writer state: callers must serialize access to one
/// instance.
#[derive(Clone, Copy, Debug)]
pub struct MetricsCollector {
    /// The cumulative counters seen at the previous tick, if any.
    pub last_counters: Option<CounterTotals>,
}

/// Everything read from the machine at one tick, as plain values.
#[derive(Clone, Debug)]
pub struct RawSample {
    /// Milliseconds since the previous tick.
    pub elapsed_ms: u64,
    /// Overall CPU usage, hundredths of a percent.
    pub cpu_usage: u32,
    pub mem_used_bytes: u64,
    pub mem_total_bytes: u64,
    /// Cumulative disk and network byte counters.
    pub counters: CounterTotals,
    /// Every temperature a sensor reported, hundredths of a degree Celsius.
    pub temperatures: Vec<i32>,
    pub gpu_nvidia: Option<NvidiaGpuMetrics>,
    pub gpu_amd: Option<AmdGpuMetrics>,
    pub battery: Option<BatteryMetrics>,
    pub per_core_usage: Vec<u32>,
    pub load_avg_1: u32,
    pub load_avg_5: u32,
    pub load_avg_15: u32,
    pub swap_used: u64,
    pub swap_total: u64,
    pub process_count: u64,
    pub top_processes: Vec<ProcessMetric>,
    pub fan_speeds: Option<Vec<FanMetric>>,
}

impl MetricsCollector {
    /// A fresh collector with no previous tick; the first collection yields
    /// zero rates.
    pub fn new() -> (c: MetricsCollector)
        ensures
            c.last_counters is None,
    {
        MetricsCollector { last_counters: None }
    }

    /// Reduces one raw readout to a snapshot.
    ///
    /// Rates come from the delta between the previous tick's cumulative
    /// counters and this tick's; on the very first call, or on a zero-length
    /// tick, all rates are zero. The memory percentage and the temperature
    /// average are derived here; every other field passes through unchanged.
    pub fn collect(&mut self, raw: RawSample) -> (m: SystemMetrics)
        ensures
            final(self).last_counters == Some(raw.counters),
            m.cpu_usage == raw.cpu_usage,
            m.memory_usage == memory_percent_spec(
                raw.mem_used_bytes as int,
                raw.mem_total_bytes as int,
            ),
            m.temperature == average_temperature_spec(raw.temperatures@),
            old(self).last_counters is None ==> {
                &&& m.disk_read_bytes == 0
                &&& m.disk_write_bytes == 0
                &&& m.network_rx_bytes == 0
                &&& m.network_tx_bytes == 0
            },
            old(self).last_counters matches Some(p) ==> {
                &&& m.disk_read_bytes == tick_rate_spec(
                    p.disk_read,
                    raw.counters.disk_read,
                    raw.elapsed_ms,
                )
                &&& m.disk_write_bytes == tick_rate_spec(
                    p.disk_write,
                    raw.counters.disk_write,
                    raw.elapsed_ms,
                )
                &&& m.network_rx_bytes == tick_rate_spec(
                    p.net_rx,
                    raw.counters.net_rx,
                    raw.elapsed_ms,
                )
                &&& m.network_tx_bytes == tick_rate_spec(
                    p.net_tx,
                    raw.counters.net_tx,
                    raw.elapsed_ms,
                )
            },
            m.gpu_nvidia == raw.gpu_nvidia,
            m.gpu_amd == raw.gpu_amd,
            m.battery == raw.battery,
            m.per_core_usage == raw.per_core_usage,
            m.load_avg_1 == raw.load_avg_1,
            m.load_avg_5 == raw.load_avg_5,
            m.load_avg_15 == raw.load_avg_15,
            m.swap_used == raw.swap_used,
            m.swap_total == raw.swap_total,
            m.process_count == raw.process_count,
            m.top_processes == raw.top_processes,
            m.fan_speeds == raw.fan_speeds,
    {
        let (disk_read_bytes, disk_write_bytes, network_rx_bytes, network_tx_bytes) =
            match self.last_counters {
            None => (0u64, 0u64, 0u64, 0u64),
            Some(p) => {
                if raw.elapsed_ms == 0 {
                    (0u64, 0u64, 0u64, 0u64)
                } else {
                    (
                        rate_per_sec(p.disk_read, raw.counters.disk_read, raw.elapsed_ms),
                        rate_per_sec(p.disk_write, raw.counters.disk_write, raw.elapsed_ms),
                        rate_per_sec(p.net_rx, raw.counters.net_rx, raw.elapsed_ms),
                        rate_per_sec(p.net_tx, raw.counters.net_tx, raw.elapsed_ms),
                    )
                }
            },
        };
        let memory_usage = memory_percent(raw.mem_used_bytes, raw.mem_total_bytes);
        let temperature = average_temperature(&raw.temperatures);
        self.last_counters = Some(raw.counters);
        SystemMetrics {
            cpu_usage: raw.cpu_usage,
            memory_usage,
            disk_read_bytes,
            disk_write_bytes,
            network_rx_bytes,
            network_tx_bytes,
            temperature,
            gpu_nvidia: raw.gpu_nvidia,
            gpu_amd: raw.gpu_amd,
            battery: raw.battery,
            per_core_usage: raw.per_core_usage,
            load_avg_1: raw.load_avg_1,
            load_avg_5: raw.load_avg_5,
            load_avg_15: raw.load_avg_15,
            swap_used: raw.swap_used,
            swap_total: raw.swap_total,
            process_count: raw.process_count,
            top_processes: raw.top_processes,
            fan_speeds: raw.fan_speeds,
        }
    }
}

/// The sum of the overall CPU readings of a window of snapshots.
pub open spec fn cpu_sum(s: Seq<SystemMetrics>) -> int
    decreases s.len(),
{
    if s.len() == 0 {
        0
    } else {
        cpu_sum(s.drop_last()) + s.last().cpu_usage
    }
}

/// The sum of the memory readings of a window of snapshots.
pub open spec fn memory_sum(s: Seq<SystemMetrics>) -> int
    decreases s.len(),
{
    if s.len() == 0 {
        0
    } else {
        memory_sum(s.drop_last()) + s.last().memory_usage
    }
}

/// The sum of the temperature readings of a window of snapshots.
pub open spec fn snapshot_temperature_sum(s: Seq<SystemMetrics>) -> int
    decreases s.len(),
{
    if s.len() == 0 {
        0
    } else {
        snapshot_temperature_sum(s.drop_last()) + s.last().temperature
    }
}

/// The largest disk read rate in a window of snapshots (zero when empty).
pub open spec fn disk_read_max(s: Seq<SystemMetrics>) -> int
    decreases s.len(),
{
    if s.len() == 0 {
        0
    } else if s.last().disk_read_bytes >= disk_read_max(s.drop_last()) {
        s.last().disk_read_bytes as int
    } else {
        disk_read_max(s.drop_last())
    }
}

/// The largest disk write rate in a window of snapshots (zero when empty).
pub open spec fn disk_write_max(s: Seq<SystemMetrics>) -> int
    decreases s.len(),
{
    if s.len() == 0 {
        0
    } else if s.last().disk_write_bytes >= disk_write_max(s.drop_last()) {
        s.last().disk_write_bytes as int
    } else {
        disk_write_max(s.drop_last())
    }
}

/// The largest network receive rate in a window of snapshots (zero when
/// empty).
pub open spec fn network_rx_max(s: Seq<SystemMetrics>) -> int
    decreases s.len(),
{
    if s.len() == 0 {
        0
    } else if s.last().network_rx_bytes >= network_rx_max(s.drop_last()) {
        s.last().network_rx_bytes as int
    } else {
        network_rx_max(s.drop_last())
    }
}

/// The largest network transmit rate in a window of snapshots (zero when
/// empty).
pub open spec fn network_tx_max(s: Seq<SystemMetrics>) -> int
    decreases s.len(),
{
    if s.len() == 0 {
        0
    } else if s.last().network_tx_bytes >= network_tx_max(s.drop_last()) {
        s.last().network_tx_bytes as int
    } else {
        network_tx_max(s.drop_last())
    }
}

/// Reduces a window of raw snapshots to one stable snapshot.
///
/// Gauges (CPU, memory, temperature) take the arithmetic mean across the
/// window; burst rates (disk and network) take the maximum, so that short
/// transient spikes survive the reduction. Every other field is carried
/// over from the newest sample. The window itself is consumed and not
/// retained.
pub fn smooth_samples(samples: Vec<SystemMetrics>) -> (m: SystemMetrics)
    requires
        samples@.len() > 0,
    ensures
        m.cpu_usage == cpu_sum(samples@) / samples@.len() as int,
        m.memory_usage == memory_sum(samples@) / samples@.len() as int,
        m.temperature == div_toward_zero(
            snapshot_temperature_sum(samples@),
            samples@.len() as int,
        ),
        m.disk_read_bytes == disk_read_max(samples@),
        m.disk_write_bytes == disk_write_max(samples@),
        m.network_rx_bytes == network_rx_max(samples@),
        m.network_tx_bytes == network_tx_max(samples@),
        m.gpu_nvidia == samples@.last().gpu_nvidia,
        m.gpu_amd == samples@.last().gpu_amd,
        m.battery == samples@.last().battery,
        m.per_core_usage == samples@.last().per_core_usage,
        m.load_avg_1 == samples@.last().load_avg_1,
        m.load_avg_5 == samples@.last().load_avg_5,
        m.load_avg_15 == samples@.last().load_avg_15,
        m.swap_used == samples@.last().swap_used,
        m.swap_total == samples@.last().swap_total,
        m.process_count == samples@.last().process_count,
        m.top_processes == samples@.last().top_processes,
        m.fan_speeds == samples@.last().fan_speeds,
{
    let ghost all = samples@;
    let n: usize = samples.len();
    let mut cpu_total: u128 = 0;
    let mut mem_total: u128 = 0;
    let mut temp_total: i128 = 0;
    let mut dr_max: u64 = 0;
    let mut dw_max: u64 = 0;
    let mut rx_max: u64 = 0;
    let mut tx_max: u64 = 0;
    let mut i: usize = 0;
    while i < n
        invariant
            i <= n,
            n == all.len(),
            samples@ == all,
            cpu_total == cpu_sum(all.take(i as int)),
            mem_total == memory_sum(all.take(i as int)),
            temp_total == snapshot_temperature_sum(all.take(i as int)),
            0 <= cpu_total <= (i as int) * 0xffff_ffff,
            0 <= mem_total <= (i as int) * 0xffff_ffff,
            -((i as int) * 0x8000_0000) <= temp_total <= (i as int) * 0x7fff_ffff,
            dr_max == disk_read_max(all.take(i as int)),
            dw_max == disk_write_max(all.take(i as int)),
            rx_max == network_rx_max(all.take(i as int)),
            tx_max == network_tx_max(all.take(i as int)),
        decreases n - i,
    {
        proof {
            assert(all.take(i as int + 1).drop_last() =~= all.take(i as int));
            assert(all.take(i as int + 1).last() == all[i as int]);
        }
        let s = &samples[i];
        cpu_total = cpu_total + s.cpu_usage as u128;
        mem_total = mem_total + s.memory_usage as u128;
        temp_total = temp_total + s.temperature as i128;
        if s.disk_read_bytes > dr_max {
            dr_max = s.disk_read_bytes;
        }
        if s.disk_write_bytes > dw_max {
            dw_max = s.disk_write_bytes;
        }
        if s.network_rx_bytes > rx_max {
            rx_max = s.network_rx_bytes;
        }
        if s.network_tx_bytes > tx_max {
            tx_max = s.network_tx_bytes;
        }
        i = i + 1;
    }
    proof {
        assert(all.take(n as int) =~= all);
    }
    let cpu_usage_avg: u128 = cpu_total / (n as u128);
    let mem_usage_avg: u128 = mem_total / (n as u128);
    proof {
        lemma_multiply_divide_le(cpu_total as int, n as int, 0xffff_ffff);
        lemma_multiply_divide_le(mem_total as int, n as int, 0xffff_ffff);
    }
    let temperature: i32 = if temp_total >= 0 {
        let q: u128 = (temp_total as u128) / (n as u128);
        proof {
            lemma_multiply_divide_le(temp_total as int, n as int, 0x7fff_ffff);
        }
        q as i32
    } else {
        let mag: u128 = ((-temp_total) as u128) / (n as u128);
        proof {
            lemma_multiply_divide_le((-temp_total) as int, n as int, 0x8000_0000);
        }
        let neg: i64 = -(mag as i64);
        neg as i32
    };
    let mut rest = samples;
    let last = rest.pop().unwrap();
    SystemMetrics {
        cpu_usage: cpu_usage_avg as u32,
        memory_usage: mem_usage_avg as u32,
        disk_read_bytes: dr_max,
        disk_write_bytes: dw_max,
        network_rx_bytes: rx_max,
        network_tx_bytes: tx_max,
        temperature,
        gpu_nvidia: last.gpu_nvidia,
        gpu_amd: last.gpu_amd,
        battery: last.battery,
        per_core_usage: last.per_core_usage,
        load_avg_1: last.load_avg_1,
        load_avg_5: last.load_avg_5,
        load_avg_15: last.load_avg_15,
        swap_used: last.swap_used,
        swap_total: last.swap_total,
        process_count: last.process_count,
        top_processes: last.top_processes,
        fan_speeds: last.fan_speeds,
    }
}

} // verus!
