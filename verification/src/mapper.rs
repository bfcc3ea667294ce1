//! The snapshot-to-music mapping.
//!
//! [`MetricsMapper::map`] is a pure function from one snapshot to one
//! [`MusicalParams`] value: the same snapshot always yields the same
//! parameters, bit for bit. Every mapping is one of a handful of shapes —
//! scale quantization, threshold ladders, strict-boundary branches, and
//! clamped linear remaps — and each shape has its spec function here, which
//! the executable code is proved to match exactly.
//!
//! Units: inputs follow [`crate::metrics::SystemMetrics`]; unit-interval
//! outputs (densities, mix levels, intensities) are thousandths, pitches and
//! rates hundredths of a hertz, tempo hundredths of a BPM.

use vstd::prelude::*;
use crate::metrics::{
    AmdGpuMetrics, BatteryMetrics, FanMetric, NvidiaGpuMetrics, ProcessMetric, SystemMetrics,
};
use crate::scales::{
    dorian, dorian_vec, minor_pentatonic, minor_pentatonic_vec, process_scale, process_scale_vec,
    A2, E3,
};

verus! {

/// The mid bass note (165.00 Hz): the low bass raised a perfect fifth.
pub const MID_BASS: u32 = 16500;

/// Clamps a thousandths value into the unit interval.
pub open spec fn clamp_milli(x: int) -> int {
    if x < 0 {
        0
    } else if x > 1000 {
        1000
    } else {
        x
    }
}

// --- CPU usage -> melody pitch ---

/// Scale quantization: CPU share (hundredths of a percent) to an index into
/// the thirteen-step melody scale, clamped at the top step.
pub open spec fn scale_index_spec(cpu: int) -> int {
    let raw = (cpu * 12) / 10000;
    if raw > 12 {
        12
    } else {
        raw
    }
}

/// The fixed four-note contour around one scale index: the index itself,
/// its lower neighbour, the step two above, and the index again, each
/// clamped to the scale.
pub open spec fn melody_notes_spec(idx: int) -> Seq<u32> {
    let s = minor_pentatonic();
    seq![
        s[idx],
        s[if idx > 0 { idx - 1 } else { 0 }],
        s[if idx + 2 <= 12 { idx + 2 } else { 12 }],
        s[idx],
    ]
}

// --- memory -> bass ---

/// Branch mapping from memory share to the bass note. The boundaries are
/// strict: exactly 75 % still takes the mid note, exactly 50 % the high
/// note.
pub open spec fn bass_note_spec(mem: int) -> u32 {
    if mem > 7500 {
        A2
    } else if mem > 5000 {
        MID_BASS
    } else {
        E3
    }
}

/// Bass velocity: the memory share as a unit fraction, clamped into
/// [0.3, 1.0] (in thousandths).
pub open spec fn bass_velocity_spec(mem: int) -> int {
    let v = mem / 10;
    if v < 300 {
        300
    } else if v > 1000 {
        1000
    } else {
        v
    }
}

// --- disk I/O -> rhythm ---

/// Rhythm density: total disk throughput normalized so that 10 MB/s is
/// full density (thousandths, clamped).
pub open spec fn io_density_spec(read: int, write: int) -> int {
    let t = (read + write) / 10000;
    if t > 1000 {
        1000
    } else {
        t
    }
}

/// The kick positions the density ladder alone yields, in the sixteen-slot
/// grid: a four-on-the-floor base, two extra hits above density 0.3, and
/// four more above 0.8. Each threshold is additive and the result is sorted
/// and duplicate-free by construction.
pub open spec fn kick_base_spec(density: int) -> Seq<usize> {
    if density > 800 {
        seq![0usize, 1, 2, 3, 4, 8, 9, 10, 11, 12]
    } else if density > 300 {
        seq![0usize, 2, 4, 8, 10, 12]
    } else {
        seq![0usize, 4, 8, 12]
    }
}

/// The snare positions the density ladder alone yields: a backbeat base
/// and two extra hits above density 0.6.
pub open spec fn snare_base_spec(density: int) -> Seq<usize> {
    if density > 600 {
        seq![4usize, 6, 12, 14]
    } else {
        seq![4usize, 12]
    }
}

/// The full kick set: the ladder positions, plus the final slot exactly
/// when reads outweigh writes.
pub open spec fn kick_hits_spec(density: int, read: int, write: int) -> Seq<usize> {
    if read > write {
        kick_base_spec(density).push(15)
    } else {
        kick_base_spec(density)
    }
}

/// The full snare set: the ladder positions, plus the final slot exactly
/// when writes outweigh reads.
pub open spec fn snare_hits_spec(density: int, read: int, write: int) -> Seq<usize> {
    if write > read {
        snare_base_spec(density).push(15)
    } else {
        snare_base_spec(density)
    }
}

// --- network -> tempo ---

/// Network throughput normalized so that 5 MB/s is full modulation
/// (thousandths, clamped).
pub open spec fn network_norm_spec(rx: int, tx: int) -> int {
    let t = (rx + tx) / 5000;
    if t > 1000 {
        1000
    } else {
        t
    }
}

/// Tempo: 90 BPM base, modulated up to 130 BPM by network throughput
/// (hundredths of a BPM).
pub open spec fn tempo_spec(rx: int, tx: int) -> int {
    9000 + 4 * network_norm_spec(rx, tx)
}

// --- temperature -> filter and reverb ---

/// Temperature normalized over the 30–70 °C span (thousandths, clamped).
pub open spec fn temp_norm_spec(t: int) -> int {
    if t <= 3000 {
        0
    } else {
        let n = (t - 3000) / 4;
        if n > 1000 {
            1000
        } else {
            n
        }
    }
}

/// Filter cutoff: 400 Hz when cool, up to 3000 Hz when hot (hundredths of
/// a hertz).
pub open spec fn filter_cutoff_spec(t: int) -> int {
    40000 + 260 * temp_norm_spec(t)
}

/// Reverb mix: up to half wet when hot (thousandths).
pub open spec fn reverb_mix_spec(t: int) -> int {
    temp_norm_spec(t) / 2
}

// --- GPU -> separate voice and effects ---

/// The one GPU signal the mapper listens to, after vendor precedence has
/// been resolved.
#[derive(Clone, Copy, Debug, PartialEq, Eq)]
pub enum GpuReading {
    Absent,
    Nvidia(NvidiaGpuMetrics),
    Amd(AmdGpuMetrics),
}

/// The priority rule over the vendor readings: when both are present,
/// NVIDIA wins.
pub open spec fn gpu_reading_spec(m: SystemMetrics) -> GpuReading {
    match m.gpu_nvidia {
        Some(g) => GpuReading::Nvidia(g),
        None => match m.gpu_amd {
            Some(a) => GpuReading::Amd(a),
            None => GpuReading::Absent,
        },
    }
}

/// Resolves the snapshot's GPU readings to the one signal the mapper uses.
pub fn resolve_gpu(metrics: &SystemMetrics) -> (r: GpuReading)
    ensures
        r == gpu_reading_spec(*metrics),
{
    match metrics.gpu_nvidia {
        Some(g) => GpuReading::Nvidia(g),
        None => match metrics.gpu_amd {
            Some(a) => GpuReading::Amd(a),
            None => GpuReading::Absent,
        },
    }
}

/// The effective GPU utilization, zero with no GPU at all (hundredths of a
/// percent).
pub open spec fn gpu_util_spec(m: SystemMetrics) -> int {
    match gpu_reading_spec(m) {
        GpuReading::Nvidia(g) => g.utilization as int,
        GpuReading::Amd(a) => a.utilization as int,
        GpuReading::Absent => 0,
    }
}

/// The effective GPU temperature, defaulting to 45 °C (hundredths of a
/// degree).
pub open spec fn gpu_temp_spec(m: SystemMetrics) -> int {
    match gpu_reading_spec(m) {
        GpuReading::Nvidia(g) => g.temperature as int,
        GpuReading::Amd(a) => a.temperature as int,
        GpuReading::Absent => 4500,
    }
}

/// The effective used GPU memory, zero without a GPU.
pub open spec fn gpu_mem_used_spec(m: SystemMetrics) -> int {
    match gpu_reading_spec(m) {
        GpuReading::Nvidia(g) => g.memory_used as int,
        GpuReading::Amd(a) => a.memory_used as int,
        GpuReading::Absent => 0,
    }
}

/// The effective total GPU memory; one byte without a GPU, so the ratio
/// stays defined.
pub open spec fn gpu_mem_total_spec(m: SystemMetrics) -> int {
    match gpu_reading_spec(m) {
        GpuReading::Nvidia(g) => g.memory_total as int,
        GpuReading::Amd(a) => a.memory_total as int,
        GpuReading::Absent => 1,
    }
}

/// Whether the GPU voice is suppressed entirely: utilization under a tenth
/// of a percent and no memory in use.
pub open spec fn gpu_suppressed_spec(m: SystemMetrics) -> bool {
    gpu_util_spec(m) < 10 && gpu_mem_used_spec(m) == 0
}

/// Scale quantization of GPU utilization into the ten-step dorian scale.
pub open spec fn gpu_scale_index_spec(util: int) -> int {
    let raw = (util * 9) / 10000;
    if raw > 9 {
        9
    } else {
        raw
    }
}

/// The four-note GPU contour: the index, the step two above, the lower
/// neighbour, and the index again, each clamped to the scale.
pub open spec fn gpu_notes_spec(util: int) -> Seq<u32> {
    let s = dorian();
    let i = gpu_scale_index_spec(util);
    seq![
        s[i],
        s[if i + 2 <= 9 { i + 2 } else { 9 }],
        s[if i > 0 { i - 1 } else { 0 }],
        s[i],
    ]
}

/// The GPU voice, absent when suppressed.
pub open spec fn gpu_notes_opt_spec(m: SystemMetrics) -> Option<Seq<u32>> {
    if gpu_suppressed_spec(m) {
        None
    } else {
        Some(gpu_notes_spec(gpu_util_spec(m)))
    }
}

/// GPU voice intensity: the utilization as a clamped unit fraction, zero
/// when suppressed (thousandths).
pub open spec fn gpu_intensity_spec(m: SystemMetrics) -> int {
    if gpu_suppressed_spec(m) {
        0
    } else {
        clamp_milli(gpu_util_spec(m) / 10)
    }
}

/// GPU temperature normalized over the 40–80 °C span (thousandths,
/// clamped).
pub open spec fn gpu_temp_norm_spec(t: int) -> int {
    if t <= 4000 {
        0
    } else {
        let n = (t - 4000) / 4;
        if n > 1000 {
            1000
        } else {
            n
        }
    }
}

/// Chorus depth: up to three tenths, driven by GPU temperature, zero when
/// the voice is suppressed (thousandths).
pub open spec fn gpu_chorus_spec(m: SystemMetrics) -> int {
    if gpu_suppressed_spec(m) {
        0
    } else {
        (gpu_temp_norm_spec(gpu_temp_spec(m)) * 3) / 10
    }
}

/// Flanger rate: 0.5 Hz up to 3 Hz, driven by GPU temperature, zero when
/// the voice is suppressed (hundredths of a hertz).
pub open spec fn gpu_flanger_spec(m: SystemMetrics) -> int {
    if gpu_suppressed_spec(m) {
        0
    } else {
        50 + gpu_temp_norm_spec(gpu_temp_spec(m)) / 4
    }
}

/// Reverb room size from the used share of GPU memory, zero when the voice
/// is suppressed (thousandths, clamped).
pub open spec fn vram_reverb_spec(m: SystemMetrics) -> int {
    if gpu_suppressed_spec(m) {
        0
    } else {
        let used = gpu_mem_used_spec(m);
        let total = gpu_mem_total_spec(m);
        if total == 0 {
            0
        } else if used >= total {
            1000
        } else {
            (used * 1000) / total
        }
    }
}

// --- load averages -> polyrhythm and voices ---

/// Polyrhythm factor: how far the 1-minute load runs ahead of the
/// 15-minute load, normalized over a spread of four (thousandths, clamped).
pub open spec fn polyrhythm_spec(l1: int, l15: int) -> int {
    if l1 <= l15 {
        0
    } else {
        let d = ((l1 - l15) * 5) / 2;
        if d > 1000 {
            1000
        } else {
            d
        }
    }
}

/// Harmonic voice count from the sustained (5-minute) load: one voice at
/// rest, up to four under heavy load.
pub open spec fn harmonic_voices_spec(l5: int) -> int {
    if l5 < 100 {
        1
    } else if l5 < 300 {
        2
    } else if l5 < 600 {
        3
    } else {
        4
    }
}

// --- swap -> distortion ---

/// Bass distortion from the used share of swap: gentle below one fifth
/// used, aggressive above (thousandths, clamped). With no swap configured
/// there is no distortion.
pub open spec fn swap_distortion_spec(used: int, total: int) -> int {
    if total == 0 {
        0
    } else {
        let praw = (used * 10000) / total;
        let p = if praw > 10000 {
            10000
        } else {
            praw
        };
        if p < 2000 {
            p / 10
        } else {
            200 + (p - 2000) / 10
        }
    }
}

// --- battery -> dynamics and tonality ---

/// Volume multiplier from the state of charge: half volume when empty,
/// full when full; without a battery, full volume (thousandths).
pub open spec fn battery_volume_spec(b: Option<BatteryMetrics>) -> int {
    match b {
        None => 1000,
        Some(bb) => 500 + (bb.state_of_charge as int) / 20,
    }
}

/// Tonality bias from the charge state, brighter while charging and darker
/// the emptier a discharging battery runs; without a battery, neutral
/// (thousandths, negative toward minor).
pub open spec fn battery_tonality_spec(b: Option<BatteryMetrics>) -> int {
    match b {
        None => 0,
        Some(bb) => match bb.state {
            crate::metrics::BatteryState::Charging => 300,
            crate::metrics::BatteryState::Discharging => if (bb.state_of_charge as int) < 2000 {
                -700
            } else {
                -300
            },
            crate::metrics::BatteryState::Full => 500,
            crate::metrics::BatteryState::Empty => -1000,
            crate::metrics::BatteryState::Unknown => 0,
        },
    }
}

// --- per-core usage -> rhythmic patterns ---

/// The rhythmic pattern one core yields: sparser at low usage, a full
/// off-grid sixteenth pattern when the core runs hot; the core index
/// offsets the pattern for variety.
pub open spec fn core_pattern_spec(idx: int, usage: int) -> Seq<usize> {
    let offset = idx % 4;
    if usage < 2000 {
        seq![(offset * 4) as usize]
    } else if usage < 5000 {
        seq![(offset * 4) as usize, ((offset * 4 + 8) % 16) as usize]
    } else if usage < 8000 {
        seq![
            (offset * 4) as usize,
            ((offset * 4 + 4) % 16) as usize,
            ((offset * 4 + 8) % 16) as usize,
            ((offset * 4 + 12) % 16) as usize,
        ]
    } else {
        seq![
            (offset % 2) as usize,
            (offset % 2 + 2) as usize,
            (offset % 2 + 4) as usize,
            (offset % 2 + 6) as usize,
            (offset % 2 + 8) as usize,
            (offset % 2 + 10) as usize,
            (offset % 2 + 12) as usize,
            (offset % 2 + 14) as usize,
        ]
    }
}

/// The per-core patterns, one for each of the first four cores.
pub open spec fn core_patterns_spec(cores: Seq<u32>) -> Seq<Seq<usize>> {
    Seq::new(
        if cores.len() < 4 {
            cores.len()
        } else {
            4
        },
        |i: int| core_pattern_spec(i, cores[i] as int),
    )
}

// --- process count -> hi-hat density ---

/// Hi-hat density from the process count, normalized over the typical
/// 50–300 range (thousandths, clamped).
pub open spec fn hihat_density_spec(count: int) -> int {
    if count <= 50 {
        0
    } else {
        let v = (count - 50) * 4;
        if v > 1000 {
            1000
        } else {
            v
        }
    }
}

/// The hi-hat positions that density buys in the sixteen-slot grid:
/// sparse, every eighth note, or every sixteenth.
pub open spec fn hihat_hits_spec(density: int) -> Seq<usize> {
    if density < 300 {
        seq![0usize, 4, 8, 12]
    } else if density < 700 {
        seq![0usize, 2, 4, 6, 8, 10, 12, 14]
    } else {
        seq![0usize, 1, 2, 3, 4, 5, 6, 7, 8, 9, 10, 11, 12, 13, 14, 15]
    }
}

// --- top processes -> mini-melodies ---

/// Scale quantization of a process's CPU share (clamped to one whole CPU)
/// into the five-step high-register scale.
pub open spec fn process_note_index_spec(cpu: int) -> int {
    let c = if cpu > 10000 {
        10000
    } else {
        cpu
    };
    (c * 4) / 10000
}

/// The two-note phrase one process yields: its index and the step two
/// above, clamped to the scale.
pub open spec fn process_melody_spec(cpu: int) -> Seq<u32> {
    let s = process_scale();
    let i = process_note_index_spec(cpu);
    seq![s[i], s[if i + 2 <= 4 { i + 2 } else { 4 }]]
}

/// The mini-melodies of the first three ranked processes, each phrase
/// paired with the process name.
pub open spec fn process_melodies_spec(top: Seq<ProcessMetric>) -> Seq<(Seq<char>, Seq<u32>)> {
    Seq::new(
        if top.len() < 3 {
            top.len()
        } else {
            3
        },
        |i: int| (top[i].name@, process_melody_spec(top[i].cpu_usage as int)),
    )
}

// --- fans -> ambience ---

/// The sum of the fan speeds, in RPM.
pub open spec fn rpm_sum_spec(fans: Seq<FanMetric>) -> int
    decreases fans.len(),
{
    if fans.len() == 0 {
        0
    } else {
        rpm_sum_spec(fans.drop_last()) + fans.last().rpm
    }
}

/// Ambient noise level from the mean fan speed, normalized over the
/// typical 500–3000 RPM range; zero with no fan data (thousandths,
/// clamped). The mean is carried in hundredths of an RPM.
pub open spec fn fan_noise_spec(fans: Option<Vec<FanMetric>>) -> int {
    match fans {
        None => 0,
        Some(v) => if v@.len() == 0 {
            0
        } else {
            let avg = (rpm_sum_spec(v@) * 100) / v@.len() as int;
            if avg <= 50000 {
                0
            } else {
                let n = (avg - 50000) / 250;
                if n > 1000 {
                    1000
                } else {
                    n
                }
            }
        },
    }
}

// --- the derived parameter set ---

/// The bass distortion the composition applies: three tenths of the bass
/// velocity plus four tenths of the swap distortion (thousandths).
pub open spec fn bass_distortion_spec(velocity: int, swap: int) -> int {
    (velocity * 3 + swap * 4) / 10
}

/// The musical parameter set one snapshot yields. Immutable; derived
/// solely from the snapshot by [`MetricsMapper::map`].
#[derive(Clone, Debug, PartialEq)]
pub struct MusicalParams {
    /// The four-note melody contour (hundredths of a hertz).
    pub melody_notes: Vec<u32>,
    /// The bass note (hundredths of a hertz).
    pub bass_note: u32,
    /// Bass velocity (thousandths).
    pub bass_velocity: u32,
    /// Percussion density (thousandths).
    pub rhythm_density: u32,
    /// Tempo (hundredths of a BPM).
    pub tempo: u32,
    /// Filter cutoff (hundredths of a hertz).
    pub filter_cutoff: u32,
    /// Reverb mix (thousandths).
    pub reverb_mix: u32,
    /// Kick positions in the sixteen-slot grid, sorted, duplicate-free.
    pub kick_hits: Vec<usize>,
    /// Snare positions in the sixteen-slot grid, sorted, duplicate-free.
    pub snare_hits: Vec<usize>,
    /// The GPU voice, absent when the GPU is idle or missing.
    pub gpu_notes: Option<Vec<u32>>,
    /// GPU voice intensity (thousandths).
    pub gpu_intensity: u32,
    /// Chorus depth on the GPU voice (thousandths).
    pub gpu_chorus_depth: u32,
    /// Flanger rate on the GPU voice (hundredths of a hertz).
    pub gpu_flanger_rate: u32,
    /// Reverb room size from used GPU memory (thousandths).
    pub vram_reverb_size: u32,
    /// Polyrhythm factor from the load trend (thousandths).
    pub rhythm_polyrhythm_factor: u32,
    /// Number of harmonic voices, one to four.
    pub harmonic_voices: usize,
    /// Bass distortion from swap pressure (thousandths).
    pub swap_distortion: u32,
    /// Volume multiplier from the battery charge (thousandths).
    pub battery_volume_mult: u32,
    /// Tonality bias, minor negative to major positive (thousandths).
    pub battery_tonality: i32,
    /// One rhythmic pattern per mapped core.
    pub core_patterns: Vec<Vec<usize>>,
    /// Hi-hat density from the process count (thousandths).
    pub hihat_density: u32,
    /// Name and two-note phrase of each ranked process.
    pub process_melodies: Vec<(String, Vec<u32>)>,
    /// Ambient noise level from the fans (thousandths).
    pub fan_noise_level: u32,
}

/// The mathematical value of a [`MusicalParams`]: every vector as a
/// sequence, every name as its characters.
#[verifier::ext_equal]
pub ghost struct MusicalParamsV {
    pub melody_notes: Seq<u32>,
    pub bass_note: u32,
    pub bass_velocity: u32,
    pub rhythm_density: u32,
    pub tempo: u32,
    pub filter_cutoff: u32,
    pub reverb_mix: u32,
    pub kick_hits: Seq<usize>,
    pub snare_hits: Seq<usize>,
    pub gpu_notes: Option<Seq<u32>>,
    pub gpu_intensity: u32,
    pub gpu_chorus_depth: u32,
    pub gpu_flanger_rate: u32,
    pub vram_reverb_size: u32,
    pub rhythm_polyrhythm_factor: u32,
    pub harmonic_voices: usize,
    pub swap_distortion: u32,
    pub battery_volume_mult: u32,
    pub battery_tonality: i32,
    pub core_patterns: Seq<Seq<usize>>,
    pub hihat_density: u32,
    pub process_melodies: Seq<(Seq<char>, Seq<u32>)>,
    pub fan_noise_level: u32,
}

impl View for MusicalParams {
    type V = MusicalParamsV;

    open spec fn view(&self) -> MusicalParamsV {
        MusicalParamsV {
            melody_notes: self.melody_notes@,
            bass_note: self.bass_note,
            bass_velocity: self.bass_velocity,
            rhythm_density: self.rhythm_density,
            tempo: self.tempo,
            filter_cutoff: self.filter_cutoff,
            reverb_mix: self.reverb_mix,
            kick_hits: self.kick_hits@,
            snare_hits: self.snare_hits@,
            gpu_notes: match self.gpu_notes {
                Some(v) => Some(v@),
                None => None,
            },
            gpu_intensity: self.gpu_intensity,
            gpu_chorus_depth: self.gpu_chorus_depth,
            gpu_flanger_rate: self.gpu_flanger_rate,
            vram_reverb_size: self.vram_reverb_size,
            rhythm_polyrhythm_factor: self.rhythm_polyrhythm_factor,
            harmonic_voices: self.harmonic_voices,
            swap_distortion: self.swap_distortion,
            battery_volume_mult: self.battery_volume_mult,
            battery_tonality: self.battery_tonality,
            core_patterns: self.core_patterns@.map_values(|p: Vec<usize>| p@),
            hihat_density: self.hihat_density,
            process_melodies: self.process_melodies@.map_values(
                |pm: (String, Vec<u32>)| (pm.0@, pm.1@),
            ),
            fan_noise_level: self.fan_noise_level,
        }
    }
}

/// What one snapshot maps to. Referentially transparent: the whole
/// parameter set is a function of the snapshot value and nothing else.
pub open spec fn map_spec(m: SystemMetrics) -> MusicalParamsV {
    let density = io_density_spec(m.disk_read_bytes as int, m.disk_write_bytes as int);
    MusicalParamsV {
        melody_notes: melody_notes_spec(scale_index_spec(m.cpu_usage as int)),
        bass_note: bass_note_spec(m.memory_usage as int),
        bass_velocity: bass_velocity_spec(m.memory_usage as int) as u32,
        rhythm_density: density as u32,
        tempo: tempo_spec(m.network_rx_bytes as int, m.network_tx_bytes as int) as u32,
        filter_cutoff: filter_cutoff_spec(m.temperature as int) as u32,
        reverb_mix: reverb_mix_spec(m.temperature as int) as u32,
        kick_hits: kick_hits_spec(density, m.disk_read_bytes as int, m.disk_write_bytes as int),
        snare_hits: snare_hits_spec(density, m.disk_read_bytes as int, m.disk_write_bytes as int),
        gpu_notes: gpu_notes_opt_spec(m),
        gpu_intensity: gpu_intensity_spec(m) as u32,
        gpu_chorus_depth: gpu_chorus_spec(m) as u32,
        gpu_flanger_rate: gpu_flanger_spec(m) as u32,
        vram_reverb_size: vram_reverb_spec(m) as u32,
        rhythm_polyrhythm_factor: polyrhythm_spec(
            m.load_avg_1 as int,
            m.load_avg_15 as int,
        ) as u32,
        harmonic_voices: harmonic_voices_spec(m.load_avg_5 as int) as usize,
        swap_distortion: swap_distortion_spec(m.swap_used as int, m.swap_total as int) as u32,
        battery_volume_mult: battery_volume_spec(m.battery) as u32,
        battery_tonality: battery_tonality_spec(m.battery) as i32,
        core_patterns: core_patterns_spec(m.per_core_usage@),
        hihat_density: hihat_density_spec(m.process_count as int) as u32,
        process_melodies: process_melodies_spec(m.top_processes@),
        fan_noise_level: fan_noise_spec(m.fan_speeds) as u32,
    }
}

/// Derives musical parameters from snapshots against the fixed musical
/// constants: the 90 BPM base tempo and the melody scale.
pub struct MetricsMapper {
    base_tempo: u32,
    scale: Vec<u32>,
}

impl MetricsMapper {
    /// A mapper holds exactly the fixed musical constants.
    pub closed spec fn wf(&self) -> bool {
        self.base_tempo == 9000 && self.scale@ == minor_pentatonic()
    }

    /// Builds the mapper with the fixed base tempo and melody scale.
    pub fn new() -> (mapper: MetricsMapper)
        ensures
            mapper.wf(),
    {
        MetricsMapper { base_tempo: 9000, scale: minor_pentatonic_vec() }
    }

    /// Maps one snapshot to its musical parameter set; pure and
    /// deterministic, the result is exactly [`map_spec`] of the snapshot.
    pub fn map(&self, metrics: &SystemMetrics) -> (res: MusicalParams)
        requires
            self.wf(),
        ensures
            res@ == map_spec(*metrics),
    {
        let scale_index = Self::scale_index(metrics.cpu_usage);
        let melody_notes = self.build_melody(scale_index);
        let bass_note = Self::bass_note(metrics.memory_usage);
        let bass_velocity = Self::bass_velocity(metrics.memory_usage);
        let density = Self::io_density(metrics.disk_read_bytes, metrics.disk_write_bytes);
        let tempo = self.tempo(metrics.network_rx_bytes, metrics.network_tx_bytes);
        let (filter_cutoff, reverb_mix) = Self::temperature_effects(metrics.temperature);
        let (kick_hits, snare_hits) = self.generate_rhythm_pattern(
            metrics.disk_read_bytes,
            metrics.disk_write_bytes,
            density,
        );
        let (gpu_notes, gpu_intensity, gpu_chorus_depth, gpu_flanger_rate, vram_reverb_size) =
            self.map_gpu_metrics(metrics);
        let (rhythm_polyrhythm_factor, harmonic_voices) = self.map_load_average(metrics);
        let swap_distortion = self.map_swap_usage(metrics);
        let (battery_volume_mult, battery_tonality) = self.map_battery(metrics);
        let core_patterns = self.map_per_core_cpu(&metrics.per_core_usage);
        let hihat_density = self.map_process_count(metrics.process_count);
        let process_melodies = self.map_top_processes(&metrics.top_processes);
        let fan_noise_level = self.map_fan_speeds(metrics);
        let res = MusicalParams {
            melody_notes,
            bass_note,
            bass_velocity,
            rhythm_density: density,
            tempo,
            filter_cutoff,
            reverb_mix,
            kick_hits,
            snare_hits,
            gpu_notes,
            gpu_intensity,
            gpu_chorus_depth,
            gpu_flanger_rate,
            vram_reverb_size,
            rhythm_polyrhythm_factor,
            harmonic_voices,
            swap_distortion,
            battery_volume_mult,
            battery_tonality,
            core_patterns,
            hihat_density,
            process_melodies,
            fan_noise_level,
        };
        proof {
            assert(res@ =~~= map_spec(*metrics));
        }
        res
    }

    /// Quantizes CPU share onto the melody scale.
    fn scale_index(cpu: u32) -> (idx: usize)
        ensures
            idx == scale_index_spec(cpu as int),
            idx <= 12,
    {
        let raw: u64 = (cpu as u64 * 12) / 10000;
        if raw > 12 {
            12
        } else {
            raw as usize
        }
    }

    /// Builds the four-note contour around one scale index.
    fn build_melody(&self, idx: usize) -> (notes: Vec<u32>)
        requires
            self.wf(),
            idx <= 12,
        ensures
            notes@ == melody_notes_spec(idx as int),
    {
        let low: usize = if idx > 0 {
            idx - 1
        } else {
            0
        };
        let high: usize = if idx + 2 <= 12 {
            idx + 2
        } else {
            12
        };
        let notes: Vec<u32> = vec![
            self.scale[idx],
            self.scale[low],
            self.scale[high],
            self.scale[idx],
        ];
        proof {
            assert(notes@ =~= melody_notes_spec(idx as int));
        }
        notes
    }

    /// Picks the bass note from the memory branch mapping.
    fn bass_note(mem: u32) -> (note: u32)
        ensures
            note == bass_note_spec(mem as int),
    {
        if mem > 7500 {
            A2
        } else if mem > 5000 {
            MID_BASS
        } else {
            E3
        }
    }

    /// Clamps the memory share into the bass velocity band.
    fn bass_velocity(mem: u32) -> (v: u32)
        ensures
            v == bass_velocity_spec(mem as int),
    {
        let raw = mem / 10;
        if raw < 300 {
            300
        } else if raw > 1000 {
            1000
        } else {
            raw
        }
    }

    /// Normalizes total disk throughput into a rhythm density.
    fn io_density(read: u64, write: u64) -> (d: u32)
        ensures
            d == io_density_spec(read as int, write as int),
    {
        let t: u128 = (read as u128 + write as u128) / 10000;
        if t > 1000 {
            1000
        } else {
            t as u32
        }
    }

    /// Modulates the base tempo with network throughput.
    fn tempo(&self, rx: u64, tx: u64) -> (t: u32)
        requires
            self.wf(),
        ensures
            t == tempo_spec(rx as int, tx as int),
    {
        let raw: u128 = (rx as u128 + tx as u128) / 5000;
        let norm: u32 = if raw > 1000 {
            1000
        } else {
            raw as u32
        };
        self.base_tempo + 4 * norm
    }

    /// Derives filter cutoff and reverb mix from the temperature.
    fn temperature_effects(t: i32) -> (fx: (u32, u32))
        ensures
            fx.0 == filter_cutoff_spec(t as int),
            fx.1 == reverb_mix_spec(t as int),
    {
        let norm: u32 = if t <= 3000 {
            0
        } else {
            let n: u32 = ((t - 3000) as u32) / 4;
            if n > 1000 {
                1000
            } else {
                n
            }
        };
        (40000 + 260 * norm, norm / 2)
    }

    /// Builds the kick and snare position sets from the density ladder and
    /// the read/write tie-break; both come out sorted and duplicate-free.
    fn generate_rhythm_pattern(&self, disk_read: u64, disk_write: u64, density: u32) -> (hits: (
        Vec<usize>,
        Vec<usize>,
    ))
        ensures
            hits.0@ == kick_hits_spec(density as int, disk_read as int, disk_write as int),
            hits.1@ == snare_hits_spec(density as int, disk_read as int, disk_write as int),
    {
        let mut kicks: Vec<usize> = if density > 800 {
            vec![0usize, 1, 2, 3, 4, 8, 9, 10, 11, 12]
        } else if density > 300 {
            vec![0usize, 2, 4, 8, 10, 12]
        } else {
            vec![0usize, 4, 8, 12]
        };
        let mut snares: Vec<usize> = if density > 600 {
            vec![4usize, 6, 12, 14]
        } else {
            vec![4usize, 12]
        };
        proof {
            assert(kicks@ =~= kick_base_spec(density as int));
            assert(snares@ =~= snare_base_spec(density as int));
        }
        if disk_read > disk_write {
            kicks.push(15);
        } else if disk_write > disk_read {
            snares.push(15);
        }
        (kicks, snares)
    }

    /// Resolves the GPU signal (NVIDIA over AMD) and derives the GPU
    /// voice, its intensity and its effects; an idle or absent GPU
    /// suppresses the voice entirely.
    fn map_gpu_metrics(&self, metrics: &SystemMetrics) -> (gpu: (
        Option<Vec<u32>>,
        u32,
        u32,
        u32,
        u32,
    ))
        ensures
            match (gpu.0, gpu_notes_opt_spec(*metrics)) {
                (Some(v), Some(s)) => v@ == s,
                (None, None) => true,
                _ => false,
            },
            gpu.1 == gpu_intensity_spec(*metrics),
            gpu.2 == gpu_chorus_spec(*metrics),
            gpu.3 == gpu_flanger_spec(*metrics),
            gpu.4 == vram_reverb_spec(*metrics),
    {
        let (util, temp, mem_used, mem_total): (u32, i32, u64, u64) = match resolve_gpu(metrics) {
            GpuReading::Nvidia(g) => (g.utilization, g.temperature, g.memory_used, g.memory_total),
            GpuReading::Amd(a) => (a.utilization, a.temperature, a.memory_used, a.memory_total),
            GpuReading::Absent => (0, 4500, 0, 1),
        };
        if util < 10 && mem_used == 0 {
            return (None, 0, 0, 0, 0);
        }
        let raw: u64 = (util as u64 * 9) / 10000;
        let idx: usize = if raw > 9 {
            9
        } else {
            raw as usize
        };
        let dorian_scale = dorian_vec();
        let up: usize = if idx + 2 <= 9 {
            idx + 2
        } else {
            9
        };
        let down: usize = if idx > 0 {
            idx - 1
        } else {
            0
        };
        let notes: Vec<u32> = vec![
            dorian_scale[idx],
            dorian_scale[up],
            dorian_scale[down],
            dorian_scale[idx],
        ];
        proof {
            assert(notes@ =~= gpu_notes_spec(util as int));
        }
        let intensity: u32 = {
            let raw_i = util / 10;
            if raw_i > 1000 {
                1000
            } else {
                raw_i
            }
        };
        let temp_norm: u32 = if temp <= 4000 {
            0
        } else {
            let n: u32 = ((temp - 4000) as u32) / 4;
            if n > 1000 {
                1000
            } else {
                n
            }
        };
        let chorus = (temp_norm * 3) / 10;
        let flanger = 50 + temp_norm / 4;
        let vram: u32 = if mem_total == 0 {
            0
        } else if mem_used >= mem_total {
            1000
        } else {
            ((mem_used as u128 * 1000) / (mem_total as u128)) as u32
        };
        proof {
            if mem_used < mem_total {
                vstd::arithmetic::div_mod::lemma_multiply_divide_lt(
                    mem_used as int * 1000,
                    mem_total as int,
                    1000,
                );
            }
        }
        (Some(notes), intensity, chorus, flanger, vram)
    }

    /// Derives the polyrhythm factor and the harmonic voice count from the
    /// load averages.
    fn map_load_average(&self, metrics: &SystemMetrics) -> (lv: (u32, usize))
        ensures
            lv.0 == polyrhythm_spec(metrics.load_avg_1 as int, metrics.load_avg_15 as int),
            lv.1 == harmonic_voices_spec(metrics.load_avg_5 as int),
    {
        let factor: u32 = if metrics.load_avg_1 <= metrics.load_avg_15 {
            0
        } else {
            let d: u64 = (((metrics.load_avg_1 - metrics.load_avg_15) as u64) * 5) / 2;
            if d > 1000 {
                1000
            } else {
                d as u32
            }
        };
        let voices: usize = if metrics.load_avg_5 < 100 {
            1
        } else if metrics.load_avg_5 < 300 {
            2
        } else if metrics.load_avg_5 < 600 {
            3
        } else {
            4
        };
        (factor, voices)
    }

    /// Derives the bass distortion from the used share of swap.
    fn map_swap_usage(&self, metrics: &SystemMetrics) -> (d: u32)
        ensures
            d == swap_distortion_spec(metrics.swap_used as int, metrics.swap_total as int),
    {
        if metrics.swap_total == 0 {
            return 0;
        }
        let praw: u128 = (metrics.swap_used as u128 * 10000) / (metrics.swap_total as u128);
        let p: u32 = if praw > 10000 {
            10000
        } else {
            praw as u32
        };
        if p < 2000 {
            p / 10
        } else {
            200 + (p - 2000) / 10
        }
    }

    /// Derives the volume multiplier and the tonality bias from the
    /// battery; without one, full volume and neutral tonality.
    fn map_battery(&self, metrics: &SystemMetrics) -> (bt: (u32, i32))
        ensures
            bt.0 == battery_volume_spec(metrics.battery),
            bt.1 == battery_tonality_spec(metrics.battery),
    {
        let b = match metrics.battery {
            Some(b) => b,
            None => {
                return (1000, 0);
            },
        };
        let volume: u32 = 500 + b.state_of_charge / 20;
        let tonality: i32 = match b.state {
            crate::metrics::BatteryState::Charging => 300,
            crate::metrics::BatteryState::Discharging => if b.state_of_charge < 2000 {
                -700
            } else {
                -300
            },
            crate::metrics::BatteryState::Full => 500,
            crate::metrics::BatteryState::Empty => -1000,
            crate::metrics::BatteryState::Unknown => 0,
        };
        (volume, tonality)
    }

    /// Builds one rhythmic pattern per core, for the first four cores.
    fn map_per_core_cpu(&self, per_core_usage: &Vec<u32>) -> (patterns: Vec<Vec<usize>>)
        ensures
            patterns@.map_values(|p: Vec<usize>| p@) == core_patterns_spec(per_core_usage@),
    {
        let count: usize = if per_core_usage.len() < 4 {
            per_core_usage.len()
        } else {
            4
        };
        let mut patterns: Vec<Vec<usize>> = Vec::new();
        let mut i: usize = 0;
        while i < count
            invariant
                i <= count,
                count == if per_core_usage@.len() < 4 {
                    per_core_usage@.len() as int
                } else {
                    4
                },
                forall|k: int|
                    0 <= k < i ==> (#[trigger] patterns@[k])@ == core_pattern_spec(
                        k,
                        per_core_usage@[k] as int,
                    ),
                patterns@.len() == i,
            decreases count - i,
        {
            let pattern = Self::core_pattern(i, per_core_usage[i]);
            patterns.push(pattern);
            i = i + 1;
        }
        proof {
            assert(patterns@.map_values(|p: Vec<usize>| p@) =~~= core_patterns_spec(
                per_core_usage@,
            ));
        }
        patterns
    }

    /// Builds the rhythmic pattern of one core.
    fn core_pattern(idx: usize, usage: u32) -> (pattern: Vec<usize>)
        ensures
            pattern@ == core_pattern_spec(idx as int, usage as int),
    {
        let offset: usize = idx % 4;
        let pattern: Vec<usize> = if usage < 2000 {
            vec![offset * 4]
        } else if usage < 5000 {
            vec![offset * 4, (offset * 4 + 8) % 16]
        } else if usage < 8000 {
            vec![offset * 4, (offset * 4 + 4) % 16, (offset * 4 + 8) % 16, (offset * 4 + 12) % 16]
        } else {
            let o: usize = offset % 2;
            vec![o, o + 2, o + 4, o + 6, o + 8, o + 10, o + 12, o + 14]
        };
        proof {
            assert(pattern@ =~= core_pattern_spec(idx as int, usage as int));
        }
        pattern
    }

    /// Normalizes the process count into the hi-hat density.
    fn map_process_count(&self, process_count: u64) -> (d: u32)
        ensures
            d == hihat_density_spec(process_count as int),
    {
        if process_count <= 50 {
            0
        } else {
            let delta: u64 = process_count - 50;
            if delta >= 250 {
                1000
            } else {
                (delta * 4) as u32
            }
        }
    }

    /// Builds the mini-melody of each of the first three ranked processes.
    fn map_top_processes(&self, top_processes: &Vec<ProcessMetric>) -> (melodies: Vec<
        (String, Vec<u32>),
    >)
        ensures
            melodies@.map_values(|pm: (String, Vec<u32>)| (pm.0@, pm.1@)) == process_melodies_spec(
                top_processes@,
            ),
    {
        let count: usize = if top_processes.len() < 3 {
            top_processes.len()
        } else {
            3
        };
        let mut melodies: Vec<(String, Vec<u32>)> = Vec::new();
        let mut i: usize = 0;
        while i < count
            invariant
                i <= count,
                count == if top_processes@.len() < 3 {
                    top_processes@.len() as int
                } else {
                    3
                },
                melodies@.len() == i,
                forall|k: int|
                    0 <= k < i ==> (#[trigger] melodies@[k]).0@ == top_processes@[k].name@
                        && melodies@[k].1@ == process_melody_spec(
                        top_processes@[k].cpu_usage as int,
                    ),
            decreases count - i,
        {
            let p = &top_processes[i];
            let phrase = Self::process_melody(p.cpu_usage);
            melodies.push((p.name.clone(), phrase));
            i = i + 1;
        }
        proof {
            assert(melodies@.map_values(|pm: (String, Vec<u32>)| (pm.0@, pm.1@))
                =~~= process_melodies_spec(top_processes@));
        }
        melodies
    }

    /// Builds the two-note phrase of one process.
    fn process_melody(cpu: u32) -> (phrase: Vec<u32>)
        ensures
            phrase@ == process_melody_spec(cpu as int),
    {
        let c: u32 = if cpu > 10000 {
            10000
        } else {
            cpu
        };
        let idx: usize = ((c as u64 * 4) / 10000) as usize;
        let up: usize = if idx + 2 <= 4 {
            idx + 2
        } else {
            4
        };
        let scale = process_scale_vec();
        let phrase: Vec<u32> = vec![scale[idx], scale[up]];
        proof {
            assert(phrase@ =~= process_melody_spec(cpu as int));
        }
        phrase
    }

    /// Normalizes the mean fan speed into the ambient noise level; no fan
    /// data means silence.
    fn map_fan_speeds(&self, metrics: &SystemMetrics) -> (level: u32)
        ensures
            level == fan_noise_spec(metrics.fan_speeds),
    {
        let fans = match &metrics.fan_speeds {
            Some(v) => v,
            None => {
                return 0;
            },
        };
        let n: usize = fans.len();
        if n == 0 {
            return 0;
        }
        let mut sum: u128 = 0;
        let mut i: usize = 0;
        while i < n
            invariant
                i <= n,
                n == fans@.len(),
                sum == rpm_sum_spec(fans@.take(i as int)),
                0 <= sum <= (i as int) * 0xffff_ffff,
            decreases n - i,
        {
            proof {
                assert(fans@.take(i as int + 1).drop_last() =~= fans@.take(i as int));
                assert(fans@.take(i as int + 1).last() == fans@[i as int]);
            }
            sum = sum + fans[i].rpm as u128;
            i = i + 1;
        }
        proof {
            assert(fans@.take(n as int) =~= fans@);
        }
        let avg: u128 = (sum * 100) / (n as u128);
        if avg <= 50000 {
            0
        } else {
            let raw: u128 = (avg - 50000) / 250;
            if raw > 1000 {
                1000
            } else {
                raw as u32
            }
        }
    }
}

/// Builds the hi-hat positions the hi-hat density buys.
pub fn hihat_hits(density: u32) -> (hits: Vec<usize>)
    ensures
        hits@ == hihat_hits_spec(density as int),
{
    let hits: Vec<usize> = if density < 300 {
        vec![0usize, 4, 8, 12]
    } else if density < 700 {
        vec![0usize, 2, 4, 6, 8, 10, 12, 14]
    } else {
        vec![0usize, 1, 2, 3, 4, 5, 6, 7, 8, 9, 10, 11, 12, 13, 14, 15]
    };
    proof {
        assert(hits@ =~= hihat_hits_spec(density as int));
    }
    hits
}

/// Computes the bass distortion the composition applies from the bass
/// velocity and the swap distortion.
pub fn bass_distortion(velocity: u32, swap: u32) -> (d: u32)
    requires
        velocity <= 1000,
        swap <= 1000,
    ensures
        d == bass_distortion_spec(velocity as int, swap as int),
{
    (velocity * 3 + swap * 4) / 10
}

// --- stated laws of the mapping ---

/// Mapping is deterministic: two parameter sets derived from the same
/// snapshot are equal, bit for bit.
pub proof fn lemma_map_deterministic(a: MusicalParams, b: MusicalParams, m: SystemMetrics)
    requires
        a@ == map_spec(m),
        b@ == map_spec(m),
    ensures
        a@ == b@,
{
}

/// Scale quantization clamps correctly at both edges: every CPU share
/// lands on a valid scale step, zero lands on the first and one hundred
/// percent exactly on the last.
pub proof fn lemma_scale_index_in_range(cpu: int)
    requires
        cpu >= 0,
    ensures
        0 <= scale_index_spec(cpu) <= 12,
        cpu == 0 ==> scale_index_spec(cpu) == 0,
        cpu >= 10000 ==> scale_index_spec(cpu) == 12,
{
    vstd::arithmetic::div_mod::lemma_div_pos_is_pos(cpu * 12, 10000);
    if cpu >= 10000 {
        assert((120000int) / 10000 == 12);
        vstd::arithmetic::mul::lemma_mul_inequality(10000, cpu, 12);
        vstd::arithmetic::div_mod::lemma_div_is_ordered(120000, cpu * 12, 10000);
    }
    if cpu == 0 {
        assert((0int * 12) / 10000 == 0);
    }
}

/// A hit-position sequence is strictly ascending: sorted, with no slot
/// repeated.
pub open spec fn strictly_ascending(s: Seq<usize>) -> bool {
    forall|i: int, j: int| 0 <= i < j < s.len() ==> s[i] < s[j]
}

/// Both percussion sets come out sorted and duplicate-free, whatever the
/// density and the read/write balance.
pub proof fn lemma_hit_sets_sorted(density: int, read: int, write: int)
    ensures
        strictly_ascending(kick_hits_spec(density, read, write)),
        strictly_ascending(snare_hits_spec(density, read, write)),
{
}

/// The read/write tie-break: equal traffic adds no extra slot to either
/// set, more reads add the final slot to the kicks alone, more writes add
/// it to the snares alone.
pub proof fn lemma_rhythm_tie_break(density: int, read: int, write: int)
    ensures
        read == write ==> kick_hits_spec(density, read, write) == kick_base_spec(density)
            && snare_hits_spec(density, read, write) == snare_base_spec(density),
        read > write ==> kick_hits_spec(density, read, write) == kick_base_spec(density).push(15)
            && snare_hits_spec(density, read, write) == snare_base_spec(density),
        read < write ==> snare_hits_spec(density, read, write) == snare_base_spec(density).push(15)
            && kick_hits_spec(density, read, write) == kick_base_spec(density),
        !kick_base_spec(density).contains(15),
        !snare_base_spec(density).contains(15),
{
}

/// The absence policy: an optional domain that is absent from the snapshot
/// maps to the neutral default of every parameter that depends on it — no
/// battery means full volume and neutral tonality, no fan data means
/// silence from the fans, and no GPU signal above the suppression floor
/// means no GPU voice and idle GPU effects.
pub proof fn lemma_absence_defaults(m: SystemMetrics)
    ensures
        m.battery is None ==> map_spec(m).battery_volume_mult == 1000 && map_spec(
            m,
        ).battery_tonality == 0,
        m.fan_speeds is None ==> map_spec(m).fan_noise_level == 0,
        gpu_suppressed_spec(m) ==> map_spec(m).gpu_notes is None && map_spec(m).gpu_intensity == 0
            && map_spec(m).gpu_chorus_depth == 0 && map_spec(m).gpu_flanger_rate == 0 && map_spec(
            m,
        ).vram_reverb_size == 0,
        m.gpu_nvidia is None && m.gpu_amd is None ==> gpu_suppressed_spec(m),
{
}

/// The density ladder is additive: everything the ladder yields at a lower
/// density it still yields at a higher one.
pub proof fn lemma_ladder_additive(d1: int, d2: int)
    requires
        d1 <= d2,
    ensures
        forall|x: usize|
            kick_base_spec(d1).contains(x) ==> #[trigger] kick_base_spec(d2).contains(x),
        forall|x: usize|
            snare_base_spec(d1).contains(x) ==> #[trigger] snare_base_spec(d2).contains(x),
{
    assert forall|x: usize|
        kick_base_spec(d1).contains(x) implies #[trigger] kick_base_spec(d2).contains(x) by {
        let i = choose|i: int| 0 <= i < kick_base_spec(d1).len() && kick_base_spec(d1)[i] == x;
        if d1 > 800 {
            assert(kick_base_spec(d2)[i] == x);
        } else if d1 > 300 {
            if d2 > 800 {
                let big = kick_base_spec(d2);
                assert(big[0] == 0 && big[2] == 2 && big[4] == 4 && big[5] == 8 && big[7] == 10
                    && big[9] == 12);
                assert(kick_base_spec(d2).contains(x));
            } else {
                assert(kick_base_spec(d2)[i] == x);
            }
        } else {
            if d2 > 800 {
                let big = kick_base_spec(d2);
                assert(big[0] == 0 && big[4] == 4 && big[5] == 8 && big[9] == 12);
                assert(kick_base_spec(d2).contains(x));
            } else if d2 > 300 {
                let big = kick_base_spec(d2);
                assert(big[0] == 0 && big[2] == 4 && big[3] == 8 && big[5] == 12);
                assert(kick_base_spec(d2).contains(x));
            } else {
                assert(kick_base_spec(d2)[i] == x);
            }
        }
    }
    assert forall|x: usize|
        snare_base_spec(d1).contains(x) implies #[trigger] snare_base_spec(d2).contains(x) by {
        let i = choose|i: int| 0 <= i < snare_base_spec(d1).len() && snare_base_spec(d1)[i] == x;
        if d1 > 600 || d2 <= 600 {
            assert(snare_base_spec(d2)[i] == x);
        } else {
            let big = snare_base_spec(d2);
            assert(big[0] == 4 && big[2] == 12);
            assert(snare_base_spec(d2).contains(x));
        }
    }
}

} // verus!
