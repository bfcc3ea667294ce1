use syssonic::mapper::{bass_distortion, hihat_hits, resolve_gpu, GpuReading, MetricsMapper};
use syssonic::metrics::{
    AmdGpuMetrics, BatteryMetrics, BatteryState, FanMetric, NvidiaGpuMetrics, ProcessMetric,
    SystemMetrics,
};

fn base_metrics() -> SystemMetrics {
    SystemMetrics {
        cpu_usage: 0,
        memory_usage: 0,
        disk_read_bytes: 0,
        disk_write_bytes: 0,
        network_rx_bytes: 0,
        network_tx_bytes: 0,
        temperature: 3000,
        gpu_nvidia: None,
        gpu_amd: None,
        battery: None,
        per_core_usage: Vec::new(),
        load_avg_1: 0,
        load_avg_5: 0,
        load_avg_15: 0,
        swap_used: 0,
        swap_total: 0,
        process_count: 0,
        top_processes: Vec::new(),
        fan_speeds: None,
    }
}

#[test]
fn mapping_is_pure() {
    let mapper = MetricsMapper::new();
    let mut m = base_metrics();
    m.cpu_usage = 4321;
    m.memory_usage = 6543;
    m.disk_read_bytes = 7_000_000;
    m.network_tx_bytes = 1_000_000;
    m.temperature = 5500;
    m.per_core_usage = vec![1000, 9000];
    m.battery = Some(BatteryMetrics {
        state_of_charge: 4200,
        state: BatteryState::Discharging,
        power_rate: -900,
        temperature: None,
        time_to_full: None,
        time_to_empty: Some(9000),
    });
    let a = mapper.map(&m);
    let b = mapper.map(&m);
    assert_eq!(a, b);
}

#[test]
fn cpu_floor_takes_first_scale_step() {
    let mapper = MetricsMapper::new();
    let m = base_metrics();
    let p = mapper.map(&m);
    // index 0: the contour stays on the lowest steps of the scale
    assert_eq!(p.melody_notes, vec![22000, 22000, 29366, 22000]);
}

#[test]
fn cpu_ceiling_takes_last_scale_step() {
    let mapper = MetricsMapper::new();
    let mut m = base_metrics();
    m.cpu_usage = 10000;
    let p = mapper.map(&m);
    // index 12: the contour clamps at the top of the thirteen-step scale
    assert_eq!(p.melody_notes, vec![117466, 104650, 117466, 117466]);
}

#[test]
fn memory_boundary_is_strict() {
    let mapper = MetricsMapper::new();
    let mut m = base_metrics();
    m.memory_usage = 7500;
    assert_eq!(mapper.map(&m).bass_note, 16500); // exactly 75 %: mid bass
    m.memory_usage = 7501;
    assert_eq!(mapper.map(&m).bass_note, 11000); // just above: low bass
    m.memory_usage = 5000;
    assert_eq!(mapper.map(&m).bass_note, 16481); // exactly 50 %: high bass
}

#[test]
fn full_density_rhythm_ladder() {
    let mapper = MetricsMapper::new();
    let mut m = base_metrics();
    m.disk_read_bytes = 5_000_000;
    m.disk_write_bytes = 5_000_000;
    let p = mapper.map(&m);
    assert_eq!(p.rhythm_density, 1000);
    assert_eq!(p.kick_hits, vec![0, 1, 2, 3, 4, 8, 9, 10, 11, 12]);
    assert_eq!(p.snare_hits, vec![4, 6, 12, 14]);
}

#[test]
fn rhythm_ladder_steps() {
    let mapper = MetricsMapper::new();
    let mut m = base_metrics();
    m.disk_read_bytes = 1_000_000;
    m.disk_write_bytes = 1_000_000;
    let p = mapper.map(&m); // density 200
    assert_eq!(p.kick_hits, vec![0, 4, 8, 12]);
    assert_eq!(p.snare_hits, vec![4, 12]);
    m.disk_read_bytes = 2_500_000;
    m.disk_write_bytes = 2_500_000;
    let p = mapper.map(&m); // density 500
    assert_eq!(p.kick_hits, vec![0, 2, 4, 8, 10, 12]);
    assert_eq!(p.snare_hits, vec![4, 12]);
    m.disk_read_bytes = 3_500_000;
    m.disk_write_bytes = 3_500_000;
    let p = mapper.map(&m); // density 700
    assert_eq!(p.kick_hits, vec![0, 2, 4, 8, 10, 12]);
    assert_eq!(p.snare_hits, vec![4, 6, 12, 14]);
}

#[test]
fn tie_break_adds_no_bias_on_equal_traffic() {
    let mapper = MetricsMapper::new();
    let mut m = base_metrics();
    m.disk_read_bytes = 4_000_000;
    m.disk_write_bytes = 4_000_000;
    let p = mapper.map(&m);
    assert!(!p.kick_hits.contains(&15));
    assert!(!p.snare_hits.contains(&15));
}

#[test]
fn tie_break_reads_feed_kicks_only() {
    let mapper = MetricsMapper::new();
    let mut m = base_metrics();
    m.disk_read_bytes = 8_000_000;
    m.disk_write_bytes = 4_000_000;
    let p = mapper.map(&m);
    assert!(p.kick_hits.contains(&15));
    assert!(!p.snare_hits.contains(&15));
}

#[test]
fn tie_break_writes_feed_snares_only() {
    let mapper = MetricsMapper::new();
    let mut m = base_metrics();
    m.disk_read_bytes = 1_000_000;
    m.disk_write_bytes = 2_000_000;
    let p = mapper.map(&m);
    assert!(!p.kick_hits.contains(&15));
    assert!(p.snare_hits.contains(&15));
}

#[test]
fn end_to_end_hot_snapshot() {
    let mapper = MetricsMapper::new();
    let mut m = base_metrics();
    m.cpu_usage = 10000;
    m.memory_usage = 8000;
    m.disk_read_bytes = 8_000_000;
    m.disk_write_bytes = 4_000_000;
    m.temperature = 3000;
    let p = mapper.map(&m);
    assert_eq!(p.melody_notes, vec![117466, 104650, 117466, 117466]);
    assert_eq!(p.bass_note, 11000);
    assert_eq!(p.bass_velocity, 800);
    assert_eq!(p.rhythm_density, 1000);
    assert_eq!(p.kick_hits, vec![0, 1, 2, 3, 4, 8, 9, 10, 11, 12, 15]);
    assert_eq!(p.snare_hits, vec![4, 6, 12, 14]);
    assert_eq!(p.tempo, 9000);
    assert_eq!(p.reverb_mix, 0);
    assert_eq!(p.filter_cutoff, 40000);
}

#[test]
fn network_modulates_tempo_up_to_cap() {
    let mapper = MetricsMapper::new();
    let mut m = base_metrics();
    m.network_rx_bytes = 2_500_000;
    m.network_tx_bytes = 2_500_000;
    assert_eq!(mapper.map(&m).tempo, 13000);
    m.network_rx_bytes = 50_000_000;
    m.network_tx_bytes = 0;
    assert_eq!(mapper.map(&m).tempo, 13000);
    m.network_rx_bytes = 1_250_000;
    m.network_tx_bytes = 0;
    assert_eq!(mapper.map(&m).tempo, 10000);
}

#[test]
fn temperature_drives_filter_and_reverb() {
    let mapper = MetricsMapper::new();
    let mut m = base_metrics();
    m.temperature = 5000;
    let p = mapper.map(&m);
    assert_eq!(p.filter_cutoff, 170000);
    assert_eq!(p.reverb_mix, 250);
    m.temperature = 9000;
    let p = mapper.map(&m);
    assert_eq!(p.filter_cutoff, 300000);
    assert_eq!(p.reverb_mix, 500);
}

#[test]
fn gpu_voice_suppressed_without_signal() {
    let mapper = MetricsMapper::new();
    let m = base_metrics();
    let p = mapper.map(&m);
    assert!(p.gpu_notes.is_none());
    assert_eq!(p.gpu_intensity, 0);
    assert_eq!(p.gpu_chorus_depth, 0);
    assert_eq!(p.gpu_flanger_rate, 0);
    assert_eq!(p.vram_reverb_size, 0);
}

#[test]
fn gpu_voice_from_nvidia_reading() {
    let mapper = MetricsMapper::new();
    let mut m = base_metrics();
    m.gpu_nvidia = Some(NvidiaGpuMetrics {
        utilization: 5000,
        temperature: 4500,
        memory_used: 2_000_000_000,
        memory_total: 8_000_000_000,
        power_draw: 12000,
        fan_speed: None,
    });
    let p = mapper.map(&m);
    // dorian index 4 -> [A4, C5, G4, A4]
    assert_eq!(p.gpu_notes, Some(vec![44000, 52325, 39200, 44000]));
    assert_eq!(p.gpu_intensity, 500);
    assert_eq!(p.gpu_chorus_depth, 37);
    assert_eq!(p.gpu_flanger_rate, 81);
    assert_eq!(p.vram_reverb_size, 250);
}

#[test]
fn nvidia_takes_precedence_over_amd() {
    let mapper = MetricsMapper::new();
    let mut m = base_metrics();
    m.gpu_nvidia = Some(NvidiaGpuMetrics {
        utilization: 9000,
        temperature: 4000,
        memory_used: 1,
        memory_total: 2,
        power_draw: 0,
        fan_speed: None,
    });
    m.gpu_amd = Some(AmdGpuMetrics {
        utilization: 1000,
        temperature: 9000,
        memory_used: 0,
        memory_total: 1,
        power_draw: None,
    });
    let p = mapper.map(&m);
    assert_eq!(p.gpu_intensity, 900);
    assert_eq!(p.gpu_chorus_depth, 0);
    assert_eq!(p.vram_reverb_size, 500);
}

#[test]
fn gpu_resolution_prefers_nvidia() {
    let mut m = base_metrics();
    assert_eq!(resolve_gpu(&m), GpuReading::Absent);
    let amd = AmdGpuMetrics {
        utilization: 1000,
        temperature: 5000,
        memory_used: 0,
        memory_total: 1,
        power_draw: None,
    };
    m.gpu_amd = Some(amd);
    assert_eq!(resolve_gpu(&m), GpuReading::Amd(amd));
    let nv = NvidiaGpuMetrics {
        utilization: 2000,
        temperature: 6000,
        memory_used: 1,
        memory_total: 2,
        power_draw: 0,
        fan_speed: None,
    };
    m.gpu_nvidia = Some(nv);
    assert_eq!(resolve_gpu(&m), GpuReading::Nvidia(nv));
}

#[test]
fn load_trend_drives_polyrhythm_and_voices() {
    let mapper = MetricsMapper::new();
    let mut m = base_metrics();
    m.load_avg_1 = 500;
    m.load_avg_15 = 100;
    m.load_avg_5 = 350;
    let p = mapper.map(&m);
    assert_eq!(p.rhythm_polyrhythm_factor, 1000);
    assert_eq!(p.harmonic_voices, 3);
    m.load_avg_1 = 100;
    m.load_avg_15 = 500;
    m.load_avg_5 = 50;
    let p = mapper.map(&m);
    assert_eq!(p.rhythm_polyrhythm_factor, 0);
    assert_eq!(p.harmonic_voices, 1);
    m.load_avg_1 = 300;
    m.load_avg_15 = 100;
    m.load_avg_5 = 700;
    let p = mapper.map(&m);
    assert_eq!(p.rhythm_polyrhythm_factor, 500);
    assert_eq!(p.harmonic_voices, 4);
}

#[test]
fn swap_pressure_drives_distortion() {
    let mapper = MetricsMapper::new();
    let mut m = base_metrics();
    let p = mapper.map(&m);
    assert_eq!(p.swap_distortion, 0); // no swap configured
    m.swap_total = 100;
    m.swap_used = 10;
    assert_eq!(mapper.map(&m).swap_distortion, 100); // 10 %: gentle band
    m.swap_used = 50;
    assert_eq!(mapper.map(&m).swap_distortion, 500); // 50 %: aggressive band
    m.swap_used = 100;
    assert_eq!(mapper.map(&m).swap_distortion, 1000);
}

#[test]
fn battery_drives_volume_and_tonality() {
    let mapper = MetricsMapper::new();
    let mut m = base_metrics();
    let p = mapper.map(&m);
    assert_eq!(p.battery_volume_mult, 1000); // no battery: full volume
    assert_eq!(p.battery_tonality, 0);
    let mut b = BatteryMetrics {
        state_of_charge: 5000,
        state: BatteryState::Discharging,
        power_rate: -1200,
        temperature: None,
        time_to_full: None,
        time_to_empty: None,
    };
    m.battery = Some(b.clone());
    let p = mapper.map(&m);
    assert_eq!(p.battery_volume_mult, 750);
    assert_eq!(p.battery_tonality, -300);
    b.state_of_charge = 1500;
    m.battery = Some(b.clone());
    assert_eq!(mapper.map(&m).battery_tonality, -700);
    b.state = BatteryState::Charging;
    m.battery = Some(b.clone());
    assert_eq!(mapper.map(&m).battery_tonality, 300);
    b.state = BatteryState::Full;
    m.battery = Some(b.clone());
    assert_eq!(mapper.map(&m).battery_tonality, 500);
    b.state = BatteryState::Empty;
    m.battery = Some(b);
    assert_eq!(mapper.map(&m).battery_tonality, -1000);
}

#[test]
fn per_core_patterns_cap_at_four_cores() {
    let mapper = MetricsMapper::new();
    let mut m = base_metrics();
    m.per_core_usage = vec![1000, 3000, 6000, 9000, 5000];
    let p = mapper.map(&m);
    assert_eq!(p.core_patterns.len(), 4);
    assert_eq!(p.core_patterns[0], vec![0]);
    assert_eq!(p.core_patterns[1], vec![4, 12]);
    assert_eq!(p.core_patterns[2], vec![8, 12, 0, 4]);
    assert_eq!(p.core_patterns[3], vec![1, 3, 5, 7, 9, 11, 13, 15]);
}

#[test]
fn process_count_drives_hihat_density() {
    let mapper = MetricsMapper::new();
    let mut m = base_metrics();
    m.process_count = 50;
    assert_eq!(mapper.map(&m).hihat_density, 0);
    m.process_count = 175;
    assert_eq!(mapper.map(&m).hihat_density, 500);
    m.process_count = 500;
    assert_eq!(mapper.map(&m).hihat_density, 1000);
}

#[test]
fn process_mini_melodies_cap_at_three() {
    let mapper = MetricsMapper::new();
    let mut m = base_metrics();
    m.top_processes = vec![
        ProcessMetric { name: String::from("alpha"), pid: 1, cpu_usage: 9000, memory_usage: 0 },
        ProcessMetric { name: String::from("beta"), pid: 2, cpu_usage: 2000, memory_usage: 0 },
        ProcessMetric { name: String::from("gamma"), pid: 3, cpu_usage: 500, memory_usage: 0 },
        ProcessMetric { name: String::from("delta"), pid: 4, cpu_usage: 100, memory_usage: 0 },
    ];
    let p = mapper.map(&m);
    assert_eq!(p.process_melodies.len(), 3);
    assert_eq!(p.process_melodies[0], (String::from("alpha"), vec![98777, 117466]));
    assert_eq!(p.process_melodies[1], (String::from("beta"), vec![65926, 88000]));
    assert_eq!(p.process_melodies[2], (String::from("gamma"), vec![65926, 88000]));
}

#[test]
fn fan_speeds_drive_ambient_level() {
    let mapper = MetricsMapper::new();
    let mut m = base_metrics();
    assert_eq!(mapper.map(&m).fan_noise_level, 0);
    m.fan_speeds = Some(vec![
        FanMetric { label: String::from("fan1"), rpm: 1000 },
        FanMetric { label: String::from("fan2"), rpm: 2000 },
    ]);
    assert_eq!(mapper.map(&m).fan_noise_level, 400);
    m.fan_speeds = Some(vec![FanMetric { label: String::from("fan1"), rpm: 400 }]);
    assert_eq!(mapper.map(&m).fan_noise_level, 0);
    m.fan_speeds = Some(vec![FanMetric { label: String::from("fan1"), rpm: 60000 }]);
    assert_eq!(mapper.map(&m).fan_noise_level, 1000);
}

#[test]
fn hihat_grid_follows_density() {
    assert_eq!(hihat_hits(200), vec![0, 4, 8, 12]);
    assert_eq!(hihat_hits(500), vec![0, 2, 4, 6, 8, 10, 12, 14]);
    assert_eq!(
        hihat_hits(800),
        vec![0, 1, 2, 3, 4, 5, 6, 7, 8, 9, 10, 11, 12, 13, 14, 15]
    );
}

#[test]
fn bass_distortion_combines_velocity_and_swap() {
    assert_eq!(bass_distortion(800, 500), 440);
    assert_eq!(bass_distortion(0, 0), 0);
    assert_eq!(bass_distortion(1000, 1000), 700);
}
