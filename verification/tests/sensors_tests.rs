use syssonic::metrics::{BatteryState, ProcessMetric};
use syssonic::sensors::{
    collect_amd_metrics, collect_battery_metrics, collect_fan_metrics, collect_nvidia_metrics,
    collect_top_processes, AmdReadout, BatteryReadout, DomainState, FanReading, NvidiaReadout,
    SensorDomains,
};

#[test]
fn domain_probe_verdict_is_permanent() {
    let d = DomainState::Uninitialized;
    assert!(d.should_probe());
    let failed = d.after_probe(false);
    assert_eq!(failed, DomainState::Unavailable);
    assert!(!failed.should_probe());
    assert_eq!(failed.after_probe(true), DomainState::Unavailable);
    let ok = d.after_probe(true);
    assert_eq!(ok, DomainState::Available);
    assert!(ok.is_available());
    assert_eq!(ok.after_probe(false), DomainState::Available);
}

#[test]
fn domains_start_unprobed() {
    let d = SensorDomains::new();
    assert!(d.gpu_nvidia.should_probe());
    assert!(d.gpu_amd.should_probe());
    assert!(d.battery.should_probe());
    assert!(d.fans.should_probe());
}

#[test]
fn battery_absent_readout_is_absent_field() {
    assert_eq!(collect_battery_metrics(None), None);
}

#[test]
fn battery_charging_readout() {
    let raw = BatteryReadout {
        charge: 5000,
        state: BatteryState::Charging,
        power: 1500,
        temperature_kelvin: Some(30000),
        time_to_full_secs: Some(600),
        time_to_empty_secs: Some(1200),
    };
    let m = collect_battery_metrics(Some(raw)).unwrap();
    assert_eq!(m.state_of_charge, 5000);
    assert_eq!(m.state, BatteryState::Charging);
    assert_eq!(m.power_rate, 1500); // positive while charging
    assert_eq!(m.temperature, Some(2685)); // 300 K is 26.85 degrees C
    assert_eq!(m.time_to_full, Some(1000)); // 600 s is 10 minutes
    assert_eq!(m.time_to_empty, None); // not discharging
}

#[test]
fn battery_discharging_readout() {
    let raw = BatteryReadout {
        charge: 2500,
        state: BatteryState::Discharging,
        power: 900,
        temperature_kelvin: None,
        time_to_full_secs: Some(600),
        time_to_empty_secs: Some(5400),
    };
    let m = collect_battery_metrics(Some(raw)).unwrap();
    assert_eq!(m.power_rate, -900); // negative while discharging
    assert_eq!(m.temperature, None);
    assert_eq!(m.time_to_full, None);
    assert_eq!(m.time_to_empty, Some(9000)); // 5400 s is 90 minutes
}

#[test]
fn amd_readout_defaults() {
    assert_eq!(collect_amd_metrics(None), None);
    let m = collect_amd_metrics(Some(AmdReadout {
        utilization: None,
        temperature: None,
        vram_used: 10,
        vram_total: 20,
        power: Some(4200),
    }))
    .unwrap();
    assert_eq!(m.utilization, 0);
    assert_eq!(m.temperature, 4500);
    assert_eq!(m.memory_used, 10);
    assert_eq!(m.memory_total, 20);
    assert_eq!(m.power_draw, Some(4200));
}

#[test]
fn nvidia_readout_without_memory_is_absent() {
    assert_eq!(collect_nvidia_metrics(None), None);
    let m = collect_nvidia_metrics(Some(NvidiaReadout {
        utilization: Some(100),
        temperature: Some(6000),
        memory: None,
        power_milliwatts: Some(1000),
        fan_speed: None,
    }));
    assert_eq!(m, None);
}

#[test]
fn nvidia_readout_converts_power_and_defaults() {
    let m = collect_nvidia_metrics(Some(NvidiaReadout {
        utilization: None,
        temperature: None,
        memory: Some((123, 456)),
        power_milliwatts: Some(15000),
        fan_speed: Some(7000),
    }))
    .unwrap();
    assert_eq!(m.utilization, 0);
    assert_eq!(m.temperature, 4500);
    assert_eq!(m.memory_used, 123);
    assert_eq!(m.memory_total, 456);
    assert_eq!(m.power_draw, 1500); // 15 W in hundredths
    assert_eq!(m.fan_speed, Some(7000));
}

#[test]
fn fans_keep_order_and_label_fallback() {
    assert_eq!(collect_fan_metrics(Vec::new()), None);
    let fans = collect_fan_metrics(vec![
        FanReading { label: Some(String::from("cpu fan")), rpm: 1200 },
        FanReading { label: None, rpm: 800 },
    ])
    .unwrap();
    assert_eq!(fans.len(), 2);
    assert_eq!(fans[0].label, "cpu fan");
    assert_eq!(fans[0].rpm, 1200);
    assert_eq!(fans[1].label, "Unknown");
    assert_eq!(fans[1].rpm, 800);
}

fn proc(name: &str, pid: u32, cpu: u32) -> ProcessMetric {
    ProcessMetric { name: String::from(name), pid, cpu_usage: cpu, memory_usage: 0 }
}

#[test]
fn top_processes_filters_idle_and_sorts_desc() {
    let input = vec![
        proc("idle", 1, 5),
        proc("mid", 2, 300),
        proc("hot", 3, 9000),
        proc("zero", 4, 0),
        proc("warm", 5, 1000),
    ];
    let top = collect_top_processes(input);
    assert_eq!(top.len(), 3);
    assert_eq!(top[0].name, "hot");
    assert_eq!(top[1].name, "warm");
    assert_eq!(top[2].name, "mid");
}

#[test]
fn top_processes_caps_at_five() {
    let input = vec![
        proc("a", 1, 100),
        proc("b", 2, 200),
        proc("c", 3, 300),
        proc("d", 4, 400),
        proc("e", 5, 500),
        proc("f", 6, 600),
        proc("g", 7, 700),
    ];
    let top = collect_top_processes(input);
    assert_eq!(top.len(), 5);
    let cpus: Vec<u32> = top.iter().map(|p| p.cpu_usage).collect();
    assert_eq!(cpus, vec![700, 600, 500, 400, 300]);
}

#[test]
fn top_processes_boundary_is_strict() {
    // exactly a tenth of a percent does not qualify
    let input = vec![proc("edge", 1, 10), proc("just", 2, 11)];
    let top = collect_top_processes(input);
    assert_eq!(top.len(), 1);
    assert_eq!(top[0].name, "just");
}

#[test]
fn top_processes_keeps_ties() {
    let input = vec![proc("a", 1, 500), proc("b", 2, 500), proc("c", 3, 500)];
    let top = collect_top_processes(input);
    assert_eq!(top.len(), 3);
    assert!(top.iter().all(|p| p.cpu_usage == 500));
}
