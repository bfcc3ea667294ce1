use syssonic::mapper::MetricsMapper;
use syssonic::metrics::SystemMetrics;
use syssonic::playback::{
    parse_export_format, AudioCommand, AudioEvent, EngineRequest, ExportFormat,
    PlaybackController, PlaybackState,
};

fn some_params() -> syssonic::mapper::MusicalParams {
    let mapper = MetricsMapper::new();
    let m = SystemMetrics {
        cpu_usage: 5000,
        memory_usage: 6000,
        disk_read_bytes: 0,
        disk_write_bytes: 0,
        network_rx_bytes: 0,
        network_tx_bytes: 0,
        temperature: 4500,
        gpu_nvidia: None,
        gpu_amd: None,
        battery: None,
        per_core_usage: Vec::new(),
        load_avg_1: 0,
        load_avg_5: 0,
        load_avg_15: 0,
        swap_used: 0,
        swap_total: 0,
        process_count: 0,
        top_processes: Vec::new(),
        fan_speeds: None,
    };
    mapper.map(&m)
}

#[test]
fn format_names_match_without_case() {
    assert_eq!(parse_export_format("wav"), ExportFormat::Wav);
    assert_eq!(parse_export_format("WAV"), ExportFormat::Wav);
    assert_eq!(parse_export_format("flac"), ExportFormat::Flac);
    assert_eq!(parse_export_format("FLAC"), ExportFormat::Flac);
    assert_eq!(parse_export_format("Midi"), ExportFormat::Midi);
}

#[test]
fn unknown_format_falls_back_to_wav() {
    assert_eq!(parse_export_format("ogg"), ExportFormat::Wav);
    assert_eq!(parse_export_format(""), ExportFormat::Wav);
    assert_eq!(parse_export_format("wavx"), ExportFormat::Wav);
}

#[test]
fn controller_starts_idle() {
    let c = PlaybackController::new();
    assert_eq!(c.state, PlaybackState::Idle);
    assert!(!c.is_playing);
    assert_eq!(c.volume, 800);
}

#[test]
fn play_command_starts_playback_and_requests_engine() {
    let mut c = PlaybackController::new();
    let params = some_params();
    let eff = c.handle_command(AudioCommand::Play(params.clone(), 4));
    assert_eq!(c.state, PlaybackState::Playing);
    assert!(c.is_playing);
    assert_eq!(eff.events, vec![AudioEvent::Playing]);
    match eff.request {
        Some(EngineRequest::Play { params: p, bars }) => {
            assert_eq!(p, params);
            assert_eq!(bars, 4);
        }
        other => panic!("unexpected request: {:?}", other),
    }
}

#[test]
fn play_success_returns_to_idle_with_stopped() {
    let mut c = PlaybackController::new();
    let params = some_params();
    let eff = c.handle_command(AudioCommand::Play(params, 2));
    let events = c.handle_engine_result(eff.request.unwrap(), Ok(()));
    assert_eq!(c.state, PlaybackState::Idle);
    assert!(!c.is_playing);
    assert_eq!(events, vec![AudioEvent::Stopped]);
}

#[test]
fn play_failure_returns_to_idle_with_error() {
    let mut c = PlaybackController::new();
    let params = some_params();
    let eff = c.handle_command(AudioCommand::Play(params, 2));
    let events = c.handle_engine_result(
        eff.request.unwrap(),
        Err(String::from("no audio device")),
    );
    assert_eq!(c.state, PlaybackState::Idle);
    assert!(!c.is_playing);
    assert_eq!(events, vec![AudioEvent::Error(String::from("no audio device"))]);
}

#[test]
fn stop_clears_flag_and_emits_stopped() {
    let mut c = PlaybackController::new();
    let params = some_params();
    c.handle_command(AudioCommand::Play(params, 1));
    let eff = c.handle_command(AudioCommand::Stop);
    assert_eq!(c.state, PlaybackState::Idle);
    assert!(!c.is_playing);
    assert_eq!(eff.events, vec![AudioEvent::Stopped]);
    assert!(eff.request.is_none());
}

#[test]
fn pause_and_resume_are_flag_only() {
    let mut c = PlaybackController::new();
    let eff = c.handle_command(AudioCommand::Pause);
    assert_eq!(c.state, PlaybackState::Paused);
    assert!(!c.is_playing);
    assert_eq!(eff.events, vec![AudioEvent::Paused]);
    assert!(eff.request.is_none());
    let eff = c.handle_command(AudioCommand::Resume);
    assert_eq!(c.state, PlaybackState::Playing);
    assert!(c.is_playing);
    assert_eq!(eff.events, vec![AudioEvent::Resumed]);
    assert!(eff.request.is_none());
}

#[test]
fn set_volume_stores_silently() {
    let mut c = PlaybackController::new();
    let eff = c.handle_command(AudioCommand::SetVolume(250));
    assert_eq!(c.volume, 250);
    assert_eq!(c.state, PlaybackState::Idle);
    assert!(eff.events.is_empty());
    assert!(eff.request.is_none());
}

#[test]
fn export_command_parses_format_and_keeps_flag() {
    let mut c = PlaybackController::new();
    let params = some_params();
    let eff = c.handle_command(AudioCommand::Export {
        path: String::from("/tmp/out.flac"),
        format: String::from("FLAC"),
        params: params.clone(),
        bars: 8,
    });
    assert_eq!(c.state, PlaybackState::Exporting);
    assert!(!c.is_playing);
    assert_eq!(eff.events, vec![AudioEvent::ExportStarted]);
    match eff.request {
        Some(EngineRequest::Export { path, format, params: p, bars }) => {
            assert_eq!(path, "/tmp/out.flac");
            assert_eq!(format, ExportFormat::Flac);
            assert_eq!(p, params);
            assert_eq!(bars, 8);
        }
        other => panic!("unexpected request: {:?}", other),
    }
}

#[test]
fn export_success_reports_the_path() {
    let mut c = PlaybackController::new();
    let params = some_params();
    let eff = c.handle_command(AudioCommand::Export {
        path: String::from("take.wav"),
        format: String::from("wav"),
        params,
        bars: 1,
    });
    let events = c.handle_engine_result(eff.request.unwrap(), Ok(()));
    assert_eq!(c.state, PlaybackState::Idle);
    assert_eq!(events, vec![AudioEvent::ExportComplete(String::from("take.wav"))]);
}

#[test]
fn export_failure_reports_the_error() {
    let mut c = PlaybackController::new();
    let params = some_params();
    let eff = c.handle_command(AudioCommand::Export {
        path: String::from("take.midi"),
        format: String::from("midi"),
        params,
        bars: 1,
    });
    let events = c.handle_engine_result(eff.request.unwrap(), Err(String::from("disk full")));
    assert_eq!(c.state, PlaybackState::Idle);
    assert_eq!(events, vec![AudioEvent::Error(String::from("disk full"))]);
}
