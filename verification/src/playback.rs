//! Playback commands, events, and the worker state machine.
//!
//! A playback worker owns one [`PlaybackController`] and processes
//! [`AudioCommand`]s strictly in arrival order. Each command is handled in
//! two steps: [`PlaybackController::handle_command`] performs every effect
//! that precedes the (possibly long, blocking) call into the external audio
//! engine and says which engine call to make, and
//! [`PlaybackController::handle_engine_result`] performs the effects of
//! that call's outcome. The caller performs the engine call itself and the
//! queueing of the returned [`AudioEvent`]s; the decisions — state changes,
//! flag changes, and which events to emit — all live here and are exact.
//!
//! Stop, pause and resume only flip the status flag and never interrupt an
//! engine call already in flight; that is the intended contract, not an
//! oversight.

use vstd::prelude::*;
use vstd::string::StringSliceAdditionalSpecFns;
use crate::mapper::MusicalParams;

verus! {

/// The file formats an export can take.
#[derive(Clone, Copy, Debug, PartialEq, Eq)]
pub enum ExportFormat {
    Wav,
    Flac,
    Midi,
}

/// An ASCII byte folded to lower case.
pub open spec fn lower_byte(b: u8) -> u8 {
    if 65 <= b && b <= 90 {
        (b + 32) as u8
    } else {
        b
    }
}

/// A byte string folded to lower case.
pub open spec fn lower_bytes(s: Seq<u8>) -> Seq<u8> {
    s.map_values(|b: u8| lower_byte(b))
}

/// The bytes of the lower-case name of each format.
pub open spec fn wav_name() -> Seq<u8> {
    seq!['w' as u8, 'a' as u8, 'v' as u8]
}

pub open spec fn flac_name() -> Seq<u8> {
    seq!['f' as u8, 'l' as u8, 'a' as u8, 'c' as u8]
}

pub open spec fn midi_name() -> Seq<u8> {
    seq!['m' as u8, 'i' as u8, 'd' as u8, 'i' as u8]
}

/// The format a name selects, compared without case; an unrecognized name
/// falls back to wav.
pub open spec fn format_spec(name: Seq<u8>) -> ExportFormat {
    let l = lower_bytes(name);
    if l == flac_name() {
        ExportFormat::Flac
    } else if l == midi_name() {
        ExportFormat::Midi
    } else {
        ExportFormat::Wav
    }
}

/// Whether the bytes, folded to lower case, equal the given name.
fn lowered_matches(b: &[u8], expect: &Vec<u8>) -> (r: bool)
    ensures
        r == (lower_bytes(b@) == expect@),
{
    if b.len() != expect.len() {
        proof {
            assert(lower_bytes(b@).len() == b@.len());
        }
        return false;
    }
    let n: usize = b.len();
    let mut i: usize = 0;
    while i < n
        invariant
            i <= n,
            n == b@.len(),
            b@.len() == expect@.len(),
            forall|k: int| 0 <= k < i ==> lower_byte(b@[k]) == expect@[k],
        decreases n - i,
    {
        let c: u8 = b[i];
        let lc: u8 = if c >= 65 && c <= 90 {
            c + 32
        } else {
            c
        };
        if lc != expect[i] {
            proof {
                assert(lower_bytes(b@)[i as int] == lower_byte(b@[i as int]));
            }
            return false;
        }
        i = i + 1;
    }
    proof {
        assert(lower_bytes(b@) =~= expect@);
    }
    true
}

/// Selects the export format a name asks for: `wav`, `flac` or `midi` in
/// any case; anything else falls back to wav.
pub fn parse_export_format(name: &str) -> (f: ExportFormat)
    ensures
        f == format_spec(name.spec_bytes()),
{
    let bytes = name.as_bytes();
    let flac: Vec<u8> = vec!['f' as u8, 'l' as u8, 'a' as u8, 'c' as u8];
    let midi: Vec<u8> = vec!['m' as u8, 'i' as u8, 'd' as u8, 'i' as u8];
    proof {
        assert(flac@ =~= flac_name());
        assert(midi@ =~= midi_name());
    }
    if lowered_matches(bytes, &flac) {
        ExportFormat::Flac
    } else if lowered_matches(bytes, &midi) {
        ExportFormat::Midi
    } else {
        ExportFormat::Wav
    }
}

/// A command to the playback worker.
#[derive(Clone, Debug, PartialEq)]
pub enum AudioCommand {
    /// Play a composition built from the parameters, for so many bars.
    Play(MusicalParams, usize),
    /// Clear the status flag; an in-flight engine call is not interrupted.
    Stop,
    /// Flag-only pause.
    Pause,
    /// Flag-only resume.
    Resume,
    /// Store a new volume (thousandths).
    SetVolume(u32),
    /// Export a composition to a file; the format name is matched without
    /// case, unknown names falling back to wav.
    Export { path: String, format: String, params: MusicalParams, bars: usize },
}

/// An event the playback worker emits for polling consumers.
#[derive(Clone, Debug, PartialEq)]
pub enum AudioEvent {
    Playing,
    Stopped,
    Paused,
    Resumed,
    Error(String),
    ExportStarted,
    /// Export progress as thousandths of the whole.
    ExportProgress(u32),
    ExportComplete(String),
}

/// The lifecycle phase of the playback worker.
#[derive(Clone, Copy, Debug, PartialEq, Eq)]
pub enum PlaybackState {
    Idle,
    Playing,
    Paused,
    Exporting,
}

/// A call the worker must make into the external audio engine.
#[derive(Clone, Debug, PartialEq)]
pub enum EngineRequest {
    /// Build a composition from the parameters and play it; blocks for the
    /// duration of playback.
    Play { params: MusicalParams, bars: usize },
    /// Build the same composition and write it to the path in the given
    /// format.
    Export { path: String, format: ExportFormat, params: MusicalParams, bars: usize },
}

/// Everything a command asks the worker to do before any engine call: the
/// events to emit now, and the engine call to make, if any.
pub struct CommandEffect {
    pub events: Vec<AudioEvent>,
    pub request: Option<EngineRequest>,
}

/// The worker-side playback state: the lifecycle phase, the status flag
/// readable from other threads, and the stored volume (thousandths).
///
/// The state machine: `Idle -> Playing -> Idle` around each play call,
/// `Idle -> Exporting -> Idle` around each export, and flag-only moves to
/// `Paused` and back. There is no terminal state.
#[derive(Clone, Debug, PartialEq)]
pub struct PlaybackController {
    pub state: PlaybackState,
    pub is_playing: bool,
    pub volume: u32,
}

impl PlaybackController {
    /// A fresh controller: idle, not playing, volume at eight tenths.
    pub fn new() -> (c: PlaybackController)
        ensures
            c.state is Idle,
            !c.is_playing,
            c.volume == 800,
    {
        PlaybackController { state: PlaybackState::Idle, is_playing: false, volume: 800 }
    }

    /// Performs the pre-call effects of one command and says which engine
    /// call to make.
    ///
    /// Play and export hand the parameters on to the engine request
    /// unchanged; stop, pause and resume only move the state and the flag
    /// and emit their event; a new volume is stored silently.
    pub fn handle_command(&mut self, cmd: AudioCommand) -> (eff: CommandEffect)
        ensures
            final(self).volume == match cmd {
                AudioCommand::SetVolume(v) => v,
                _ => old(self).volume,
            },
            cmd matches AudioCommand::Play(params, bars) ==> {
                &&& final(self).state is Playing
                &&& final(self).is_playing
                &&& eff.events@ == seq![AudioEvent::Playing]
                &&& eff.request == Some(EngineRequest::Play { params, bars })
            },
            cmd is Stop ==> {
                &&& final(self).state is Idle
                &&& !final(self).is_playing
                &&& eff.events@ == seq![AudioEvent::Stopped]
                &&& eff.request is None
            },
            cmd is Pause ==> {
                &&& final(self).state is Paused
                &&& !final(self).is_playing
                &&& eff.events@ == seq![AudioEvent::Paused]
                &&& eff.request is None
            },
            cmd is Resume ==> {
                &&& final(self).state is Playing
                &&& final(self).is_playing
                &&& eff.events@ == seq![AudioEvent::Resumed]
                &&& eff.request is None
            },
            cmd matches AudioCommand::SetVolume(v) ==> {
                &&& final(self).state == old(self).state
                &&& final(self).is_playing == old(self).is_playing
                &&& eff.events@ == Seq::<AudioEvent>::empty()
                &&& eff.request is None
            },
            cmd matches AudioCommand::Export { path, format, params, bars } ==> {
                &&& final(self).state is Exporting
                &&& final(self).is_playing == old(self).is_playing
                &&& eff.events@ == seq![AudioEvent::ExportStarted]
                &&& eff.request == Some(
                    EngineRequest::Export {
                        path,
                        format: format_spec(vstd::utf8::encode_utf8(format@)),
                        params,
                        bars,
                    },
                )
            },
    {
        match cmd {
            AudioCommand::Play(params, bars) => {
                self.state = PlaybackState::Playing;
                self.is_playing = true;
                let events: Vec<AudioEvent> = vec![AudioEvent::Playing];
                proof {
                    assert(events@ =~= seq![AudioEvent::Playing]);
                }
                CommandEffect { events, request: Some(EngineRequest::Play { params, bars }) }
            },
            AudioCommand::Stop => {
                self.state = PlaybackState::Idle;
                self.is_playing = false;
                let events: Vec<AudioEvent> = vec![AudioEvent::Stopped];
                proof {
                    assert(events@ =~= seq![AudioEvent::Stopped]);
                }
                CommandEffect { events, request: None }
            },
            AudioCommand::Pause => {
                self.state = PlaybackState::Paused;
                self.is_playing = false;
                let events: Vec<AudioEvent> = vec![AudioEvent::Paused];
                proof {
                    assert(events@ =~= seq![AudioEvent::Paused]);
                }
                CommandEffect { events, request: None }
            },
            AudioCommand::Resume => {
                self.state = PlaybackState::Playing;
                self.is_playing = true;
                let events: Vec<AudioEvent> = vec![AudioEvent::Resumed];
                proof {
                    assert(events@ =~= seq![AudioEvent::Resumed]);
                }
                CommandEffect { events, request: None }
            },
            AudioCommand::SetVolume(v) => {
                self.volume = v;
                CommandEffect { events: Vec::new(), request: None }
            },
            AudioCommand::Export { path, format, params, bars } => {
                self.state = PlaybackState::Exporting;
                let parsed = parse_export_format(format.as_str());
                let events: Vec<AudioEvent> = vec![AudioEvent::ExportStarted];
                proof {
                    assert(events@ =~= seq![AudioEvent::ExportStarted]);
                }
                CommandEffect {
                    events,
                    request: Some(
                        EngineRequest::Export { path, format: parsed, params, bars },
                    ),
                }
            },
        }
    }

    /// Performs the effects of a finished engine call.
    ///
    /// A finished play call returns the worker to idle and clears the flag,
    /// emitting `Stopped` on success and `Error` on failure; a finished
    /// export returns to idle without touching the flag, emitting
    /// `ExportComplete` with the path on success and `Error` on failure.
    pub fn handle_engine_result(
        &mut self,
        req: EngineRequest,
        outcome: Result<(), String>,
    ) -> (events: Vec<AudioEvent>)
        ensures
            final(self).volume == old(self).volume,
            final(self).state is Idle,
            req is Play ==> !final(self).is_playing,
            req is Export ==> final(self).is_playing == old(self).is_playing,
            req is Play ==> events@ == match outcome {
                Ok(_) => seq![AudioEvent::Stopped],
                Err(e) => seq![AudioEvent::Error(e)],
            },
            req matches EngineRequest::Export { path, .. } ==> events@ == match outcome {
                Ok(_) => seq![AudioEvent::ExportComplete(path)],
                Err(e) => seq![AudioEvent::Error(e)],
            },
    {
        self.state = PlaybackState::Idle;
        match req {
            EngineRequest::Play { .. } => {
                self.is_playing = false;
                let events: Vec<AudioEvent> = match outcome {
                    Ok(_) => vec![AudioEvent::Stopped],
                    Err(e) => vec![AudioEvent::Error(e)],
                };
                events
            },
            EngineRequest::Export { path, .. } => {
                let events: Vec<AudioEvent> = match outcome {
                    Ok(_) => vec![AudioEvent::ExportComplete(path)],
                    Err(e) => vec![AudioEvent::Error(e)],
                };
                events
            },
        }
    }
}

} // verus!
