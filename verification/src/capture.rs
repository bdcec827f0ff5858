//! The capture session handler: the bridge between the capture runtime's
//! callbacks and the encoder and the stop signal. The handler here is the
//! decision core. It validates the settings bundle, owns the encoder's
//! lifecycle (open, then finalized at most once), and decides on each
//! delivered frame what the driver must do: forward the frame, or forward
//! it, finalize the encoder and ask the session to stop. The driver around
//! the library performs those actions on the real encoder and session.

use vstd::prelude::*;
use crate::token::CancelToken;

verus! {

/// What the handler reads of the chosen monitor: its pixel size, which
/// sizes the video encoder.
#[derive(Clone, Copy, PartialEq, Eq, Structural)]
pub struct MonitorHandle {
    pub width: u32,
    pub height: u32,
}

/// The settings bundle the driver assembles and the handler consumes. The
/// handler requires all three entries; each may independently be absent.
pub struct SettingsBundle {
    pub output_path: Option<String>,
    pub monitor: Option<MonitorHandle>,
    pub stop_flag: Option<CancelToken>,
}

/// The encoder parameters the handler resolves from a complete bundle: a
/// video stream of the monitor's size, written to the output path. Audio is
/// always disabled and the container is the encoder's default.
pub struct EncoderConfig {
    pub width: u32,
    pub height: u32,
    pub output_path: String,
}

/// The encoder's lifecycle. A constructed handler holds it open; observing
/// the stop signal finalizes it, and nothing opens it again.
pub enum EncoderState {
    Open(EncoderConfig),
    Finalized,
}

/// The session's phase: capturing frames, stopping (the handler has asked
/// the runtime to end the session), or closed by the runtime.
#[derive(Clone, Copy, PartialEq, Eq, Structural, Debug)]
pub enum SessionPhase {
    Capturing,
    Stopping,
    Closed,
}

/// Which of the required settings keys were absent, each reported
/// independently.
#[derive(Clone, Copy, PartialEq, Eq, Structural, Debug)]
pub struct MissingKeys {
    pub output_path: bool,
    pub monitor: bool,
    pub stop_flag: bool,
}

/// What can go wrong inside the handler: an incomplete settings bundle at
/// construction, or a frame delivered after the encoder was finalized.
#[derive(Clone, Copy, PartialEq, Eq, Structural, Debug)]
pub enum CaptureError {
    MissingSettings(MissingKeys),
    EncoderAbsent,
}

/// What the driver must do with a delivered frame: forward it to the
/// encoder and keep capturing, or forward it, then finalize the encoder and
/// request that the capture session stop, in that order.
#[derive(Clone, Copy, PartialEq, Eq, Structural, Debug)]
pub enum FrameDisposition {
    Forwarded,
    ForwardedAndFinalized,
}

/// The capture session handler.
pub struct CaptureHandler {
    pub encoder: EncoderState,
    pub phase: SessionPhase,
    pub stop_flag: CancelToken,
}

/// A bundle is complete when all three required entries are present.
pub open spec fn bundle_complete(b: SettingsBundle) -> bool {
    b.output_path is Some && b.monitor is Some && b.stop_flag is Some
}

/// The keys an incomplete bundle is missing.
pub open spec fn spec_missing_keys(b: SettingsBundle) -> MissingKeys {
    MissingKeys {
        output_path: b.output_path is None,
        monitor: b.monitor is None,
        stop_flag: b.stop_flag is None,
    }
}

/// The encoder parameters a complete bundle resolves to.
pub open spec fn spec_encoder_config(b: SettingsBundle) -> EncoderConfig {
    EncoderConfig {
        width: b.monitor->Some_0.width,
        height: b.monitor->Some_0.height,
        output_path: b.output_path->Some_0,
    }
}

/// The handler a complete bundle constructs: encoder open, session
/// capturing, holding the bundle's stop token.
pub open spec fn spec_new_handler(b: SettingsBundle) -> CaptureHandler {
    CaptureHandler {
        encoder: EncoderState::Open(spec_encoder_config(b)),
        phase: SessionPhase::Capturing,
        stop_flag: b.stop_flag->Some_0,
    }
}

/// One frame-arrival step of the handler, as a function of the handler and
/// the observed stop condition. While the encoder is open the frame is
/// forwarded, and if the stop condition was observed the encoder is
/// finalized and the session asked to stop; once finalized, every further
/// frame is refused.
pub open spec fn spec_frame_step(h: CaptureHandler, stop: bool) -> (CaptureHandler, Result<
    FrameDisposition,
    CaptureError,
>) {
    match h.encoder {
        EncoderState::Open(_) => {
            if stop {
                (
                    CaptureHandler {
                        encoder: EncoderState::Finalized,
                        phase: SessionPhase::Stopping,
                        ..h
                    },
                    Ok(FrameDisposition::ForwardedAndFinalized),
                )
            } else {
                (h, Ok(FrameDisposition::Forwarded))
            }
        },
        EncoderState::Finalized => (h, Err(CaptureError::EncoderAbsent)),
    }
}

/// Whether a step's result forwarded a frame to the encoder.
pub open spec fn is_forward(r: Result<FrameDisposition, CaptureError>) -> bool {
    r == Ok::<FrameDisposition, CaptureError>(FrameDisposition::Forwarded) || r == Ok::<
        FrameDisposition,
        CaptureError,
    >(FrameDisposition::ForwardedAndFinalized)
}

/// Whether a step's result finalized the encoder (and requested the stop).
pub open spec fn is_finalize(r: Result<FrameDisposition, CaptureError>) -> bool {
    r == Ok::<FrameDisposition, CaptureError>(FrameDisposition::ForwardedAndFinalized)
}

/// The handler run over a whole sequence of frame arrivals, each with its
/// observed stop condition: the final handler and the trace of results.
pub open spec fn spec_run(h: CaptureHandler, events: Seq<bool>) -> (CaptureHandler, Seq<
    Result<FrameDisposition, CaptureError>,
>)
    decreases events.len(),
{
    if events.len() == 0 {
        (h, Seq::empty())
    } else {
        let step = spec_frame_step(h, events[0]);
        let rest = spec_run(step.0, events.drop_first());
        (rest.0, seq![step.1] + rest.1)
    }
}

/// How many steps of a trace finalized the encoder.
pub open spec fn count_finalizes(trace: Seq<Result<FrameDisposition, CaptureError>>) -> int
    decreases trace.len(),
{
    if trace.len() == 0 {
        0
    } else {
        (if is_finalize(trace[0]) {
            1int
        } else {
            0int
        }) + count_finalizes(trace.drop_first())
    }
}

/// Law: a handler whose encoder is already finalized never touches it
/// again. Every further frame is refused with `EncoderAbsent`, nothing is
/// forwarded, nothing is finalized, and the handler does not change.
pub proof fn lemma_finalized_handler_rejects_frames(h: CaptureHandler, events: Seq<bool>)
    requires
        h.encoder is Finalized,
    ensures
        spec_run(h, events).0 == h,
        spec_run(h, events).1.len() == events.len(),
        forall|i: int| 0 <= i < events.len() ==> spec_run(h, events).1[i] == Err::<
            FrameDisposition,
            CaptureError,
        >(CaptureError::EncoderAbsent),
        count_finalizes(spec_run(h, events).1) == 0,
    decreases events.len(),
{
    if events.len() > 0 {
        let trace = spec_run(h, events).1;
        let rest = spec_run(h, events.drop_first()).1;
        lemma_finalized_handler_rejects_frames(h, events.drop_first());
        assert forall|i: int| 0 <= i < events.len() implies trace[i] == Err::<
            FrameDisposition,
            CaptureError,
        >(CaptureError::EncoderAbsent) by {
            if i > 0 {
                assert(trace[i] == rest[i - 1]);
            }
        }
        assert(trace.drop_first() =~= rest);
    }
}

/// Law: over any run of frame arrivals, whatever the observed stop
/// conditions, the handler finalizes the encoder at most once, and no frame
/// is forwarded to the encoder after the step that finalized it.
pub proof fn lemma_finalize_at_most_once(h: CaptureHandler, events: Seq<bool>)
    ensures
        spec_run(h, events).1.len() == events.len(),
        count_finalizes(spec_run(h, events).1) <= 1,
        forall|i: int, j: int|
            0 <= i < j < events.len() && is_finalize(spec_run(h, events).1[i]) ==> !is_forward(
                spec_run(h, events).1[j],
            ),
    decreases events.len(),
{
    if events.len() == 0 {
        return ;
    }
    let trace = spec_run(h, events).1;
    let step = spec_frame_step(h, events[0]);
    let rest = spec_run(step.0, events.drop_first()).1;
    assert(trace.drop_first() =~= rest);
    if h.encoder is Finalized {
        lemma_finalized_handler_rejects_frames(h, events);
    } else if events[0] {
        lemma_finalized_handler_rejects_frames(step.0, events.drop_first());
        assert forall|i: int, j: int|
            0 <= i < j < events.len() && is_finalize(trace[i]) implies !is_forward(trace[j]) by {
            assert(trace[j] == rest[j - 1]);
        }
    } else {
        lemma_finalize_at_most_once(step.0, events.drop_first());
        assert(!is_finalize(trace[0]));
        assert forall|i: int, j: int|
            0 <= i < j < events.len() && is_finalize(trace[i]) implies !is_forward(trace[j]) by {
            assert(trace[i] == rest[i - 1]);
            assert(trace[j] == rest[j - 1]);
        }
    }
}

/// Law: a capturing handler fed frame arrivals whose stop observations stay
/// false until the last one, which is true, forwards exactly one frame per
/// arrival, finalizes the encoder on the last one and only there, and ends
/// with the encoder finalized and the session stopping.
pub proof fn lemma_run_until_stop(h: CaptureHandler, events: Seq<bool>)
    requires
        h.encoder is Open,
        events.len() > 0,
        forall|i: int| 0 <= i < events.len() - 1 ==> !events[i],
        events[events.len() - 1],
    ensures
        spec_run(h, events).1.len() == events.len(),
        forall|i: int| 0 <= i < events.len() - 1 ==> spec_run(h, events).1[i] == Ok::<
            FrameDisposition,
            CaptureError,
        >(FrameDisposition::Forwarded),
        spec_run(h, events).1[events.len() - 1] == Ok::<FrameDisposition, CaptureError>(
            FrameDisposition::ForwardedAndFinalized,
        ),
        spec_run(h, events).0.encoder is Finalized,
        spec_run(h, events).0.phase is Stopping,
    decreases events.len(),
{
    let trace = spec_run(h, events).1;
    let step = spec_frame_step(h, events[0]);
    let rest = spec_run(step.0, events.drop_first()).1;
    if events.len() == 1 {
        assert(trace.len() == 1);
    } else {
        assert(!events[0]);
        lemma_run_until_stop(step.0, events.drop_first());
        assert(trace.drop_first() =~= rest);
        assert forall|i: int| 0 <= i < events.len() - 1 implies trace[i] == Ok::<
            FrameDisposition,
            CaptureError,
        >(FrameDisposition::Forwarded) by {
            if i > 0 {
                assert(trace[i] == rest[i - 1]);
            }
        }
        assert(trace[events.len() - 1] == rest[events.len() - 2]);
    }
}

impl CaptureHandler {
    /// Builds the handler from the settings bundle. Construction succeeds
    /// exactly when all three required entries are present; otherwise it
    /// fails with the keys that were missing, and no encoder configuration
    /// is produced.
    pub fn new(bundle: SettingsBundle) -> (r: Result<CaptureHandler, CaptureError>)
        ensures
            r is Ok <==> bundle_complete(bundle),
            bundle_complete(bundle) ==> r == Ok::<CaptureHandler, CaptureError>(
                spec_new_handler(bundle),
            ),
            !bundle_complete(bundle) ==> r == Err::<CaptureHandler, CaptureError>(
                CaptureError::MissingSettings(spec_missing_keys(bundle)),
            ),
    {
        let SettingsBundle { output_path, monitor, stop_flag } = bundle;
        let missing = MissingKeys {
            output_path: output_path.is_none(),
            monitor: monitor.is_none(),
            stop_flag: stop_flag.is_none(),
        };
        match (output_path, monitor, stop_flag) {
            (Some(path), Some(mon), Some(flag)) => Ok(
                CaptureHandler {
                    encoder: EncoderState::Open(
                        EncoderConfig { width: mon.width, height: mon.height, output_path: path },
                    ),
                    phase: SessionPhase::Capturing,
                    stop_flag: flag,
                },
            ),
            _ => Err(CaptureError::MissingSettings(missing)),
        }
    }

    /// One frame arrival with the stop condition already observed, exactly
    /// [`spec_frame_step`]: the sentinel-file variant's driver polls the
    /// file and hands the poll's answer in as `stop`.
    pub fn frame_step(&mut self, stop: bool) -> (r: Result<FrameDisposition, CaptureError>)
        ensures
            (*final(self), r) == spec_frame_step(*old(self), stop),
    {
        let open = matches!(self.encoder, EncoderState::Open(_));
        if !open {
            Err(CaptureError::EncoderAbsent)
        } else if stop {
            self.encoder = EncoderState::Finalized;
            self.phase = SessionPhase::Stopping;
            Ok(FrameDisposition::ForwardedAndFinalized)
        } else {
            Ok(FrameDisposition::Forwarded)
        }
    }

    /// One frame arrival for the shared-flag variants: reads the stop token
    /// (a cross-thread value no contract can pin down) and takes one
    /// [`spec_frame_step`] with whatever it observed.
    pub fn on_frame_arrived(&mut self) -> (r: Result<FrameDisposition, CaptureError>)
        ensures
            exists|stop: bool| (*final(self), r) == spec_frame_step(*old(self), stop),
            old(self).encoder is Finalized ==> r == Err::<FrameDisposition, CaptureError>(
                CaptureError::EncoderAbsent,
            ) && *final(self) == *old(self),
            old(self).encoder is Open ==> r is Ok,
    {
        let stop = self.stop_flag.is_stop_requested();
        let r = self.frame_step(stop);
        proof {
            assert((*self, r) == spec_frame_step(*old(self), stop));
        }
        r
    }

    /// The runtime's close callback: the session is over. Nothing is left
    /// to release; the handler only records the phase.
    pub fn on_closed(&mut self)
        ensures
            final(self).phase == SessionPhase::Closed,
            final(self).encoder == old(self).encoder,
            final(self).stop_flag == old(self).stop_flag,
    {
        self.phase = SessionPhase::Closed;
    }

    /// Whether the encoder is still open, that is, still accepts frames.
    pub fn encoder_open(&self) -> (open: bool)
        ensures
            open <==> self.encoder is Open,
    {
        matches!(self.encoder, EncoderState::Open(_))
    }

    /// The encoder parameters, while the encoder is open.
    pub fn encoder_config(&self) -> (cfg: Option<&EncoderConfig>)
        ensures
            self.encoder matches EncoderState::Open(c) ==> cfg == Some(&c),
            self.encoder is Finalized ==> cfg is None,
    {
        match &self.encoder {
            EncoderState::Open(c) => Some(c),
            EncoderState::Finalized => None,
        }
    }

    /// The session's phase.
    pub fn phase(&self) -> (p: SessionPhase)
        ensures
            p == self.phase,
    {
        self.phase
    }
}

/// The report for one settings key that is absent or of the wrong type.
pub open spec fn spec_key_missing_message(key: Seq<char>) -> Seq<char> {
    "Key '"@ + key + "' not found or invalid"@
}

/// The report for the settings key named `key` when it is absent or of the
/// wrong type.
pub fn key_missing_message(key: &str) -> (s: String)
    ensures
        s@ == spec_key_missing_message(key@),
{
    let mut s = String::from_str("Key '");
    s.append(key);
    s.append("' not found or invalid");
    proof {
        assert(s@ =~= spec_key_missing_message(key@));
    }
    s
}

impl MissingKeys {
    /// The reports this carries, one per missing key, in the order the
    /// handler checks the keys: output path, monitor, stop flag.
    pub open spec fn spec_messages(self) -> Seq<Seq<char>> {
        (if self.output_path {
            seq![spec_key_missing_message("output_path"@)]
        } else {
            Seq::empty()
        }) + (if self.monitor {
            seq![spec_key_missing_message("monitor"@)]
        } else {
            Seq::empty()
        }) + (if self.stop_flag {
            seq![spec_key_missing_message("flag"@)]
        } else {
            Seq::empty()
        })
    }

    /// One report per missing key, for the driver to print.
    pub fn messages(&self) -> (v: Vec<String>)
        ensures
            v@.map_values(|m: String| m@) == self.spec_messages(),
    {
        let mut v: Vec<String> = Vec::new();
        if self.output_path {
            v.push(key_missing_message("output_path"));
        }
        if self.monitor {
            v.push(key_missing_message("monitor"));
        }
        if self.stop_flag {
            v.push(key_missing_message("flag"));
        }
        proof {
            assert(v@.map_values(|m: String| m@) =~= self.spec_messages());
        }
        v
    }
}

impl CaptureError {
    /// The diagnostic line for this error: an incomplete bundle fails the
    /// handler's construction outright; a frame after finalization finds no
    /// encoder to send to.
    pub fn describe(&self) -> (s: String)
        ensures
            self is MissingSettings ==> s@ == "Failed to initialize Capture"@,
            self is EncoderAbsent ==> s@ == "No encoder to send the frame to"@,
    {
        match self {
            CaptureError::MissingSettings(_) => String::from_str("Failed to initialize Capture"),
            CaptureError::EncoderAbsent => String::from_str("No encoder to send the frame to"),
        }
    }
}

/// The status line emitted when the stop condition is first observed.
pub fn stop_message() -> (s: String)
    ensures
        s@ == "Stop recording..."@,
{
    String::from_str("Stop recording...")
}

/// The status line emitted when the runtime closes the session.
pub fn closed_message() -> (s: String)
    ensures
        s@ == "Capture Session Closed"@,
{
    String::from_str("Capture Session Closed")
}

} // verus!
