//! The capture session: an explicitly owned recording state with its
//! accumulation buffer, its last level reading and its silence timer.
//!
//! The session opens no stream itself. Its owner opens and closes the stream
//! as the session's state says, and feeds the session every frame that the
//! stream delivers.

use crate::audio::processing::{tracker_after, Frame, SilenceConfig, SilenceTracker};
use crate::audio::AudioLevelInfo;
use crate::keyboard::hotkey::{
    ActivationMode, CaptureRequest, HotkeyConfig, HotkeyEvent, HotkeyState,
};
use vstd::prelude::*;
use vstd::string::StringExecFns;

verus! {

#[derive(Debug, Clone, PartialEq, Eq)]
pub enum CaptureError {
    /// The backend could not open the stream.
    StartError(String),
    /// The backend could not close the stream.
    StopError(String),
    /// A stop was asked of a session that is not recording.
    NotActive,
    /// A start was asked of a session that is recording.
    AlreadyActive,
}

impl CaptureError {
    pub open spec fn message_spec(self) -> Seq<char> {
        match self {
            CaptureError::StartError(detail) => "Failed to start audio capture: "@ + detail@,
            CaptureError::StopError(detail) => "Failed to stop audio capture: "@ + detail@,
            CaptureError::NotActive => "Audio capture not active"@,
            CaptureError::AlreadyActive => "Audio capture already active"@,
        }
    }

    /// The text shown to the user.
    pub fn message(&self) -> (text: String)
        ensures
            text@ == self.message_spec(),
    {
        match self {
            CaptureError::StartError(detail) => String::from_str(
                "Failed to start audio capture: ",
            ).concat(detail.as_str()),
            CaptureError::StopError(detail) => String::from_str(
                "Failed to stop audio capture: ",
            ).concat(detail.as_str()),
            CaptureError::NotActive => String::from_str("Audio capture not active"),
            CaptureError::AlreadyActive => String::from_str("Audio capture already active"),
        }
    }
}

#[derive(Debug, Clone, Copy, PartialEq, Eq, Structural)]
pub enum CaptureState {
    Idle,
    Recording,
}

/// The characters of an optional string.
pub open spec fn text_of(text: Option<String>) -> Option<Seq<char>> {
    match text {
        Some(text) => Some(text@),
        None => None,
    }
}

/// What a session is, as its contracts see it.
pub struct SessionView {
    pub state: CaptureState,
    /// The bytes captured since the last start.
    pub buffer: Seq<u8>,
    /// The last reading taken while recording.
    pub level: AudioLevelInfo,
    /// The device that the last start asked for; `None` is the default one.
    pub device: Option<Seq<char>>,
    pub silence_config: SilenceConfig,
    pub silence: SilenceTracker,
}

impl SessionView {
    /// An idle session holds no captured bytes and no running silence timer.
    pub open spec fn wf(self) -> bool {
        self.state == CaptureState::Idle ==> self.buffer.len() == 0 && self.silence
            == SilenceTracker::fresh()
    }

    /// A new session: idle, empty, with the quiet reading.
    pub open spec fn initial(silence_config: SilenceConfig) -> Self {
        SessionView {
            state: CaptureState::Idle,
            buffer: Seq::empty(),
            level: AudioLevelInfo::quiet(),
            device: None,
            silence_config,
            silence: SilenceTracker::fresh(),
        }
    }

    pub open spec fn is_recording(self) -> bool {
        self.state == CaptureState::Recording
    }

    /// A start is refused by a session that is recording.
    pub open spec fn refuses_start(self) -> bool {
        self.is_recording()
    }

    /// A stop is refused by a session that is not recording.
    pub open spec fn refuses_stop(self) -> bool {
        !self.is_recording()
    }

    /// The session after a start that was accepted. The level stays.
    pub open spec fn started(self, device: Option<Seq<char>>) -> Self {
        SessionView {
            state: CaptureState::Recording,
            buffer: Seq::empty(),
            level: self.level,
            device,
            silence_config: self.silence_config,
            silence: SilenceTracker::fresh(),
        }
    }

    /// The session after its recording ended, by a stop, a discard or a
    /// failure of the backend. The level stays.
    pub open spec fn ended(self) -> Self {
        SessionView {
            state: CaptureState::Idle,
            buffer: Seq::empty(),
            level: self.level,
            device: self.device,
            silence_config: self.silence_config,
            silence: SilenceTracker::fresh(),
        }
    }

    /// The session after one frame of the stream. An idle session takes no
    /// notice of it.
    pub open spec fn heard(self, bytes: Seq<u8>, level: AudioLevelInfo, frame: Frame) -> Self {
        if self.is_recording() {
            SessionView {
                state: CaptureState::Recording,
                buffer: self.buffer + bytes,
                level,
                device: self.device,
                silence_config: self.silence_config,
                silence: self.silence.observed(self.silence_config, frame),
            }
        } else {
            self
        }
    }

    /// The session after all of `frames`, heard in this order with the same
    /// bytes and reading each.
    pub open spec fn heard_all(self, bytes: Seq<u8>, level: AudioLevelInfo, frames: Seq<Frame>) -> Self
        decreases frames.len(),
    {
        if frames.len() == 0 {
            self
        } else {
            self.heard_all(bytes, level, frames.drop_last()).heard(bytes, level, frames.last())
        }
    }

    /// Whether `frame` makes a recording session suggest a stop.
    pub open spec fn suggests_stop(self, frame: Frame) -> bool {
        self.is_recording() && self.silence.stop_due(self.silence_config, frame)
    }

    /// The session after its owner has carried out `request`.
    pub open spec fn fulfilled(self, request: CaptureRequest, device: Option<Seq<char>>) -> Self {
        match request {
            CaptureRequest::Nothing => self,
            CaptureRequest::Start => if self.is_recording() {
                self
            } else {
                self.started(device)
            },
            CaptureRequest::Stop => if self.is_recording() {
                self.ended()
            } else {
                self
            },
            CaptureRequest::Discard => if self.is_recording() {
                self.ended()
            } else {
                self
            },
        }
    }
}

/// One recording session. Construct it once and hand it to whoever drives
/// the recording.
pub struct CaptureSession {
    state: CaptureState,
    buffer: Vec<u8>,
    level: AudioLevelInfo,
    device: Option<String>,
    silence_config: SilenceConfig,
    silence: SilenceTracker,
}

impl View for CaptureSession {
    type V = SessionView;

    closed spec fn view(&self) -> SessionView {
        SessionView {
            state: self.state,
            buffer: self.buffer@,
            level: self.level,
            device: text_of(self.device),
            silence_config: self.silence_config,
            silence: self.silence,
        }
    }
}

impl CaptureSession {
    pub fn new(silence_config: SilenceConfig) -> (session: Self)
        ensures
            session@ == SessionView::initial(silence_config),
            session@.wf(),
    {
        CaptureSession {
            state: CaptureState::Idle,
            buffer: Vec::new(),
            level: AudioLevelInfo::default(),
            device: None,
            silence_config,
            silence: SilenceTracker::new(),
        }
    }

    pub fn state(&self) -> (state: CaptureState)
        ensures
            state == self@.state,
    {
        self.state
    }

    pub fn is_recording(&self) -> (recording: bool)
        ensures
            recording == self@.is_recording(),
    {
        match self.state {
            CaptureState::Recording => true,
            CaptureState::Idle => false,
        }
    }

    /// How many bytes the running recording has captured so far.
    pub fn buffered_len(&self) -> (len: usize)
        ensures
            len == self@.buffer.len(),
    {
        self.buffer.len()
    }

    /// The device that the last start asked for.
    pub fn device(&self) -> (device: &Option<String>)
        ensures
            text_of(*device) == self@.device,
    {
        &self.device
    }
}

/// Starts a recording on `device_id`, or on the default device. A session
/// that is already recording refuses and stays as it is.
pub fn start(session: &mut CaptureSession, device_id: Option<String>) -> (result: Result<
    (),
    CaptureError,
>)
    ensures
        old(session)@.refuses_start() ==> result == Err::<(), CaptureError>(
            CaptureError::AlreadyActive,
        ) && final(session)@ == old(session)@,
        !old(session)@.refuses_start() ==> result is Ok && final(session)@
            == old(session)@.started(text_of(device_id)),
{
    if session.is_recording() {
        return Err(CaptureError::AlreadyActive);
    }
    session.buffer.clear();
    session.silence = SilenceTracker::new();
    session.device = device_id;
    session.state = CaptureState::Recording;
    Ok(())
}

/// Stops the recording and hands out everything it captured; the session
/// keeps none of it. A session that is not recording refuses.
pub fn stop(session: &mut CaptureSession) -> (result: Result<Vec<u8>, CaptureError>)
    ensures
        old(session)@.refuses_stop() ==> result == Err::<Vec<u8>, CaptureError>(
            CaptureError::NotActive,
        ) && final(session)@ == old(session)@,
        !old(session)@.refuses_stop() ==> result is Ok && result->Ok_0@ == old(session)@.buffer
            && final(session)@ == old(session)@.ended(),
{
    if !session.is_recording() {
        return Err(CaptureError::NotActive);
    }
    let mut captured: Vec<u8> = Vec::new();
    std::mem::swap(&mut session.buffer, &mut captured);
    session.silence = SilenceTracker::new();
    session.state = CaptureState::Idle;
    Ok(captured)
}

/// Ends the recording and throws away what it captured. Returns whether
/// there was a recording to end.
pub fn discard(session: &mut CaptureSession) -> (ended: bool)
    ensures
        ended == old(session)@.is_recording(),
        ended ==> final(session)@ == old(session)@.ended(),
        !ended ==> final(session)@ == old(session)@,
{
    if !session.is_recording() {
        return false;
    }
    session.buffer.clear();
    session.silence = SilenceTracker::new();
    session.state = CaptureState::Idle;
    true
}

/// The stream of a session that was just started could not be opened: the
/// session is idle again, and the error to report is returned.
pub fn fail_start(session: &mut CaptureSession, reason: String) -> (error: CaptureError)
    ensures
        error == CaptureError::StartError(reason),
        old(session)@.is_recording() ==> final(session)@ == old(session)@.ended(),
        !old(session)@.is_recording() ==> final(session)@ == old(session)@,
{
    discard(session);
    CaptureError::StartError(reason)
}

/// The latest level reading. It outlives the recording that took it.
pub fn get_level(session: &CaptureSession) -> (level: AudioLevelInfo)
    ensures
        level == session@.level,
{
    session.level
}

/// Takes one frame of the stream: its bytes, its level reading, and when it
/// was heard and whether it was silent. A recording session appends the
/// bytes, keeps the reading and advances its silence timer; the result says
/// whether the silence has lasted long enough to suggest a stop, which is
/// left to the owner. An idle session ignores the frame.
pub fn record_frame(
    session: &mut CaptureSession,
    bytes: &[u8],
    level: AudioLevelInfo,
    frame: Frame,
) -> (stop_suggested: bool)
    ensures
        final(session)@ == old(session)@.heard(bytes@, level, frame),
        stop_suggested == old(session)@.suggests_stop(frame),
{
    if !session.is_recording() {
        return false;
    }
    session.buffer.extend_from_slice(bytes);
    session.level = level;
    let config = session.silence_config;
    let stop_suggested = session.silence.observe(&config, frame);
    assert(session.buffer@ == old(session).buffer@ + bytes@);
    assert(session.silence == old(session).silence.observed(config, frame));
    stop_suggested
}

/// What came of a request to the session.
#[derive(Debug, Clone, PartialEq, Eq)]
pub enum CaptureOutcome {
    Unchanged,
    Started,
    /// The recording ended; its audio goes on to transcription.
    Finished(Vec<u8>),
    /// The recording ended and its audio is gone.
    Discarded,
    /// The request did not fit the state of the session.
    Refused(CaptureError),
}

/// Whether the hotkey machine and the session agree on there being a
/// recording.
pub open spec fn in_step(hotkey: HotkeyState, session: SessionView) -> bool {
    hotkey.is_recording == session.is_recording()
}

/// Carries out on the session what the hotkey machine asked for. A stop
/// hands the captured audio out; a discard hands out nothing, and on a
/// session without a recording it is no error.
pub fn fulfil(session: &mut CaptureSession, request: CaptureRequest, device_id: Option<String>) -> (outcome:
    CaptureOutcome)
    ensures
        final(session)@ == old(session)@.fulfilled(request, text_of(device_id)),
        match request {
            CaptureRequest::Nothing => outcome == CaptureOutcome::Unchanged,
            CaptureRequest::Start => if old(session)@.refuses_start() {
                outcome == CaptureOutcome::Refused(CaptureError::AlreadyActive)
            } else {
                outcome == CaptureOutcome::Started
            },
            CaptureRequest::Stop => if old(session)@.refuses_stop() {
                outcome == CaptureOutcome::Refused(CaptureError::NotActive)
            } else {
                outcome is Finished && outcome->Finished_0@ == old(session)@.buffer
            },
            CaptureRequest::Discard => if old(session)@.is_recording() {
                outcome == CaptureOutcome::Discarded
            } else {
                outcome == CaptureOutcome::Unchanged
            },
        },
{
    match request {
        CaptureRequest::Nothing => CaptureOutcome::Unchanged,
        CaptureRequest::Start => match start(session, device_id) {
            Ok(()) => CaptureOutcome::Started,
            Err(error) => CaptureOutcome::Refused(error),
        },
        CaptureRequest::Stop => match stop(session) {
            Ok(captured) => CaptureOutcome::Finished(captured),
            Err(error) => CaptureOutcome::Refused(error),
        },
        CaptureRequest::Discard => if discard(session) {
            CaptureOutcome::Discarded
        } else {
            CaptureOutcome::Unchanged
        },
    }
}

/// Feeds one key event to the hotkey machine and carries out on the session
/// what the machine asks for. While the two agree on there being a
/// recording, they still agree afterwards and nothing is refused.
pub fn dispatch(
    hotkey: &mut HotkeyState,
    session: &mut CaptureSession,
    config: &HotkeyConfig,
    event: HotkeyEvent,
    now_ms: u64,
    device_id: Option<String>,
) -> (outcome: CaptureOutcome)
    ensures
        *final(hotkey) == old(hotkey).step(config.mode, config.confirm_delay_ms, event, now_ms).0,
        final(session)@ == old(session)@.fulfilled(
            old(hotkey).step(config.mode, config.confirm_delay_ms, event, now_ms).1,
            text_of(device_id),
        ),
        in_step(*old(hotkey), old(session)@) ==> in_step(*final(hotkey), final(session)@) && (
        match old(hotkey).step(config.mode, config.confirm_delay_ms, event, now_ms).1 {
            CaptureRequest::Nothing => outcome == CaptureOutcome::Unchanged,
            CaptureRequest::Start => outcome == CaptureOutcome::Started,
            CaptureRequest::Stop => outcome is Finished && outcome->Finished_0@
                == old(session)@.buffer,
            CaptureRequest::Discard => outcome == CaptureOutcome::Discarded,
        }),
{
    let request = hotkey.handle_event(config, event, now_ms);
    fulfil(session, request, device_id)
}

/// Every operation keeps a session well formed: an idle session holds no
/// captured bytes and no running silence timer.
pub proof fn operations_keep_session_well_formed(
    session: SessionView,
    device: Option<Seq<char>>,
    bytes: Seq<u8>,
    level: AudioLevelInfo,
    frame: Frame,
    request: CaptureRequest,
)
    requires
        session.wf(),
    ensures
        session.started(device).wf(),
        session.ended().wf(),
        session.heard(bytes, level, frame).wf(),
        session.fulfilled(request, device).wf(),
{
}

/// The lifecycle is guarded. A session that was started refuses a second
/// start and accepts a stop, which leaves it idle and empty; a session that
/// was stopped, and a new one, refuse a stop and accept a start.
pub proof fn lifecycle_is_guarded(
    session: SessionView,
    device: Option<Seq<char>>,
    silence_config: SilenceConfig,
)
    ensures
        session.started(device).refuses_start(),
        !session.started(device).refuses_stop(),
        session.started(device).ended().state == CaptureState::Idle,
        session.started(device).ended().buffer.len() == 0,
        session.ended().refuses_stop(),
        !session.ended().refuses_start(),
        SessionView::initial(silence_config).refuses_stop(),
        !SessionView::initial(silence_config).refuses_start(),
{
}

/// The level reading is only replaced by a frame heard while recording:
/// starting, ending and a frame that reaches an idle session leave it alone.
pub proof fn level_changes_only_while_recording(
    session: SessionView,
    device: Option<Seq<char>>,
    bytes: Seq<u8>,
    level: AudioLevelInfo,
    frame: Frame,
    request: CaptureRequest,
)
    ensures
        session.started(device).level == session.level,
        session.ended().level == session.level,
        session.fulfilled(request, device).level == session.level,
        !session.is_recording() ==> session.heard(bytes, level, frame) == session,
        session.is_recording() ==> session.heard(bytes, level, frame).level == level,
{
}

/// While the hotkey machine and the session agree on there being a
/// recording, no event makes the machine ask for something that the session
/// refuses, and carrying the request out keeps the two in agreement.
pub proof fn machine_and_session_stay_in_step(
    hotkey: HotkeyState,
    session: SessionView,
    mode: ActivationMode,
    delay_ms: u64,
    event: HotkeyEvent,
    now_ms: u64,
    device: Option<Seq<char>>,
)
    requires
        in_step(hotkey, session),
    ensures
        ({
            let (next, request) = hotkey.step(mode, delay_ms, event, now_ms);
            &&& request == CaptureRequest::Start ==> !session.refuses_start()
            &&& request == CaptureRequest::Stop ==> !session.refuses_stop()
            &&& request == CaptureRequest::Discard ==> session.is_recording()
            &&& in_step(next, session.fulfilled(request, device))
        }),
{
}

/// Escape during a recording: the machine asks for a discard and never for
/// a stop, so nothing is handed onward; the session is idle and empty
/// afterwards, and the machine is idle too.
pub proof fn cancel_while_recording_discards(
    hotkey: HotkeyState,
    session: SessionView,
    mode: ActivationMode,
    delay_ms: u64,
    now_ms: u64,
    device: Option<Seq<char>>,
)
    requires
        in_step(hotkey, session),
        session.is_recording(),
    ensures
        ({
            let (next, request) = hotkey.step(mode, delay_ms, HotkeyEvent::Cancel, now_ms);
            let after = session.fulfilled(request, device);
            &&& request == CaptureRequest::Discard
            &&& after.state == CaptureState::Idle
            &&& after.buffer.len() == 0
            &&& !next.is_recording
        }),
{
}

/// The silence timer of a session is the timer of the frames heard since
/// the start: after a start and any frames, the session is still recording
/// and its timer is the one that those frames, from a fresh start, lead to.
/// So the session suggests a stop exactly when the frames end in an
/// unbroken, long enough stretch of silence.
pub proof fn session_timer_follows_frames(
    session: SessionView,
    device: Option<Seq<char>>,
    bytes: Seq<u8>,
    level: AudioLevelInfo,
    frames: Seq<Frame>,
)
    ensures
        session.started(device).heard_all(bytes, level, frames).is_recording(),
        session.started(device).heard_all(bytes, level, frames).silence_config
            == session.silence_config,
        session.started(device).heard_all(bytes, level, frames).silence == tracker_after(
            session.silence_config,
            frames,
        ),
    decreases frames.len(),
{
    if frames.len() > 0 {
        session_timer_follows_frames(session, device, bytes, level, frames.drop_last());
    }
}

} // verus!
