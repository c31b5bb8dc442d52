//! The hotkey state machine: key events in, capture requests out.
//!
//! The machine never touches the audio backend. Every transition is a
//! function of the current state and one event, and yields the next state
//! together with the request that the owner of the capture session has to
//! carry out.

use vstd::prelude::*;

verus! {

/// How the trigger key arms a recording.
#[derive(Debug, Clone, Copy, PartialEq, Eq, Structural)]
pub enum ActivationMode {
    /// Hold to record, release to stop.
    Push,
    /// Press to start, press again to stop.
    Toggle,
}

/// The trigger key, its modifiers and the activation policy.
#[derive(Debug, Clone, PartialEq, Eq)]
pub struct HotkeyConfig {
    pub key: String,
    pub modifiers: Vec<String>,
    pub mode: ActivationMode,
    /// Push mode only: how long the key has to be held before the recording
    /// starts. Zero starts it with the press itself.
    pub confirm_delay_ms: u64,
}

impl Default for HotkeyConfig {
    fn default() -> (config: Self)
        ensures
            config.key@ == "Control"@,
            config.modifiers@.len() == 0,
            config.mode == ActivationMode::Push,
            config.confirm_delay_ms == 0,
    {
        HotkeyConfig {
            key: "Control".to_owned(),
            modifiers: Vec::new(),
            mode: ActivationMode::Push,
            confirm_delay_ms: 0,
        }
    }
}

/// What the keyboard listener reports.
#[derive(Debug, Clone, Copy, PartialEq, Eq, Structural)]
pub enum HotkeyEvent {
    /// The trigger key went down (or auto-repeated).
    Press,
    /// The trigger key went up.
    Release,
    /// Escape.
    Cancel,
    /// Time has passed; lets a held key reach its confirmation delay.
    Tick,
    /// The capture session has heard silence for its whole timeout.
    SilenceTimeout,
}

/// What the owner of the capture session is asked to do after an event.
#[derive(Debug, Clone, Copy, PartialEq, Eq, Structural)]
pub enum CaptureRequest {
    Nothing,
    /// Start capturing.
    Start,
    /// Stop capturing and hand the buffer onward.
    Stop,
    /// Stop capturing and throw the buffer away.
    Discard,
}

/// The three states of the machine, as read off a `HotkeyState`.
#[derive(Debug, Clone, Copy, PartialEq, Eq, Structural)]
pub enum HotkeyPhase {
    Idle,
    /// The key is held and waits for its confirmation delay.
    Pressed,
    Recording,
}

/// Milliseconds from `then` to `now`, zero where the clock went backwards.
pub open spec fn elapsed_ms(now: u64, then: u64) -> int {
    if now >= then {
        now - then
    } else {
        0
    }
}

/// State of one listener. Times are milliseconds on a clock of the caller's
/// choice.
#[derive(Debug, Clone, Copy, PartialEq, Eq)]
pub struct HotkeyState {
    pub is_pressed: bool,
    /// When the key went down, while that press can still start a recording.
    pub press_time: Option<u64>,
    pub is_recording: bool,
}

impl Default for HotkeyState {
    fn default() -> (state: Self)
        ensures
            state == HotkeyState::initial(),
    {
        HotkeyState { is_pressed: false, press_time: None, is_recording: false }
    }
}

impl HotkeyState {
    /// Nothing held, nothing recording.
    pub open spec fn initial() -> Self {
        HotkeyState { is_pressed: false, press_time: None, is_recording: false }
    }

    /// A press time is only kept for a key that is down.
    pub open spec fn wf(self) -> bool {
        self.press_time is Some ==> self.is_pressed
    }

    pub open spec fn phase(self) -> HotkeyPhase {
        if self.is_recording {
            HotkeyPhase::Recording
        } else if self.is_pressed && self.press_time is Some {
            HotkeyPhase::Pressed
        } else {
            HotkeyPhase::Idle
        }
    }

    /// The state after a key-down at `now_ms` that was not a repeat.
    pub open spec fn held(self, now_ms: u64) -> Self {
        HotkeyState { is_pressed: true, press_time: Some(now_ms), is_recording: self.is_recording }
    }

    /// The state after the key went up.
    pub open spec fn let_go(self) -> Self {
        HotkeyState { is_pressed: false, press_time: None, is_recording: self.is_recording }
    }

    /// The same keys, with the recording flag set to `recording`.
    pub open spec fn recording(self, recording: bool) -> Self {
        HotkeyState {
            is_pressed: self.is_pressed,
            press_time: self.press_time,
            is_recording: recording,
        }
    }

    /// The same key, unable to start a recording until it is pressed anew.
    pub open spec fn disarmed(self) -> Self {
        HotkeyState { is_pressed: self.is_pressed, press_time: None, is_recording: false }
    }

    /// Whether a held key has waited out `delay_ms` at `now_ms`.
    pub open spec fn confirmed(self, delay_ms: u64, now_ms: u64) -> bool {
        &&& self.phase() == HotkeyPhase::Pressed
        &&& elapsed_ms(now_ms, self.press_time->0) >= delay_ms
    }

    /// Push mode: the key arms on press, records while held, stops on release.
    pub open spec fn step_push(self, delay_ms: u64, event: HotkeyEvent, now_ms: u64) -> (
        HotkeyState,
        CaptureRequest,
    ) {
        match event {
            HotkeyEvent::Press => {
                if self.is_pressed {
                    (self, CaptureRequest::Nothing)
                } else if !self.is_recording && delay_ms == 0 {
                    (self.held(now_ms).recording(true), CaptureRequest::Start)
                } else {
                    (self.held(now_ms), CaptureRequest::Nothing)
                }
            },
            HotkeyEvent::Tick => {
                if self.confirmed(delay_ms, now_ms) {
                    (self.recording(true), CaptureRequest::Start)
                } else {
                    (self, CaptureRequest::Nothing)
                }
            },
            HotkeyEvent::Release => {
                if !self.is_pressed {
                    (self, CaptureRequest::Nothing)
                } else if self.is_recording {
                    (self.let_go().recording(false), CaptureRequest::Stop)
                } else {
                    (self.let_go(), CaptureRequest::Nothing)
                }
            },
            HotkeyEvent::Cancel => self.step_cancel(),
            HotkeyEvent::SilenceTimeout => self.step_silence(),
        }
    }

    /// Toggle mode: every press flips the recording; the held key is not
    /// tracked, so releases and the passing of time change nothing.
    pub open spec fn step_toggle(self, event: HotkeyEvent) -> (HotkeyState, CaptureRequest) {
        match event {
            HotkeyEvent::Press => {
                if self.is_recording {
                    (self.disarmed(), CaptureRequest::Stop)
                } else {
                    (self.disarmed().recording(true), CaptureRequest::Start)
                }
            },
            HotkeyEvent::Release => (self, CaptureRequest::Nothing),
            HotkeyEvent::Tick => (self, CaptureRequest::Nothing),
            HotkeyEvent::Cancel => self.step_cancel(),
            HotkeyEvent::SilenceTimeout => self.step_silence(),
        }
    }

    /// Escape, in either mode: a running recording is discarded, a waiting
    /// press is disarmed.
    pub open spec fn step_cancel(self) -> (HotkeyState, CaptureRequest) {
        if self.is_recording {
            (self.disarmed(), CaptureRequest::Discard)
        } else {
            (self.disarmed(), CaptureRequest::Nothing)
        }
    }

    /// Sustained silence, in either mode: a running recording is stopped and
    /// its buffer handed onward; a key that is still held starts nothing
    /// until it is pressed anew. Without a recording nothing changes.
    pub open spec fn step_silence(self) -> (HotkeyState, CaptureRequest) {
        if self.is_recording {
            (self.disarmed(), CaptureRequest::Stop)
        } else {
            (self, CaptureRequest::Nothing)
        }
    }

    /// The transition table: next state and request for one event.
    pub open spec fn step(
        self,
        mode: ActivationMode,
        delay_ms: u64,
        event: HotkeyEvent,
        now_ms: u64,
    ) -> (HotkeyState, CaptureRequest) {
        match mode {
            ActivationMode::Push => self.step_push(delay_ms, event, now_ms),
            ActivationMode::Toggle => self.step_toggle(event),
        }
    }

    /// The machine after all of `events`, each with the time at which it
    /// came, and the requests that it made on the way, one per event.
    pub open spec fn run(
        self,
        mode: ActivationMode,
        delay_ms: u64,
        events: Seq<(HotkeyEvent, u64)>,
    ) -> (HotkeyState, Seq<CaptureRequest>)
        decreases events.len(),
    {
        if events.len() == 0 {
            (self, Seq::empty())
        } else {
            let (state, requests) = self.run(mode, delay_ms, events.drop_last());
            let (next, request) = state.step(mode, delay_ms, events.last().0, events.last().1);
            (next, requests.push(request))
        }
    }

    /// Records a key-down at `now_ms`. A press while the key is already down
    /// is a repeat: it returns `false` and changes nothing.
    pub fn on_press(&mut self, now_ms: u64) -> (accepted: bool)
        ensures
            accepted == !old(self).is_pressed,
            accepted ==> *final(self) == old(self).held(now_ms),
            !accepted ==> *final(self) == *old(self),
    {
        if self.is_pressed {
            return false;
        }
        self.is_pressed = true;
        self.press_time = Some(now_ms);
        true
    }

    /// Records a key-up. A release of a key that is not down returns `false`
    /// and changes nothing.
    pub fn on_release(&mut self) -> (accepted: bool)
        ensures
            accepted == old(self).is_pressed,
            accepted ==> *final(self) == old(self).let_go(),
            !accepted ==> *final(self) == *old(self),
    {
        if !self.is_pressed {
            return false;
        }
        self.is_pressed = false;
        self.press_time = None;
        true
    }

    /// The current state of the machine.
    pub fn current_phase(&self) -> (phase: HotkeyPhase)
        ensures
            phase == self.phase(),
    {
        if self.is_recording {
            HotkeyPhase::Recording
        } else if self.is_pressed && self.press_time.is_some() {
            HotkeyPhase::Pressed
        } else {
            HotkeyPhase::Idle
        }
    }

    /// Feeds one event to the machine and returns what the owner of the
    /// capture session has to do.
    pub fn handle_event(&mut self, config: &HotkeyConfig, event: HotkeyEvent, now_ms: u64) -> (request:
        CaptureRequest)
        ensures
            (*final(self), request) == old(self).step(
                config.mode,
                config.confirm_delay_ms,
                event,
                now_ms,
            ),
    {
        match event {
            HotkeyEvent::Cancel => {
                let was_recording = self.is_recording;
                self.press_time = None;
                self.is_recording = false;
                if was_recording {
                    CaptureRequest::Discard
                } else {
                    CaptureRequest::Nothing
                }
            },
            HotkeyEvent::SilenceTimeout => {
                if self.is_recording {
                    self.press_time = None;
                    self.is_recording = false;
                    CaptureRequest::Stop
                } else {
                    CaptureRequest::Nothing
                }
            },
            HotkeyEvent::Press => match config.mode {
                ActivationMode::Push => {
                    if !self.on_press(now_ms) {
                        CaptureRequest::Nothing
                    } else if !self.is_recording && config.confirm_delay_ms == 0 {
                        self.is_recording = true;
                        CaptureRequest::Start
                    } else {
                        CaptureRequest::Nothing
                    }
                },
                ActivationMode::Toggle => {
                    self.press_time = None;
                    if self.is_recording {
                        self.is_recording = false;
                        CaptureRequest::Stop
                    } else {
                        self.is_recording = true;
                        CaptureRequest::Start
                    }
                },
            },
            HotkeyEvent::Release => match config.mode {
                ActivationMode::Push => {
                    if !self.on_release() {
                        CaptureRequest::Nothing
                    } else if self.is_recording {
                        self.is_recording = false;
                        CaptureRequest::Stop
                    } else {
                        CaptureRequest::Nothing
                    }
                },
                ActivationMode::Toggle => CaptureRequest::Nothing,
            },
            HotkeyEvent::Tick => match config.mode {
                ActivationMode::Push => {
                    if self.is_recording || !self.is_pressed {
                        return CaptureRequest::Nothing;
                    }
                    match self.press_time {
                        Some(since) => {
                            if now_ms >= since && now_ms - since >= config.confirm_delay_ms {
                                self.is_recording = true;
                                CaptureRequest::Start
                            } else if now_ms < since && config.confirm_delay_ms == 0 {
                                self.is_recording = true;
                                CaptureRequest::Start
                            } else {
                                CaptureRequest::Nothing
                            }
                        },
                        None => CaptureRequest::Nothing,
                    }
                },
                ActivationMode::Toggle => CaptureRequest::Nothing,
            },
        }
    }
}

/// Every request matches what it does to the recording flag: `Start` is only
/// asked of a machine that was not recording and leaves it recording, `Stop`
/// and `Discard` are only asked of one that was recording and leave it not
/// recording, and `Nothing` leaves the flag alone. So starts and stops
/// alternate along any run of events, and no start is ever issued twice.
pub proof fn requests_follow_recording_flag(
    state: HotkeyState,
    mode: ActivationMode,
    delay_ms: u64,
    event: HotkeyEvent,
    now_ms: u64,
)
    ensures
        ({
            let (next, request) = state.step(mode, delay_ms, event, now_ms);
            &&& request == CaptureRequest::Start ==> !state.is_recording && next.is_recording
            &&& request == CaptureRequest::Stop ==> state.is_recording && !next.is_recording
            &&& request == CaptureRequest::Discard ==> state.is_recording && !next.is_recording
            &&& request == CaptureRequest::Nothing ==> next.is_recording == state.is_recording
            &&& state.wf() ==> next.wf()
        }),
{
}

/// Push mode: a press that follows a press is a key repeat. It changes
/// nothing and requests nothing, whatever the state before the first press.
pub proof fn push_repeat_is_ignored(state: HotkeyState, delay_ms: u64, first_ms: u64, second_ms: u64)
    ensures
        ({
            let (pressed, _) = state.step(
                ActivationMode::Push,
                delay_ms,
                HotkeyEvent::Press,
                first_ms,
            );
            pressed.step(ActivationMode::Push, delay_ms, HotkeyEvent::Press, second_ms) == (
                pressed,
                CaptureRequest::Nothing,
            )
        }),
{
}

/// Push mode without a confirmation delay: from rest, a press requests one
/// start and the release that follows requests one stop, and the machine is
/// idle again.
pub proof fn push_press_release_starts_then_stops(
    state: HotkeyState,
    press_ms: u64,
    release_ms: u64,
)
    requires
        !state.is_pressed,
        !state.is_recording,
    ensures
        ({
            let (pressed, first) = state.step(ActivationMode::Push, 0, HotkeyEvent::Press, press_ms);
            let (released, second) = pressed.step(
                ActivationMode::Push,
                0,
                HotkeyEvent::Release,
                release_ms,
            );
            &&& first == CaptureRequest::Start
            &&& pressed.phase() == HotkeyPhase::Recording
            &&& second == CaptureRequest::Stop
            &&& released == HotkeyState::initial()
        }),
{
}

/// Push mode with a confirmation delay: from rest, a press only arms the
/// machine. A tick starts the recording exactly when the key has been held
/// for the delay, and a release that comes first returns to rest with no
/// request at all.
pub proof fn push_press_waits_for_confirmation(
    state: HotkeyState,
    delay_ms: u64,
    press_ms: u64,
    later_ms: u64,
)
    requires
        !state.is_pressed,
        !state.is_recording,
        delay_ms > 0,
    ensures
        ({
            let (pressed, first) = state.step(
                ActivationMode::Push,
                delay_ms,
                HotkeyEvent::Press,
                press_ms,
            );
            let (ticked, on_tick) = pressed.step(
                ActivationMode::Push,
                delay_ms,
                HotkeyEvent::Tick,
                later_ms,
            );
            let (released, on_release) = pressed.step(
                ActivationMode::Push,
                delay_ms,
                HotkeyEvent::Release,
                later_ms,
            );
            &&& first == CaptureRequest::Nothing
            &&& pressed.phase() == HotkeyPhase::Pressed
            &&& on_tick == CaptureRequest::Start <==> later_ms - press_ms >= delay_ms
            &&& on_tick == CaptureRequest::Start || (on_tick == CaptureRequest::Nothing && ticked
                == pressed)
            &&& on_release == CaptureRequest::Nothing
            &&& released == HotkeyState::initial()
        }),
{
}

/// Toggle mode: two presses in a row request a start and then a stop, with
/// no release in between, and leave the machine idle.
pub proof fn toggle_press_press_starts_then_stops(
    state: HotkeyState,
    delay_ms: u64,
    first_ms: u64,
    second_ms: u64,
)
    requires
        !state.is_recording,
    ensures
        ({
            let (started, first) = state.step(
                ActivationMode::Toggle,
                delay_ms,
                HotkeyEvent::Press,
                first_ms,
            );
            let (stopped, second) = started.step(
                ActivationMode::Toggle,
                delay_ms,
                HotkeyEvent::Press,
                second_ms,
            );
            &&& first == CaptureRequest::Start
            &&& started.phase() == HotkeyPhase::Recording
            &&& second == CaptureRequest::Stop
            &&& stopped.phase() == HotkeyPhase::Idle
        }),
{
}

/// Toggle mode: a release, and the passing of time, change nothing and
/// request nothing.
pub proof fn toggle_ignores_release_and_tick(state: HotkeyState, delay_ms: u64, now_ms: u64)
    ensures
        state.step(ActivationMode::Toggle, delay_ms, HotkeyEvent::Release, now_ms) == (
            state,
            CaptureRequest::Nothing,
        ),
        state.step(ActivationMode::Toggle, delay_ms, HotkeyEvent::Tick, now_ms) == (
            state,
            CaptureRequest::Nothing,
        ),
{
}

/// Escape, in either mode: the machine is idle afterwards. The buffer is
/// asked to be discarded exactly when a recording was running, and a stop
/// that would hand the buffer onward is never requested. A second escape
/// changes nothing.
pub proof fn cancel_discards_and_idles(
    state: HotkeyState,
    mode: ActivationMode,
    delay_ms: u64,
    now_ms: u64,
    again_ms: u64,
)
    ensures
        ({
            let (cancelled, request) = state.step(mode, delay_ms, HotkeyEvent::Cancel, now_ms);
            &&& cancelled.phase() == HotkeyPhase::Idle
            &&& request == CaptureRequest::Discard <==> state.is_recording
            &&& request == CaptureRequest::Nothing <==> !state.is_recording
            &&& cancelled.step(mode, delay_ms, HotkeyEvent::Cancel, again_ms) == (
                cancelled,
                CaptureRequest::Nothing,
            )
        }),
{
}

/// After an escape a key that is still held starts nothing: neither its
/// repeats nor the passing of time request a start in push mode.
pub proof fn cancelled_hold_stays_idle(
    state: HotkeyState,
    delay_ms: u64,
    now_ms: u64,
    later_ms: u64,
)
    requires
        state.is_pressed,
    ensures
        ({
            let (cancelled, _) = state.step(
                ActivationMode::Push,
                delay_ms,
                HotkeyEvent::Cancel,
                now_ms,
            );
            &&& cancelled.step(ActivationMode::Push, delay_ms, HotkeyEvent::Press, later_ms) == (
                cancelled,
                CaptureRequest::Nothing,
            )
            &&& cancelled.step(ActivationMode::Push, delay_ms, HotkeyEvent::Tick, later_ms) == (
                cancelled,
                CaptureRequest::Nothing,
            )
        }),
{
}

/// How many of the requests ask for a start.
pub open spec fn count_starts(requests: Seq<CaptureRequest>) -> nat
    decreases requests.len(),
{
    if requests.len() == 0 {
        0
    } else {
        count_starts(requests.drop_last()) + if requests.last() == CaptureRequest::Start {
            1nat
        } else {
            0nat
        }
    }
}

/// How many of the requests end a recording, by a stop or a discard.
pub open spec fn count_ends(requests: Seq<CaptureRequest>) -> nat
    decreases requests.len(),
{
    if requests.len() == 0 {
        0
    } else {
        count_ends(requests.drop_last()) + if requests.last() == CaptureRequest::Stop
            || requests.last() == CaptureRequest::Discard {
            1nat
        } else {
            0nat
        }
    }
}

/// Along any run of events the starts and the ends balance: a machine that
/// began at rest has asked for as many starts as ends when it is not
/// recording, and for one start more when it is. As this holds of every
/// prefix of the run as well, a start is never asked for twice in a row,
/// and nothing is ended that was not started.
pub proof fn starts_and_ends_balance(
    state: HotkeyState,
    mode: ActivationMode,
    delay_ms: u64,
    events: Seq<(HotkeyEvent, u64)>,
)
    ensures
        ({
            let (last, requests) = state.run(mode, delay_ms, events);
            &&& requests.len() == events.len()
            &&& count_starts(requests) + (if state.is_recording {
                1nat
            } else {
                0nat
            }) == count_ends(requests) + (if last.is_recording {
                1nat
            } else {
                0nat
            })
        }),
    decreases events.len(),
{
    if events.len() > 0 {
        let (before, requests) = state.run(mode, delay_ms, events.drop_last());
        let (next, request) = before.step(mode, delay_ms, events.last().0, events.last().1);
        starts_and_ends_balance(state, mode, delay_ms, events.drop_last());
        requests_follow_recording_flag(before, mode, delay_ms, events.last().0, events.last().1);
        assert(requests.push(request).drop_last() =~= requests);
    }
}

} // verus!
