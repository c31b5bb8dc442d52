//! The silence timer: decides, frame by frame, when a recording has been
//! silent for long enough to suggest a stop.
//!
//! Whether a frame is silent is measured by the caller; the timer only sees
//! the verdict and the time at which the frame was heard.

use vstd::prelude::*;
use vstd::string::StringExecFns;

verus! {

/// Bit pattern of the default noise gate, fifty decibels below full scale.
pub const DEFAULT_NOISE_GATE_DB_BITS: u32 = 0xC248_0000;

#[derive(Debug, Clone, PartialEq, Eq)]
pub enum ProcessingError {
    ProcessingFailed(String),
}

impl ProcessingError {
    pub open spec fn message_spec(self) -> Seq<char> {
        match self {
            ProcessingError::ProcessingFailed(detail) => "Audio processing failed: "@ + detail@,
        }
    }

    /// The text shown to the user.
    pub fn message(&self) -> (text: String)
        ensures
            text@ == self.message_spec(),
    {
        match self {
            ProcessingError::ProcessingFailed(detail) => String::from_str(
                "Audio processing failed: ",
            ).concat(detail.as_str()),
        }
    }
}

/// When sustained silence suggests a stop.
#[derive(Debug, Clone, Copy, PartialEq, Eq, Structural)]
pub struct SilenceConfig {
    /// The level below which a frame counts as silent: decibels, as the bit
    /// pattern of an IEEE 754 single-precision value.
    pub noise_gate_threshold_db_bits: u32,
    /// How long the silence has to last, unbroken.
    pub silence_timeout_ms: u64,
    /// Silence heard earlier than this after the start is ignored.
    pub min_speech_duration_ms: u64,
}

impl Default for SilenceConfig {
    fn default() -> (config: Self)
        ensures
            config.noise_gate_threshold_db_bits == DEFAULT_NOISE_GATE_DB_BITS,
            config.silence_timeout_ms == 1500,
            config.min_speech_duration_ms == 500,
    {
        SilenceConfig {
            noise_gate_threshold_db_bits: DEFAULT_NOISE_GATE_DB_BITS,
            silence_timeout_ms: 1500,
            min_speech_duration_ms: 500,
        }
    }
}

/// One frame as the timer sees it: when it was heard, in milliseconds since
/// the recording started, and whether it was silent.
#[derive(Debug, Clone, Copy, PartialEq, Eq, Structural)]
pub struct Frame {
    pub at_ms: u64,
    pub silent: bool,
}

/// The timer. It remembers when the current unbroken run of silence began,
/// and nothing while the last frame heard was speech.
#[derive(Debug, Clone, Copy, PartialEq, Eq, Structural)]
pub struct SilenceTracker {
    pub silent_since: Option<u64>,
}

impl SilenceTracker {
    /// The timer of a recording that has just started.
    pub open spec fn fresh() -> Self {
        SilenceTracker { silent_since: None }
    }

    /// Whether a frame takes part in a run of silence: it is silent, and the
    /// minimum speech duration has passed.
    pub open spec fn counts(config: SilenceConfig, frame: Frame) -> bool {
        frame.silent && frame.at_ms >= config.min_speech_duration_ms
    }

    /// The timer after one more frame. Speech ends the run; silence that
    /// comes too early is ignored; silence that counts continues the run, or
    /// begins one (also where the clock went backwards).
    pub open spec fn observed(self, config: SilenceConfig, frame: Frame) -> Self {
        if !frame.silent {
            SilenceTracker::fresh()
        } else if frame.at_ms < config.min_speech_duration_ms {
            self
        } else {
            match self.silent_since {
                Some(since) if since <= frame.at_ms => self,
                _ => SilenceTracker { silent_since: Some(frame.at_ms) },
            }
        }
    }

    /// Whether `frame` completes the silence timeout: it counts, and the run
    /// that it belongs to has lasted for the timeout.
    pub open spec fn stop_due(self, config: SilenceConfig, frame: Frame) -> bool {
        &&& SilenceTracker::counts(config, frame)
        &&& frame.at_ms - self.observed(config, frame).silent_since->0
            >= config.silence_timeout_ms
    }

    pub fn new() -> (tracker: Self)
        ensures
            tracker == SilenceTracker::fresh(),
    {
        SilenceTracker { silent_since: None }
    }

    /// Takes one frame into account and says whether the owner of the
    /// recording should now be told to stop. The timer stops nothing itself.
    pub fn observe(&mut self, config: &SilenceConfig, frame: Frame) -> (stop: bool)
        ensures
            *final(self) == old(self).observed(*config, frame),
            stop == old(self).stop_due(*config, frame),
    {
        if !frame.silent {
            self.silent_since = None;
            return false;
        }
        if frame.at_ms < config.min_speech_duration_ms {
            return false;
        }
        let since: u64 = match self.silent_since {
            Some(since) if since <= frame.at_ms => since,
            _ => frame.at_ms,
        };
        self.silent_since = Some(since);
        frame.at_ms - since >= config.silence_timeout_ms
    }
}

/// The timer after all of `frames`, heard in this order from a fresh start.
pub open spec fn tracker_after(config: SilenceConfig, frames: Seq<Frame>) -> SilenceTracker
    decreases frames.len(),
{
    if frames.len() == 0 {
        SilenceTracker::fresh()
    } else {
        tracker_after(config, frames.drop_last()).observed(config, frames.last())
    }
}

/// Whether the timer signals a stop on the last of `frames`.
pub open spec fn stop_signalled(config: SilenceConfig, frames: Seq<Frame>) -> bool {
    frames.len() > 0 && tracker_after(config, frames.drop_last()).stop_due(config, frames.last())
}

/// The frames were heard on a clock that does not run backwards.
pub open spec fn in_order(frames: Seq<Frame>) -> bool {
    forall|i: int, j: int| 0 <= i <= j < frames.len() ==> frames[i].at_ms <= frames[j].at_ms
}

/// From index `from` to the end every frame is silent, and the one at `from`
/// was heard after the minimum speech duration.
pub open spec fn silent_from(config: SilenceConfig, frames: Seq<Frame>, from: int) -> bool {
    &&& 0 <= from < frames.len()
    &&& frames[from].at_ms >= config.min_speech_duration_ms
    &&& forall|k: int| from <= k < frames.len() ==> (#[trigger] frames[k]).silent
}

proof fn lemma_tracker_holds_run_start(config: SilenceConfig, frames: Seq<Frame>)
    requires
        in_order(frames),
    ensures
        tracker_after(config, frames).silent_since is Some ==> exists|j: int|
            #[trigger] silent_from(config, frames, j) && frames[j].at_ms == tracker_after(
                config,
                frames,
            ).silent_since->0,
        forall|j: int| #[trigger]
            silent_from(config, frames, j) ==> tracker_after(config, frames).silent_since is Some
                && tracker_after(config, frames).silent_since->0 <= frames[j].at_ms,
    decreases frames.len(),
{
    if frames.len() > 0 {
        let earlier = frames.drop_last();
        let frame = frames.last();
        let last = frames.len() - 1;
        let before = tracker_after(config, earlier);
        let after = tracker_after(config, frames);
        assert(in_order(earlier)) by {
            assert forall|i: int, j: int| 0 <= i <= j < earlier.len() implies earlier[i].at_ms
                <= earlier[j].at_ms by {
                assert(frames[i].at_ms <= frames[j].at_ms);
            }
        }
        lemma_tracker_holds_run_start(config, earlier);
        assert(after == before.observed(config, frame));
        // A run that reaches back into the earlier frames was a run there.
        assert forall|j: int| 0 <= j < last && silent_from(config, frames, j) implies silent_from(
            config,
            earlier,
            j,
        ) by {
            assert forall|k: int| j <= k < earlier.len() implies (#[trigger] earlier[k]).silent by {
                assert(frames[k].silent);
            }
        }
        if before.silent_since is Some {
            let j = choose|j: int| #[trigger]
                silent_from(config, earlier, j) && earlier[j].at_ms == before.silent_since->0;
            assert(frames[j].at_ms <= frames[last].at_ms);
            if SilenceTracker::counts(config, frame) {
                assert(silent_from(config, frames, j)) by {
                    assert forall|k: int| j <= k < frames.len() implies (#[trigger] frames[k]).silent by {
                        if k < last {
                            assert(earlier[k].silent);
                        }
                    }
                }
            }
        }
        if after.silent_since is Some && before.silent_since is None {
            assert(silent_from(config, frames, last));
        }
        assert forall|j: int| #[trigger] silent_from(config, frames, j) implies after.silent_since is Some
            && after.silent_since->0 <= frames[j].at_ms by {
            assert(frames[last].silent);
            assert(frames[j].at_ms <= frames[last].at_ms);
            if j < last {
                assert(silent_from(config, earlier, j));
            }
        }
    }
}

/// On a clock that does not run backwards, the timer signals a stop on a
/// frame exactly when that frame ends an unbroken stretch of silent frames
/// which began after the minimum speech duration and has lasted for the
/// silence timeout. Any frame of speech in between starts the count anew.
pub proof fn stop_means_unbroken_silence(config: SilenceConfig, frames: Seq<Frame>)
    requires
        in_order(frames),
    ensures
        stop_signalled(config, frames) <==> exists|j: int|
            #[trigger] silent_from(config, frames, j) && frames.last().at_ms - frames[j].at_ms
                >= config.silence_timeout_ms,
{
    lemma_tracker_holds_run_start(config, frames);
    if frames.len() > 0 {
        let last = frames.len() - 1;
        let after = tracker_after(config, frames);
        if stop_signalled(config, frames) {
            assert(after.silent_since is Some);
            let j = choose|j: int| #[trigger]
                silent_from(config, frames, j) && frames[j].at_ms == after.silent_since->0;
            assert(silent_from(config, frames, j) && frames.last().at_ms - frames[j].at_ms
                >= config.silence_timeout_ms);
        }
        if exists|j: int| #[trigger]
            silent_from(config, frames, j) && frames.last().at_ms - frames[j].at_ms
                >= config.silence_timeout_ms {
            let j = choose|j: int| #[trigger]
                silent_from(config, frames, j) && frames.last().at_ms - frames[j].at_ms
                    >= config.silence_timeout_ms;
            assert(frames[last].silent);
            assert(frames[j].at_ms <= frames[last].at_ms);
        }
    }
}

/// No stop is signalled before the minimum speech duration and the silence
/// timeout have both passed since the start.
pub proof fn stop_not_before_both_delays(config: SilenceConfig, frames: Seq<Frame>)
    requires
        in_order(frames),
        stop_signalled(config, frames),
    ensures
        frames.last().silent,
        frames.last().at_ms >= config.min_speech_duration_ms + config.silence_timeout_ms,
{
    stop_means_unbroken_silence(config, frames);
    let j = choose|j: int| #[trigger]
        silent_from(config, frames, j) && frames.last().at_ms - frames[j].at_ms
            >= config.silence_timeout_ms;
    assert(frames[frames.len() - 1].silent);
}

} // verus!
