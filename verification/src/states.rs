use vstd::prelude::*;

verus! {

/// The state a playback source is in, as the backend reports it.
#[derive(Clone, Copy, Debug, PartialEq, Eq, Structural)]
pub enum State {
    /// Freshly created and never played. Also the fallback a state query
    /// reports while the audio context is down.
    Initial,
    /// Currently rendering its buffer.
    Playing,
    /// Suspended in the middle of its buffer; a further play resumes it.
    Paused,
    /// Done rendering, or halted by a stop call.
    Stopped,
}

/// The state a source is in after a play call: always `Playing`. A paused
/// source resumes, a stopped or fresh one starts from the beginning.
pub open spec fn step_play(s: State) -> State {
    State::Playing
}

/// The state a source is in after a pause call: only a playing source
/// pauses, anything else is left as it was.
pub open spec fn step_pause(s: State) -> State {
    if s == State::Playing {
        State::Paused
    } else {
        s
    }
}

/// The state a source is in after a stop call: a source that was never
/// started stays `Initial`, every other one ends up `Stopped`.
pub open spec fn step_stop(s: State) -> State {
    if s == State::Initial {
        State::Initial
    } else {
        State::Stopped
    }
}

} // verus!
