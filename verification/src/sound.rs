use vstd::prelude::*;

use std::rc::Rc;

use crate::context::Context;
use crate::sound_data::SoundData;
use crate::states::State;
use crate::states::step_pause;
use crate::states::step_play;
use crate::states::step_stop;

verus! {

// Scalar parameters (gain, pitch, distances, rolloff) are single-precision
// floats at the backend boundary. This layer never does arithmetic on them —
// it only stores and forwards — so it carries each one as the raw IEEE-754
// bit pattern, a plain `u32`, and the round trip through a voice is exact.
/// Bit pattern of single-precision 0.0.
pub const F32_BITS_ZERO: u32 = 0x0000_0000;

/// Bit pattern of single-precision 1.0.
pub const F32_BITS_ONE: u32 = 0x3F80_0000;

/// Bit pattern of single-precision positive infinity.
pub const F32_BITS_POS_INF: u32 = 0x7F80_0000;

/// Default gain: 1.0, unattenuated.
pub const DEFAULT_VOLUME: u32 = F32_BITS_ONE;

/// Default lower gain clamp: 0.0.
pub const DEFAULT_MIN_VOLUME: u32 = F32_BITS_ZERO;

/// Default upper gain clamp: 1.0.
pub const DEFAULT_MAX_VOLUME: u32 = F32_BITS_ONE;

/// Default pitch multiplier: 1.0, unchanged playback rate.
pub const DEFAULT_PITCH: u32 = F32_BITS_ONE;

/// Default maximum attenuation distance: no bound.
pub const DEFAULT_MAX_DISTANCE: u32 = F32_BITS_POS_INF;

/// Default reference distance, at which no extra attenuation applies: 1.0.
pub const DEFAULT_REFERENCE_DISTANCE: u32 = F32_BITS_ONE;

/// Default rolloff multiplier on distance attenuation: 1.0.
pub const DEFAULT_ATTENUATION: u32 = F32_BITS_ONE;

/// A point or direction in the backend's right-handed coordinate space, each
/// component carried as a single-precision bit pattern.
#[derive(Clone, Copy, Debug, PartialEq, Eq, Structural)]
pub struct Vec3 {
    pub x: u32,
    pub y: u32,
    pub z: u32,
}

/// The zero vector: default position and direction.
pub open spec fn vec3_zero() -> Vec3 {
    Vec3 { x: F32_BITS_ZERO, y: F32_BITS_ZERO, z: F32_BITS_ZERO }
}

/// Everything a voice holds, as the contracts speak of it: the source handle,
/// the buffer it is bound to, the transport state, and every parameter slot
/// of the source.
pub ghost struct SoundModel {
    pub source: u32,
    pub data: SoundData,
    pub state: State,
    pub volume: u32,
    pub min_volume: u32,
    pub max_volume: u32,
    pub looping: bool,
    pub pitch: u32,
    pub relative: bool,
    pub position: Vec3,
    pub direction: Vec3,
    pub max_distance: u32,
    pub reference_distance: u32,
    pub attenuation: u32,
}

/// A voice as construction leaves it: bound to `data` under the fresh handle
/// `source`, never played, every parameter at its backend default.
pub open spec fn fresh_voice(source: u32, data: SoundData) -> SoundModel {
    SoundModel {
        source,
        data,
        state: State::Initial,
        volume: DEFAULT_VOLUME,
        min_volume: DEFAULT_MIN_VOLUME,
        max_volume: DEFAULT_MAX_VOLUME,
        looping: false,
        pitch: DEFAULT_PITCH,
        relative: false,
        position: vec3_zero(),
        direction: vec3_zero(),
        max_distance: DEFAULT_MAX_DISTANCE,
        reference_distance: DEFAULT_REFERENCE_DISTANCE,
        attenuation: DEFAULT_ATTENUATION,
    }
}

/// One playback voice: one exclusively owned backend source handle, bound for
/// its whole lifetime to one shared [`SoundData`] buffer.
pub struct Sound {
    al_source: u32,
    sound_data: Rc<SoundData>,
    state: State,
    volume: u32,
    min_volume: u32,
    max_volume: u32,
    looping: bool,
    pitch: u32,
    relative: bool,
    position: Vec3,
    direction: Vec3,
    max_distance: u32,
    reference_distance: u32,
    attenuation: u32,
}

impl View for Sound {
    type V = SoundModel;

    closed spec fn view(&self) -> SoundModel {
        SoundModel {
            source: self.al_source,
            data: *self.sound_data,
            state: self.state,
            volume: self.volume,
            min_volume: self.min_volume,
            max_volume: self.max_volume,
            looping: self.looping,
            pitch: self.pitch,
            relative: self.relative,
            position: self.position,
            direction: self.direction,
            max_distance: self.max_distance,
            reference_distance: self.reference_distance,
            attenuation: self.attenuation,
        }
    }
}

/// Relies on `std::rc::Rc::clone`: the clone points at the same allocation,
/// so it carries the same `SoundData` value as the original pointer.
#[verifier::external_body]
fn rc_clone_data(rc: &Rc<SoundData>) -> (res: Rc<SoundData>)
    ensures
        *res == **rc,
{
    Rc::clone(rc)
}

impl Sound {
    /// Builds a voice from freshly decoded audio.
    ///
    /// Decoding the file is the loader collaborator's job; `loaded` is what it
    /// returned, `None` when the file could not be read or decoded. The voice
    /// owns the resulting buffer, shared with nobody. Construction yields a
    /// voice exactly when the context is up, the decode succeeded, and the
    /// backend could still hand out a source handle.
    pub fn new(ctx: &mut Context, loaded: Option<SoundData>) -> (r: Option<Sound>)
        ensures
            r is Some <==> old(ctx).valid() && loaded is Some && old(ctx).next_source()
                < u32::MAX,
            r matches Some(s) ==> loaded matches Some(d) && s@ == fresh_voice(
                old(ctx).next_source(),
                d,
            ),
            r is Some ==> final(ctx).valid() == old(ctx).valid() && final(ctx).next_source()
                == old(ctx).next_source() + 1,
            r is None ==> *final(ctx) == *old(ctx),
    {
        if !ctx.is_valid() {
            return None;
        }
        match loaded {
            Some(data) => Sound::new_with_data(ctx, Rc::new(data)),
            None => None,
        }
    }

    /// Builds a voice bound to an already decoded, possibly shared buffer.
    ///
    /// Construction yields a voice exactly when the context is up and the
    /// backend could still hand out a source handle; the voice starts in
    /// `Initial` with every parameter at its default, bound to `sound_data`
    /// for its whole lifetime.
    pub fn new_with_data(ctx: &mut Context, sound_data: Rc<SoundData>) -> (r: Option<Sound>)
        ensures
            r is Some <==> old(ctx).valid() && old(ctx).next_source() < u32::MAX,
            r matches Some(s) ==> s@ == fresh_voice(old(ctx).next_source(), *sound_data),
            r is Some ==> final(ctx).valid() == old(ctx).valid() && final(ctx).next_source()
                == old(ctx).next_source() + 1,
            r is None ==> *final(ctx) == *old(ctx),
    {
        if !ctx.is_valid() {
            return None;
        }
        let source_id: u32 = match ctx.gen_source() {
            Some(s) => s,
            None => {
                return None;
            },
        };
        Some(
            Sound {
                al_source: source_id,
                sound_data,
                state: State::Initial,
                volume: DEFAULT_VOLUME,
                min_volume: DEFAULT_MIN_VOLUME,
                max_volume: DEFAULT_MAX_VOLUME,
                looping: false,
                pitch: DEFAULT_PITCH,
                relative: false,
                position: Vec3 { x: F32_BITS_ZERO, y: F32_BITS_ZERO, z: F32_BITS_ZERO },
                direction: Vec3 { x: F32_BITS_ZERO, y: F32_BITS_ZERO, z: F32_BITS_ZERO },
                max_distance: DEFAULT_MAX_DISTANCE,
                reference_distance: DEFAULT_REFERENCE_DISTANCE,
                attenuation: DEFAULT_ATTENUATION,
            },
        )
    }

    /// The shared buffer this voice is bound to.
    pub fn get_datas(&self) -> (r: Rc<SoundData>)
        ensures
            *r == self@.data,
    {
        rc_clone_data(&self.sound_data)
    }

    /// Plays or resumes the voice: whatever it was doing, it is `Playing`
    /// afterwards. Against a downed context the voice is left untouched.
    pub fn play(&mut self, ctx: &Context)
        ensures
            ctx.valid() ==> final(self)@ == (SoundModel {
                state: step_play(old(self)@.state),
                ..old(self)@
            }),
            !ctx.valid() ==> final(self)@ == old(self)@,
    {
        if !ctx.is_valid() {
            return;
        }
        self.state = State::Playing;
    }

    /// Pauses the voice if it is playing; a voice in any other state is left
    /// as it was, as is any voice against a downed context.
    pub fn pause(&mut self, ctx: &Context)
        ensures
            ctx.valid() ==> final(self)@ == (SoundModel {
                state: step_pause(old(self)@.state),
                ..old(self)@
            }),
            !ctx.valid() ==> final(self)@ == old(self)@,
    {
        if !ctx.is_valid() {
            return;
        }
        if self.state == State::Playing {
            self.state = State::Paused;
        }
    }

    /// Stops the voice: playing or paused, it ends up `Stopped`; a voice that
    /// was never started stays `Initial`. Against a downed context the voice
    /// is left untouched.
    pub fn stop(&mut self, ctx: &Context)
        ensures
            ctx.valid() ==> final(self)@ == (SoundModel {
                state: step_stop(old(self)@.state),
                ..old(self)@
            }),
            !ctx.valid() ==> final(self)@ == old(self)@,
    {
        if !ctx.is_valid() {
            return;
        }
        if self.state != State::Initial {
            self.state = State::Stopped;
        }
    }

    /// The state the backend reports for this voice, `Initial` as the
    /// fallback while the context is down.
    pub fn get_state(&self, ctx: &Context) -> (r: State)
        ensures
            r == (if ctx.valid() {
                self@.state
            } else {
                State::Initial
            }),
    {
        if !ctx.is_valid() {
            return State::Initial;
        }
        self.state
    }

    /// Whether the voice is currently playing; false while the context is
    /// down.
    pub fn is_playing(&self, ctx: &Context) -> (r: bool)
        ensures
            r == (ctx.valid() && self@.state == State::Playing),
    {
        match self.get_state(ctx) {
            State::Playing => true,
            _ => false,
        }
    }

    /// Sets the gain multiplier (1.0 unattenuated, halving is about -6dB);
    /// a no-op against a downed context.
    pub fn set_volume(&mut self, ctx: &Context, volume: u32)
        ensures
            ctx.valid() ==> final(self)@ == (SoundModel { volume, ..old(self)@ }),
            !ctx.valid() ==> final(self)@ == old(self)@,
    {
        if !ctx.is_valid() {
            return;
        }
        self.volume = volume;
    }

    /// The gain multiplier; 0.0 as the fallback while the context is down.
    pub fn get_volume(&self, ctx: &Context) -> (r: u32)
        ensures
            r == (if ctx.valid() {
                self@.volume
            } else {
                F32_BITS_ZERO
            }),
    {
        if !ctx.is_valid() {
            return F32_BITS_ZERO;
        }
        self.volume
    }

    /// Sets the lower gain clamp, applied after distance and cone
    /// attenuation; a no-op against a downed context.
    pub fn set_min_volume(&mut self, ctx: &Context, min_volume: u32)
        ensures
            ctx.valid() ==> final(self)@ == (SoundModel { min_volume, ..old(self)@ }),
            !ctx.valid() ==> final(self)@ == old(self)@,
    {
        if !ctx.is_valid() {
            return;
        }
        self.min_volume = min_volume;
    }

    /// The lower gain clamp; 0.0 as the fallback while the context is down.
    pub fn get_min_volume(&self, ctx: &Context) -> (r: u32)
        ensures
            r == (if ctx.valid() {
                self@.min_volume
            } else {
                F32_BITS_ZERO
            }),
    {
        if !ctx.is_valid() {
            return F32_BITS_ZERO;
        }
        self.min_volume
    }

    /// Sets the upper gain clamp, applied after distance and cone
    /// attenuation; a no-op against a downed context.
    pub fn set_max_volume(&mut self, ctx: &Context, max_volume: u32)
        ensures
            ctx.valid() ==> final(self)@ == (SoundModel { max_volume, ..old(self)@ }),
            !ctx.valid() ==> final(self)@ == old(self)@,
    {
        if !ctx.is_valid() {
            return;
        }
        self.max_volume = max_volume;
    }

    /// The upper gain clamp; 0.0 as the fallback while the context is down.
    pub fn get_max_volume(&self, ctx: &Context) -> (r: u32)
        ensures
            r == (if ctx.valid() {
                self@.max_volume
            } else {
                F32_BITS_ZERO
            }),
    {
        if !ctx.is_valid() {
            return F32_BITS_ZERO;
        }
        self.max_volume
    }

    /// Sets whether the voice rewinds and replays on its own when its buffer
    /// runs out; a no-op against a downed context.
    pub fn set_looping(&mut self, ctx: &Context, looping: bool)
        ensures
            ctx.valid() ==> final(self)@ == (SoundModel { looping, ..old(self)@ }),
            !ctx.valid() ==> final(self)@ == old(self)@,
    {
        if !ctx.is_valid() {
            return;
        }
        self.looping = looping;
    }

    /// Whether the voice replays on its own; false as the fallback while the
    /// context is down.
    pub fn is_looping(&self, ctx: &Context) -> (r: bool)
        ensures
            r == (ctx.valid() && self@.looping),
    {
        if !ctx.is_valid() {
            return false;
        }
        self.looping
    }

    /// Sets the pitch, a multiplier on the buffer's sample rate, nominally in
    /// [0.5, 2.0]; a no-op against a downed context.
    pub fn set_pitch(&mut self, ctx: &Context, pitch: u32)
        ensures
            ctx.valid() ==> final(self)@ == (SoundModel { pitch, ..old(self)@ }),
            !ctx.valid() ==> final(self)@ == old(self)@,
    {
        if !ctx.is_valid() {
            return;
        }
        self.pitch = pitch;
    }

    /// The pitch multiplier; 0.0 as the fallback while the context is down.
    pub fn get_pitch(&self, ctx: &Context) -> (r: u32)
        ensures
            r == (if ctx.valid() {
                self@.pitch
            } else {
                F32_BITS_ZERO
            }),
    {
        if !ctx.is_valid() {
            return F32_BITS_ZERO;
        }
        self.pitch
    }

    /// Sets whether the voice's position is listener-relative rather than
    /// world-absolute; a no-op against a downed context.
    pub fn set_relative(&mut self, ctx: &Context, relative: bool)
        ensures
            ctx.valid() ==> final(self)@ == (SoundModel { relative, ..old(self)@ }),
            !ctx.valid() ==> final(self)@ == old(self)@,
    {
        if !ctx.is_valid() {
            return;
        }
        self.relative = relative;
    }

    /// Whether the voice's position is listener-relative; false as the
    /// fallback while the context is down.
    pub fn is_relative(&mut self, ctx: &Context) -> (r: bool)
        ensures
            r == (ctx.valid() && old(self)@.relative),
            final(self)@ == old(self)@,
    {
        if !ctx.is_valid() {
            return false;
        }
        self.relative
    }

    /// Places the voice in space, world-absolute or listener-relative
    /// according to `set_relative`; a no-op against a downed context.
    pub fn set_position(&mut self, ctx: &Context, position: Vec3)
        ensures
            ctx.valid() ==> final(self)@ == (SoundModel { position, ..old(self)@ }),
            !ctx.valid() ==> final(self)@ == old(self)@,
    {
        if !ctx.is_valid() {
            return;
        }
        self.position = position;
    }

    /// Where the voice stands in space; the zero vector as the fallback while
    /// the context is down.
    pub fn get_position(&self, ctx: &Context) -> (r: Vec3)
        ensures
            r == (if ctx.valid() {
                self@.position
            } else {
                vec3_zero()
            }),
    {
        if !ctx.is_valid() {
            return Vec3 { x: F32_BITS_ZERO, y: F32_BITS_ZERO, z: F32_BITS_ZERO };
        }
        self.position
    }

    /// Sets the direction the voice faces, in its local space; a no-op
    /// against a downed context.
    pub fn set_direction(&mut self, ctx: &Context, direction: Vec3)
        ensures
            ctx.valid() ==> final(self)@ == (SoundModel { direction, ..old(self)@ }),
            !ctx.valid() ==> final(self)@ == old(self)@,
    {
        if !ctx.is_valid() {
            return;
        }
        self.direction = direction;
    }

    /// The direction the voice faces; the zero vector as the fallback while
    /// the context is down.
    pub fn get_direction(&self, ctx: &Context) -> (r: Vec3)
        ensures
            r == (if ctx.valid() {
                self@.direction
            } else {
                vec3_zero()
            }),
    {
        if !ctx.is_valid() {
            return Vec3 { x: F32_BITS_ZERO, y: F32_BITS_ZERO, z: F32_BITS_ZERO };
        }
        self.direction
    }

    /// Sets the distance beyond which attenuation grows no further; a no-op
    /// against a downed context.
    pub fn set_max_distance(&mut self, ctx: &Context, max_distance: u32)
        ensures
            ctx.valid() ==> final(self)@ == (SoundModel { max_distance, ..old(self)@ }),
            !ctx.valid() ==> final(self)@ == old(self)@,
    {
        if !ctx.is_valid() {
            return;
        }
        self.max_distance = max_distance;
    }

    /// The distance beyond which attenuation grows no further; 0.0 as the
    /// fallback while the context is down.
    pub fn get_max_distance(&self, ctx: &Context) -> (r: u32)
        ensures
            r == (if ctx.valid() {
                self@.max_distance
            } else {
                F32_BITS_ZERO
            }),
    {
        if !ctx.is_valid() {
            return F32_BITS_ZERO;
        }
        self.max_distance
    }

    /// Sets the distance at which no extra attenuation applies yet; a no-op
    /// against a downed context.
    pub fn set_reference_distance(&mut self, ctx: &Context, ref_distance: u32)
        ensures
            ctx.valid() ==> final(self)@ == (SoundModel {
                reference_distance: ref_distance,
                ..old(self)@
            }),
            !ctx.valid() ==> final(self)@ == old(self)@,
    {
        if !ctx.is_valid() {
            return;
        }
        self.reference_distance = ref_distance;
    }

    /// The distance at which no extra attenuation applies yet; 1.0 as the
    /// fallback while the context is down.
    pub fn get_reference_distance(&self, ctx: &Context) -> (r: u32)
        ensures
            r == (if ctx.valid() {
                self@.reference_distance
            } else {
                F32_BITS_ONE
            }),
    {
        if !ctx.is_valid() {
            return F32_BITS_ONE;
        }
        self.reference_distance
    }

    /// Sets the rolloff multiplier that exaggerates or diminishes distance
    /// attenuation (0.0 switches it off); a no-op against a downed context.
    pub fn set_attenuation(&mut self, ctx: &Context, attenuation: u32)
        ensures
            ctx.valid() ==> final(self)@ == (SoundModel { attenuation, ..old(self)@ }),
            !ctx.valid() ==> final(self)@ == old(self)@,
    {
        if !ctx.is_valid() {
            return;
        }
        self.attenuation = attenuation;
    }

    /// The rolloff multiplier on distance attenuation; 1.0 as the fallback
    /// while the context is down.
    pub fn get_attenuation(&self, ctx: &Context) -> (r: u32)
        ensures
            r == (if ctx.valid() {
                self@.attenuation
            } else {
                F32_BITS_ONE
            }),
    {
        if !ctx.is_valid() {
            return F32_BITS_ONE;
        }
        self.attenuation
    }

    /// Releases the voice's source handle back to the backend and returns it.
    ///
    /// Teardown is synchronous and unconditional: it does not consult the
    /// context. Taking the voice by value is what makes the release happen at
    /// most once per handle — there is no voice left to release it again.
    pub fn drop(self) -> (h: u32)
        ensures
            h == self@.source,
    {
        self.al_source
    }
}

/// Transport keeps its promise whatever a voice was doing: after a play it
/// reports `Playing`, and after a further stop it no longer does.
pub proof fn law_play_reports_playing(m: SoundModel)
    ensures
        (SoundModel { state: step_play(m.state), ..m }).state == State::Playing,
        (SoundModel { state: step_stop(step_play(m.state)), ..m }).state != State::Playing,
{
}

/// A voice as construction hands it back has never played — it reports
/// `Initial` — and every parameter still holds its documented default.
pub proof fn law_fresh_voice_defaults(source: u32, data: SoundData)
    ensures
        fresh_voice(source, data).source == source,
        fresh_voice(source, data).data == data,
        fresh_voice(source, data).state == State::Initial,
        fresh_voice(source, data).volume == DEFAULT_VOLUME,
        fresh_voice(source, data).min_volume == DEFAULT_MIN_VOLUME,
        fresh_voice(source, data).max_volume == DEFAULT_MAX_VOLUME,
        !fresh_voice(source, data).looping,
        fresh_voice(source, data).pitch == DEFAULT_PITCH,
        !fresh_voice(source, data).relative,
        fresh_voice(source, data).position == vec3_zero(),
        fresh_voice(source, data).direction == vec3_zero(),
        fresh_voice(source, data).max_distance == DEFAULT_MAX_DISTANCE,
        fresh_voice(source, data).reference_distance == DEFAULT_REFERENCE_DISTANCE,
        fresh_voice(source, data).attenuation == DEFAULT_ATTENUATION,
{
}

/// Setting a parameter through a live context and reading it back returns
/// exactly the value that was set — the voice's slot is the backend's, with
/// no conversion in between — and touches neither the transport state nor the
/// buffer binding.
pub proof fn law_set_get_round_trip(m: SoundModel, bits: u32, flag: bool, v: Vec3)
    ensures
        (SoundModel { volume: bits, ..m }).volume == bits,
        (SoundModel { min_volume: bits, ..m }).min_volume == bits,
        (SoundModel { max_volume: bits, ..m }).max_volume == bits,
        (SoundModel { looping: flag, ..m }).looping == flag,
        (SoundModel { pitch: bits, ..m }).pitch == bits,
        (SoundModel { relative: flag, ..m }).relative == flag,
        (SoundModel { position: v, ..m }).position == v,
        (SoundModel { direction: v, ..m }).direction == v,
        (SoundModel { max_distance: bits, ..m }).max_distance == bits,
        (SoundModel { reference_distance: bits, ..m }).reference_distance == bits,
        (SoundModel { attenuation: bits, ..m }).attenuation == bits,
        (SoundModel { volume: bits, ..m }).state == m.state,
        (SoundModel { volume: bits, ..m }).data == m.data,
{
}

/// Two voices bound to the same shared buffer report the same buffer
/// identity, whatever source handles each one drew.
pub proof fn law_shared_buffer(s1: u32, s2: u32, data: SoundData)
    ensures
        fresh_voice(s1, data).data == fresh_voice(s2, data).data,
{
}

/// Source handles never repeat: construction hands out the context's counter
/// value and moves the counter past it, so a voice built after another draws
/// a strictly larger handle and the two never share one.
pub proof fn law_fresh_handles_distinct(n1: u32, n2: u32, d1: SoundData, d2: SoundData)
    requires
        n1 < n2,
    ensures
        fresh_voice(n1, d1).source != fresh_voice(n2, d2).source,
{
}

} // verus!
