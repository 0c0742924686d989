use std::rc::Rc;

use ears::Context;
use ears::Sound;
use ears::SoundData;
use ears::State;
use ears::Vec3;

#[test]
fn fresh_voice_reports_initial() {
    let mut ctx = Context::new();
    let snd = Sound::new_with_data(&mut ctx, Rc::new(SoundData::with_buffer(7))).unwrap();
    assert_eq!(snd.get_state(&ctx), State::Initial);
    assert!(!snd.is_playing(&ctx));
}

#[test]
fn fresh_voice_holds_defaults() {
    let mut ctx = Context::new();
    let mut snd = Sound::new_with_data(&mut ctx, Rc::new(SoundData::with_buffer(7))).unwrap();
    assert_eq!(snd.get_volume(&ctx), 1.0f32.to_bits());
    assert_eq!(snd.get_min_volume(&ctx), 0.0f32.to_bits());
    assert_eq!(snd.get_max_volume(&ctx), 1.0f32.to_bits());
    assert!(!snd.is_looping(&ctx));
    assert_eq!(snd.get_pitch(&ctx), 1.0f32.to_bits());
    assert!(!snd.is_relative(&ctx));
    let zero = Vec3 {
        x: 0.0f32.to_bits(),
        y: 0.0f32.to_bits(),
        z: 0.0f32.to_bits(),
    };
    assert_eq!(snd.get_position(&ctx), zero);
    assert_eq!(snd.get_direction(&ctx), zero);
    assert_eq!(snd.get_max_distance(&ctx), f32::INFINITY.to_bits());
    assert_eq!(snd.get_reference_distance(&ctx), 1.0f32.to_bits());
    assert_eq!(snd.get_attenuation(&ctx), 1.0f32.to_bits());
}

#[test]
fn play_then_stop_reports_not_playing() {
    let mut ctx = Context::new();
    let mut snd = Sound::new_with_data(&mut ctx, Rc::new(SoundData::with_buffer(1))).unwrap();
    snd.play(&ctx);
    assert!(snd.is_playing(&ctx));
    snd.stop(&ctx);
    assert!(!snd.is_playing(&ctx));
    assert_eq!(snd.get_state(&ctx), State::Stopped);
}

#[test]
fn pause_resumes_and_stops() {
    let mut ctx = Context::new();
    let mut snd = Sound::new_with_data(&mut ctx, Rc::new(SoundData::with_buffer(1))).unwrap();
    snd.play(&ctx);
    snd.pause(&ctx);
    assert_eq!(snd.get_state(&ctx), State::Paused);
    assert!(!snd.is_playing(&ctx));
    snd.play(&ctx);
    assert_eq!(snd.get_state(&ctx), State::Playing);
    snd.pause(&ctx);
    snd.stop(&ctx);
    assert_eq!(snd.get_state(&ctx), State::Stopped);
}

#[test]
fn pause_off_playing_is_a_no_op() {
    let mut ctx = Context::new();
    let mut snd = Sound::new_with_data(&mut ctx, Rc::new(SoundData::with_buffer(1))).unwrap();
    snd.pause(&ctx);
    assert_eq!(snd.get_state(&ctx), State::Initial);
    snd.play(&ctx);
    snd.stop(&ctx);
    snd.pause(&ctx);
    assert_eq!(snd.get_state(&ctx), State::Stopped);
}

#[test]
fn stop_before_first_play_stays_initial() {
    let mut ctx = Context::new();
    let mut snd = Sound::new_with_data(&mut ctx, Rc::new(SoundData::with_buffer(1))).unwrap();
    snd.stop(&ctx);
    assert_eq!(snd.get_state(&ctx), State::Initial);
    snd.stop(&ctx);
    assert_eq!(snd.get_state(&ctx), State::Initial);
}

#[test]
fn set_get_round_trips_every_parameter() {
    let mut ctx = Context::new();
    let mut snd = Sound::new_with_data(&mut ctx, Rc::new(SoundData::with_buffer(2))).unwrap();
    snd.set_volume(&ctx, 0.25f32.to_bits());
    assert_eq!(snd.get_volume(&ctx), 0.25f32.to_bits());
    snd.set_min_volume(&ctx, 0.1f32.to_bits());
    assert_eq!(snd.get_min_volume(&ctx), 0.1f32.to_bits());
    snd.set_max_volume(&ctx, 0.9f32.to_bits());
    assert_eq!(snd.get_max_volume(&ctx), 0.9f32.to_bits());
    snd.set_looping(&ctx, true);
    assert!(snd.is_looping(&ctx));
    snd.set_looping(&ctx, false);
    assert!(!snd.is_looping(&ctx));
    snd.set_pitch(&ctx, 2.0f32.to_bits());
    assert_eq!(snd.get_pitch(&ctx), 2.0f32.to_bits());
    snd.set_relative(&ctx, true);
    assert!(snd.is_relative(&ctx));
    let pos = Vec3 {
        x: 1.0f32.to_bits(),
        y: (-2.0f32).to_bits(),
        z: 3.5f32.to_bits(),
    };
    snd.set_position(&ctx, pos);
    assert_eq!(snd.get_position(&ctx), pos);
    let dir = Vec3 {
        x: 0.0f32.to_bits(),
        y: 0.0f32.to_bits(),
        z: (-1.0f32).to_bits(),
    };
    snd.set_direction(&ctx, dir);
    assert_eq!(snd.get_direction(&ctx), dir);
    snd.set_max_distance(&ctx, 100.0f32.to_bits());
    assert_eq!(snd.get_max_distance(&ctx), 100.0f32.to_bits());
    snd.set_reference_distance(&ctx, 4.0f32.to_bits());
    assert_eq!(snd.get_reference_distance(&ctx), 4.0f32.to_bits());
    snd.set_attenuation(&ctx, 0.5f32.to_bits());
    assert_eq!(snd.get_attenuation(&ctx), 0.5f32.to_bits());
}

#[test]
fn construction_fails_without_a_context() {
    let mut down = Context::uninitialized();
    assert!(Sound::new_with_data(&mut down, Rc::new(SoundData::with_buffer(1))).is_none());
    assert!(Sound::new(&mut down, Some(SoundData::with_buffer(1))).is_none());
}

#[test]
fn construction_fails_when_decoding_failed() {
    let mut ctx = Context::new();
    assert!(Sound::new(&mut ctx, None).is_none());
    assert!(Sound::new(&mut ctx, Some(SoundData::with_buffer(9))).is_some());
}

#[test]
fn downed_context_getters_fall_back() {
    let mut ctx = Context::new();
    let down = Context::uninitialized();
    let mut snd = Sound::new_with_data(&mut ctx, Rc::new(SoundData::with_buffer(5))).unwrap();
    snd.set_volume(&ctx, 0.5f32.to_bits());
    snd.set_looping(&ctx, true);
    snd.set_relative(&ctx, true);
    snd.set_position(
        &ctx,
        Vec3 {
            x: 1.0f32.to_bits(),
            y: 1.0f32.to_bits(),
            z: 1.0f32.to_bits(),
        },
    );
    snd.play(&ctx);
    assert_eq!(snd.get_state(&down), State::Initial);
    assert!(!snd.is_playing(&down));
    assert_eq!(snd.get_volume(&down), 0.0f32.to_bits());
    assert_eq!(snd.get_min_volume(&down), 0.0f32.to_bits());
    assert_eq!(snd.get_max_volume(&down), 0.0f32.to_bits());
    assert!(!snd.is_looping(&down));
    assert_eq!(snd.get_pitch(&down), 0.0f32.to_bits());
    assert!(!snd.is_relative(&down));
    let zero = Vec3 {
        x: 0.0f32.to_bits(),
        y: 0.0f32.to_bits(),
        z: 0.0f32.to_bits(),
    };
    assert_eq!(snd.get_position(&down), zero);
    assert_eq!(snd.get_direction(&down), zero);
    assert_eq!(snd.get_max_distance(&down), 0.0f32.to_bits());
    assert_eq!(snd.get_reference_distance(&down), 1.0f32.to_bits());
    assert_eq!(snd.get_attenuation(&down), 1.0f32.to_bits());
}

#[test]
fn downed_context_setters_change_nothing() {
    let mut ctx = Context::new();
    let down = Context::uninitialized();
    let mut snd = Sound::new_with_data(&mut ctx, Rc::new(SoundData::with_buffer(5))).unwrap();
    snd.play(&down);
    snd.set_volume(&down, 0.5f32.to_bits());
    snd.set_min_volume(&down, 0.5f32.to_bits());
    snd.set_max_volume(&down, 0.5f32.to_bits());
    snd.set_looping(&down, true);
    snd.set_pitch(&down, 2.0f32.to_bits());
    snd.set_relative(&down, true);
    let one = Vec3 {
        x: 1.0f32.to_bits(),
        y: 1.0f32.to_bits(),
        z: 1.0f32.to_bits(),
    };
    snd.set_position(&down, one);
    snd.set_direction(&down, one);
    snd.set_max_distance(&down, 8.0f32.to_bits());
    snd.set_reference_distance(&down, 8.0f32.to_bits());
    snd.set_attenuation(&down, 8.0f32.to_bits());
    assert_eq!(snd.get_state(&ctx), State::Initial);
    assert_eq!(snd.get_volume(&ctx), 1.0f32.to_bits());
    assert_eq!(snd.get_min_volume(&ctx), 0.0f32.to_bits());
    assert_eq!(snd.get_max_volume(&ctx), 1.0f32.to_bits());
    assert!(!snd.is_looping(&ctx));
    assert_eq!(snd.get_pitch(&ctx), 1.0f32.to_bits());
    assert!(!snd.is_relative(&ctx));
    let zero = Vec3 {
        x: 0.0f32.to_bits(),
        y: 0.0f32.to_bits(),
        z: 0.0f32.to_bits(),
    };
    assert_eq!(snd.get_position(&ctx), zero);
    assert_eq!(snd.get_direction(&ctx), zero);
    assert_eq!(snd.get_max_distance(&ctx), f32::INFINITY.to_bits());
    assert_eq!(snd.get_reference_distance(&ctx), 1.0f32.to_bits());
    assert_eq!(snd.get_attenuation(&ctx), 1.0f32.to_bits());
}

#[test]
fn shared_buffer_voices_are_independent() {
    let mut ctx = Context::new();
    let data = Rc::new(SoundData::with_buffer(3));
    let mut v1 = Sound::new_with_data(&mut ctx, Rc::clone(&data)).unwrap();
    let mut v2 = Sound::new_with_data(&mut ctx, Rc::clone(&data)).unwrap();
    assert!(Rc::ptr_eq(&v1.get_datas(), &data));
    assert!(Rc::ptr_eq(&v2.get_datas(), &data));
    assert_eq!(v1.get_datas().get_buffer(), v2.get_datas().get_buffer());
    v1.play(&ctx);
    assert_eq!(v1.get_state(&ctx), State::Playing);
    assert_eq!(v2.get_state(&ctx), State::Initial);
    v2.play(&ctx);
    v1.stop(&ctx);
    assert_eq!(v2.get_state(&ctx), State::Playing);
    assert_eq!(v1.get_state(&ctx), State::Stopped);
}

#[test]
fn drop_hands_back_the_handle_once() {
    let mut ctx = Context::new();
    let v1 = Sound::new_with_data(&mut ctx, Rc::new(SoundData::with_buffer(1))).unwrap();
    let v2 = Sound::new_with_data(&mut ctx, Rc::new(SoundData::with_buffer(2))).unwrap();
    let h1 = v1.drop();
    let h2 = v2.drop();
    assert_eq!(h1, 1);
    assert_eq!(h2, 2);
    assert_ne!(h1, h2);
}

#[test]
fn click_scenario() {
    let mut ctx = Context::new();
    let decoded = Some(SoundData::with_buffer(11));
    let mut snd = Sound::new(&mut ctx, decoded).unwrap();
    snd.set_volume(&ctx, 0.5f32.to_bits());
    snd.play(&ctx);
    assert_eq!(snd.get_state(&ctx), State::Playing);
    assert_eq!(snd.get_volume(&ctx), 0.5f32.to_bits());
    snd.stop(&ctx);
    assert_eq!(snd.get_state(&ctx), State::Stopped);
}

#[test]
fn sound_data_keeps_its_buffer() {
    let data = SoundData::with_buffer(42);
    assert_eq!(data.get_buffer(), 42);
}
