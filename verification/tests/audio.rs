use pong::audio::{AMPLITUDE, AUDIO_BUFFER_SIZE};
use pong::game::Sound;

#[test]
fn waveforms_have_the_buffer_size() {
    assert_eq!(AUDIO_BUFFER_SIZE, 8192);
    assert_eq!(AMPLITUDE, 100_000);
    assert_eq!(Sound::Beep.samples().len(), 8192);
    assert_eq!(Sound::Boop.samples().len(), 8192);
    assert_eq!(Sound::Bloop.samples().len(), 8192);
}

#[test]
fn beep_changes_sign_every_64_samples() {
    let wave = Sound::Beep.samples();
    for (i, sample) in wave.iter().enumerate() {
        let expected = if (i / 64) % 2 == 0 { 100_000 } else { -100_000 };
        assert_eq!(*sample, expected);
    }
    assert_eq!((wave[0], wave[63], wave[64], wave[127], wave[128]), (100_000, 100_000, -100_000, -100_000, 100_000));
}

#[test]
fn boop_changes_sign_every_128_samples() {
    let wave = Sound::Boop.samples();
    for (i, sample) in wave.iter().enumerate() {
        let expected = if (i / 128) % 2 == 0 { 100_000 } else { -100_000 };
        assert_eq!(*sample, expected);
    }
    assert_eq!((wave[0], wave[127], wave[128], wave[255], wave[256]), (100_000, 100_000, -100_000, -100_000, 100_000));
}

#[test]
fn bloop_is_the_sum_of_the_other_two() {
    let beep = Sound::Beep.samples();
    let boop = Sound::Boop.samples();
    let bloop = Sound::Bloop.samples();
    for i in 0..8192 {
        assert_eq!(bloop[i], beep[i] + boop[i]);
    }
    assert_eq!((bloop[0], bloop[64], bloop[128], bloop[192], bloop[256]), (200_000, 0, 0, -200_000, 200_000));
}
