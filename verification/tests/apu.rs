use rchip16::apu::attack_ms;
use rchip16::apu::decay_ms;
use rchip16::apu::samples;
use rchip16::apu::Apu;
use rchip16::apu::Command;
use rchip16::apu::Generator;
use rchip16::apu::Phase;
use rchip16::apu::Raw;
use rchip16::apu::Sample;
use rchip16::apu::Wave;

/// The samples of a voice up to its end.
fn all(mut voice: Generator) -> Vec<Sample> {
    let mut out = Vec::new();
    while !voice.is_finished() {
        out.push(voice.next());
    }
    out
}

fn ratio(num: i64, den: i64) -> Raw {
    Raw::Ratio { num, den }
}

#[test]
fn the_attack_table() {
    let expected = [2, 8, 16, 24, 38, 56, 68, 80, 100, 250, 500, 800, 1000, 3000, 5000, 8000];
    for i in 0..16u8 {
        assert_eq!(attack_ms(i), expected[i as usize]);
    }
}

#[test]
fn the_decay_and_release_table() {
    let expected =
        [6, 24, 48, 72, 114, 168, 204, 240, 300, 750, 1500, 2400, 3000, 9000, 15000, 24000];
    for i in 0..16u8 {
        assert_eq!(decay_ms(i), expected[i as usize]);
    }
}

#[test]
fn milliseconds_become_samples() {
    assert_eq!(samples(100, 44100), 4410);
    assert_eq!(samples(1, 44100), 44);
    assert_eq!(samples(0, 44100), 0);
    assert_eq!(samples(1000, 48000), 48000);
    assert_eq!(samples(3, 999), 2);
    assert_eq!(samples(24000, 192000), 4_608_000);
    assert_eq!(samples(65535, u32::MAX), 281_470_681_677);
}

#[test]
fn waves_are_chosen_by_number() {
    assert_eq!(Wave::from_byte(0), Some(Wave::Triangle));
    assert_eq!(Wave::from_byte(1), Some(Wave::Sawtooth));
    assert_eq!(Wave::from_byte(2), Some(Wave::Pulse));
    assert_eq!(Wave::from_byte(3), Some(Wave::Noise));
    assert_eq!(Wave::from_byte(4), None);
    assert_eq!(Wave::from_byte(255), None);
}

#[test]
fn a_triangle_falls_and_rises() {
    let wave = Wave::Triangle;
    assert_eq!(wave.sample(0, 8), ratio(8, 8));
    assert_eq!(wave.sample(1, 8), ratio(4, 8));
    assert_eq!(wave.sample(2, 8), ratio(0, 8));
    assert_eq!(wave.sample(3, 8), ratio(-4, 8));
    assert_eq!(wave.sample(4, 8), ratio(-8, 8));
    assert_eq!(wave.sample(5, 8), ratio(-4, 8));
    assert_eq!(wave.sample(7, 8), ratio(4, 8));
    assert_eq!(wave.sample(8, 8), ratio(8, 8));
    assert_eq!(wave.sample(13, 5), ratio(-3, 5));
}

#[test]
fn a_sawtooth_rises() {
    let wave = Wave::Sawtooth;
    assert_eq!(wave.sample(0, 4), ratio(-4, 4));
    assert_eq!(wave.sample(1, 4), ratio(-2, 4));
    assert_eq!(wave.sample(2, 4), ratio(0, 4));
    assert_eq!(wave.sample(3, 4), ratio(2, 4));
    assert_eq!(wave.sample(4, 4), ratio(-4, 4));
}

#[test]
fn a_pulse_is_high_for_the_first_half() {
    let wave = Wave::Pulse;
    assert_eq!(wave.sample(0, 4), ratio(1, 1));
    assert_eq!(wave.sample(1, 4), ratio(1, 1));
    assert_eq!(wave.sample(2, 4), ratio(-1, 1));
    assert_eq!(wave.sample(3, 4), ratio(-1, 1));
    assert_eq!(wave.sample(4, 4), ratio(1, 1));
    // an odd cycle: the middle sample is past the half
    assert_eq!(wave.sample(0, 3), ratio(1, 1));
    assert_eq!(wave.sample(1, 3), ratio(1, 1));
    assert_eq!(wave.sample(2, 3), ratio(-1, 1));
}

#[test]
fn noise_is_left_to_the_host() {
    assert_eq!(Wave::Noise.sample(0, 4), Raw::Random);
    assert_eq!(Wave::Noise.sample(17, 0), Raw::Random);
}

#[test]
fn a_cycle_of_no_samples_has_no_shape() {
    assert_eq!(Wave::Triangle.sample(5, 0), Raw::Undefined);
    assert_eq!(Wave::Sawtooth.sample(5, 0), Raw::Undefined);
    assert_eq!(Wave::Pulse.sample(5, 0), ratio(-1, 1));
}

#[test]
fn silence_is_finished_from_the_start() {
    let mut voice = Generator::silence();
    assert_eq!(voice.is_finished(), true);
    assert_eq!(voice.phase(), Phase::Finished);
    for _ in 0..3 {
        assert_eq!(voice.next(), Sample { raw: ratio(0, 1), gain_num: 0, gain_den: 1 });
    }
    assert_eq!(voice.is_finished(), true);
}

#[test]
fn a_new_apu_has_silence_armed() {
    let mut apu = Apu::new(44100);
    assert_eq!(apu.playing(), false);
    assert_eq!(apu.voice().is_finished(), true);
    assert!(apu.command().is_none());
}

#[test]
fn a_plain_tone_is_a_pulse_at_full_volume() {
    let mut apu = Apu::new(1000);
    // 250 hz at 1000 samples a second: four samples to the cycle; 10 ms: ten samples
    apu.play(250, 10, false);
    assert_eq!(apu.playing(), true);
    let out = all(apu.voice());
    assert_eq!(out.len(), 10);
    for (t, sample) in out.iter().enumerate() {
        let high = t % 4 < 2;
        assert_eq!(sample.raw, ratio(if high { 1 } else { -1 }, 1));
        assert_eq!((sample.gain_num, sample.gain_den), (15, 15));
    }
}

#[test]
fn a_plain_tone_ignores_the_envelope_and_the_wave() {
    let mut apu = Apu::new(1000);
    apu.settings(5, 5, 3, 5, 9, 0);
    apu.play(100, 20, false);
    let out = all(apu.voice());
    assert_eq!(out.len(), 20);
    assert_eq!(out[0], Sample { raw: ratio(1, 1), gain_num: 9, gain_den: 15 });
    assert_eq!(out[5], Sample { raw: ratio(-1, 1), gain_num: 9, gain_den: 15 });
    assert_eq!(out[19], Sample { raw: ratio(-1, 1), gain_num: 9, gain_den: 15 });
}

#[test]
fn an_envelope_runs_through_its_four_phases() {
    let mut apu = Apu::new(1000);
    // attack 2 ms, decay 6 ms, sustain 6/15, release 6 ms, volume 12/15, sawtooth
    apu.settings(0, 0, 6, 0, 12, 1);
    // 100 hz: ten samples to the cycle; 12 ms asked: four samples held
    apu.play(100, 12, true);
    let mut voice = apu.voice();
    let mut phases = Vec::new();
    let mut gains = Vec::new();
    let mut raws = Vec::new();
    while !voice.is_finished() {
        phases.push(voice.phase());
        let sample = voice.next();
        gains.push((sample.gain_num, sample.gain_den));
        raws.push(sample.raw);
    }
    assert_eq!(phases.len(), 18);
    assert_eq!(&phases[0..2], &[Phase::Attack; 2]);
    assert_eq!(&phases[2..8], &[Phase::Decay; 6]);
    assert_eq!(&phases[8..12], &[Phase::Sustain; 4]);
    assert_eq!(&phases[12..18], &[Phase::Release; 6]);
    assert_eq!(voice.phase(), Phase::Finished);
    // attack: volume * t / attack
    assert_eq!(gains[0], (0, 30));
    assert_eq!(gains[1], (12, 30));
    // decay: from the volume down to the sustain level
    assert_eq!(gains[2], (72, 90));
    assert_eq!(gains[3], (66, 90));
    assert_eq!(gains[7], (42, 90));
    // sustain
    assert_eq!(gains[8], (6, 15));
    assert_eq!(gains[11], (6, 15));
    // release: from the sustain level down to nothing
    assert_eq!(gains[12], (36, 90));
    assert_eq!(gains[13], (30, 90));
    assert_eq!(gains[17], (6, 90));
    // the wave runs on through the phases
    assert_eq!(raws[0], ratio(-10, 10));
    assert_eq!(raws[5], ratio(0, 10));
    assert_eq!(raws[9], ratio(8, 10));
    assert_eq!(raws[10], ratio(-10, 10));
    assert_eq!(raws[17], ratio(4, 10));
    // and then there is silence
    assert_eq!(voice.next(), Sample { raw: ratio(0, 1), gain_num: 0, gain_den: 1 });
    assert_eq!(voice.next(), Sample { raw: ratio(0, 1), gain_num: 0, gain_den: 1 });
}

#[test]
fn the_envelope_starts_at_nothing() {
    let mut apu = Apu::new(44100);
    apu.settings(3, 3, 8, 3, 15, 2);
    apu.play(440, 500, true);
    let mut voice = apu.voice();
    assert_eq!(voice.phase(), Phase::Attack);
    let first = voice.next();
    assert_eq!(first.gain_num, 0);
    // 24 ms of attack
    assert_eq!(first.gain_den, 15 * 1058);
}

#[test]
fn the_decay_ends_next_to_the_sustain_level() {
    let mut apu = Apu::new(1000);
    apu.settings(0, 1, 5, 0, 15, 2);
    apu.play(100, 100, true);
    let out = all(apu.voice());
    // attack 2, decay 24: the last sample of the decay is number 25
    let last = out[25];
    assert_eq!(last.gain_den, 15 * 24);
    // one part in 24 of the way from the sustain level up to the volume
    assert_eq!(last.gain_num, 5 * 24 + (15 - 5));
    assert_eq!((out[26].gain_num, out[26].gain_den), (5, 15));
}

#[test]
fn the_release_ends_next_to_nothing() {
    let mut apu = Apu::new(1000);
    apu.settings(0, 0, 9, 2, 15, 2);
    apu.play(100, 10, true);
    let out = all(apu.voice());
    // attack 2, decay 6, two held, release 48
    assert_eq!(out.len(), 58);
    let last = out[57];
    assert_eq!((last.gain_num, last.gain_den), (9, 15 * 48));
}

#[test]
fn a_short_duration_still_gets_attack_decay_and_release() {
    let mut apu = Apu::new(1000);
    apu.settings(1, 1, 4, 1, 10, 2);
    apu.play(100, 0, true);
    // attack 8, decay 24, nothing held, release 24
    assert_eq!(all(apu.voice()).len(), 56);
    apu.play(100, 32, true);
    assert_eq!(all(apu.voice()).len(), 56);
    apu.play(100, 33, true);
    assert_eq!(all(apu.voice()).len(), 57);
}

#[test]
fn a_sustain_above_the_volume_makes_the_decay_rise() {
    let mut apu = Apu::new(1000);
    apu.settings(0, 0, 15, 0, 3, 2);
    apu.play(100, 8, true);
    let out = all(apu.voice());
    assert_eq!((out[2].gain_num, out[2].gain_den), (18, 90));
    assert_eq!((out[5].gain_num, out[5].gain_den), (54, 90));
    assert_eq!((out[7].gain_num, out[7].gain_den), (78, 90));
}

#[test]
fn an_unknown_wave_setting_gives_a_pulse() {
    let mut apu = Apu::new(1000);
    apu.settings(0, 0, 15, 0, 15, 0);
    apu.settings(0, 0, 15, 0, 15, 9);
    apu.play(250, 20, true);
    let out = all(apu.voice());
    assert_eq!(out[8].raw, ratio(1, 1));
    assert_eq!(out[10].raw, ratio(-1, 1));
}

#[test]
fn a_noise_setting_gives_noise() {
    let mut apu = Apu::new(1000);
    apu.settings(0, 0, 15, 0, 15, 3);
    apu.play(250, 20, true);
    let out = all(apu.voice());
    assert!(out.iter().all(|s| s.raw == Raw::Random));
}

#[test]
fn a_frequency_above_the_sample_rate_has_no_cycle() {
    let mut apu = Apu::new(1000);
    apu.settings(0, 0, 15, 0, 15, 0);
    apu.play(2000, 20, true);
    let out = all(apu.voice());
    assert!(out.iter().all(|s| s.raw == Raw::Undefined));
}

#[test]
fn play_replaces_the_voice() {
    let mut apu = Apu::new(1000);
    apu.play(250, 10, false);
    let mut first = apu.voice();
    first.next();
    apu.play(500, 4, false);
    let out = all(apu.voice());
    assert_eq!(out.len(), 4);
    assert_eq!(out[0].raw, ratio(1, 1));
    assert_eq!(out[1].raw, ratio(-1, 1));
}

#[test]
fn stop_keeps_the_settings() {
    let mut apu = Apu::new(1000);
    apu.settings(0, 0, 6, 0, 12, 1);
    apu.play(100, 12, true);
    apu.stop();
    assert_eq!(apu.playing(), false);
    // the armed voice is still there
    assert_eq!(all(apu.voice()).len(), 18);
    apu.play(100, 12, true);
    assert_eq!(apu.playing(), true);
    let out = all(apu.voice());
    assert_eq!(out.len(), 18);
    assert_eq!((out[1].gain_num, out[1].gain_den), (12, 30));
    assert_eq!(out[0].raw, ratio(-10, 10));
}

#[test]
fn commands_are_handed_out_once() {
    let mut apu = Apu::new(1000);
    apu.play(250, 10, false);
    match apu.command() {
        Some(Command::Play(voice)) => assert_eq!(all(voice).len(), 10),
        _ => panic!("no voice to play"),
    }
    assert!(apu.command().is_none());
    apu.stop();
    assert!(matches!(apu.command(), Some(Command::Pause)));
    assert!(apu.command().is_none());
    // only the last of several counts
    apu.stop();
    apu.play(250, 3, false);
    match apu.command() {
        Some(Command::Play(voice)) => assert_eq!(all(voice).len(), 3),
        _ => panic!("no voice to play"),
    }
    apu.play(250, 3, false);
    apu.stop();
    assert!(matches!(apu.command(), Some(Command::Pause)));
}

#[test]
fn the_gain_never_passes_seventeen() {
    let mut apu = Apu::new(100);
    apu.settings(2, 2, 255, 2, 255, 2);
    apu.play(10, 100, true);
    for sample in all(apu.voice()) {
        assert!(sample.gain_den > 0);
        assert!(sample.gain_num <= 17 * sample.gain_den);
    }
}
