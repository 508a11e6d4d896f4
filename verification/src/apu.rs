//! The sound unit: one voice at a time, a waveform shaped by an
//! attack-decay-sustain-release envelope.
//!
//! Amplitudes are exact fractions of whole numbers. A host turns them into
//! its device's sample format.

use vstd::prelude::*;

verus! {

/// The largest number of samples that a voice may last.
pub const MAX_SAMPLES: u64 = 0x4_0000_0000_0000;

/// Milliseconds of attack for each of the sixteen settings.
pub open spec fn spec_attack_ms(setting: u8) -> int {
    seq![2int, 8, 16, 24, 38, 56, 68, 80, 100, 250, 500, 800, 1000, 3000, 5000, 8000][setting as int]
}

/// Milliseconds of decay, and of release, for each of the sixteen settings.
pub open spec fn spec_decay_ms(setting: u8) -> int {
    seq![6int, 24, 48, 72, 114, 168, 204, 240, 300, 750, 1500, 2400, 3000, 9000, 15000, 24000][setting as int]
}

/// The number of samples that `ms` milliseconds take at `rate` samples per
/// second, rounded down.
pub open spec fn spec_samples(ms: int, rate: int) -> int {
    ms * rate / 1000
}

/// Milliseconds of attack for a setting.
pub fn attack_ms(setting: u8) -> (ms: u16)
    requires
        setting < 16,
    ensures
        ms == spec_attack_ms(setting),
        ms <= 8000,
{
    let table: [u16; 16] = [2, 8, 16, 24, 38, 56, 68, 80, 100, 250, 500, 800, 1000, 3000, 5000, 8000];
    table[setting as usize]
}

/// Milliseconds of decay, or of release, for a setting.
pub fn decay_ms(setting: u8) -> (ms: u16)
    requires
        setting < 16,
    ensures
        ms == spec_decay_ms(setting),
        ms <= 24000,
{
    let table: [u16; 16] = [
        6,
        24,
        48,
        72,
        114,
        168,
        204,
        240,
        300,
        750,
        1500,
        2400,
        3000,
        9000,
        15000,
        24000,
    ];
    table[setting as usize]
}

/// Convert a duration in milliseconds to a number of samples.
pub fn samples(ms: u16, rate: u32) -> (n: u64)
    ensures
        n == spec_samples(ms as int, rate as int),
        n <= 0xFFFF * 0x1_0000_0000,
{
    assert(0 <= ms * rate <= 0xFFFF * 0xFFFF_FFFF) by (nonlinear_arith)
        requires
            0 <= ms <= 0xFFFF,
            0 <= rate <= 0xFFFF_FFFF,
    ;
    ms as u64 * rate as u64 / 1000
}

/// The shape of one cycle of a voice.
#[derive(Clone, Copy, Debug, PartialEq, Eq, Structural)]
pub enum Wave {
    Triangle,
    Sawtooth,
    Pulse,
    Noise,
}

/// The part of its envelope that a voice is in.
#[derive(Clone, Copy, Debug, PartialEq, Eq, Structural)]
pub enum Phase {
    Attack,
    Decay,
    Sustain,
    Release,
    Finished,
}

/// A waveform's amplitude before the envelope, between -1 and 1.
#[derive(Clone, Copy, Debug, PartialEq, Eq, Structural)]
pub enum Raw {
    /// The fraction `num / den`, with `den` above zero.
    Ratio { num: i64, den: i64 },
    /// A value for the host to draw uniformly from -1 to 1.
    Random,
    /// No number: a cycle of no samples has no shape.
    Undefined,
}

/// One sample of a voice: the waveform's amplitude, to be multiplied by the
/// envelope's `gain_num / gain_den`.
#[derive(Clone, Copy, Debug, PartialEq, Eq, Structural)]
pub struct Sample {
    pub raw: Raw,
    pub gain_num: u64,
    pub gain_den: u64,
}

/// The waveform's amplitude at sample `index` of a voice whose cycle takes
/// `period` samples. With `m` for `index mod period`: a triangle is
/// `(4 / period) * |m - period / 2| - 1`, a sawtooth `(2 / period) * m - 1`,
/// a pulse 1 in the first half of the cycle and -1 in the second.
pub open spec fn spec_wave_sample(wave: Wave, index: int, period: int) -> Raw {
    let m = index % period;
    match wave {
        Wave::Noise => Raw::Random,
        Wave::Pulse => if period > 0 && 2 * m < period {
            Raw::Ratio { num: 1, den: 1 }
        } else {
            Raw::Ratio { num: -1i64, den: 1 }
        },
        Wave::Triangle => if period > 0 {
            Raw::Ratio {
                num: ((if 4 * m >= 2 * period {
                    4 * m - 2 * period
                } else {
                    2 * period - 4 * m
                }) - period) as i64,
                den: period as i64,
            }
        } else {
            Raw::Undefined
        },
        Wave::Sawtooth => if period > 0 {
            Raw::Ratio { num: (2 * m - period) as i64, den: period as i64 }
        } else {
            Raw::Undefined
        },
    }
}

impl Wave {
    /// The wave that a setting selects, if it selects one.
    pub open spec fn spec_from_byte(byte: u8) -> Option<Wave> {
        if byte == 0 {
            Some(Wave::Triangle)
        } else if byte == 1 {
            Some(Wave::Sawtooth)
        } else if byte == 2 {
            Some(Wave::Pulse)
        } else if byte == 3 {
            Some(Wave::Noise)
        } else {
            None
        }
    }

    pub fn from_byte(byte: u8) -> (r: Option<Wave>)
        ensures
            r == Self::spec_from_byte(byte),
    {
        match byte {
            0 => Some(Wave::Triangle),
            1 => Some(Wave::Sawtooth),
            2 => Some(Wave::Pulse),
            3 => Some(Wave::Noise),
            _ => None,
        }
    }

    pub fn sample(&self, index: u64, period: u32) -> (r: Raw)
        ensures
            r == spec_wave_sample(*self, index as int, period as int),
            r matches Raw::Ratio { num, den } ==> den > 0 && -den <= num <= den,
    {
        match self {
            Wave::Noise => Raw::Random,
            Wave::Pulse => {
                if period > 0 && 2 * (index % (period as u64)) < period as u64 {
                    Raw::Ratio { num: 1, den: 1 }
                } else {
                    Raw::Ratio { num: -1, den: 1 }
                }
            },
            Wave::Triangle => {
                if period > 0 {
                    let m: i64 = (index % (period as u64)) as i64;
                    let p: i64 = period as i64;
                    let d: i64 = if 4 * m >= 2 * p { 4 * m - 2 * p } else { 2 * p - 4 * m };
                    Raw::Ratio { num: d - p, den: p }
                } else {
                    Raw::Undefined
                }
            },
            Wave::Sawtooth => {
                if period > 0 {
                    let m: i64 = (index % (period as u64)) as i64;
                    let p: i64 = period as i64;
                    Raw::Ratio { num: 2 * m - p, den: p }
                } else {
                    Raw::Undefined
                }
            },
        }
    }
}

/// A voice as mathematical values: levels out of fifteen, and counts of
/// samples.
pub struct Voice {
    pub volume: int,
    pub sustain: int,
    pub wave: Wave,
    pub attack: int,
    pub decay: int,
    pub release: int,
    pub total: int,
    pub period: int,
    pub count: int,
}

impl Voice {
    /// Attack, decay and release fit into the whole, and the voice has not
    /// run past its end.
    pub open spec fn wf(self) -> bool {
        &&& 0 <= self.volume <= 255
        &&& 0 <= self.sustain <= 255
        &&& 0 <= self.attack
        &&& 0 <= self.decay
        &&& 0 <= self.release
        &&& self.attack + self.decay + self.release <= self.total <= MAX_SAMPLES
        &&& 0 <= self.period <= u32::MAX
        &&& 0 <= self.count <= self.total
    }

    /// The silent voice, finished from the start.
    pub open spec fn silence() -> Voice {
        Voice {
            volume: 0,
            sustain: 0,
            wave: Wave::Pulse,
            attack: 0,
            decay: 0,
            release: 0,
            total: 0,
            period: 0,
            count: 0,
        }
    }

    /// The part of the envelope at sample `t`.
    pub open spec fn phase_at(self, t: int) -> Phase {
        if t >= self.total {
            Phase::Finished
        } else if t < self.attack {
            Phase::Attack
        } else if t < self.attack + self.decay {
            Phase::Decay
        } else if t >= self.total - self.release {
            Phase::Release
        } else {
            Phase::Sustain
        }
    }

    /// The envelope at sample `t` as a fraction `(numerator, denominator)`:
    /// a ramp from nothing to the volume through the attack, from the volume
    /// to the sustain level through the decay, the sustain level held, and a
    /// ramp from it to nothing through the release.
    pub open spec fn gain_at(self, t: int) -> (int, int) {
        match self.phase_at(t) {
            Phase::Finished => (0, 1),
            Phase::Attack => (self.volume * t, 15 * self.attack),
            Phase::Decay => (
                self.sustain * (t - self.attack) + self.volume * (self.decay - (t - self.attack)),
                15 * self.decay,
            ),
            Phase::Release => (self.sustain * (self.total - t), 15 * self.release),
            Phase::Sustain => (self.sustain, 15),
        }
    }

    /// The sample at `t`: silence once the voice has finished.
    pub open spec fn sample_at(self, t: int) -> Sample {
        let gain = self.gain_at(t);
        Sample {
            raw: if t >= self.total {
                Raw::Ratio { num: 0, den: 1 }
            } else {
                spec_wave_sample(self.wave, t, self.period)
            },
            gain_num: gain.0 as u64,
            gain_den: gain.1 as u64,
        }
    }

    /// The voice one sample on; a finished voice stays where it is.
    pub open spec fn advanced(self) -> Voice {
        if self.count >= self.total {
            self
        } else {
            Voice { count: self.count + 1, ..self }
        }
    }
}

/// The voice that is armed: what the sound unit plays, sample by sample.
#[derive(Clone, Copy, Debug)]
pub struct Generator {
    volume: u8,
    sustain: u8,
    wave: Wave,
    samples_attack: u64,
    samples_decay: u64,
    samples_release: u64,
    samples_total: u64,
    samples_period: u32,
    samples_count: u64,
}

impl View for Generator {
    type V = Voice;

    closed spec fn view(&self) -> Voice {
        Voice {
            volume: self.volume as int,
            sustain: self.sustain as int,
            wave: self.wave,
            attack: self.samples_attack as int,
            decay: self.samples_decay as int,
            release: self.samples_release as int,
            total: self.samples_total as int,
            period: self.samples_period as int,
            count: self.samples_count as int,
        }
    }
}

impl Generator {
    /// The invariant of a generator: that of its view.
    pub open spec fn wf(&self) -> bool {
        self@.wf()
    }

    pub fn silence() -> (g: Generator)
        ensures
            g.wf(),
            g@ == Voice::silence(),
    {
        Generator {
            volume: 0,
            sustain: 0,
            wave: Wave::Pulse,
            samples_attack: 0,
            samples_decay: 0,
            samples_release: 0,
            samples_total: 0,
            samples_period: 0,
            samples_count: 0,
        }
    }

    pub fn is_finished(&self) -> (r: bool)
        ensures
            r == (self@.count >= self@.total),
    {
        self.samples_count >= self.samples_total
    }

    /// The part of the envelope that the next sample falls in.
    pub fn phase(&self) -> (p: Phase)
        requires
            self.wf(),
        ensures
            p == self@.phase_at(self@.count),
    {
        let t = self.samples_count;
        if t >= self.samples_total {
            Phase::Finished
        } else if t < self.samples_attack {
            Phase::Attack
        } else if t < self.samples_attack + self.samples_decay {
            Phase::Decay
        } else if t >= self.samples_total - self.samples_release {
            Phase::Release
        } else {
            Phase::Sustain
        }
    }

    /// The next sample of the voice; the voice moves one sample on.
    pub fn next(&mut self) -> (s: Sample)
        requires
            old(self).wf(),
        ensures
            final(self).wf(),
            s == old(self)@.sample_at(old(self)@.count),
            final(self)@ == old(self)@.advanced(),
            s.gain_den > 0,
            s.gain_num <= 17 * s.gain_den,
    {
        let t: u64 = self.samples_count;
        let v: u64 = self.volume as u64;
        let s: u64 = self.sustain as u64;
        let phase = self.phase();
        match phase {
            Phase::Finished => Sample { raw: Raw::Ratio { num: 0, den: 1 }, gain_num: 0, gain_den: 1 },
            Phase::Attack => {
                assert(0 <= v * t <= 255 * MAX_SAMPLES && v * t <= 255 * self.samples_attack)
                    by (nonlinear_arith)
                    requires
                        0 <= v <= 255,
                        0 <= t <= MAX_SAMPLES,
                        t <= self.samples_attack,
                ;
                let raw = self.wave.sample(t, self.samples_period);
                self.samples_count = t + 1;
                Sample { raw, gain_num: v * t, gain_den: 15 * self.samples_attack }
            },
            Phase::Decay => {
                let d: u64 = self.samples_decay;
                let e: u64 = t - self.samples_attack;
                assert(0 <= s * e <= 255 * e && 0 <= v * (d - e) <= 255 * (d - e))
                    by (nonlinear_arith)
                    requires
                        0 <= v <= 255,
                        0 <= s <= 255,
                        0 <= e < d,
                ;
                let raw = self.wave.sample(t, self.samples_period);
                self.samples_count = t + 1;
                Sample { raw, gain_num: s * e + v * (d - e), gain_den: 15 * d }
            },
            Phase::Release => {
                let left: u64 = self.samples_total - t;
                assert(0 <= s * left <= 255 * left) by (nonlinear_arith)
                    requires
                        0 <= s <= 255,
                        0 <= left,
                ;
                let raw = self.wave.sample(t, self.samples_period);
                self.samples_count = t + 1;
                Sample { raw, gain_num: s * left, gain_den: 15 * self.samples_release }
            },
            Phase::Sustain => {
                let raw = self.wave.sample(t, self.samples_period);
                self.samples_count = t + 1;
                Sample { raw, gain_num: s, gain_den: 15 }
            },
        }
    }
}

/// What the host's sound device is asked to do.
#[derive(Clone, Copy, Debug)]
pub enum Command {
    /// Drop whatever plays and play this voice from its first sample.
    Play(Generator),
    /// Fall silent.
    Pause,
}

/// The sound unit's settings and its armed voice.
pub struct Apu {
    sample_rate: u32,
    wave: Wave,
    volume: u8,
    sustain: u8,
    attack: u8,
    decay: u8,
    release: u8,
    /// The voice armed by the last play
    voice: Generator,
    /// Whether the voice sounds
    playing: bool,
    /// Whether the host has yet to hear of the last play or stop
    pending: bool,
}

/// What a sound unit holds, as mathematical values.
pub struct ApuView {
    pub sample_rate: u32,
    pub wave: Wave,
    pub volume: u8,
    pub sustain: u8,
    pub attack: u8,
    pub decay: u8,
    pub release: u8,
    pub voice: Voice,
    pub playing: bool,
    pub pending: bool,
}

impl ApuView {
    /// The three durations are settings of the sixteen-entry tables, and the
    /// armed voice is well formed.
    pub open spec fn wf(self) -> bool {
        &&& self.attack < 16
        &&& self.decay < 16
        &&& self.release < 16
        &&& self.voice.wf()
    }

    /// A unit that has been given no settings: a pulse at full volume with
    /// no envelope, and silence armed.
    pub open spec fn fresh(sample_rate: u32) -> ApuView {
        ApuView {
            sample_rate,
            wave: Wave::Pulse,
            volume: 15,
            sustain: 15,
            attack: 0,
            decay: 0,
            release: 0,
            voice: Voice::silence(),
            playing: false,
            pending: false,
        }
    }

    /// The unit with new settings. A wave setting that selects no wave
    /// gives a pulse.
    pub open spec fn settings(
        self,
        attack: u8,
        decay: u8,
        sustain: u8,
        release: u8,
        volume: u8,
        wave: u8,
    ) -> ApuView {
        ApuView {
            attack,
            decay,
            sustain,
            release,
            volume,
            wave: match Wave::spec_from_byte(wave) {
                Some(w) => w,
                None => Wave::Pulse,
            },
            ..self
        }
    }

    /// The voice that a play command arms. Without the envelope it is a
    /// pulse held at the volume for the duration asked. With it the voice
    /// has the wave and the envelope of the settings; attack and decay are
    /// played in full, the rest of the duration asked, if any, is held at
    /// the sustain level, and the release follows.
    pub open spec fn voice_for(self, frequency: u16, duration: u16, adsr: bool) -> Voice {
        let rate = self.sample_rate as int;
        let asked = spec_samples(duration as int, rate);
        let period = rate / (frequency as int);
        if adsr {
            let attack = spec_samples(spec_attack_ms(self.attack), rate);
            let decay = spec_samples(spec_decay_ms(self.decay), rate);
            let release = spec_samples(spec_decay_ms(self.release), rate);
            let hold = if asked > attack + decay {
                asked - attack - decay
            } else {
                0
            };
            Voice {
                volume: self.volume as int,
                sustain: self.sustain as int,
                wave: self.wave,
                attack,
                decay,
                release,
                total: attack + decay + hold + release,
                period,
                count: 0,
            }
        } else {
            Voice {
                volume: self.volume as int,
                sustain: self.volume as int,
                wave: Wave::Pulse,
                attack: 0,
                decay: 0,
                release: 0,
                total: asked,
                period,
                count: 0,
            }
        }
    }

    /// The unit after a play command.
    pub open spec fn play(self, frequency: u16, duration: u16, adsr: bool) -> ApuView {
        ApuView {
            voice: self.voice_for(frequency, duration, adsr),
            playing: true,
            pending: true,
            ..self
        }
    }

    /// The unit after a stop command: the settings and the armed voice stay.
    pub open spec fn stop(self) -> ApuView {
        ApuView { playing: false, pending: true, ..self }
    }
}

impl View for Apu {
    type V = ApuView;

    closed spec fn view(&self) -> ApuView {
        ApuView {
            sample_rate: self.sample_rate,
            wave: self.wave,
            volume: self.volume,
            sustain: self.sustain,
            attack: self.attack,
            decay: self.decay,
            release: self.release,
            voice: self.voice@,
            playing: self.playing,
            pending: self.pending,
        }
    }
}

impl Apu {
    /// The invariant of a sound unit: that of its view.
    pub open spec fn wf(&self) -> bool {
        self@.wf()
    }

    /// Create a new audio processing unit for a device that takes
    /// `sample_rate` samples per second.
    pub fn new(sample_rate: u32) -> (apu: Apu)
        ensures
            apu.wf(),
            apu@ == ApuView::fresh(sample_rate),
    {
        Apu {
            sample_rate,
            wave: Wave::Pulse,
            volume: 15,
            sustain: 15,
            attack: 0,
            decay: 0,
            release: 0,
            voice: Generator::silence(),
            playing: false,
            pending: false,
        }
    }

    pub fn settings(&mut self, attack: u8, decay: u8, sustain: u8, release: u8, volume: u8, wave: u8)
        requires
            old(self).wf(),
            attack < 16,
            decay < 16,
            release < 16,
        ensures
            final(self).wf(),
            final(self)@ == old(self)@.settings(attack, decay, sustain, release, volume, wave),
    {
        self.attack = attack;
        self.decay = decay;
        self.release = release;
        self.sustain = sustain;
        self.volume = volume;
        self.wave = match Wave::from_byte(wave) {
            Some(w) => w,
            None => Wave::Pulse,
        };
    }

    /// Play a sound with a frequency given in hz for a duration given in ms
    pub fn play(&mut self, frequency: u16, duration: u16, adsr: bool)
        requires
            old(self).wf(),
            frequency > 0,
        ensures
            final(self).wf(),
            final(self)@ == old(self)@.play(frequency, duration, adsr),
    {
        let samples_duration: u64 = samples(duration, self.sample_rate);
        let period: u32 = self.sample_rate / frequency as u32;
        if adsr {
            let samples_attack: u64 = samples(attack_ms(self.attack), self.sample_rate);
            let samples_decay: u64 = samples(decay_ms(self.decay), self.sample_rate);
            let samples_release: u64 = samples(decay_ms(self.release), self.sample_rate);
            let hold: u64 = if samples_duration > samples_attack + samples_decay {
                samples_duration - samples_attack - samples_decay
            } else {
                0
            };
            self.voice = Generator {
                volume: self.volume,
                sustain: self.sustain,
                wave: self.wave,
                samples_attack,
                samples_decay,
                samples_release,
                samples_total: samples_attack + samples_decay + hold + samples_release,
                samples_period: period,
                samples_count: 0,
            };
        } else {
            self.voice = Generator {
                volume: self.volume,
                sustain: self.volume,
                wave: Wave::Pulse,
                samples_attack: 0,
                samples_decay: 0,
                samples_release: 0,
                samples_total: samples_duration,
                samples_period: period,
                samples_count: 0,
            };
        }
        self.playing = true;
        self.pending = true;
    }

    /// Stop the currently playing sound
    pub fn stop(&mut self)
        ensures
            final(self)@ == old(self)@.stop(),
    {
        self.playing = false;
        self.pending = true;
    }

    /// The armed voice.
    pub fn voice(&self) -> (g: Generator)
        ensures
            g@ == self@.voice,
    {
        self.voice
    }

    /// Whether the armed voice sounds.
    pub fn playing(&self) -> (r: bool)
        ensures
            r == self@.playing,
    {
        self.playing
    }

    /// What the host's sound device has to do, if anything has been played
    /// or stopped since this was last asked.
    pub fn command(&mut self) -> (r: Option<Command>)
        ensures
            final(self)@ == (ApuView { pending: false, ..old(self)@ }),
            !old(self)@.pending ==> r is None,
            old(self)@.pending && !old(self)@.playing ==> r == Some(Command::Pause),
            old(self)@.pending && old(self)@.playing ==> (r matches Some(Command::Play(g))
                && g@ == old(self)@.voice),
    {
        if !self.pending {
            return None;
        }
        self.pending = false;
        if self.playing {
            Some(Command::Play(self.voice))
        } else {
            Some(Command::Pause)
        }
    }
}

/// A voice with an attack starts from nothing: the envelope's first sample
/// is zero.
pub proof fn lemma_attack_starts_silent(voice: Voice)
    requires
        voice.wf(),
        voice.attack > 0,
    ensures
        voice.phase_at(0) == Phase::Attack,
        voice.gain_at(0).0 == 0,
        voice.gain_at(0).1 > 0,
{
}

/// On the last sample of the decay the envelope is above the sustain level
/// by one part in `decay` of what the volume is above it:
/// `gain - sustain / 15 == (volume - sustain) / (15 * decay)`.
pub proof fn lemma_decay_ends_at_sustain(voice: Voice)
    requires
        voice.wf(),
        voice.decay > 0,
    ensures
        voice.phase_at(voice.attack + voice.decay - 1) == Phase::Decay,
        voice.gain_at(voice.attack + voice.decay - 1).1 == 15 * voice.decay,
        voice.gain_at(voice.attack + voice.decay - 1).0 - voice.sustain * voice.decay
            == voice.volume - voice.sustain,
{
    let d = voice.decay;
    let s = voice.sustain;
    assert(s * (d - 1) + voice.volume * (d - (d - 1)) - s * d == voice.volume - s)
        by (nonlinear_arith);
}

/// On the last sample of the release the envelope is one part in `release`
/// of the sustain level: `gain == (sustain / 15) / release`.
pub proof fn lemma_release_ends_silent(voice: Voice)
    requires
        voice.wf(),
        voice.release > 0,
    ensures
        voice.phase_at(voice.total - 1) == Phase::Release,
        voice.gain_at(voice.total - 1) == (voice.sustain, 15 * voice.release),
{
    assert(voice.sustain * (voice.total - (voice.total - 1)) == voice.sustain)
        by (nonlinear_arith);
}

/// From its total number of samples on, a voice gives nothing but zero.
pub proof fn lemma_finished_is_silent(voice: Voice, t: int)
    requires
        voice.wf(),
        t >= voice.total,
    ensures
        voice.phase_at(t) == Phase::Finished,
        voice.sample_at(t) == (Sample { raw: Raw::Ratio { num: 0, den: 1 }, gain_num: 0, gain_den: 1 }),
{
}

} // verus!
