//! The producer side of the sound effects: which samples the game asks the
//! mixer to play, and how often the boost sound may be repeated.
//!
//! Envelope and distortion parameters are held in thousandths, so `450`
//! stands for `0.45`.

use vstd::prelude::*;

verus! {

/// Output rate of the mixer in samples per second; the stream is mono.
pub const SAMPLE_RATE: usize = 22_050;

/// The boost sound is played once every this many requests.
pub const BOOST_INTERVAL: usize = 8;

pub const BOOST_FREQUENCY: usize = 200;

pub const BOOST_ENV_ATTACK: u16 = 450;

pub const BOOST_ENV_DECAY: u16 = 1000;

pub const BOOST_ENV_SUSTAIN: u16 = 500;

pub const BOOST_ENV_RELEASE: u16 = 900;

pub const BOOST_DIS_CRUNCH: u16 = 300;

pub const BOOST_DIS_DRIVE: u16 = 1000;

/// Wave form of a voice.
#[derive(Clone, Copy, Debug, PartialEq, Eq)]
pub enum OscillatorType {
    Sine,
    Saw,
    Triangle,
    Square,
    Noise,
}

/// Description of one voice: an oscillator shaped by an attack, decay,
/// sustain, release envelope and an optional distortion.
#[derive(Clone, Copy, Debug, PartialEq, Eq)]
pub struct Sample {
    pub osc_type: OscillatorType,
    /// Oscillator frequency in hertz.
    pub osc_frequency: usize,
    pub env_attack: u16,
    pub env_decay: u16,
    pub env_sustain: u16,
    pub env_release: u16,
    pub dis_crunch: Option<u16>,
    pub dis_drive: Option<u16>,
}

/// The voice of the engine boost.
pub open spec fn boost_sample() -> Sample {
    Sample {
        osc_type: OscillatorType::Saw,
        osc_frequency: BOOST_FREQUENCY,
        env_attack: BOOST_ENV_ATTACK,
        env_decay: BOOST_ENV_DECAY,
        env_sustain: BOOST_ENV_SUSTAIN,
        env_release: BOOST_ENV_RELEASE,
        dis_crunch: Some(BOOST_DIS_CRUNCH),
        dis_drive: Some(BOOST_DIS_DRIVE),
    }
}

/// The voice of a laser shot.
pub open spec fn laser_sample() -> Sample {
    Sample {
        osc_type: OscillatorType::Triangle,
        osc_frequency: 1000,
        env_attack: 200,
        env_decay: 100,
        env_sustain: 500,
        env_release: 200,
        dis_crunch: None,
        dis_drive: None,
    }
}

/// Whether a boost request made `since` requests after the last sound (or
/// after the start) is the one that sounds.
pub open spec fn boost_due(since: nat) -> bool {
    since + 1 >= BOOST_INTERVAL
}

/// The number of requests since the last sound, after one more request.
pub open spec fn next_interval(since: nat) -> nat {
    if boost_due(since) {
        0
    } else {
        since + 1
    }
}

/// The number of requests since the last sound after `calls` further
/// requests.
pub open spec fn interval_after(since: nat, calls: nat) -> nat
    decreases calls,
{
    if calls == 0 {
        since
    } else {
        next_interval(interval_after(since, (calls - 1) as nat))
    }
}

/// How many of `calls` successive requests sound, for a throttle that has
/// seen `since` requests after its last sound.
pub open spec fn boosts_in(since: nat, calls: nat) -> nat
    decreases calls,
{
    if calls == 0 {
        0
    } else {
        let before = (calls - 1) as nat;
        boosts_in(since, before) + if boost_due(interval_after(since, before)) {
            1nat
        } else {
            0nat
        }
    }
}

/// Manages the audio requests of the game thread.
pub struct Audio {
    boost_interval: usize,
}

impl Audio {
    #[verifier::type_invariant]
    spec fn below_interval(self) -> bool {
        self.boost_interval < BOOST_INTERVAL
    }

    /// The number of boost requests since the last boost sound.
    pub closed spec fn view(&self) -> nat {
        self.boost_interval as nat
    }

    /// Instantiate a new audio object that has seen no request.
    pub fn new() -> (audio: Self)
        ensures
            audio@ == 0,
    {
        Self { boost_interval: 0 }
    }

    /// Request the boost sound. Every `BOOST_INTERVAL`-th request returns
    /// the sample to hand to the mixer, the others return nothing.
    pub fn play_boost(&mut self) -> (sample: Option<Sample>)
        ensures
            old(self)@ < BOOST_INTERVAL,
            final(self)@ == next_interval(old(self)@),
            sample == if boost_due(old(self)@) {
                Some(boost_sample())
            } else {
                None
            },
    {
        proof {
            use_type_invariant(&*self);
        }
        if self.boost_interval + 1 >= BOOST_INTERVAL {
            self.boost_interval = 0;
            Some(
                Sample {
                    osc_type: OscillatorType::Saw,
                    osc_frequency: BOOST_FREQUENCY,
                    env_attack: BOOST_ENV_ATTACK,
                    env_decay: BOOST_ENV_DECAY,
                    env_sustain: BOOST_ENV_SUSTAIN,
                    env_release: BOOST_ENV_RELEASE,
                    dis_crunch: Some(BOOST_DIS_CRUNCH),
                    dis_drive: Some(BOOST_DIS_DRIVE),
                },
            )
        } else {
            self.boost_interval = self.boost_interval + 1;
            None
        }
    }

    /// Request the laser sound, which is never throttled.
    pub fn play_laser(&mut self) -> (sample: Sample)
        ensures
            final(self)@ == old(self)@,
            sample == laser_sample(),
    {
        Sample {
            osc_type: OscillatorType::Triangle,
            osc_frequency: 1000,
            env_attack: 200,
            env_decay: 100,
            env_sustain: 500,
            env_release: 200,
            dis_crunch: None,
            dis_drive: None,
        }
    }
}

/// Rate limiting: of `calls` successive boost requests made to a fresh
/// `Audio`, exactly `calls / BOOST_INTERVAL` sound, and the throttle then
/// stands `calls % BOOST_INTERVAL` requests after the last sound.
pub proof fn lemma_boost_rate(calls: nat)
    ensures
        boosts_in(0, calls) == calls / (BOOST_INTERVAL as nat),
        interval_after(0, calls) == calls % (BOOST_INTERVAL as nat),
    decreases calls,
{
    if calls > 0 {
        lemma_boost_rate((calls - 1) as nat);
    }
}

/// A throttle never counts up to `BOOST_INTERVAL`: whatever state it
/// starts from below the interval, it stays below it.
pub proof fn lemma_interval_bounded(since: nat, calls: nat)
    requires
        since < BOOST_INTERVAL,
    ensures
        interval_after(since, calls) < BOOST_INTERVAL,
    decreases calls,
{
    if calls > 0 {
        lemma_interval_bounded(since, (calls - 1) as nat);
    }
}

} // verus!
