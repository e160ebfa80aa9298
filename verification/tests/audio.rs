use rocket_game::audio::{Audio, OscillatorType, Sample, BOOST_INTERVAL, SAMPLE_RATE};

#[test]
fn audio_constants() {
    assert_eq!(SAMPLE_RATE, 22_050);
    assert_eq!(BOOST_INTERVAL, 8);
}

#[test]
fn boosts_are_one_in_eight_requests() {
    for calls in 0..=100usize {
        let mut audio = Audio::new();
        let mut boosts = 0;
        for _ in 0..calls {
            if audio.play_boost().is_some() {
                boosts += 1;
            }
        }
        assert_eq!(boosts, calls / BOOST_INTERVAL);
    }
}

#[test]
fn first_boost_comes_with_the_eighth_request() {
    let mut audio = Audio::new();
    for _ in 0..7 {
        assert_eq!(audio.play_boost(), None);
    }
    assert!(audio.play_boost().is_some());
    assert_eq!(audio.play_boost(), None);
}

#[test]
fn boost_sample_is_a_distorted_saw() {
    let mut audio = Audio::new();
    let mut sample = None;
    while sample.is_none() {
        sample = audio.play_boost();
    }
    assert_eq!(
        sample,
        Some(Sample {
            osc_type: OscillatorType::Saw,
            osc_frequency: 200,
            env_attack: 450,
            env_decay: 1000,
            env_sustain: 500,
            env_release: 900,
            dis_crunch: Some(300),
            dis_drive: Some(1000),
        })
    );
}

#[test]
fn laser_sample_is_a_clean_triangle() {
    let mut audio = Audio::new();
    assert_eq!(
        audio.play_laser(),
        Sample {
            osc_type: OscillatorType::Triangle,
            osc_frequency: 1000,
            env_attack: 200,
            env_decay: 100,
            env_sustain: 500,
            env_release: 200,
            dis_crunch: None,
            dis_drive: None,
        }
    );
}

#[test]
fn laser_is_not_throttled_and_leaves_the_boost_alone() {
    let mut audio = Audio::new();
    for _ in 0..5 {
        assert_eq!(audio.play_boost(), None);
    }
    for _ in 0..20 {
        audio.play_laser();
    }
    assert_eq!(audio.play_boost(), None);
    assert_eq!(audio.play_boost(), None);
    assert!(audio.play_boost().is_some());
}
