//! Oscillator behavior: the continuous-phase wave at 440 Hz, its closed
//! form, and immunity to clock wraparound.

use yat_rack::clock::{Clock, TIME_WRAP};
use yat_rack::modules::io_module::IoModule;
use yat_rack::modules::oscillator::Oscillator;
use yat_rack::modules::output::Output;
use yat_rack::out_port::OutPort;
use yat_rack::rack::Rack;
use yat_rack::slots::SlotBank;
use yat_rack::types::{SAMPLE_RATE, SAMPLE_SCALE};

/// The fixed-point wave the oscillator produces at a given phase (in
/// micro-periods): a parabolic lobe mirrored into its negative half.
fn expected_wave(phase: i64) -> i64 {
    let half = SAMPLE_SCALE / 2;
    let lobe = |x: i64| x * (half - x) / 62_500;
    if phase < half {
        lobe(phase)
    } else {
        -lobe(phase - half)
    }
}

#[test]
fn concert_pitch_follows_the_closed_form() {
    // amp = 1.0, freq = 440 Hz, sample rate 44100: the phase advances by
    // 440_000_000 / 44_100 micro-periods per tick and wraps each cycle.
    let mut bank = SlotBank::new();
    let clock = Clock::new();
    let mut osc = Oscillator::new("osc".to_string(), &mut bank);
    let amp = OutPort::new("amp_src".to_string(), &mut bank);
    let freq = OutPort::new("freq_src".to_string(), &mut bank);
    amp.set_value(&mut bank, SAMPLE_SCALE);
    freq.set_value(&mut bank, 440 * SAMPLE_SCALE);
    osc.set_in_port("amp", Some(amp.get_ref())).unwrap();
    osc.set_in_port("freq", Some(freq.get_ref())).unwrap();

    let step = 440 * SAMPLE_SCALE / SAMPLE_RATE;
    let mut phase = 0i64;
    // The period is about 44100 / 440 ~ 100 samples; check several full
    // cycles sample by sample.
    for _ in 0..1_000 {
        osc.process_inputs(&mut bank, &clock);
        phase = (phase + step) % SAMPLE_SCALE;
        assert_eq!(osc.phase, phase);
        assert_eq!(bank.read(osc.out_audio_out.slot), Some(expected_wave(phase)));
    }
}

#[test]
fn amplitude_scales_the_wave() {
    let mut bank = SlotBank::new();
    let clock = Clock::new();
    let mut osc = Oscillator::new("osc".to_string(), &mut bank);
    let amp = OutPort::new("amp_src".to_string(), &mut bank);
    let freq = OutPort::new("freq_src".to_string(), &mut bank);
    amp.set_value(&mut bank, SAMPLE_SCALE / 4); // 0.25
    freq.set_value(&mut bank, 440 * SAMPLE_SCALE);
    osc.set_in_port("amp", Some(amp.get_ref())).unwrap();
    osc.set_in_port("freq", Some(freq.get_ref())).unwrap();
    for _ in 0..500 {
        osc.process_inputs(&mut bank, &clock);
        let v = bank.read(osc.out_audio_out.slot).unwrap();
        let full = expected_wave(osc.phase);
        assert_eq!(v, full / 4);
        assert!(v.abs() <= SAMPLE_SCALE / 4);
    }
}

#[test]
fn no_discontinuity_across_clock_wraparound() {
    // Drive the oscillator through a rack whose clock is about to wrap:
    // the output must keep following the same closed form, because the
    // phase accumulator never consults absolute time.
    let mut rack = Rack::new();
    rack.add_module_type("osc", "osc").unwrap();
    let out = Output::new("out".to_string());
    rack.add_module(IoModule::Output(out)).unwrap();
    rack.connect_modules("osc", "audio_out", "out", "signal_in").unwrap();

    // Point the clock a few ticks short of its wrap bound.
    rack.clock.set_time(TIME_WRAP - 3 * rack.clock.time_delta);

    // The oscillator defaults: amp 0.5, freq 1 kHz.
    let step = 1_000 * SAMPLE_SCALE / SAMPLE_RATE;
    let mut phase = 0i64;
    let mut wrapped = false;
    for _ in 0..200 {
        let samples = rack.process_module_chain();
        phase = (phase + step) % SAMPLE_SCALE;
        assert_eq!(samples, vec![expected_wave(phase) / 2]);
        if rack.clock.time < TIME_WRAP / 2 {
            wrapped = true;
        }
    }
    assert!(wrapped, "the clock should have wrapped during this run");
}

#[test]
fn negative_and_huge_frequencies_are_clamped() {
    let mut bank = SlotBank::new();
    let clock = Clock::new();
    let mut osc = Oscillator::new("osc".to_string(), &mut bank);
    let freq = OutPort::new("freq_src".to_string(), &mut bank);
    osc.set_in_port("freq", Some(freq.get_ref())).unwrap();
    // A negative frequency advances the phase not at all.
    freq.set_value(&mut bank, -5_000_000);
    osc.process_inputs(&mut bank, &clock);
    assert_eq!(osc.phase, 0);
    // A frequency beyond 20 kHz advances like exactly 20 kHz.
    freq.set_value(&mut bank, i64::MAX);
    osc.process_inputs(&mut bank, &clock);
    assert_eq!(osc.phase, 20_000 * SAMPLE_SCALE / SAMPLE_RATE);
}
