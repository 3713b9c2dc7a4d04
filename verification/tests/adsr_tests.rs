//! The ADSR golden scenario and the retrigger behavior, driven tick by
//! tick at concert settings: attack 0.1 s, decay 0.1 s, sustain 0.5,
//! release 0.2 s, delta = one sample at 44100 Hz.

use yat_rack::clock::Clock;
use yat_rack::modules::adsr::{Adsr, AdsrState};
use yat_rack::out_port::OutPort;
use yat_rack::slots::SlotBank;
use yat_rack::types::SAMPLE_SCALE;

/// An envelope with all four parameters wired to fixed values and the
/// gate wired to a controllable port.
struct Setup {
    bank: SlotBank,
    clock: Clock,
    adsr: Adsr,
    gate: OutPort,
}

fn setup() -> Setup {
    let mut bank = SlotBank::new();
    let clock = Clock::new();
    let mut adsr = Adsr::new("env".to_string(), clock.time_delta, &mut bank);
    let gate = OutPort::new("gate_src".to_string(), &mut bank);
    let attack = OutPort::new("attack_src".to_string(), &mut bank);
    let decay = OutPort::new("decay_src".to_string(), &mut bank);
    let sustain = OutPort::new("sustain_src".to_string(), &mut bank);
    let release = OutPort::new("release_src".to_string(), &mut bank);
    gate.set_value(&mut bank, 0);
    attack.set_value(&mut bank, 100_000); // 0.1 s
    decay.set_value(&mut bank, 100_000); // 0.1 s
    sustain.set_value(&mut bank, 500_000); // 0.5
    release.set_value(&mut bank, 200_000); // 0.2 s
    adsr.set_in_port("gate", Some(gate.get_ref())).unwrap();
    adsr.set_in_port("attack", Some(attack.get_ref())).unwrap();
    adsr.set_in_port("decay", Some(decay.get_ref())).unwrap();
    adsr.set_in_port("sustain", Some(sustain.get_ref())).unwrap();
    adsr.set_in_port("release", Some(release.get_ref())).unwrap();
    Setup { bank, clock, adsr, gate }
}

fn tick(s: &mut Setup) -> i64 {
    s.adsr.process_inputs(&mut s.bank, &s.clock);
    s.clock.increment();
    s.bank.read(s.adsr.out_signal_out.slot).unwrap()
}

#[test]
fn golden_envelope_scenario() {
    let mut s = setup();
    let delta = s.clock.time_delta;
    assert_eq!(delta, SAMPLE_SCALE / 44_100);

    // Output is 0 while no note is active.
    for _ in 0..50 {
        assert_eq!(tick(&mut s), 0);
    }
    assert_eq!(s.adsr.adsr_state, AdsrState::Inactive);

    // Gate on: the first processed tick enters Attack.
    s.gate.set_value(&mut s.bank, SAMPLE_SCALE);
    tick(&mut s);
    assert_eq!(s.adsr.adsr_state, AdsrState::Attack);

    // Attack: rises monotonically, reaching about 1.0 near t = 0.1 s.
    let mut last = -1i64;
    let mut peak = 0i64;
    loop {
        let v = tick(&mut s);
        if s.adsr.adsr_state != AdsrState::Attack {
            break;
        }
        assert!(v >= last, "attack must rise monotonically");
        last = v;
        peak = v;
    }
    assert_eq!(s.adsr.adsr_state, AdsrState::Decay);
    assert!(peak > 990_000, "attack peaked at {}", peak);

    // Decay: falls monotonically to the sustain level by t = 0.2 s.
    let mut last = SAMPLE_SCALE + 1;
    loop {
        let v = tick(&mut s);
        if s.adsr.adsr_state != AdsrState::Decay {
            break;
        }
        assert!(v <= last, "decay must fall monotonically");
        last = v;
    }
    assert_eq!(s.adsr.adsr_state, AdsrState::Sustain);
    assert!(last <= 500_200, "decay bottomed out at {}", last);

    // Sustain: holds 0.5 while a note stays active.
    for _ in 0..1000 {
        assert_eq!(tick(&mut s), 500_000);
    }

    // Gate off: falls monotonically from 0.5 to 0 over 0.2 s, then pins
    // at 0.
    s.gate.set_value(&mut s.bank, 0);
    tick(&mut s); // capture tick
    assert_eq!(s.adsr.adsr_state, AdsrState::Release);
    let mut last = 500_001i64;
    loop {
        let v = tick(&mut s);
        if s.adsr.adsr_state != AdsrState::Release {
            break;
        }
        assert!(v <= last, "release must fall monotonically");
        assert!(v <= 500_000);
        last = v;
    }
    assert_eq!(s.adsr.adsr_state, AdsrState::Inactive);
    assert!(last < 1_000, "release bottomed out at {}", last);
    for _ in 0..2000 {
        assert_eq!(tick(&mut s), 0, "output must stay pinned at 0");
    }
}

#[test]
fn exact_attack_ramp_values() {
    let mut s = setup();
    s.gate.set_value(&mut s.bank, 1);
    tick(&mut s); // Inactive -> Attack transition tick
    // Each attack tick outputs active_time * SAMPLE_SCALE / attack with
    // active_time = k * delta.
    let delta = s.clock.time_delta;
    for k in 1..100i64 {
        let expected = k * delta * SAMPLE_SCALE / 100_000;
        assert_eq!(tick(&mut s), expected);
    }
}

#[test]
fn retrigger_restarts_attack_from_zero() {
    let mut s = setup();
    s.gate.set_value(&mut s.bank, SAMPLE_SCALE);
    // Run into Sustain.
    for _ in 0..20_000 {
        tick(&mut s);
    }
    assert_eq!(s.adsr.adsr_state, AdsrState::Sustain);

    // Release, and interrupt it about halfway toward 0.
    s.gate.set_value(&mut s.bank, 0);
    tick(&mut s);
    assert_eq!(s.adsr.adsr_state, AdsrState::Release);
    let mut halfway = 0i64;
    for _ in 0..4_500 {
        halfway = tick(&mut s);
    }
    assert_eq!(s.adsr.adsr_state, AdsrState::Release);
    assert!(halfway > 200_000 && halfway < 300_000, "halfway was {}", halfway);

    // Reassert a note: the envelope re-enters Attack and ramps up from
    // 0, not from the interrupted release level.
    s.gate.set_value(&mut s.bank, SAMPLE_SCALE);
    tick(&mut s); // retrigger transition tick
    assert_eq!(s.adsr.adsr_state, AdsrState::Attack);
    let v = tick(&mut s);
    let delta = s.clock.time_delta;
    assert_eq!(v, delta * SAMPLE_SCALE / 100_000);
    assert!(v < 1_000, "attack must restart near zero, got {}", v);
}

#[test]
fn unwired_envelope_shapes_nothing() {
    // With every port unwired the durations default to one tick and the
    // sustain to full amplitude, so a raised gate passes through at 1.0.
    let mut bank = SlotBank::new();
    let clock = Clock::new();
    let mut adsr = Adsr::new("env".to_string(), clock.time_delta, &mut bank);
    let gate = OutPort::new("gate_src".to_string(), &mut bank);
    adsr.set_in_port("gate", Some(gate.get_ref())).unwrap();
    gate.set_value(&mut bank, 1);
    adsr.process_inputs(&mut bank, &clock); // -> Attack
    adsr.process_inputs(&mut bank, &clock); // attack elapsed -> Decay
    adsr.process_inputs(&mut bank, &clock); // decay elapsed -> Sustain
    adsr.process_inputs(&mut bank, &clock);
    assert_eq!(adsr.adsr_state, AdsrState::Sustain);
    assert_eq!(bank.read(adsr.out_signal_out.slot), Some(SAMPLE_SCALE));
}
