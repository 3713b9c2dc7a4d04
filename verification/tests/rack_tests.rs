//! Rack-level behavior: id namespaces, scheduling order, the tick loop,
//! controls, and the error taxonomy.

use yat_rack::clock::Clock;
use yat_rack::modules::adder::Adder;
use yat_rack::modules::io_module::IoModule;
use yat_rack::modules::modulo::Modulo;
use yat_rack::modules::multiplier::Multiplier;
use yat_rack::modules::output::Output;
use yat_rack::rack::Rack;
use yat_rack::slots::SlotBank;
use yat_rack::types::{
    ConflictingModuleIdError, ModuleNotFoundError, PortNotFoundError, RackError, SAMPLE_SCALE,
};

#[test]
fn duplicate_id_rejected_across_both_namespaces() {
    let mut rack = Rack::new();
    rack.add_module_type("osc", "x").unwrap();
    // Same namespace.
    let r = rack.add_module_type("adsr", "x");
    assert_eq!(r, Err(RackError::ConflictingId(ConflictingModuleIdError)));
    // Across namespaces, in both directions.
    rack.add_module_type("control", "y").unwrap();
    let r = rack.add_module_type("osc", "y");
    assert_eq!(r, Err(RackError::ConflictingId(ConflictingModuleIdError)));
    let r = rack.add_module_type("button", "x");
    assert_eq!(r, Err(RackError::ConflictingId(ConflictingModuleIdError)));
    let adder = Adder::new("x".to_string(), &mut rack.bank);
    let r = rack.add_module(IoModule::Adder(adder));
    assert_eq!(r, Err(RackError::ConflictingId(ConflictingModuleIdError)));
    // The id maps are unchanged: the original entries still resolve.
    assert_eq!(rack.modules.len(), 1);
    assert_eq!(rack.controls.len(), 1);
    assert_eq!(
        rack.print_modules(),
        "Modules:\n    x\n\nControls:\n    y\n\n"
    );
}

#[test]
fn unknown_module_type_is_rejected() {
    let mut rack = Rack::new();
    let r = rack.add_module_type("theremin", "t");
    assert_eq!(r, Err(RackError::ModuleNotFound(ModuleNotFoundError)));
    assert_eq!(rack.modules.len(), 0);
}

#[test]
fn connect_reports_absent_modules() {
    let mut rack = Rack::new();
    rack.add_module_type("osc", "a").unwrap();
    let r = rack.connect_modules("a", "audio_out", "ghost", "amp");
    assert_eq!(r, Err(RackError::ModuleNotFound(ModuleNotFoundError)));
    let r = rack.connect_modules("ghost", "audio_out", "a", "amp");
    assert_eq!(r, Err(RackError::ModuleNotFound(ModuleNotFoundError)));
    // A module cannot be its own upstream.
    let r = rack.connect_modules("a", "audio_out", "a", "amp");
    assert_eq!(r, Err(RackError::ModuleNotFound(ModuleNotFoundError)));
    let r = rack.disconnect_module("ghost", "amp");
    assert_eq!(r, Err(RackError::ModuleNotFound(ModuleNotFoundError)));
    let r = rack.disconnect_module("a", "nope");
    assert_eq!(r, Err(RackError::PortNotFound(PortNotFoundError)));
}

#[test]
fn chain_of_four_evaluates_producers_before_consumers() {
    // A linear chain of four adders built downstream: one tick pushes a
    // control value through the whole chain, which can only happen when
    // every producer runs before its consumer.
    let mut rack = Rack::new();
    rack.add_module_type("control", "k").unwrap();
    for id in ["m1", "m2", "m3", "m4"] {
        let adder = Adder::new(id.to_string(), &mut rack.bank);
        rack.add_module(IoModule::Adder(adder)).unwrap();
    }
    let out = Output::new("out".to_string());
    rack.add_module(IoModule::Output(out)).unwrap();

    rack.connect_modules("k", "value", "m1", "a").unwrap();
    rack.connect_modules("m1", "sum", "m2", "a").unwrap();
    rack.connect_modules("m2", "sum", "m3", "a").unwrap();
    rack.connect_modules("m3", "sum", "m4", "a").unwrap();
    rack.connect_modules("m4", "sum", "out", "signal_in").unwrap();

    // Positions ascend strictly along the chain.
    let orders: Vec<u64> = rack
        .modules
        .iter()
        .map(|m| m.get_module_order().unwrap())
        .collect();
    assert_eq!(orders, vec![1, 2, 3, 4, 5]);

    rack.set_ctrl_value("k", "value", Some(7_000_000)).unwrap();
    let samples = rack.process_module_chain();
    // The very first tick already carries the value through all four
    // stages: no consumer ran before its producer.
    assert_eq!(samples, vec![7_000_000]);
}

#[test]
fn order_listing_is_printed() {
    let mut rack = Rack::new();
    rack.add_module_type("osc", "a").unwrap();
    let out = Output::new("out".to_string());
    rack.add_module(IoModule::Output(out)).unwrap();
    rack.connect_modules("a", "audio_out", "out", "signal_in").unwrap();
    assert_eq!(
        rack.print_module_order(),
        "Module order:\n    Modules in position 1:\n        a\n    Modules in position 2:\n        out\n\n"
    );
}

#[test]
fn ports_listing_is_printed() {
    let mut rack = Rack::new();
    rack.add_module_type("osc", "a").unwrap();
    assert_eq!(
        rack.print_ports(Some("a")),
        "Ports: \nModule - a:\n    inputs:\n        amp\n        freq\n    outputs:\n        audio_out\n\n"
    );
    assert_eq!(rack.print_ports(Some("ghost")), "Ports: \n\n");
    assert_eq!(
        rack.print_ports(None),
        "Ports: \nModule - a:\n    inputs:\n        amp\n        freq\n    outputs:\n        audio_out\n\n"
    );
}

#[test]
fn multiplier_computes_fixed_point_product() {
    let mut rack = Rack::new();
    rack.add_module_type("control", "k1").unwrap();
    rack.add_module_type("control", "k2").unwrap();
    let mult = Multiplier::new("mul_unit".to_string(), &mut rack.bank);
    rack.add_module(IoModule::Multiplier(mult)).unwrap();
    let out = Output::new("out".to_string());
    rack.add_module(IoModule::Output(out)).unwrap();
    rack.connect_modules("k1", "value", "mul_unit", "a").unwrap();
    rack.connect_modules("k2", "value", "mul_unit", "b").unwrap();
    // The output is addressed by its cataloged name `result`; the port's
    // own label is not a connectable name.
    let r = rack.connect_modules("mul_unit", "mult", "out", "signal_in");
    assert_eq!(r, Err(RackError::PortNotFound(PortNotFoundError)));
    rack.connect_modules("mul_unit", "result", "out", "signal_in").unwrap();
    rack.set_ctrl_value("k1", "value", Some(500_000)).unwrap(); // 0.5
    rack.set_ctrl_value("k2", "value", Some(500_000)).unwrap(); // 0.5
    let samples = rack.process_module_chain();
    assert_eq!(samples, vec![250_000]); // 0.25
}

#[test]
fn modulo_computes_remainder_and_tolerates_zero() {
    let mut bank = SlotBank::new();
    let clock = Clock::new();
    let mut modulo = Modulo::new("m".to_string(), &mut bank);
    assert!(modulo.get_out_port_ref("result").is_some());
    assert!(modulo.get_out_port_ref("div").is_none());
    let a = yat_rack::out_port::OutPort::new("a_src".to_string(), &mut bank);
    let b = yat_rack::out_port::OutPort::new("b_src".to_string(), &mut bank);
    modulo.set_in_port("a", Some(a.get_ref())).unwrap();
    modulo.set_in_port("b", Some(b.get_ref())).unwrap();
    a.set_value(&mut bank, 7_000_000); // 7.0
    b.set_value(&mut bank, 2_000_000); // 2.0
    modulo.process_inputs(&mut bank, &clock);
    assert_eq!(bank.read(modulo.out_mod.slot), Some(1_000_000)); // 1.0
    a.set_value(&mut bank, -7_000_000);
    modulo.process_inputs(&mut bank, &clock);
    assert_eq!(bank.read(modulo.out_mod.slot), Some(-1_000_000));
    // A zero divisor yields zero instead of failing the tick.
    b.set_value(&mut bank, 0);
    modulo.process_inputs(&mut bank, &clock);
    assert_eq!(bank.read(modulo.out_mod.slot), Some(0));
}

#[test]
fn adder_saturates_instead_of_wrapping() {
    let mut bank = SlotBank::new();
    let clock = Clock::new();
    let mut adder = Adder::new("add".to_string(), &mut bank);
    let a = yat_rack::out_port::OutPort::new("a_src".to_string(), &mut bank);
    let b = yat_rack::out_port::OutPort::new("b_src".to_string(), &mut bank);
    adder.set_in_port("a", Some(a.get_ref())).unwrap();
    adder.set_in_port("b", Some(b.get_ref())).unwrap();
    a.set_value(&mut bank, i64::MAX);
    b.set_value(&mut bank, 100);
    adder.process_inputs(&mut bank, &clock);
    assert_eq!(bank.read(adder.out_sum.slot), Some(i64::MAX));
    a.set_value(&mut bank, i64::MIN);
    b.set_value(&mut bank, -100);
    adder.process_inputs(&mut bank, &clock);
    assert_eq!(bank.read(adder.out_sum.slot), Some(i64::MIN));
}

#[test]
fn focused_control_receives_keys() {
    let mut rack = Rack::new();
    rack.add_module_type("button", "b").unwrap();
    rack.add_module_type("control", "k").unwrap();

    // No focus: keys are dropped.
    rack.send_control_key(' ');

    // Button: spacebar toggles its gate output on and off.
    rack.set_focus_control("b").unwrap();
    rack.send_control_key(' ');
    let slot = rack.controls[0].get_port_reference("gate").unwrap();
    assert_eq!(rack.bank.read(slot), Some(SAMPLE_SCALE));
    rack.send_control_key(' ');
    assert_eq!(rack.bank.read(slot), Some(0));

    // Knob: `k` and `j` step the value by 100.0 either way.
    rack.set_focus_control("k").unwrap();
    rack.send_control_key('k');
    let kslot = rack.controls[1].get_port_reference("value").unwrap();
    assert_eq!(rack.bank.read(kslot), Some(100_000_000));
    rack.send_control_key('j');
    rack.send_control_key('j');
    assert_eq!(rack.bank.read(kslot), Some(-100_000_000));

    // An unknown id cannot take focus.
    let r = rack.set_focus_control("ghost");
    assert_eq!(r, Err(ModuleNotFoundError));
}

#[test]
fn keyboard_maps_keys_to_pitches() {
    let mut rack = Rack::new();
    rack.add_module_type("keyboard", "kbd").unwrap();
    rack.set_focus_control("kbd").unwrap();
    let pitch = rack.controls[0].get_port_reference("pitch").unwrap();
    let gate = rack.controls[0].get_port_reference("gate").unwrap();
    rack.send_control_key('a');
    assert_eq!(rack.bank.read(pitch), Some(440_000_000)); // A4
    rack.send_control_key('d');
    assert_eq!(rack.bank.read(pitch), Some(523_250_000)); // C5
    rack.send_control_key(' ');
    assert_eq!(rack.bank.read(gate), Some(SAMPLE_SCALE));
    rack.send_control_key('*');
    assert_eq!(rack.bank.read(gate), Some(0));
}

#[test]
fn connect_ctrl_error_cases() {
    let mut rack = Rack::new();
    rack.add_module_type("control", "k").unwrap();
    rack.add_module_type("osc", "o").unwrap();
    let r = rack.connect_modules("k", "no_port", "o", "amp");
    assert_eq!(r, Err(RackError::PortNotFound(PortNotFoundError)));
    let r = rack.connect_modules("k", "value", "ghost", "amp");
    assert_eq!(r, Err(RackError::ModuleNotFound(ModuleNotFoundError)));
    let r = rack.connect_modules("k", "value", "o", "no_port");
    assert_eq!(r, Err(RackError::PortNotFound(PortNotFoundError)));
    let msg = rack.connect_modules("k", "value", "o", "freq").unwrap();
    assert_eq!(msg, "connected control k -> value to module o -> freq. o: Set port freq\n");
    // Controls are never scheduled.
    assert_eq!(rack.modules[0].get_module_order(), None);
}

#[test]
fn run_and_stop_toggle_the_running_flag() {
    let mut rack = Rack::new();
    assert!(rack.running);
    rack.stop();
    assert!(!rack.running);
    rack.run();
    assert!(rack.running);
}

#[test]
fn clock_advances_and_wraps() {
    let mut clock = Clock::new();
    assert_eq!(clock.time, 0);
    assert_eq!(clock.time_delta, SAMPLE_SCALE / 44_100);
    clock.increment();
    assert_eq!(clock.time, clock.time_delta);
    clock.set_time(yat_rack::clock::TIME_WRAP + 5);
    clock.increment();
    assert_eq!(clock.time, 5);
    clock.reset_clock();
    assert_eq!(clock.time, 0);
    assert_eq!(clock.get_current_time(), Some(0));
    assert!(!clock.running);
    clock.start_clock();
    assert!(clock.running);
    clock.stop_clock();
    assert!(!clock.running);
}

#[test]
fn error_messages_read_as_documented() {
    assert_eq!(ModuleNotFoundError.message(), "Module doesn't exist");
    assert_eq!(PortNotFoundError.message(), "Port doesn't exist");
    assert_eq!(
        ConflictingModuleIdError.message(),
        "Module or Control with this ID already exists"
    );
    assert_eq!(
        RackError::PortNotFound(PortNotFoundError).message(),
        "Port doesn't exist"
    );
}

#[test]
fn rewiring_replaces_the_upstream_unconditionally() {
    let mut rack = Rack::new();
    rack.add_module_type("control", "k1").unwrap();
    rack.add_module_type("control", "k2").unwrap();
    let adder = Adder::new("add".to_string(), &mut rack.bank);
    rack.add_module(IoModule::Adder(adder)).unwrap();
    let out = Output::new("out".to_string());
    rack.add_module(IoModule::Output(out)).unwrap();
    rack.connect_modules("add", "sum", "out", "signal_in").unwrap();
    rack.connect_modules("k1", "value", "add", "a").unwrap();
    rack.set_ctrl_value("k1", "value", Some(11)).unwrap();
    rack.set_ctrl_value("k2", "value", Some(22)).unwrap();
    assert_eq!(rack.process_module_chain(), vec![11]);
    // Last write wins.
    rack.connect_modules("k2", "value", "add", "a").unwrap();
    assert_eq!(rack.process_module_chain(), vec![22]);
}

#[test]
fn front_sink_co_locates_fresh_source() {
    // Wiring an unscheduled source into a sink already at the front
    // position co-locates both at position 1; the sink keeps its place.
    let mut rack = Rack::new();
    for id in ["a", "b", "c"] {
        let adder = Adder::new(id.to_string(), &mut rack.bank);
        rack.add_module(IoModule::Adder(adder)).unwrap();
    }
    rack.connect_modules("b", "sum", "c", "a").unwrap();
    assert_eq!(rack.modules[1].get_module_order(), Some(1)); // b
    assert_eq!(rack.modules[2].get_module_order(), Some(2)); // c
    rack.connect_modules("a", "sum", "b", "a").unwrap();
    assert_eq!(rack.modules[0].get_module_order(), Some(1)); // a
    assert_eq!(rack.modules[1].get_module_order(), Some(1)); // b
    assert_eq!(rack.modules[2].get_module_order(), Some(2)); // c
}

#[test]
fn full_patch_plays_a_note() {
    // keyboard pitch -> oscillator frequency, button -> envelope gate,
    // oscillator * envelope -> output: a complete little synth voice.
    let mut rack = Rack::new();
    rack.add_module_type("keyboard", "kbd").unwrap();
    rack.add_module_type("button", "btn").unwrap();
    rack.add_module_type("osc", "osc").unwrap();
    rack.add_module_type("adsr", "env").unwrap();
    let vca = Multiplier::new("vca".to_string(), &mut rack.bank);
    rack.add_module(IoModule::Multiplier(vca)).unwrap();
    let out = Output::new("out".to_string());
    rack.add_module(IoModule::Output(out)).unwrap();

    rack.connect_modules("kbd", "pitch", "osc", "freq").unwrap();
    rack.connect_modules("btn", "gate", "env", "gate").unwrap();
    rack.connect_modules("osc", "audio_out", "vca", "a").unwrap();
    rack.connect_modules("env", "signal_out", "vca", "b").unwrap();
    rack.connect_modules("vca", "result", "out", "signal_in").unwrap();

    // Press A4 and hold a note.
    rack.set_focus_control("kbd").unwrap();
    rack.send_control_key('a');
    rack.set_focus_control("btn").unwrap();
    rack.send_control_key(' ');

    // With the envelope's durations at their one-tick defaults and its
    // sustain at full amplitude, every tick carries the oscillator's
    // wave at the default amplitude 0.5.
    let half = SAMPLE_SCALE / 2;
    let lobe = |x: i64| x * (half - x) / 62_500;
    let wave = |p: i64| if p < half { lobe(p) } else { -lobe(p - half) };
    let step = 440 * SAMPLE_SCALE / 44_100;
    let mut phase = 0i64;
    for _ in 0..500 {
        let samples = rack.process_module_chain();
        phase = (phase + step) % SAMPLE_SCALE;
        assert_eq!(samples, vec![wave(phase) / 2]);
    }

    // Releasing the note silences the voice within the one-tick release.
    rack.send_control_key(' ');
    rack.process_module_chain(); // capture tick
    rack.process_module_chain(); // release elapses
    let samples = rack.process_module_chain();
    assert_eq!(samples, vec![0]);
}
