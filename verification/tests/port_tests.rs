//! Port model behavior: defaults, wiring, rebinding and failure cases.

use yat_rack::clock::Clock;
use yat_rack::in_port::InPort;
use yat_rack::modules::adder::Adder;
use yat_rack::modules::io_module::IoModule;
use yat_rack::modules::output::Output;
use yat_rack::out_port::OutPort;
use yat_rack::rack::Rack;
use yat_rack::slots::SlotBank;
use yat_rack::types::{PortNotFoundError, RackError};

#[test]
fn never_wired_in_port_reads_default_on_every_call() {
    let mut bank = SlotBank::new();
    let port = InPort::new("amp".to_string(), 0, 1_000_000, 123_456);
    assert_eq!(port.get_value(&bank), 123_456);
    // Values appearing elsewhere in the bank change nothing.
    let other = OutPort::new("noise".to_string(), &mut bank);
    other.set_value(&mut bank, 77);
    assert_eq!(port.get_value(&bank), 123_456);
    assert_eq!(port.get_value(&bank), 123_456);
    assert!(!port.is_connected());
}

#[test]
fn wired_in_port_reads_upstream_slot() {
    let mut bank = SlotBank::new();
    let source = OutPort::new("out".to_string(), &mut bank);
    let mut port = InPort::new("in".to_string(), 0, 1_000_000, 5);
    // An empty upstream slot still yields the default.
    port.set_value(Some(source.get_ref()));
    assert!(port.is_connected());
    assert_eq!(port.get_value(&bank), 5);
    source.set_value(&mut bank, 999);
    assert_eq!(port.get_value(&bank), 999);
    // Rewiring replaces the reference unconditionally; last write wins.
    let second = OutPort::new("out2".to_string(), &mut bank);
    second.set_value(&mut bank, -4);
    port.set_value(Some(second.get_ref()));
    assert_eq!(port.get_value(&bank), -4);
}

#[test]
fn out_of_range_reference_reads_default() {
    let bank = SlotBank::new();
    let mut port = InPort::new("in".to_string(), 0, 10, 42);
    port.set_value(Some(17));
    assert_eq!(port.get_value(&bank), 42);
}

#[test]
fn binding_undeclared_port_returns_port_not_found_and_changes_nothing() {
    let mut bank = SlotBank::new();
    let source = OutPort::new("src".to_string(), &mut bank);
    source.set_value(&mut bank, 111);
    let mut adder = Adder::new("add".to_string(), &mut bank);
    // Wire one input, then fail to wire a port that does not exist.
    adder.set_in_port("a", Some(source.get_ref())).unwrap();
    let r = adder.set_in_port("c", Some(source.get_ref()));
    assert_eq!(r, Err(PortNotFoundError));
    // Prior wiring is untouched: the adder still reads 111 + default 0.
    let clock = Clock::new();
    adder.process_inputs(&mut bank, &clock);
    assert_eq!(bank.read(adder.out_sum.slot), Some(111));
    assert!(adder.in_a.is_connected());
    assert!(!adder.in_b.is_connected());
}

#[test]
fn rack_connect_undeclared_port_returns_port_not_found_and_wiring_unchanged() {
    let mut rack = Rack::new();
    rack.add_module_type("osc", "a").unwrap();
    rack.add_module_type("osc", "b").unwrap();
    let r = rack.connect_modules("a", "no_such_out", "b", "amp");
    assert_eq!(r, Err(RackError::PortNotFound(PortNotFoundError)));
    let r = rack.connect_modules("a", "audio_out", "b", "no_such_in");
    assert_eq!(r, Err(RackError::PortNotFound(PortNotFoundError)));
    // Nothing was wired and nothing was scheduled.
    for m in &rack.modules {
        assert_eq!(m.get_module_order(), None);
    }
}

#[test]
fn connect_then_disconnect_restores_default() {
    // connect(A.out, B.in), disconnect(B.in): B reads its default again,
    // not A's last value.
    let mut rack = Rack::new();
    rack.add_module_type("control", "k").unwrap();
    let adder = Adder::new("add".to_string(), &mut rack.bank);
    rack.add_module(IoModule::Adder(adder)).unwrap();
    let out = Output::new("out".to_string());
    rack.add_module(IoModule::Output(out)).unwrap();
    rack.connect_modules("k", "value", "add", "a").unwrap();
    rack.connect_modules("add", "sum", "out", "signal_in").unwrap();
    rack.set_ctrl_value("k", "value", Some(250_000)).unwrap();

    let samples = rack.process_module_chain();
    assert_eq!(samples, vec![250_000]);

    rack.disconnect_module("add", "a").unwrap();
    let samples = rack.process_module_chain();
    // Input `a` reads its configured default (0) again.
    assert_eq!(samples, vec![0]);
}

#[test]
fn set_port_confirmation_message() {
    let mut bank = SlotBank::new();
    let source = OutPort::new("src".to_string(), &mut bank);
    let mut adder = Adder::new("add".to_string(), &mut bank);
    let msg = adder.set_in_port("b", Some(source.get_ref())).unwrap();
    assert_eq!(msg, "add: Set port b\n");
}

#[test]
fn port_labels_and_catalogs() {
    let mut bank = SlotBank::new();
    let mut adder = Adder::new("add".to_string(), &mut bank);
    assert_eq!(adder.get_id(), "add");
    assert_eq!(adder.get_in_ports(), &vec!["a".to_string(), "b".to_string()]);
    assert_eq!(adder.get_out_ports(), &vec!["result".to_string()]);
    assert!(adder.has_port_with_id("a"));
    assert!(adder.has_port_with_id("b"));
    assert!(!adder.has_port_with_id("sum"));
    assert!(adder.get_out_port_ref("sum").is_some());
    assert!(adder.get_out_port_ref("a").is_none());
    assert_eq!(adder.get_module_order(), None);
    adder.set_module_order(Some(3));
    assert_eq!(adder.get_module_order(), Some(3));
    let mut port = OutPort::new("x".to_string(), &mut bank);
    assert_eq!(port.get_label(), "x");
    port.set_label("y".to_string());
    assert_eq!(port.get_label(), "y");
}
