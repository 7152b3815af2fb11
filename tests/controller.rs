use leed_controller::application::handle_leed_messages;
use leed_controller::common::controller::{send_control_message, Controller, Current, Controls};
use leed_controller::common::leed_controller::{
    push_log, Adjustment, ControlValue, Currents, LEEDController, Ramp, Range, Settings, Unit,
    ValueSetter, LOG_CAPACITY,
};
use leed_controller::common::protocol::{Control, EncodeError, Message, Tag};
use std::collections::VecDeque;

fn frame(id: u8, value: u32) -> [u8; 6] {
    let (msb, lsb) = ((value >> 8) as u8, (value & 0xFF) as u8);
    [0x02, id, msb, lsb, 0x02 ^ id ^ msb ^ lsb, 0x03]
}

fn ramped(current: i32, target: i32) -> ControlValue {
    let mut c = ControlValue::new(
        "Filament",
        ValueSetter::Ramped(Ramp::new(0)),
        0,
        Control::IFIL_SET1,
        63999,
        Range::Max(2_700, Unit::Ampere),
    );
    c.current_value = current;
    c.target_value = target;
    c
}

#[test]
fn ramp_moves_exactly_one_step_up() {
    let mut c = ramped(0, 10000);
    let mut out = Vec::new();
    assert_eq!(c.update(1001, &mut out), Ok(()));
    assert_eq!(out, vec![frame(0x37, 127)]);
    assert_eq!(c.setter, ValueSetter::Ramped(Ramp { last_time: 1001 }));
}

#[test]
fn ramp_moves_exactly_one_step_down() {
    let mut c = ramped(10000, 0);
    let mut out = Vec::new();
    c.update(2000, &mut out).unwrap();
    assert_eq!(out, vec![frame(0x37, 10000 - 127)]);
}

#[test]
fn ramp_waits_for_its_timer() {
    let mut c = ramped(0, 10000);
    let mut out = Vec::new();
    c.update(1000, &mut out).unwrap();
    assert!(out.is_empty());
    c.update(1001, &mut out).unwrap();
    assert_eq!(out.len(), 1);
    c.update(1500, &mut out).unwrap();
    assert_eq!(out.len(), 1);
}

#[test]
fn ramp_is_silent_within_one_step_and_never_overshoots() {
    let mut c = ramped(63950, 63999);
    let mut out = Vec::new();
    c.update(5000, &mut out).unwrap();
    assert!(out.is_empty());
    let mut c = ramped(63872, 63999);
    c.update(5000, &mut out).unwrap();
    assert_eq!(out, vec![frame(0x37, 63999)]);
    let mut out = Vec::new();
    let mut c = ramped(127, 0);
    c.update(5000, &mut out).unwrap();
    assert_eq!(out, vec![frame(0x37, 0)]);
}

#[test]
fn direct_channel_sends_target_until_confirmed() {
    let mut s = Settings::new(0);
    let c = &mut s.beam_energy;
    let mut out = Vec::new();
    c.update(0, &mut out).unwrap();
    c.update(1, &mut out).unwrap();
    assert_eq!(out, vec![frame(0x36, 3500), frame(0x36, 3500)]);
    c.current_value = 3500;
    c.update(2, &mut out).unwrap();
    assert_eq!(out.len(), 2);
}

#[test]
fn adjust_moves_target_by_one_step_within_domain() {
    let mut s = Settings::new(0);
    let e = &mut s.emission;
    assert_eq!(e.target_value, 16959);
    e.adjust(Adjustment::Up);
    assert_eq!(e.target_value, 16959);
    e.adjust(Adjustment::Down);
    assert_eq!(e.target_value, 16959 - 33);
    assert_eq!(e.next(10, Adjustment::Down), 0);
    let mut f = ramped(0, 0);
    f.adjust(Adjustment::Up);
    assert_eq!(f.target_value, 127);
}

#[test]
fn send_default_and_encode_errors() {
    let s = Settings::new(0);
    let mut out = Vec::new();
    s.lens2.send_default(&mut out).unwrap();
    assert_eq!(out, vec![frame(0x31, 20000)]);
    assert_eq!(send_control_message(Tag::ADC1, 0, &mut out), Err(EncodeError::NoOutboundId));
    assert_eq!(out.len(), 1);
    send_control_message(Tag::Control(Control::SCR_SET), 63999, &mut out).unwrap();
    assert_eq!(out[1], frame(0x34, 63999));
}

#[test]
fn units_and_physical_values() {
    assert_eq!(Unit::Ampere.symbol(), "A");
    assert_eq!(Unit::MicroAmpere.symbol(), "uA");
    assert_eq!(Unit::Volt.symbol(), "V");
    assert_eq!(Unit::KiloVolt.symbol(), "kV");
    assert_eq!(Unit::ElectronVolt.symbol(), "eV");
    assert_eq!(Unit::Percentage.symbol(), "%");
    let s = Settings::new(0);
    assert_eq!(s.screen.physical_target(), 7_000);
    assert_eq!(s.screen.physical_current(), 0);
    assert_eq!(s.suppressor.physical(0), 10_000);
    assert_eq!(s.suppressor.physical(35199), 110_000);
    assert_eq!(s.lens2.physical(0), -20_000);
}

#[test]
fn startup_pushes_defaults_then_polls_round_robin() {
    let mut c = LEEDController::new(0);
    // Confirm every target so that only the timer's frames go out.
    for (ctrl, v) in [
        (Control::BEAM_SET_INT, 3500u32),
        (Control::EMI_SET, 16959),
        (Control::SCR_SET, 63999),
        (Control::L13_SET, 50000),
        (Control::L2_SET, 20000),
        (Control::RET_SET_INT, 26000),
    ] {
        let mut log = VecDeque::new();
        c.update_from_message(Message { tag: Tag::Control(ctrl), value: v }, &mut log);
    }
    let mut per_tick = Vec::new();
    let mut now = 0u64;
    let mut log = VecDeque::new();
    for _ in 0..10 {
        now += 1001;
        let mut out = Vec::new();
        let msgs = c.update(now, &mut out, &Vec::new(), &mut log);
        assert!(msgs.is_empty());
        per_tick.push(out);
    }
    let expected = vec![
        vec![frame(0x36, 3500)],
        vec![frame(0x38, 16959)],
        vec![frame(0x35, 26000)],
        vec![frame(0x34, 63999)],
        vec![frame(0x31, 20000)],
        vec![frame(0x33, 50000)],
        vec![frame(0x42, 0)],
        vec![frame(0x45, 0)],
        vec![frame(0x48, 0)],
        vec![frame(0x42, 0)],
    ];
    assert_eq!(per_tick, expected);
    assert_eq!(c.schedule.defaults_counter, 6);
    assert_eq!(c.schedule.adc_counter, 1);
}

#[test]
fn timer_gates_the_state_machine() {
    let mut c = LEEDController::new(0);
    let mut out = Vec::new();
    let mut log = VecDeque::new();
    c.update(1000, &mut out, &Vec::new(), &mut log);
    assert_eq!(c.schedule.defaults_counter, 0);
    assert_eq!(c.schedule.last_current_update, 0);
    c.update(1001, &mut out, &Vec::new(), &mut log);
    assert_eq!(c.schedule.defaults_counter, 1);
    assert_eq!(c.schedule.last_current_update, 1001);
}

#[test]
fn readbacks_go_to_their_fields_and_unhandled_tags_are_logged() {
    let mut c = LEEDController::new(0);
    let mut log = VecDeque::new();
    c.update_from_message(Message { tag: Tag::ADC2, value: 7 }, &mut log);
    c.update_from_message(Message { tag: Tag::ADC3, value: 9 }, &mut log);
    assert_eq!(c.currents, Currents { beam: 7, emission: 0, filament: 9 });
    c.update_from_message(Message { tag: Tag::Control(Control::IFIL_SET1), value: 300 }, &mut log);
    assert_eq!(c.settings.filament.current_value, 300);
    c.update_from_message(Message { tag: Tag::Control(Control::EMI_MAX), value: 1 }, &mut log);
    c.update_from_message(Message { tag: Tag::DigOut, value: 1 }, &mut log);
    assert_eq!(log, VecDeque::from(vec![Tag::DigOut, Tag::Control(Control::EMI_MAX)]));
}

#[test]
fn log_queue_is_bounded() {
    let mut log = VecDeque::new();
    for _ in 0..LOG_CAPACITY {
        push_log(&mut log, Tag::ADC1);
    }
    push_log(&mut log, Tag::DigOut);
    assert_eq!(log.len(), LOG_CAPACITY);
    assert_eq!(log[0], Tag::DigOut);
}

#[test]
fn received_frames_are_decoded_applied_and_bad_ones_dropped() {
    let mut c = LEEDController::new(0);
    let mut log = VecDeque::new();
    let mut bad = frame(0x42, 1);
    bad[4] ^= 1;
    let frames = vec![frame(0x42, 5), bad, frame(0x45, 6), frame(0x40, 1)];
    let msgs = c.handle_leed_messages(&frames, &mut log);
    assert_eq!(
        msgs,
        vec![Message { tag: Tag::ADC1, value: 5 }, Message { tag: Tag::ADC2, value: 6 }]
    );
    assert_eq!(c.currents.emission, 5);
    assert_eq!(c.currents.beam, 6);
}

#[test]
fn tick_applies_received_frames_in_order() {
    let mut c = LEEDController::new(0);
    let mut log = VecDeque::new();
    let mut out = Vec::new();
    let frames = vec![[0x02, 0x42, 0x00, 0x05, 0x02 ^ 0x42 ^ 0x00 ^ 0x05, 0x03]];
    let msgs = c.update(10, &mut out, &frames, &mut log);
    assert_eq!(msgs, vec![Message { tag: Tag::ADC1, value: 5 }]);
    assert_eq!(c.currents, Currents { beam: 0, emission: 5, filament: 0 });
    let msgs = c.update(20, &mut out, &vec![frame(0x42, 7), frame(0x42, 9)], &mut log);
    assert_eq!(msgs.len(), 2);
    assert_eq!(c.currents.emission, 9);
}

#[test]
fn bench_controller_pushes_defaults_then_polls() {
    let mut c = Controller::new(0);
    assert_eq!(c.current, Current::new());
    let mut log = VecDeque::new();
    let confirm = [
        frame(0x36, 3500),
        frame(0x38, 16959),
        frame(0x34, 63999),
        frame(0x33, 50000),
        frame(0x31, 20000),
        frame(0x35, 26000),
    ];
    let msgs = handle_leed_messages(&confirm.to_vec(), &mut c, &mut log);
    assert_eq!(msgs.len(), 6);
    let expected = [
        frame(0x36, 3500),
        frame(0x38, 16959),
        frame(0x35, 26000),
        frame(0x34, 63999),
        frame(0x31, 20000),
        frame(0x33, 50000),
        frame(0x42, 0),
        frame(0x45, 0),
    ];
    let mut now = 0u64;
    for f in expected {
        now += 1001;
        let mut out = Vec::new();
        c.update(now, &mut out);
        assert_eq!(out, vec![f]);
    }
    let controls: &Controls = &c.controls;
    assert_eq!(controls.beam_energy.current_value, 3500);
}
