use leed_controller::application::Application;
use leed_controller::lines::LineBuffer;
use leed_controller::motors_client::{
    AreaConf, Command, MotorEvent, MotorMessage, MotorsClient, Point3, ScanConf,
    DEFAULT_STEP_SIZE,
};
use leed_controller::scanner::{rescale_axis, Position, Scanner};

fn area(h: i32, v: i32) -> AreaConf {
    AreaConf { center: Point3 { x: -800, y: 5500, z: 23000 }, horiz_range: h, vert_range: v }
}

fn conf(a: AreaConf, step_size: u32) -> MotorMessage {
    MotorMessage::CurrentConf { conf: ScanConf::new(a, step_size) }
}

#[test]
fn step_change_rescales_target_to_same_place() {
    let a = area(12, 10);
    let mut out = Vec::new();
    let mut s = Scanner::new(a, &mut out);
    assert_eq!(out, vec![Command::SetConf(ScanConf::new(a, 200))]);
    s.set_target_pos(10, 5);
    let step = s.get_step_size() as i64;
    assert_eq!((s.target_pos.x as i64 * step, s.target_pos.y as i64 * step), (2000, 1000));
    let events = s.update(&vec![conf(a, 400)]);
    assert_eq!(events, vec![MotorEvent::StepSizeChanged { old: 200, new: 400 }]);
    assert_eq!(s.target_pos, Position { x: 5, y: 3 });
    assert_eq!(s.get_step_size(), 400);
}

#[test]
fn target_clamps_into_working_area() {
    let a = area(12, 10);
    let mut out = Vec::new();
    let mut s = Scanner::new(a, &mut out);
    s.update(&vec![conf(a, 300)]);
    let (_, limits) = s.get_scan_pos();
    assert_eq!(limits, (40, 33));
    s.set_target_pos(40, -1);
    assert_eq!(s.target_pos, Position { x: 39, y: 0 });
    s.set_target_pos(-5, 100);
    assert_eq!(s.target_pos, Position { x: 0, y: 32 });
}

#[test]
fn update_clamps_a_target_set_outside_the_area() {
    let a = area(12, 10);
    let mut out = Vec::new();
    let mut s = Scanner::new(a, &mut out);
    s.update(&vec![conf(a, 300)]);
    s.target_pos = Position { x: 40, y: -1 };
    let events = s.update(&Vec::new());
    assert!(events.is_empty());
    assert_eq!(s.target_pos, Position { x: 39, y: 0 });
}

#[test]
fn shrinking_grid_clamps_after_rescale() {
    let a = area(12, 10);
    let mut out = Vec::new();
    let mut s = Scanner::new(a, &mut out);
    s.set_target_pos(59, 49);
    s.update(&vec![conf(a, 1000)]);
    assert_eq!(s.target_pos, Position { x: 11, y: 9 });
    s.update(&vec![conf(a, 100)]);
    assert_eq!(s.target_pos, Position { x: 110, y: 90 });
}

#[test]
fn rescale_rounds_halves_away_from_zero() {
    assert_eq!(rescale_axis(5, 200, 400), 3);
    assert_eq!(rescale_axis(-5, 200, 400), -3);
    assert_eq!(rescale_axis(7, 300, 1000), 2);
    assert_eq!(rescale_axis(0, 100, 1000), 0);
}

#[test]
fn step_adjustment_is_clamped_and_waits_for_echo() {
    let a = area(12, 10);
    let mut out = Vec::new();
    let s = Scanner::new(a, &mut out);
    out.clear();
    s.adjust_scan_step(100, &mut out);
    s.adjust_scan_step(-1000, &mut out);
    s.adjust_scan_step(5000, &mut out);
    assert_eq!(
        out,
        vec![
            Command::SetConf(ScanConf::new(a, 300)),
            Command::SetConf(ScanConf::new(a, 100)),
            Command::SetConf(ScanConf::new(a, 1000)),
        ]
    );
    assert_eq!(s.get_step_size(), DEFAULT_STEP_SIZE);
}

#[test]
fn batch_is_applied_in_arrival_order() {
    let a = area(12, 10);
    let mut m = MotorsClient::new(a);
    let msgs = vec![
        MotorMessage::ScanStarted,
        MotorMessage::ScanStep { x: 1, y: 2 },
        conf(a, 500),
        MotorMessage::ScanStep { x: 3, y: 4 },
        MotorMessage::CurrentPos { x: 7, y: 8 },
        conf(a, 20),
    ];
    let events = m.update(&msgs);
    assert_eq!(
        events,
        vec![
            MotorEvent::ScanStarted,
            MotorEvent::ScanStep { step_size: 200, x: 1, y: 2 },
            MotorEvent::StepSizeChanged { old: 200, new: 500 },
            MotorEvent::ScanStep { step_size: 500, x: 3, y: 4 },
            MotorEvent::StepSizeChanged { old: 500, new: 100 },
        ]
    );
    assert_eq!(m.get_last_pos(), (7, 8));
    assert_eq!(m.step_size, 100);
    assert_eq!(m.get_limits(), (120, 100));
}

#[test]
fn commands_are_queued_in_order() {
    let a = area(12, 10);
    let mut out = Vec::new();
    let mut s = Scanner::new(a, &mut out);
    out.clear();
    s.set_target_pos(3, 4);
    s.goto_target_pos(&mut out);
    s.start_scan(&mut out);
    s.stop_scan(&mut out);
    assert_eq!(out, vec![Command::SetPos(3, 4), Command::StartScan, Command::StopScan]);
}

#[test]
fn application_without_motor_link() {
    let mut app = Application::new(0, None);
    assert_eq!(app.get_step_size(), 0);
    assert_eq!(app.get_scan_pos(), None);
    let mut cmds = Vec::new();
    app.start_scan(&mut cmds);
    app.goto_target_pos(&mut cmds);
    app.adjust_scan_step(100, &mut cmds);
    assert!(cmds.is_empty());
    let mut out = Vec::new();
    let mut log = std::collections::VecDeque::new();
    let (msgs, events) = app.update(
        1,
        &vec![[0x02, 0x42, 0x00, 0x05, 0x02 ^ 0x42 ^ 0x05, 0x03]],
        &mut out,
        &mut log,
        &vec![MotorMessage::ScanStarted],
    );
    assert_eq!(msgs.len(), 1);
    assert!(events.is_empty());
    assert_eq!(app.leed_controller.current.emission, 5);
}

#[test]
fn application_with_motor_link() {
    let a = area(12, 10);
    let mut app = Application::new(0, Some(a));
    let mut cmds = Vec::new();
    app.on_start(&mut cmds);
    assert_eq!(cmds, vec![Command::SetConf(ScanConf::new(a, 200))]);
    app.target_pos = Position { x: 10, y: 5 };
    let mut out = Vec::new();
    let mut log = std::collections::VecDeque::new();
    let (_, events) = app.update(1, &Vec::new(), &mut out, &mut log, &vec![conf(a, 400)]);
    assert_eq!(events, vec![MotorEvent::StepSizeChanged { old: 200, new: 400 }]);
    assert_eq!(app.target_pos, Position { x: 5, y: 3 });
    assert_eq!(app.get_scan_pos(), Some(((0, 0), (30, 25))));
    assert_eq!(app.get_step_size(), 400);
}

#[test]
fn lines_are_cut_at_newlines() {
    let mut b = LineBuffer::new();
    let lines = b.push_bytes(b"{\"tag\":\"ScanStarted\"}\n{\"ta");
    assert_eq!(lines, vec![b"{\"tag\":\"ScanStarted\"}".to_vec()]);
    assert_eq!(b.partial, b"{\"ta".to_vec());
    let lines = b.push_bytes(b"g\"}\n\n");
    assert_eq!(lines, vec![b"{\"tag\"}".to_vec(), Vec::new()]);
    assert!(b.partial.is_empty());
}

#[test]
fn upper_slot_area() {
    let a = AreaConf::upper_slot();
    assert_eq!(a.horiz_range, 12);
    assert_eq!(a.vert_range, 10);
    assert_eq!(a.center, Point3 { x: -800, y: 5500, z: 23000 });
}
