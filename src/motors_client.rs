//! The motor link: its messages and commands, the remembered stage state, and
//! how a batch of received messages updates that state. Lengths and step
//! sizes are in thousandths of the stage's physical unit.
use vstd::prelude::*;

verus! {

/// Serial speed of the motor link.
pub const BAUD_RATE: u32 = 38400;

/// Step size, in thousandths, before the stage reports its own.
pub const DEFAULT_STEP_SIZE: u32 = 200;

/// Smallest step size the stage is asked for, in thousandths.
pub const MIN_STEP_SIZE: u32 = 100;

/// Largest step size the stage is asked for, in thousandths.
pub const MAX_STEP_SIZE: u32 = 1000;

/// Largest horizontal or vertical range of a working area.
pub const MAX_RANGE: i32 = 100_000;

/// A physical point of the stage, in thousandths.
#[derive(Debug, Clone, Copy, PartialEq, Eq, Structural)]
pub struct Point3 {
    pub x: i64,
    pub y: i64,
    pub z: i64,
}

/// The working area: its physical center and its extent on each axis.
#[derive(Debug, Clone, Copy, PartialEq, Eq, Structural)]
pub struct AreaConf {
    pub center: Point3,
    pub horiz_range: i32,
    pub vert_range: i32,
}

impl AreaConf {
    pub open spec fn wf(&self) -> bool {
        1 <= self.horiz_range <= MAX_RANGE && 1 <= self.vert_range <= MAX_RANGE
    }

    /// The upper sample slot of the stage.
    pub fn upper_slot() -> (r: AreaConf)
        ensures
            r.wf(),
            r == (AreaConf {
                center: Point3 { x: -800i64, y: 5500i64, z: 23000i64 },
                horiz_range: 12,
                vert_range: 10,
            }),
    {
        AreaConf {
            center: Point3 { x: -800, y: 5500, z: 23000 },
            horiz_range: 12,
            vert_range: 10,
        }
    }
}

/// A scan configuration as the stage exchanges it.
#[derive(Debug, Clone, Copy, PartialEq, Eq, Structural)]
pub struct ScanConf {
    pub center: Point3,
    pub horiz_range: i32,
    pub vert_range: i32,
    pub step_size: u32,
}

impl ScanConf {
    /// The working area with the given step size.
    pub fn new(area: AreaConf, step_size: u32) -> (r: ScanConf)
        ensures
            r == (ScanConf {
                center: area.center,
                horiz_range: area.horiz_range,
                vert_range: area.vert_range,
                step_size,
            }),
    {
        ScanConf {
            center: area.center,
            horiz_range: area.horiz_range,
            vert_range: area.vert_range,
            step_size,
        }
    }
}

/// A message from the stage.
#[derive(Debug, Clone, Copy, PartialEq, Eq, Structural)]
pub enum MotorMessage {
    CurrentPos { x: i32, y: i32 },
    ScanStep { x: i32, y: i32 },
    CurrentConf { conf: ScanConf },
    ScanStarted,
}

/// A command to the stage.
#[derive(Debug, Clone, Copy, PartialEq, Eq, Structural)]
pub enum Command {
    SetPos(i32, i32),
    StartScan,
    StopScan,
    SetConf(ScanConf),
}

/// What a batch of messages asks the caller to act on.
#[derive(Debug, Clone, Copy, PartialEq, Eq, Structural)]
pub enum MotorEvent {
    /// A scan has begun.
    ScanStarted,
    /// The stage reached a scan point, at the given step size.
    ScanStep { step_size: u32, x: i32, y: i32 },
    /// The stage confirmed a new step size.
    StepSizeChanged { old: u32, new: u32 },
}

/// Clamps a step size into `[MIN_STEP_SIZE, MAX_STEP_SIZE]`.
pub open spec fn clamp_step(v: int) -> int {
    if v < MIN_STEP_SIZE {
        MIN_STEP_SIZE as int
    } else if v > MAX_STEP_SIZE {
        MAX_STEP_SIZE as int
    } else {
        v
    }
}

/// Grid cells that fit in `range` at `step_size`: `floor(range / step)`.
pub open spec fn limit_of(range: int, step_size: int) -> int {
    range * 1000 / step_size
}

/// The stage state that the motor link remembers.
#[derive(Debug, Clone, Copy)]
pub struct MotorsClient {
    pub last_pos: (i32, i32),
    pub step_size: u32,
    pub area: AreaConf,
}

impl MotorsClient {
    pub open spec fn wf(&self) -> bool {
        &&& self.area.wf()
        &&& MIN_STEP_SIZE <= self.step_size <= MAX_STEP_SIZE
    }

    pub open spec fn limits_spec(&self) -> (int, int) {
        (
            limit_of(self.area.horiz_range as int, self.step_size as int),
            limit_of(self.area.vert_range as int, self.step_size as int),
        )
    }

    pub open spec fn new_spec(area: AreaConf) -> MotorsClient {
        MotorsClient { last_pos: (0, 0), step_size: DEFAULT_STEP_SIZE, area }
    }

    /// The configuration sent for a step size: the working area with it.
    pub open spec fn conf_spec(&self, step_size: u32) -> ScanConf {
        ScanConf {
            center: self.area.center,
            horiz_range: self.area.horiz_range,
            vert_range: self.area.vert_range,
            step_size,
        }
    }

    /// The state after one message.
    pub open spec fn applied(self, m: MotorMessage) -> MotorsClient {
        match m {
            MotorMessage::CurrentPos { x, y } => MotorsClient { last_pos: (x, y), ..self },
            MotorMessage::ScanStep { x, y } => MotorsClient { last_pos: (x, y), ..self },
            MotorMessage::CurrentConf { conf } => MotorsClient {
                step_size: clamp_step(conf.step_size as int) as u32,
                ..self
            },
            MotorMessage::ScanStarted => self,
        }
    }

    /// The events one message raises.
    pub open spec fn events_of(self, m: MotorMessage) -> Seq<MotorEvent> {
        match m {
            MotorMessage::CurrentPos { .. } => Seq::empty(),
            MotorMessage::ScanStep { x, y } => seq![
                MotorEvent::ScanStep { step_size: self.step_size, x, y },
            ],
            MotorMessage::CurrentConf { conf } => seq![
                MotorEvent::StepSizeChanged {
                    old: self.step_size,
                    new: clamp_step(conf.step_size as int) as u32,
                },
            ],
            MotorMessage::ScanStarted => seq![MotorEvent::ScanStarted],
        }
    }

    /// The state after a batch, applied in arrival order.
    pub open spec fn applied_all(self, msgs: Seq<MotorMessage>) -> MotorsClient
        decreases msgs.len(),
    {
        if msgs.len() == 0 {
            self
        } else {
            self.applied_all(msgs.drop_last()).applied(msgs.last())
        }
    }

    /// The events a batch raises, in arrival order.
    pub open spec fn events_all(self, msgs: Seq<MotorMessage>) -> Seq<MotorEvent>
        decreases msgs.len(),
    {
        if msgs.len() == 0 {
            Seq::empty()
        } else {
            self.events_all(msgs.drop_last()) + self.applied_all(msgs.drop_last()).events_of(
                msgs.last(),
            )
        }
    }

    /// A link state at the origin with the default step size.
    pub fn new(area: AreaConf) -> (r: MotorsClient)
        requires
            area.wf(),
        ensures
            r.wf(),
            r == MotorsClient::new_spec(area),
    {
        MotorsClient { last_pos: (0, 0), step_size: DEFAULT_STEP_SIZE, area }
    }

    /// The last position the stage reported.
    pub fn get_last_pos(&self) -> (r: (i32, i32))
        ensures
            r == self.last_pos,
    {
        self.last_pos
    }

    /// Queues a move to grid position `(x, y)`.
    pub fn set_pos(&self, x: i32, y: i32, outbox: &mut Vec<Command>)
        ensures
            final(outbox)@ == old(outbox)@.push(Command::SetPos(x, y)),
    {
        outbox.push(Command::SetPos(x, y));
    }

    /// Queues the start of a scan.
    pub fn start_scan(&self, outbox: &mut Vec<Command>)
        ensures
            final(outbox)@ == old(outbox)@.push(Command::StartScan),
    {
        outbox.push(Command::StartScan);
    }

    /// Queues the end of a scan.
    pub fn stop_scan(&self, outbox: &mut Vec<Command>)
        ensures
            final(outbox)@ == old(outbox)@.push(Command::StopScan),
    {
        outbox.push(Command::StopScan);
    }

    /// Queues the working area with the remembered step size.
    pub fn set_conf(&self, outbox: &mut Vec<Command>)
        ensures
            final(outbox)@ == old(outbox)@.push(Command::SetConf(self.conf_spec(self.step_size))),
    {
        outbox.push(Command::SetConf(ScanConf::new(self.area, self.step_size)));
    }

    /// Queues the working area with the step size moved by `amount` and
    /// clamped into `[MIN_STEP_SIZE, MAX_STEP_SIZE]`. The remembered step
    /// size changes only when the stage confirms it.
    pub fn adjust_step(&self, amount: i32, outbox: &mut Vec<Command>)
        requires
            self.wf(),
        ensures
            final(outbox)@ == old(outbox)@.push(
                Command::SetConf(self.conf_spec(clamp_step(self.step_size + amount) as u32)),
            ),
    {
        let wanted: i64 = self.step_size as i64 + amount as i64;
        let step_size: u32 = if wanted < MIN_STEP_SIZE as i64 {
            MIN_STEP_SIZE
        } else if wanted > MAX_STEP_SIZE as i64 {
            MAX_STEP_SIZE
        } else {
            wanted as u32
        };
        outbox.push(Command::SetConf(ScanConf::new(self.area, step_size)));
    }

    /// Grid cells per axis at the remembered step size.
    pub fn get_limits(&self) -> (r: (i32, i32))
        requires
            self.wf(),
        ensures
            r.0 == self.limits_spec().0,
            r.1 == self.limits_spec().1,
            r.0 >= 1 && r.1 >= 1,
    {
        let step = self.step_size as i64;
        let x = self.area.horiz_range as i64 * 1000 / step;
        let y = self.area.vert_range as i64 * 1000 / step;
        let ghost (h, v, st) = (
            self.area.horiz_range as int * 1000,
            self.area.vert_range as int * 1000,
            step as int,
        );
        assert(1 <= h / st <= h && 1 <= v / st <= v) by (nonlinear_arith)
            requires
                1000 <= h,
                1000 <= v,
                1 <= st <= 1000,
        ;
        (x as i32, y as i32)
    }

    /// Applies one message; see `applied` and `events_of`.
    pub fn apply(&mut self, m: MotorMessage, events: &mut Vec<MotorEvent>)
        requires
            old(self).wf(),
        ensures
            final(self).wf(),
            *final(self) == old(self).applied(m),
            final(events)@ == old(events)@ + old(self).events_of(m),
    {
        match m {
            MotorMessage::CurrentPos { x, y } => {
                self.last_pos = (x, y);
                assert(events@ =~= old(events)@ + Seq::<MotorEvent>::empty());
            },
            MotorMessage::ScanStep { x, y } => {
                self.last_pos = (x, y);
                events.push(MotorEvent::ScanStep { step_size: self.step_size, x, y });
                assert(events@ =~= old(events)@ + old(self).events_of(m));
            },
            MotorMessage::CurrentConf { conf } => {
                let new_step = if conf.step_size < MIN_STEP_SIZE {
                    MIN_STEP_SIZE
                } else if conf.step_size > MAX_STEP_SIZE {
                    MAX_STEP_SIZE
                } else {
                    conf.step_size
                };
                events.push(MotorEvent::StepSizeChanged { old: self.step_size, new: new_step });
                self.step_size = new_step;
                assert(events@ =~= old(events)@ + old(self).events_of(m));
            },
            MotorMessage::ScanStarted => {
                events.push(MotorEvent::ScanStarted);
                assert(events@ =~= old(events)@ + old(self).events_of(m));
            },
        }
    }

    /// Applies every message received since the last tick, in arrival
    /// order: positions update the last known position, a scan step also
    /// raises an event with the step size, a confirmed configuration sets
    /// the step size (clamped into its bounds) and raises a change event,
    /// and a scan start raises its event.
    pub fn update(&mut self, msgs: &Vec<MotorMessage>) -> (r: Vec<MotorEvent>)
        requires
            old(self).wf(),
        ensures
            final(self).wf(),
            *final(self) == old(self).applied_all(msgs@),
            r@ == old(self).events_all(msgs@),
    {
        let mut events: Vec<MotorEvent> = Vec::new();
        let mut i: usize = 0;
        while i < msgs.len()
            invariant
                i <= msgs@.len(),
                self.wf(),
                *self == old(self).applied_all(msgs@.take(i as int)),
                events@ == old(self).events_all(msgs@.take(i as int)),
            decreases msgs@.len() - i,
        {
            assert(msgs@.take(i + 1).drop_last() =~= msgs@.take(i as int));
            self.apply(msgs[i], &mut events);
            i = i + 1;
        }
        assert(msgs@.take(msgs@.len() as int) =~= msgs@);
        events
    }
}

/// A well-formed link state has at least one grid cell on each axis.
pub proof fn lemma_limits_positive(m: MotorsClient)
    requires
        m.wf(),
    ensures
        m.limits_spec().0 >= 1,
        m.limits_spec().1 >= 1,
{
    let (h, v, st) = (
        m.area.horiz_range as int * 1000,
        m.area.vert_range as int * 1000,
        m.step_size as int,
    );
    assert(h / st >= 1 && v / st >= 1) by (nonlinear_arith)
        requires
            1000 <= h,
            1000 <= v,
            1 <= st <= 1000,
    ;
}

} // verus!
