//! The stage coordinator: the operator's target grid position, kept inside
//! the working area and rescaled so that it stays at the same physical place
//! when the step size changes.
use vstd::prelude::*;

use crate::motors_client::{
    lemma_limits_positive, limit_of, AreaConf, Command, MotorEvent, MotorMessage, MotorsClient,
    MAX_STEP_SIZE, MIN_STEP_SIZE,
};

verus! {

/// A grid coordinate of the stage.
#[derive(Debug, Clone, Copy, PartialEq, Eq, Structural)]
pub struct Position {
    pub x: i32,
    pub y: i32,
}

/// `n / d` rounded to the nearest integer, halves away from zero.
pub open spec fn round_div(n: int, d: int) -> int {
    if n >= 0 {
        (2 * n + d) / (2 * d)
    } else {
        -((-2 * n + d) / (2 * d))
    }
}

/// A grid coordinate at `old_step` moved to the grid of `new_step`:
/// `round(v * old_step / new_step)`.
pub open spec fn rescale(v: int, old_step: int, new_step: int) -> int {
    round_div(v * old_step, new_step)
}

/// Clamps into `[0, limit)`, testing the lower bound first.
pub open spec fn clamp_axis(v: int, limit: int) -> int {
    let a = if v < 0 {
        0
    } else {
        v
    };
    if a >= limit {
        limit - 1
    } else {
        a
    }
}

/// Whether `p` lies in the working area at `step_size`.
pub open spec fn in_area(p: Position, area: AreaConf, step_size: int) -> bool {
    &&& 0 <= p.x < limit_of(area.horiz_range as int, step_size)
    &&& 0 <= p.y < limit_of(area.vert_range as int, step_size)
}

/// The target after the step size changes from `old_step` to `new_step`:
/// rescaled, then clamped into the working area at `new_step`.
pub open spec fn retarget(p: Position, old_step: int, new_step: int, area: AreaConf) -> Position {
    Position {
        x: clamp_axis(rescale(p.x as int, old_step, new_step), limit_of(area.horiz_range as int, new_step))
            as i32,
        y: clamp_axis(rescale(p.y as int, old_step, new_step), limit_of(area.vert_range as int, new_step))
            as i32,
    }
}

/// The target after one message: only a confirmed configuration moves it.
pub open spec fn target_after(p: Position, motors: MotorsClient, m: MotorMessage) -> Position {
    match m {
        MotorMessage::CurrentConf { .. } => retarget(
            p,
            motors.step_size as int,
            motors.applied(m).step_size as int,
            motors.area,
        ),
        _ => p,
    }
}

/// The target after a batch of messages, applied in arrival order.
pub open spec fn target_after_all(p: Position, motors: MotorsClient, msgs: Seq<MotorMessage>) -> Position
    decreases msgs.len(),
{
    if msgs.len() == 0 {
        p
    } else {
        target_after(
            target_after_all(p, motors, msgs.drop_last()),
            motors.applied_all(msgs.drop_last()),
            msgs.last(),
        )
    }
}

/// The grid coordinate nearest to `v * old_step / new_step`.
pub fn rescale_axis(v: i32, old_step: u32, new_step: u32) -> (r: i64)
    requires
        MIN_STEP_SIZE <= old_step <= MAX_STEP_SIZE,
        MIN_STEP_SIZE <= new_step <= MAX_STEP_SIZE,
    ensures
        r == rescale(v as int, old_step as int, new_step as int),
{
    let ghost b: int = 0x1_0000_0000_0000;
    assert(-b <= v as int * old_step as int <= b) by (nonlinear_arith)
        requires
            -0x8000_0000 <= v < 0x8000_0000,
            1 <= old_step <= 1000,
            b == 0x1_0000_0000_0000,
    ;
    let n: i64 = v as i64 * old_step as i64;
    let d: i64 = new_step as i64;
    if n >= 0 {
        let q = (2 * n + d) / (2 * d);
        assert(0 <= q <= 2 * n + d) by (nonlinear_arith)
            requires
                q == (2 * n + d) / (2 * d),
                n >= 0,
                d >= 100,
        ;
        q
    } else {
        let q = (-2 * n + d) / (2 * d);
        assert(0 <= q <= -2 * n + d) by (nonlinear_arith)
            requires
                q == (-2 * n + d) / (2 * d),
                n < 0,
                d >= 100,
        ;
        -q
    }
}

/// Clamps a grid coordinate into `[0, limit)`.
pub fn clamp_to_limit(v: i64, limit: i32) -> (r: i32)
    requires
        limit >= 1,
    ensures
        r == clamp_axis(v as int, limit as int),
        0 <= r < limit,
{
    if v < 0 {
        0
    } else if v >= limit as i64 {
        limit - 1
    } else {
        v as i32
    }
}

/// The target clamped into the working area of `m`, each axis on its own.
pub open spec fn clamped(p: Position, m: MotorsClient) -> Position {
    Position {
        x: clamp_axis(p.x as int, m.limits_spec().0) as i32,
        y: clamp_axis(p.y as int, m.limits_spec().1) as i32,
    }
}

/// Clamps the target into the working area.
pub fn clamp_target(target: &mut Position, motors: &MotorsClient)
    requires
        motors.wf(),
    ensures
        *final(target) == clamped(*old(target), *motors),
        in_area(*final(target), motors.area, motors.step_size as int),
{
    let (x_max, y_max) = motors.get_limits();
    target.x = clamp_to_limit(target.x as i64, x_max);
    target.y = clamp_to_limit(target.y as i64, y_max);
}

/// Applies one message to the link state and, where it confirms a new step
/// size, rescales and clamps the target.
pub fn coordinate(
    target: &mut Position,
    motors: &mut MotorsClient,
    m: MotorMessage,
    events: &mut Vec<MotorEvent>,
)
    requires
        old(motors).wf(),
    ensures
        final(motors).wf(),
        *final(motors) == old(motors).applied(m),
        *final(target) == target_after(*old(target), *old(motors), m),
        final(events)@ == old(events)@ + old(motors).events_of(m),
{
    let old_step = motors.step_size;
    motors.apply(m, events);
    match m {
        MotorMessage::CurrentConf { .. } => {
            let x = rescale_axis(target.x, old_step, motors.step_size);
            let y = rescale_axis(target.y, old_step, motors.step_size);
            let (x_max, y_max) = motors.get_limits();
            target.x = clamp_to_limit(x, x_max);
            target.y = clamp_to_limit(y, y_max);
        },
        _ => {},
    }
}

/// Applies a batch of messages in arrival order (see `coordinate`), then
/// clamps the target into the working area.
pub fn coordinate_all(
    target: &mut Position,
    motors: &mut MotorsClient,
    msgs: &Vec<MotorMessage>,
) -> (r: Vec<MotorEvent>)
    requires
        old(motors).wf(),
    ensures
        final(motors).wf(),
        *final(motors) == old(motors).applied_all(msgs@),
        *final(target) == clamped(
            target_after_all(*old(target), *old(motors), msgs@),
            *final(motors),
        ),
        in_area(*final(target), final(motors).area, final(motors).step_size as int),
        r@ == old(motors).events_all(msgs@),
{
    let mut events: Vec<MotorEvent> = Vec::new();
    let mut i: usize = 0;
    while i < msgs.len()
        invariant
            i <= msgs@.len(),
            motors.wf(),
            *motors == old(motors).applied_all(msgs@.take(i as int)),
            *target == target_after_all(*old(target), *old(motors), msgs@.take(i as int)),
            events@ == old(motors).events_all(msgs@.take(i as int)),
        decreases msgs@.len() - i,
    {
        assert(msgs@.take(i + 1).drop_last() =~= msgs@.take(i as int));
        coordinate(target, motors, msgs[i], &mut events);
        i = i + 1;
    }
    assert(msgs@.take(msgs@.len() as int) =~= msgs@);
    clamp_target(target, motors);
    events
}

/// The stage coordinator.
#[derive(Debug)]
pub struct Scanner {
    /// The operator's target grid position.
    pub target_pos: Position,
    pub motors: MotorsClient,
}

impl Scanner {
    /// The link state is sane. The target may be set freely; `update`
    /// clamps it into the working area.
    pub open spec fn wf(&self) -> bool {
        self.motors.wf()
    }

    /// A coordinator aiming at the origin; the working area and the default
    /// step size are sent to the stage.
    pub fn new(area: AreaConf, outbox: &mut Vec<Command>) -> (r: Scanner)
        requires
            area.wf(),
        ensures
            r.wf(),
            r.target_pos == (Position { x: 0, y: 0 }),
            r.motors == MotorsClient::new_spec(area),
            final(outbox)@ == old(outbox)@.push(
                Command::SetConf(r.motors.conf_spec(r.motors.step_size)),
            ),
    {
        let motors = MotorsClient::new(area);
        motors.set_conf(outbox);
        let r = Scanner { motors, target_pos: Position { x: 0, y: 0 } };
        r
    }

    /// Applies the messages received since the last tick, in arrival order.
    /// A confirmed step size rescales the target to the same physical place
    /// and clamps it into the working area; at the end the target is clamped
    /// into the working area in any case. Scan starts and scan steps are
    /// returned for the caller to act on.
    pub fn update(&mut self, msgs: &Vec<MotorMessage>) -> (r: Vec<MotorEvent>)
        requires
            old(self).wf(),
        ensures
            final(self).wf(),
            final(self).motors == old(self).motors.applied_all(msgs@),
            final(self).target_pos == clamped(
                target_after_all(old(self).target_pos, old(self).motors, msgs@),
                final(self).motors,
            ),
            in_area(final(self).target_pos, final(self).motors.area, final(self).motors.step_size as int),
            r@ == old(self).motors.events_all(msgs@),
    {
        coordinate_all(&mut self.target_pos, &mut self.motors, msgs)
    }

    /// Asks the stage to start scanning.
    pub fn start_scan(&self, outbox: &mut Vec<Command>)
        ensures
            final(outbox)@ == old(outbox)@.push(Command::StartScan),
    {
        self.motors.start_scan(outbox)
    }

    /// Asks the stage to stop scanning.
    pub fn stop_scan(&self, outbox: &mut Vec<Command>)
        ensures
            final(outbox)@ == old(outbox)@.push(Command::StopScan),
    {
        self.motors.stop_scan(outbox)
    }

    /// The last reported position and the grid limits.
    pub fn get_scan_pos(&self) -> (r: ((i32, i32), (i32, i32)))
        requires
            self.wf(),
        ensures
            r.0 == self.motors.last_pos,
            r.1.0 == self.motors.limits_spec().0,
            r.1.1 == self.motors.limits_spec().1,
    {
        (self.motors.get_last_pos(), self.motors.get_limits())
    }

    /// Asks the stage to move to the target.
    pub fn goto_target_pos(&self, outbox: &mut Vec<Command>)
        ensures
            final(outbox)@ == old(outbox)@.push(
                Command::SetPos(self.target_pos.x, self.target_pos.y),
            ),
    {
        self.motors.set_pos(self.target_pos.x, self.target_pos.y, outbox)
    }

    /// Asks the stage for a step size `amount` thousandths away, clamped;
    /// see `MotorsClient::adjust_step`.
    pub fn adjust_scan_step(&self, amount: i32, outbox: &mut Vec<Command>)
        requires
            self.wf(),
        ensures
            final(outbox)@ == old(outbox)@.push(
                Command::SetConf(
                    self.motors.conf_spec(
                        crate::motors_client::clamp_step(self.motors.step_size + amount) as u32,
                    ),
                ),
            ),
    {
        self.motors.adjust_step(amount, outbox)
    }

    /// The confirmed step size, in thousandths.
    pub fn get_step_size(&self) -> (r: u32)
        ensures
            r == self.motors.step_size,
    {
        self.motors.step_size
    }

    /// Sets the target, clamped into the working area.
    pub fn set_target_pos(&mut self, x: i32, y: i32)
        requires
            old(self).wf(),
        ensures
            final(self).wf(),
            final(self).motors == old(self).motors,
            final(self).target_pos == (Position {
                x: clamp_axis(x as int, old(self).motors.limits_spec().0) as i32,
                y: clamp_axis(y as int, old(self).motors.limits_spec().1) as i32,
            }),
    {
        let (x_max, y_max) = self.motors.get_limits();
        self.target_pos = Position {
            x: clamp_to_limit(x as i64, x_max),
            y: clamp_to_limit(y as i64, y_max),
        };
    }
}

/// A step-size change keeps the target at the same physical place, up to
/// half a new grid cell on each axis: `|new * new_step - old * old_step|` is
/// at most `new_step / 2`.
pub proof fn lemma_rescale_keeps_place(v: int, old_step: int, new_step: int)
    requires
        new_step > 0,
    ensures
        2 * (rescale(v, old_step, new_step) * new_step - v * old_step) <= new_step,
        2 * (v * old_step - rescale(v, old_step, new_step) * new_step) <= new_step,
{
    let n = v * old_step;
    let d = new_step;
    if n >= 0 {
        let q = (2 * n + d) / (2 * d);
        let rem = (2 * n + d) % (2 * d);
        assert(2 * n + d == q * (2 * d) + rem && 0 <= rem < 2 * d) by (nonlinear_arith)
            requires
                d > 0,
                q == (2 * n + d) / (2 * d),
                rem == (2 * n + d) % (2 * d),
        ;
        assert(rescale(v, old_step, new_step) == q);
        assert(2 * (q * d - n) <= d && 2 * (n - q * d) <= d) by (nonlinear_arith)
            requires
                2 * n + d == q * (2 * d) + rem,
                0 <= rem < 2 * d,
        ;
        assert(rescale(v, old_step, new_step) * new_step == q * d);
    } else {
        let q = (-2 * n + d) / (2 * d);
        let rem = (-2 * n + d) % (2 * d);
        assert(-2 * n + d == q * (2 * d) + rem && 0 <= rem < 2 * d) by (nonlinear_arith)
            requires
                d > 0,
                q == (-2 * n + d) / (2 * d),
                rem == (-2 * n + d) % (2 * d),
        ;
        assert(rescale(v, old_step, new_step) == -q);
        assert(2 * ((-q) * d - n) <= d && 2 * (n - (-q) * d) <= d) by (nonlinear_arith)
            requires
                -2 * n + d == q * (2 * d) + rem,
                0 <= rem < 2 * d,
        ;
        assert(rescale(v, old_step, new_step) * new_step == (-q) * d);
    }
}

/// Clamping into `[0, limit)`: a coordinate at or past the limit clamps to
/// `limit - 1`, a negative one to `0`, and one inside is kept.
pub proof fn lemma_clamp_axis(v: int, limit: int)
    requires
        limit >= 1,
    ensures
        0 <= clamp_axis(v, limit) < limit,
        v >= limit ==> clamp_axis(v, limit) == limit - 1,
        v < 0 ==> clamp_axis(v, limit) == 0,
        0 <= v < limit ==> clamp_axis(v, limit) == v,
{
}

/// After any batch of messages the target lies in the working area at the
/// confirmed step size: `0 <= x < floor(horiz_range / step)` and
/// `0 <= y < floor(vert_range / step)`, each axis on its own, whatever the
/// target was before.
pub proof fn lemma_target_stays_in_area(s: Scanner, msgs: Seq<MotorMessage>)
    requires
        s.wf(),
    ensures
        in_area(
            clamped(target_after_all(s.target_pos, s.motors, msgs), s.motors.applied_all(msgs)),
            s.motors.applied_all(msgs).area,
            s.motors.applied_all(msgs).step_size as int,
        ),
{
    lemma_applied_all_wf(s.motors, msgs);
    lemma_limits_positive(s.motors.applied_all(msgs));
}

/// The link state stays well formed through any batch.
pub proof fn lemma_applied_all_wf(m: MotorsClient, msgs: Seq<MotorMessage>)
    requires
        m.wf(),
    ensures
        m.applied_all(msgs).wf(),
        m.applied_all(msgs).area == m.area,
    decreases msgs.len(),
{
    if msgs.len() > 0 {
        lemma_applied_all_wf(m, msgs.drop_last());
    }
}

} // verus!
