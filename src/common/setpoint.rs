//! A setpoint channel: a raw integer value with a physical scale and an update
//! strategy, either direct or rate-limited.
use vstd::prelude::*;

use super::protocol::{encode_spec, inbound_id, Control, EncodeError, Message, Tag};

verus! {

/// Milliseconds that must pass between two eligible ticks of a timer.
pub const TICK_INTERVAL_MS: u64 = 1000;

/// Largest value a channel's raw domain may have: values travel as 16 bits.
pub const MAX_RAW: i32 = 0xFFFF;

/// Largest magnitude, in thousandths of its unit, of a physical bound.
pub const MAX_PHYSICAL_MILLI: i64 = 1_000_000_000;

/// A ramp moves one step per this fraction of its domain.
pub const RAMP_DIVISOR: i32 = 500;

/// A timer that is ready once more than a second has passed since it last
/// fired (or was created).
#[derive(Debug, Clone, Copy, PartialEq, Eq, Structural)]
pub struct Ramp {
    pub last_time: u64,
}

pub open spec fn interval_elapsed(last: u64, now: u64) -> bool {
    now >= last && now - last > TICK_INTERVAL_MS
}

impl Ramp {
    /// A timer that last fired at `now` (milliseconds).
    pub fn new(now: u64) -> (r: Ramp)
        ensures
            r.last_time == now,
    {
        Ramp { last_time: now }
    }

    /// Fires, and restarts, when more than a second has passed since it last
    /// fired; a clock that went backwards never fires it.
    pub fn ready(&mut self, now: u64) -> (r: bool)
        ensures
            r == interval_elapsed(old(self).last_time, now),
            final(self).last_time == (if r {
                now
            } else {
                old(self).last_time
            }),
    {
        if now >= self.last_time && now - self.last_time > TICK_INTERVAL_MS {
            self.last_time = now;
            true
        } else {
            false
        }
    }
}

/// How a channel moves its value toward the operator's target.
#[derive(Debug, Clone, Copy, PartialEq, Eq, Structural)]
pub enum ValueSetter {
    /// The target is sent as it is, every tick until it is confirmed.
    Direct,
    /// The value moves one bounded step per timer interval.
    Ramped(Ramp),
}

/// The physical unit of a channel.
#[derive(Debug, Clone, Copy, PartialEq, Eq, Structural)]
pub enum Unit {
    Ampere,
    MicroAmpere,
    Volt,
    KiloVolt,
    ElectronVolt,
    Percentage,
}

pub open spec fn unit_symbol(u: Unit) -> Seq<char> {
    match u {
        Unit::Ampere => "A"@,
        Unit::MicroAmpere => "uA"@,
        Unit::Volt => "V"@,
        Unit::KiloVolt => "kV"@,
        Unit::ElectronVolt => "eV"@,
        Unit::Percentage => "%"@,
    }
}

impl Unit {
    /// The unit's symbol, as shown next to a value.
    pub fn symbol(&self) -> (r: &'static str)
        ensures
            r@ == unit_symbol(*self),
    {
        match self {
            Unit::Ampere => "A",
            Unit::MicroAmpere => "uA",
            Unit::Volt => "V",
            Unit::KiloVolt => "kV",
            Unit::ElectronVolt => "eV",
            Unit::Percentage => "%",
        }
    }
}

/// The physical interval that a channel's raw domain `0..=domain_max` spans,
/// in thousandths of the unit.
#[derive(Debug, Clone, Copy, PartialEq, Eq, Structural)]
pub enum Range {
    /// From zero to the given maximum.
    Max(i64, Unit),
    /// From the given minimum to the given maximum.
    MinMax(i64, i64, Unit),
}

pub open spec fn range_wf(r: Range) -> bool {
    match r {
        Range::Max(hi, _) => 0 <= hi <= MAX_PHYSICAL_MILLI,
        Range::MinMax(lo, hi, _) => -MAX_PHYSICAL_MILLI <= lo <= hi <= MAX_PHYSICAL_MILLI,
    }
}

/// The physical value, in thousandths of the unit, of a raw value.
pub open spec fn physical_of(r: Range, domain_max: int, raw: int) -> int {
    match r {
        Range::Max(hi, _) => raw * hi / domain_max,
        Range::MinMax(lo, hi, _) => lo + raw * (hi - lo) / domain_max,
    }
}

/// A direction in which the operator moves a target.
#[derive(Debug, Clone, Copy, PartialEq, Eq, Structural)]
pub enum Adjustment {
    Up,
    Down,
}

/// One setpoint channel of the instrument.
#[derive(Debug)]
pub struct ControlValue {
    pub name: String,
    /// The value last confirmed by the instrument.
    pub current_value: i32,
    pub setter: ValueSetter,
    /// The value the operator asks for.
    pub target_value: i32,
    pub default: i32,
    pub domain_max: i32,
    pub range: Range,
    pub control: Control,
}

/// Clamps into `[0, domain_max]`, testing the lower bound first.
pub open spec fn clamp_spec(v: int, domain_max: int) -> int {
    if v < 0 {
        0
    } else if v > domain_max {
        domain_max
    } else {
        v
    }
}

/// What sending `value` under `tag` appends to the outbound frames.
pub open spec fn sent_frames(tag: Tag, value: int) -> Seq<[u8; 6]> {
    match encode_spec(Message { tag, value: value as u32 }) {
        Ok(f) => seq![f],
        Err(_) => Seq::empty(),
    }
}

/// Encodes `value` under `tag` and appends the frame to `outbox`; where the
/// tag has no outbound id nothing is appended and the error is returned.
pub fn send_message(tag: Tag, value: i32, outbox: &mut Vec<[u8; 6]>) -> (r: Result<(), EncodeError>)
    requires
        0 <= value,
    ensures
        final(outbox)@ == old(outbox)@ + sent_frames(tag, value as int),
        r is Ok <==> encode_spec(Message { tag, value: value as u32 }) is Ok,
{
    let msg = Message { tag, value: value as u32 };
    match msg.encode() {
        Ok(bytes) => {
            outbox.push(bytes);
            assert(old(outbox)@ + seq![bytes] =~= old(outbox)@.push(bytes));
            Ok(())
        },
        Err(e) => {
            assert(old(outbox)@ + Seq::<[u8; 6]>::empty() =~= old(outbox)@);
            Err(e)
        },
    }
}

impl ControlValue {
    /// The channel's invariant: values fit the 16-bit wire format, the target
    /// and default lie in the domain, and the physical bounds are sane.
    pub open spec fn wf(&self) -> bool {
        &&& 0 < self.domain_max <= MAX_RAW
        &&& 0 <= self.default <= self.domain_max
        &&& 0 <= self.target_value <= self.domain_max
        &&& 0 <= self.current_value <= MAX_RAW
        &&& range_wf(self.range)
    }

    /// The bounded step of a ramp and of an operator adjustment.
    pub open spec fn step(&self) -> int {
        self.domain_max / RAMP_DIVISOR
    }

    /// One step from `start` in direction `dir`, clamped to the domain.
    pub open spec fn next_spec(&self, start: int, dir: Adjustment) -> int {
        clamp_spec(
            match dir {
                Adjustment::Up => start + self.step(),
                Adjustment::Down => start - self.step(),
            },
            self.domain_max as int,
        )
    }

    /// The direction from the confirmed value toward the target.
    pub open spec fn direction(&self) -> Adjustment {
        if self.target_value < self.current_value {
            Adjustment::Down
        } else {
            Adjustment::Up
        }
    }

    /// The value this channel sends on a tick at `now`, if any.
    pub open spec fn tick_value(&self, now: u64) -> Option<int> {
        match self.setter {
            ValueSetter::Direct => if self.target_value != self.current_value {
                Some(self.target_value as int)
            } else {
                None
            },
            ValueSetter::Ramped(ramp) => if !interval_elapsed(ramp.last_time, now) {
                None
            } else if (self.target_value - self.current_value) < self.step() && (
            self.current_value - self.target_value) < self.step() {
                None
            } else {
                Some(self.next_spec(self.current_value as int, self.direction()))
            },
        }
    }

    /// The frames this channel appends on a tick at `now`.
    #[verifier::opaque]
    pub open spec fn tick_frames(&self, now: u64) -> Seq<[u8; 6]> {
        match self.tick_value(now) {
            Some(v) => sent_frames(Tag::Control(self.control), v),
            None => Seq::empty(),
        }
    }

    /// The update strategy after a tick at `now`: a ramp's timer restarts
    /// when it fires.
    pub open spec fn setter_after_tick(&self, now: u64) -> ValueSetter {
        match self.setter {
            ValueSetter::Direct => ValueSetter::Direct,
            ValueSetter::Ramped(ramp) => if interval_elapsed(ramp.last_time, now) {
                ValueSetter::Ramped(Ramp { last_time: now })
            } else {
                ValueSetter::Ramped(ramp)
            },
        }
    }

    /// The channel after a tick at `now`: only its update strategy may
    /// change.
    pub open spec fn after_tick(self, now: u64) -> ControlValue {
        ControlValue { setter: self.setter_after_tick(now), ..self }
    }

    /// A channel with no confirmed value yet, aiming at its default.
    pub fn new(
        name: &str,
        setter: ValueSetter,
        default: i32,
        control: Control,
        domain_max: i32,
        range: Range,
    ) -> (r: ControlValue)
        requires
            0 < domain_max <= MAX_RAW,
            0 <= default <= domain_max,
            range_wf(range),
        ensures
            r.wf(),
            r.name@ == name@,
            r.current_value == 0,
            r.target_value == default,
            r.default == default,
            r.setter == setter,
            r.domain_max == domain_max,
            r.range == range,
            r.control == control,
    {
        ControlValue {
            name: name.to_owned(),
            current_value: 0,
            setter,
            target_value: default,
            default,
            domain_max,
            range,
            control,
        }
    }

    /// One step from `start_value` in direction `dir`, clamped to the domain.
    pub fn next(&self, start_value: i32, dir: Adjustment) -> (r: i32)
        requires
            self.wf(),
            0 <= start_value <= MAX_RAW,
        ensures
            r == self.next_spec(start_value as int, dir),
            0 <= r <= self.domain_max,
    {
        let step = self.domain_max / RAMP_DIVISOR;
        let mut res = match dir {
            Adjustment::Up => start_value + step,
            Adjustment::Down => start_value - step,
        };
        if res < 0 {
            res = 0;
        }
        if res > self.domain_max {
            res = self.domain_max;
        }
        res
    }

    /// Sends what this tick calls for: a direct channel its target while it
    /// differs from the confirmed value; a ramped one, when its timer fires
    /// and it is at least one step away, one step from the confirmed value
    /// toward the target.
    pub fn update(&mut self, now: u64, outbox: &mut Vec<[u8; 6]>) -> (r: Result<(), EncodeError>)
        requires
            old(self).wf(),
        ensures
            final(self).wf(),
            *final(self) == old(self).after_tick(now),
            final(outbox)@ == old(outbox)@ + old(self).tick_frames(now),
            r is Err <==> (old(self).tick_value(now) is Some && old(self).tick_frames(
                now,
            ).len() == 0),
    {
        reveal(ControlValue::tick_frames);
        let ghost empty = Seq::<[u8; 6]>::empty();
        match &mut self.setter {
            ValueSetter::Direct => {
                if self.target_value != self.current_value {
                    send_message(Tag::Control(self.control), self.target_value, outbox)
                } else {
                    assert(old(outbox)@ + empty =~= old(outbox)@);
                    Ok(())
                }
            },
            ValueSetter::Ramped(ramp) => {
                if ramp.ready(now) {
                    let step = self.domain_max / RAMP_DIVISOR;
                    if self.target_value - self.current_value < step && self.current_value
                        - self.target_value < step {
                        assert(old(outbox)@ + empty =~= old(outbox)@);
                        Ok(())
                    } else {
                        let dir = if self.target_value < self.current_value {
                            Adjustment::Down
                        } else {
                            Adjustment::Up
                        };
                        let value = self.next(self.current_value, dir);
                        send_message(Tag::Control(self.control), value, outbox)
                    }
                } else {
                    assert(old(outbox)@ + empty =~= old(outbox)@);
                    Ok(())
                }
            },
        }
    }

    /// Moves the target one step in the given direction, within the domain.
    pub fn adjust(&mut self, adjustment: Adjustment)
        requires
            old(self).wf(),
        ensures
            final(self).wf(),
            final(self).target_value == old(self).next_spec(
                old(self).target_value as int,
                adjustment,
            ),
            final(self).setter == old(self).setter,
            final(self).current_value == old(self).current_value,
            final(self).name@ == old(self).name@,
            final(self).default == old(self).default,
            final(self).domain_max == old(self).domain_max,
            final(self).range == old(self).range,
            final(self).control == old(self).control,
    {
        self.target_value = self.next(self.target_value, adjustment);
    }

    /// Sends the channel's default value.
    pub fn send_default(&self, outbox: &mut Vec<[u8; 6]>) -> (r: Result<(), EncodeError>)
        requires
            self.wf(),
        ensures
            final(outbox)@ == old(outbox)@ + sent_frames(
                Tag::Control(self.control),
                self.default as int,
            ),
            r is Ok <==> encode_spec(
                Message { tag: Tag::Control(self.control), value: self.default as u32 },
            ) is Ok,
    {
        send_message(Tag::Control(self.control), self.default, outbox)
    }

    /// The physical value, in thousandths of the unit, of a raw value.
    pub fn physical(&self, raw: i32) -> (r: i64)
        requires
            self.wf(),
            0 <= raw <= MAX_RAW,
        ensures
            r == physical_of(self.range, self.domain_max as int, raw as int),
    {
        let dm = self.domain_max as i64;
        let x = raw as i64;
        match self.range {
            Range::Max(hi, _) => {
                assert(0 <= x * hi <= 0xFFFF * MAX_PHYSICAL_MILLI) by (nonlinear_arith)
                    requires
                        0 <= x <= 0xFFFF,
                        0 <= hi <= MAX_PHYSICAL_MILLI,
                ;
                x * hi / dm
            },
            Range::MinMax(lo, hi, _) => {
                let span = hi - lo;
                assert(0 <= x * span <= 0xFFFF * (2 * MAX_PHYSICAL_MILLI)) by (nonlinear_arith)
                    requires
                        0 <= x <= 0xFFFF,
                        0 <= span <= 2 * MAX_PHYSICAL_MILLI,
                ;
                let prod = x * span;
                assert(0 <= prod / dm <= prod) by (nonlinear_arith)
                    requires
                        0 <= prod,
                        dm >= 1,
                ;
                lo + x * span / dm
            },
        }
    }

    /// The confirmed value in thousandths of the physical unit.
    pub fn physical_current(&self) -> (r: i64)
        requires
            self.wf(),
        ensures
            r == physical_of(self.range, self.domain_max as int, self.current_value as int),
    {
        self.physical(self.current_value)
    }

    /// The target value in thousandths of the physical unit.
    pub fn physical_target(&self) -> (r: i64)
        requires
            self.wf(),
        ensures
            r == physical_of(self.range, self.domain_max as int, self.target_value as int),
    {
        self.physical(self.target_value)
    }
}

/// On a tick at which its timer fires, a ramped channel whose confirmed value
/// lies in the domain and is at least one step from the target sends that
/// value moved by exactly one step toward the target: never past the target
/// and never out of the domain. Within one step of the target it sends
/// nothing. The step is `domain_max / 500`: 127 for a domain of 63999.
pub proof fn lemma_ramp_bound(c: ControlValue, now: u64)
    requires
        c.wf(),
        c.setter is Ramped,
        interval_elapsed(c.setter->Ramped_0.last_time, now),
        c.current_value <= c.domain_max,
    ensures
        c.domain_max == 63999 ==> c.step() == 127,
        c.target_value >= c.current_value + c.step() ==> c.tick_value(now) == Some(
            c.current_value + c.step(),
        ),
        c.target_value <= c.current_value - c.step() ==> c.tick_value(now) == Some(
            c.current_value - c.step(),
        ),
        c.tick_value(now) matches Some(v) ==> 0 <= v <= c.domain_max && (c.current_value <= v
            <= c.target_value || c.target_value <= v <= c.current_value),
        (c.current_value - c.step() < c.target_value < c.current_value + c.step())
            ==> c.tick_value(now) is None,
        c.control != Control::EMI_MAX ==> c.tick_frames(now) == (match c.tick_value(now) {
            Some(v) => seq![
                encode_spec(Message { tag: Tag::Control(c.control), value: v as u32 })->Ok_0,
            ],
            None => Seq::<[u8; 6]>::empty(),
        }),
{
    reveal(ControlValue::tick_frames);
}

/// A direct channel of a sendable control emits exactly one frame per tick,
/// carrying its target, while the target differs from the confirmed value,
/// and none once they are equal.
pub proof fn lemma_direct_emits_once(c: ControlValue, now: u64)
    requires
        c.wf(),
        c.setter is Direct,
        c.control != Control::EMI_MAX,
    ensures
        c.tick_frames(now).len() == (if c.target_value != c.current_value {
            1int
        } else {
            0int
        }),
        c.target_value != c.current_value ==> c.tick_frames(now) == seq![
            encode_spec(
                Message { tag: Tag::Control(c.control), value: c.target_value as u32 },
            )->Ok_0,
        ],
{
    reveal(ControlValue::tick_frames);
}

/// How many of `frames` carry the id `id`.
pub open spec fn count_id(frames: Seq<[u8; 6]>, id: u8) -> int
    decreases frames.len(),
{
    if frames.len() == 0 {
        0
    } else {
        count_id(frames.drop_last(), id) + if frames.last()[1] == id {
            1int
        } else {
            0int
        }
    }
}

/// Counting ids distributes over concatenation.
pub proof fn lemma_count_id_add(a: Seq<[u8; 6]>, b: Seq<[u8; 6]>, id: u8)
    ensures
        count_id(a + b, id) == count_id(a, id) + count_id(b, id),
    decreases b.len(),
{
    if b.len() > 0 {
        assert((a + b).drop_last() =~= a + b.drop_last());
        lemma_count_id_add(a, b.drop_last(), id);
    } else {
        assert(a + b =~= a);
    }
}

/// A channel of a sendable control sends, on a tick, one frame with its own
/// id when it has a value to send, and nothing else.
pub proof fn lemma_channel_frame_ids(c: ControlValue, now: u64, id: u8)
    requires
        c.wf(),
        c.control != Control::EMI_MAX,
    ensures
        count_id(c.tick_frames(now), id) == (if id == inbound_id(Tag::Control(c.control))
            && c.tick_value(now) is Some {
            1int
        } else {
            0int
        }),
{
    reveal(ControlValue::tick_frames);
    let f = c.tick_frames(now);
    match c.tick_value(now) {
        Some(v) => {
            let m = Message { tag: Tag::Control(c.control), value: v as u32 };
            let fr = encode_spec(m)->Ok_0;
            assert(f == seq![fr]);
            assert(fr[1] == inbound_id(Tag::Control(c.control)));
            assert(f.drop_last() =~= Seq::<[u8; 6]>::empty());
            assert(count_id(f.drop_last(), id) == 0);
        },
        None => {
            assert(f.len() == 0);
        },
    }
}

} // verus!
