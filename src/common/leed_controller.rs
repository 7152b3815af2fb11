//! The instrument controller: owns the setpoint channels and the readbacks,
//! pushes the defaults at startup, then polls the readbacks round-robin, and
//! applies the frames the instrument sends back.
use vstd::prelude::*;

use std::collections::VecDeque;

use super::protocol::{
    decode_spec, frame_of, inbound_id, lsb_of, msb_of, readback_request, Control, Message, Tag,
};
pub use super::setpoint::{
    send_message, Adjustment, ControlValue, Ramp, Range, Unit, ValueSetter,
};
use super::setpoint::{
    count_id, interval_elapsed, lemma_channel_frame_ids, lemma_count_id_add, sent_frames,
};

verus! {

/// Number of channels whose default is pushed at startup.
pub const STARTUP_PUSHES: u8 = 6;

/// Number of readbacks polled in turn.
pub const READBACKS: u8 = 3;

/// At most this many unhandled tags are kept in a log queue.
pub const LOG_CAPACITY: usize = 1000;

/// Raw readbacks from the instrument.
#[derive(Debug, Clone, Copy, PartialEq, Eq, Structural)]
pub struct Currents {
    pub beam: i32,
    pub emission: i32,
    pub filament: i32,
}

impl Currents {
    pub open spec fn new_spec() -> Currents {
        Currents { beam: 0, emission: 0, filament: 0 }
    }

    /// All readbacks at zero.
    pub fn new() -> (r: Currents)
        ensures
            r == Currents::new_spec(),
    {
        Currents { beam: 0, emission: 0, filament: 0 }
    }
}

/// The instrument's setpoint channels.
#[derive(Debug)]
pub struct Settings {
    pub beam_energy: ControlValue,
    pub wehnheit: ControlValue,
    pub emission: ControlValue,
    pub filament: ControlValue,
    pub screen: ControlValue,
    pub lens1_3: ControlValue,
    pub lens2: ControlValue,
    pub suppressor: ControlValue,
}

/// A channel as it is made: nothing confirmed, aiming at its default.
pub open spec fn fresh_channel(
    c: ControlValue,
    name: Seq<char>,
    setter: ValueSetter,
    default: i32,
    domain_max: i32,
    range: Range,
) -> bool {
    &&& c.name@ == name
    &&& c.setter == setter
    &&& c.default == default
    &&& c.target_value == default
    &&& c.current_value == 0
    &&& c.domain_max == domain_max
    &&& c.range == range
}

/// The value a readback field takes from a message value.
pub open spec fn readback_value(v: u32) -> i32 {
    v as i32
}

impl Settings {
    /// Every channel is well formed and carries its own control.
    pub open spec fn wf(&self) -> bool {
        &&& self.beam_energy.wf() && self.beam_energy.control == Control::BEAM_SET_INT
        &&& self.wehnheit.wf() && self.wehnheit.control == Control::WEH_SET
        &&& self.emission.wf() && self.emission.control == Control::EMI_SET
        &&& self.filament.wf() && self.filament.control == Control::IFIL_SET1
        &&& self.screen.wf() && self.screen.control == Control::SCR_SET
        &&& self.lens1_3.wf() && self.lens1_3.control == Control::L13_SET
        &&& self.lens2.wf() && self.lens2.control == Control::L2_SET
        &&& self.suppressor.wf() && self.suppressor.control == Control::RET_SET_INT
    }

    /// The frames one tick at `now` appends, channel by channel.
    pub open spec fn tick_frames(&self, now: u64) -> Seq<[u8; 6]> {
        self.beam_energy.tick_frames(now) + self.wehnheit.tick_frames(now)
            + self.emission.tick_frames(now) + self.filament.tick_frames(now)
            + self.screen.tick_frames(now) + self.lens1_3.tick_frames(now)
            + self.lens2.tick_frames(now) + self.suppressor.tick_frames(now)
    }

    /// The channels after a tick at `now`: only ramp timers may move.
    pub open spec fn after_tick(self, now: u64) -> Settings {
        Settings {
            beam_energy: self.beam_energy.after_tick(now),
            wehnheit: self.wehnheit.after_tick(now),
            emission: self.emission.after_tick(now),
            filament: self.filament.after_tick(now),
            screen: self.screen.after_tick(now),
            lens1_3: self.lens1_3.after_tick(now),
            lens2: self.lens2.after_tick(now),
            suppressor: self.suppressor.after_tick(now),
        }
    }

    /// Sets the confirmed value of the channel that control `c` drives; the
    /// emission-max report drives none.
    pub open spec fn with_current(self, c: Control, v: i32) -> Settings {
        match c {
            Control::L2_SET => Settings {
                lens2: ControlValue { current_value: v, ..self.lens2 },
                ..self
            },
            Control::L13_SET => Settings {
                lens1_3: ControlValue { current_value: v, ..self.lens1_3 },
                ..self
            },
            Control::WEH_SET => Settings {
                wehnheit: ControlValue { current_value: v, ..self.wehnheit },
                ..self
            },
            Control::SCR_SET => Settings {
                screen: ControlValue { current_value: v, ..self.screen },
                ..self
            },
            Control::RET_SET_INT => Settings {
                suppressor: ControlValue { current_value: v, ..self.suppressor },
                ..self
            },
            Control::BEAM_SET_INT => Settings {
                beam_energy: ControlValue { current_value: v, ..self.beam_energy },
                ..self
            },
            Control::EMI_SET => Settings {
                emission: ControlValue { current_value: v, ..self.emission },
                ..self
            },
            Control::IFIL_SET1 => Settings {
                filament: ControlValue { current_value: v, ..self.filament },
                ..self
            },
            Control::EMI_MAX => self,
        }
    }

    /// Every channel as it is made, with its fixed constants; the filament
    /// ramp's timer last fired at `now`.
    pub open spec fn initial(&self, now: u64) -> bool {
        &&& fresh_channel(
            self.filament,
            "Filament"@,
            ValueSetter::Ramped(Ramp { last_time: now }),
            0,
            63999,
            Range::Max(2_700, Unit::Ampere),
        )
        &&& fresh_channel(
            self.beam_energy,
            "Beam energy"@,
            ValueSetter::Direct,
            3500,
            63999,
            Range::Max(1_000_000, Unit::ElectronVolt),
        )
        &&& fresh_channel(
            self.wehnheit,
            "Wehnheit"@,
            ValueSetter::Direct,
            0,
            63999,
            Range::Max(100_000, Unit::Volt),
        )
        &&& fresh_channel(
            self.emission,
            "Emission"@,
            ValueSetter::Direct,
            16959,
            16959,
            Range::Max(50_000, Unit::MicroAmpere),
        )
        &&& fresh_channel(
            self.screen,
            "Screen"@,
            ValueSetter::Direct,
            63999,
            63999,
            Range::Max(7_000, Unit::KiloVolt),
        )
        &&& fresh_channel(
            self.lens2,
            "Lens 2"@,
            ValueSetter::Direct,
            20000,
            23734,
            Range::MinMax(-20_000i64, 1_100_000, Unit::Volt),
        )
        &&& fresh_channel(
            self.lens1_3,
            "Lens 1/3"@,
            ValueSetter::Direct,
            50000,
            55522,
            Range::MinMax(-20_000i64, 2_500_000, Unit::Volt),
        )
        &&& fresh_channel(
            self.suppressor,
            "Suppressor"@,
            ValueSetter::Direct,
            26000,
            35199,
            Range::MinMax(10_000, 110_000, Unit::Percentage),
        )
    }

    /// The eight channels with their fixed constants; the filament ramp's
    /// timer starts at `now`. Nothing is confirmed yet and every target is
    /// its channel's default.
    pub fn new(now: u64) -> (r: Settings)
        ensures
            r.wf(),
            r.initial(now),
    {
        Settings {
            filament: ControlValue::new(
                "Filament",
                ValueSetter::Ramped(Ramp::new(now)),
                0,
                Control::IFIL_SET1,
                63999,
                Range::Max(2_700, Unit::Ampere),
            ),
            beam_energy: ControlValue::new(
                "Beam energy",
                ValueSetter::Direct,
                3500,
                Control::BEAM_SET_INT,
                63999,
                Range::Max(1_000_000, Unit::ElectronVolt),
            ),
            wehnheit: ControlValue::new(
                "Wehnheit",
                ValueSetter::Direct,
                0,
                Control::WEH_SET,
                63999,
                Range::Max(100_000, Unit::Volt),
            ),
            emission: ControlValue::new(
                "Emission",
                ValueSetter::Direct,
                16959,
                Control::EMI_SET,
                16959,
                Range::Max(50_000, Unit::MicroAmpere),
            ),
            screen: ControlValue::new(
                "Screen",
                ValueSetter::Direct,
                63999,
                Control::SCR_SET,
                63999,
                Range::Max(7_000, Unit::KiloVolt),
            ),
            // Lens output is gain * 1000 + offset, the offset spanning -20 V to 100 V.
            lens2: ControlValue::new(
                "Lens 2",
                ValueSetter::Direct,
                20000,
                Control::L2_SET,
                23734,
                Range::MinMax(-20_000, 1_100_000, Unit::Volt),
            ),
            lens1_3: ControlValue::new(
                "Lens 1/3",
                ValueSetter::Direct,
                50000,
                Control::L13_SET,
                55522,
                Range::MinMax(-20_000, 2_500_000, Unit::Volt),
            ),
            suppressor: ControlValue::new(
                "Suppressor",
                ValueSetter::Direct,
                26000,
                Control::RET_SET_INT,
                35199,
                Range::MinMax(10_000, 110_000, Unit::Percentage),
            ),
        }
    }

    /// Reconciles every channel once, in a fixed order. A channel whose frame
    /// cannot be encoded sends nothing and is tried again next tick.
    pub fn update(&mut self, now: u64, outbox: &mut Vec<[u8; 6]>)
        requires
            old(self).wf(),
        ensures
            final(self).wf(),
            *final(self) == old(self).after_tick(now),
            final(outbox)@ == old(outbox)@ + old(self).tick_frames(now),
    {
        let ghost o = old(outbox)@;
        let ghost s = *old(self);
        let _ = self.beam_energy.update(now, outbox);
        let _ = self.wehnheit.update(now, outbox);
        assert(outbox@ =~= o + s.beam_energy.tick_frames(now) + s.wehnheit.tick_frames(now));
        let _ = self.emission.update(now, outbox);
        let _ = self.filament.update(now, outbox);
        assert(outbox@ =~= o + s.beam_energy.tick_frames(now) + s.wehnheit.tick_frames(now)
            + s.emission.tick_frames(now) + s.filament.tick_frames(now));
        let _ = self.screen.update(now, outbox);
        let _ = self.lens1_3.update(now, outbox);
        assert(outbox@ =~= o + s.beam_energy.tick_frames(now) + s.wehnheit.tick_frames(now)
            + s.emission.tick_frames(now) + s.filament.tick_frames(now) + s.screen.tick_frames(
            now,
        ) + s.lens1_3.tick_frames(now));
        let _ = self.lens2.update(now, outbox);
        let _ = self.suppressor.update(now, outbox);
        assert(outbox@ =~= o + s.tick_frames(now));
    }
}

/// Readbacks and settings after one message is applied.
pub open spec fn apply_spec(currents: Currents, settings: Settings, msg: Message) -> (
    Currents,
    Settings,
) {
    let v = readback_value(msg.value);
    match msg.tag {
        Tag::ADC1 => (Currents { emission: v, ..currents }, settings),
        Tag::ADC2 => (Currents { beam: v, ..currents }, settings),
        Tag::ADC3 => (Currents { filament: v, ..currents }, settings),
        Tag::Control(c) => (currents, settings.with_current(c, v)),
        Tag::DigOut => (currents, settings),
    }
}

/// Tags that are logged rather than applied.
pub open spec fn is_unhandled(tag: Tag) -> bool {
    tag is DigOut || tag == Tag::Control(Control::EMI_MAX)
}

/// A log queue after one more entry goes in at the front; the oldest entries
/// beyond the capacity are dropped.
pub open spec fn log_pushed(log: Seq<Tag>, tag: Tag) -> Seq<Tag> {
    let l = seq![tag] + log;
    if l.len() > LOG_CAPACITY {
        l.take(LOG_CAPACITY as int)
    } else {
        l
    }
}

/// The log queue after a message is applied.
pub open spec fn log_after(log: Seq<Tag>, msg: Message) -> Seq<Tag> {
    if is_unhandled(msg.tag) {
        log_pushed(log, msg.tag)
    } else {
        log
    }
}

/// Applies one message: `ADC1` sets the emission readback, `ADC2` the beam
/// readback, `ADC3` the filament readback; a control's echo sets that
/// channel's confirmed value; other tags go to the log queue.
pub fn apply_message(
    currents: &mut Currents,
    settings: &mut Settings,
    msg: Message,
    log_messages: &mut VecDeque<Tag>,
)
    requires
        old(settings).wf(),
        msg.value <= 0xFFFF,
    ensures
        final(settings).wf(),
        (*final(currents), *final(settings)) == apply_spec(*old(currents), *old(settings), msg),
        final(log_messages)@ == log_after(old(log_messages)@, msg),
{
    let v = msg.value as i32;
    match msg.tag {
        Tag::ADC1 => currents.emission = v,
        Tag::ADC2 => currents.beam = v,
        Tag::ADC3 => currents.filament = v,
        Tag::Control(ctrl) => match ctrl {
            Control::L2_SET => settings.lens2.current_value = v,
            Control::L13_SET => settings.lens1_3.current_value = v,
            Control::WEH_SET => settings.wehnheit.current_value = v,
            Control::SCR_SET => settings.screen.current_value = v,
            Control::RET_SET_INT => settings.suppressor.current_value = v,
            Control::BEAM_SET_INT => settings.beam_energy.current_value = v,
            Control::EMI_SET => settings.emission.current_value = v,
            Control::IFIL_SET1 => settings.filament.current_value = v,
            Control::EMI_MAX => push_log(log_messages, msg.tag),
        },
        Tag::DigOut => push_log(log_messages, msg.tag),
    }
}

/// Puts a tag at the front of a log queue, dropping the oldest entries
/// beyond the capacity.
pub fn push_log(log_messages: &mut VecDeque<Tag>, tag: Tag)
    ensures
        final(log_messages)@ == log_pushed(old(log_messages)@, tag),
{
    log_messages.push_front(tag);
    if log_messages.len() > LOG_CAPACITY {
        log_messages.truncate(LOG_CAPACITY);
    }
}

/// The readback polled when the round-robin counter is at `counter`.
pub open spec fn adc_tag(counter: u8) -> Tag {
    if counter == 0 {
        Tag::ADC1
    } else if counter == 1 {
        Tag::ADC2
    } else {
        Tag::ADC3
    }
}

/// The round-robin counter after one poll.
pub open spec fn next_adc(counter: u8) -> u8 {
    ((counter + 1) % (READBACKS as int)) as u8
}

/// Readbacks and settings after a run of messages, applied in order.
pub open spec fn apply_all(cs: (Currents, Settings), msgs: Seq<Message>) -> (Currents, Settings)
    decreases msgs.len(),
{
    if msgs.len() == 0 {
        cs
    } else {
        let p = apply_all(cs, msgs.drop_last());
        apply_spec(p.0, p.1, msgs.last())
    }
}

/// A log queue after a run of messages.
pub open spec fn log_after_all(log: Seq<Tag>, msgs: Seq<Message>) -> Seq<Tag>
    decreases msgs.len(),
{
    if msgs.len() == 0 {
        log
    } else {
        log_after(log_after_all(log, msgs.drop_last()), msgs.last())
    }
}

/// The messages that a run of received frames decodes to, in order; frames
/// that fail to decode are dropped.
pub open spec fn decoded_all(frames: Seq<[u8; 6]>) -> Seq<Message>
    decreases frames.len(),
{
    if frames.len() == 0 {
        Seq::empty()
    } else {
        let prev = decoded_all(frames.drop_last());
        match decode_spec(frames.last()@) {
            Ok(m) => prev.push(m),
            Err(_) => prev,
        }
    }
}


/// The channel whose default the `k`-th startup push sends.
pub open spec fn startup_channel(settings: Settings, k: u8) -> ControlValue {
    if k == 0 {
        settings.beam_energy
    } else if k == 1 {
        settings.emission
    } else if k == 2 {
        settings.suppressor
    } else if k == 3 {
        settings.screen
    } else if k == 4 {
        settings.lens2
    } else {
        settings.lens1_3
    }
}

/// The controller's state machine: `Startup(k)` for `k` in `0..6`, then the
/// steady state, gated by a one-second timer. Each startup state pushes one
/// channel's default; the steady state polls the readbacks round-robin.
#[derive(Debug, Clone, Copy, PartialEq, Eq, Structural)]
pub struct Schedule {
    /// When the timer last fired, in milliseconds.
    pub last_current_update: u64,
    /// The next readback to poll.
    pub adc_counter: u8,
    /// How many startup pushes have been made.
    pub defaults_counter: u8,
}

impl Schedule {
    pub open spec fn wf(&self) -> bool {
        self.adc_counter < READBACKS && self.defaults_counter <= STARTUP_PUSHES
    }

    pub open spec fn new_spec(now: u64) -> Schedule {
        Schedule { last_current_update: now, adc_counter: 0, defaults_counter: 0 }
    }

    /// Whether all startup pushes are done.
    pub open spec fn in_steady_state(&self) -> bool {
        self.defaults_counter >= STARTUP_PUSHES
    }

    /// What the state machine sends on a tick at `now`.
    pub open spec fn frames(&self, settings: Settings, now: u64) -> Seq<[u8; 6]> {
        if !interval_elapsed(self.last_current_update, now) {
            Seq::empty()
        } else if !self.in_steady_state() {
            let c = startup_channel(settings, self.defaults_counter);
            sent_frames(Tag::Control(c.control), c.default as int)
        } else {
            seq![frame_of(inbound_id(adc_tag(self.adc_counter)), 0, 0)]
        }
    }

    /// The state after a tick at `now`.
    pub open spec fn after(self, now: u64) -> Schedule {
        if !interval_elapsed(self.last_current_update, now) {
            self
        } else if !self.in_steady_state() {
            Schedule {
                last_current_update: now,
                defaults_counter: (self.defaults_counter + 1) as u8,
                ..self
            }
        } else {
            Schedule { last_current_update: now, adc_counter: next_adc(self.adc_counter), ..self }
        }
    }

    /// The readback polled on a tick at `now`, if any.
    pub open spec fn polled(self, now: u64) -> Option<Tag> {
        if interval_elapsed(self.last_current_update, now) && self.in_steady_state() {
            Some(adc_tag(self.adc_counter))
        } else {
            None
        }
    }

    /// The first startup state; the timer starts at `now`.
    pub fn new(now: u64) -> (r: Schedule)
        ensures
            r == Schedule::new_spec(now),
    {
        Schedule { last_current_update: now, adc_counter: 0, defaults_counter: 0 }
    }

    /// One tick at `now`: when the timer fires, a startup state pushes its
    /// channel's default and advances, and the steady state polls the next
    /// readback.
    pub fn tick(&mut self, settings: &Settings, now: u64, outbox: &mut Vec<[u8; 6]>)
        requires
            old(self).wf(),
            settings.wf(),
        ensures
            final(self).wf(),
            *final(self) == old(self).after(now),
            final(outbox)@ == old(outbox)@ + old(self).frames(*settings, now),
    {
        if now >= self.last_current_update && now - self.last_current_update
            > super::setpoint::TICK_INTERVAL_MS {
            self.last_current_update = now;
            match self.defaults_counter {
                0 => {
                    let _ = settings.beam_energy.send_default(outbox);
                    self.defaults_counter = self.defaults_counter + 1;
                },
                1 => {
                    let _ = settings.emission.send_default(outbox);
                    self.defaults_counter = self.defaults_counter + 1;
                },
                2 => {
                    let _ = settings.suppressor.send_default(outbox);
                    self.defaults_counter = self.defaults_counter + 1;
                },
                3 => {
                    let _ = settings.screen.send_default(outbox);
                    self.defaults_counter = self.defaults_counter + 1;
                },
                4 => {
                    let _ = settings.lens2.send_default(outbox);
                    self.defaults_counter = self.defaults_counter + 1;
                },
                5 => {
                    let _ = settings.lens1_3.send_default(outbox);
                    self.defaults_counter = self.defaults_counter + 1;
                },
                _ => {
                    self.request_currents(outbox);
                    assert(outbox@ =~= old(outbox)@ + old(self).frames(*settings, now));
                },
            }
        } else {
            assert(old(outbox)@ + Seq::<[u8; 6]>::empty() =~= old(outbox)@);
        }
    }

    /// Sends a request for the next readback; the instrument answers with
    /// its present value.
    pub fn request_currents(&mut self, outbox: &mut Vec<[u8; 6]>)
        requires
            old(self).wf(),
        ensures
            final(self).wf(),
            *final(self) == (Schedule { adc_counter: next_adc(old(self).adc_counter), ..*old(self) }),
            final(outbox)@ == old(outbox)@.push(
                frame_of(inbound_id(adc_tag(old(self).adc_counter)), 0, 0),
            ),
    {
        let tag = match self.adc_counter {
            0 => Tag::ADC1,
            1 => Tag::ADC2,
            _ => Tag::ADC3,
        };
        match readback_request(tag) {
            Some(frame) => outbox.push(frame),
            None => {},
        }
        self.adc_counter = (self.adc_counter + 1) % READBACKS;
    }
}

/// Decodes each received frame in order, drops those that fail, applies the
/// rest to the readbacks and settings and returns them.
pub fn apply_frames(
    frames: &Vec<[u8; 6]>,
    currents: &mut Currents,
    settings: &mut Settings,
    log_messages: &mut VecDeque<Tag>,
) -> (r: Vec<Message>)
    requires
        old(settings).wf(),
    ensures
        final(settings).wf(),
        r@ == decoded_all(frames@),
        (*final(currents), *final(settings)) == apply_all((*old(currents), *old(settings)), r@),
        final(log_messages)@ == log_after_all(old(log_messages)@, r@),
{
    let mut out: Vec<Message> = Vec::new();
    let mut i: usize = 0;
    while i < frames.len()
        invariant
            i <= frames@.len(),
            settings.wf(),
            out@ == decoded_all(frames@.take(i as int)),
            (*currents, *settings) == apply_all((*old(currents), *old(settings)), out@),
            log_messages@ == log_after_all(old(log_messages)@, out@),
        decreases frames@.len() - i,
    {
        let ghost prev = out@;
        assert(frames@.take(i + 1).drop_last() =~= frames@.take(i as int));
        match Message::decode(&frames[i]) {
            Ok(msg) => {
                apply_message(currents, settings, msg, log_messages);
                out.push(msg);
                assert(out@.drop_last() =~= prev);
            },
            Err(_) => {},
        }
        i = i + 1;
    }
    assert(frames@.take(frames@.len() as int) =~= frames@);
    out
}

/// The instrument controller: the state machine beside a per-tick
/// reconciliation of every setpoint channel, and the readbacks.
#[derive(Debug)]
pub struct LEEDController {
    /// Readbacks received from the instrument.
    pub currents: Currents,
    pub settings: Settings,
    pub schedule: Schedule,
}

impl LEEDController {
    pub open spec fn wf(&self) -> bool {
        self.settings.wf() && self.schedule.wf()
    }

    /// A controller in its first startup state; its timers start at `now`.
    pub fn new(now: u64) -> (r: LEEDController)
        ensures
            r.wf(),
            r.settings.initial(now),
            r.currents == Currents::new_spec(),
            r.schedule == Schedule::new_spec(now),
    {
        LEEDController {
            currents: Currents::new(),
            settings: Settings::new(now),
            schedule: Schedule::new(now),
        }
    }

    /// One coordinator tick at `now`: the state machine's frame, then every
    /// channel's frames, go to `outbox` in that order; then the frames
    /// received since the last tick are decoded and applied in order, those
    /// that fail being dropped. Returns the applied messages.
    pub fn update(
        &mut self,
        now: u64,
        outbox: &mut Vec<[u8; 6]>,
        responses: &Vec<[u8; 6]>,
        log_messages: &mut VecDeque<Tag>,
    ) -> (r: Vec<Message>)
        requires
            old(self).wf(),
        ensures
            final(self).wf(),
            final(self).schedule == old(self).schedule.after(now),
            final(outbox)@ == old(outbox)@ + old(self).schedule.frames(old(self).settings, now)
                + old(self).settings.tick_frames(now),
            r@ == decoded_all(responses@),
            (final(self).currents, final(self).settings) == apply_all(
                (old(self).currents, old(self).settings.after_tick(now)),
                r@,
            ),
            final(log_messages)@ == log_after_all(old(log_messages)@, r@),
    {
        self.schedule.tick(&self.settings, now, outbox);
        self.settings.update(now, outbox);
        assert(outbox@ =~= old(outbox)@ + old(self).schedule.frames(old(self).settings, now)
            + old(self).settings.tick_frames(now));
        self.handle_leed_messages(responses, log_messages)
    }

    /// Applies one received message; see `apply_message`.
    pub fn update_from_message(&mut self, msg: Message, log_messages: &mut VecDeque<Tag>)
        requires
            old(self).wf(),
            msg.value <= 0xFFFF,
        ensures
            final(self).wf(),
            (final(self).currents, final(self).settings) == apply_spec(
                old(self).currents,
                old(self).settings,
                msg,
            ),
            final(self).schedule == old(self).schedule,
            final(log_messages)@ == log_after(old(log_messages)@, msg),
    {
        apply_message(&mut self.currents, &mut self.settings, msg, log_messages);
    }

    /// Decodes each received frame in order, drops those that fail, applies
    /// the rest and returns them; see `apply_frames`.
    pub fn handle_leed_messages(
        &mut self,
        frames: &Vec<[u8; 6]>,
        log_messages: &mut VecDeque<Tag>,
    ) -> (r: Vec<Message>)
        requires
            old(self).wf(),
        ensures
            final(self).wf(),
            r@ == decoded_all(frames@),
            (final(self).currents, final(self).settings) == apply_all(
                (old(self).currents, old(self).settings),
                r@,
            ),
            final(self).schedule == old(self).schedule,
            final(log_messages)@ == log_after_all(old(log_messages)@, r@),
    {
        apply_frames(frames, &mut self.currents, &mut self.settings, log_messages)
    }
}

/// In steady state every tick at which the timer fires sends one poll, for
/// the readback that `polled` names. Three such ticks in a row poll each
/// readback once, in the order ADC1, ADC2, ADC3 from the first counter
/// value, and bring the counter back to where it started, so the order
/// repeats with period three.
pub proof fn lemma_polling_cycle(s: Schedule, settings: Settings, t1: u64, t2: u64, t3: u64)
    requires
        s.wf(),
        s.in_steady_state(),
        interval_elapsed(s.last_current_update, t1),
        interval_elapsed(t1, t2),
        interval_elapsed(t2, t3),
    ensures
        s.frames(settings, t1) == seq![frame_of(inbound_id(s.polled(t1)->0), 0, 0)],
        s.polled(t1) == Some(adc_tag(s.adc_counter)),
        s.after(t1).polled(t2) == Some(adc_tag(next_adc(s.adc_counter))),
        s.after(t1).after(t2).polled(t3) == Some(adc_tag(next_adc(next_adc(s.adc_counter)))),
        s.after(t1).after(t2).after(t3).adc_counter == s.adc_counter,
        s.adc_counter == 0 ==> s.polled(t1) == Some(Tag::ADC1) && s.after(t1).polled(t2) == Some(
            Tag::ADC2,
        ) && s.after(t1).after(t2).polled(t3) == Some(Tag::ADC3),
        s.polled(t1) != s.after(t1).polled(t2) && s.after(t1).polled(t2) != s.after(t1).after(
            t2,
        ).polled(t3) && s.polled(t1) != s.after(t1).after(t2).polled(t3),
{
}

/// During startup each tick at which the timer fires pushes the default of
/// the next channel, in the order beam energy, emission, suppressor,
/// screen, lens 2, lens 1/3, and advances to the next startup state.
pub proof fn lemma_startup_push(s: Schedule, settings: Settings, now: u64)
    requires
        s.wf(),
        settings.wf(),
        !s.in_steady_state(),
        interval_elapsed(s.last_current_update, now),
    ensures
        s.frames(settings, now) == seq![
            frame_of(
                inbound_id(Tag::Control(startup_channel(settings, s.defaults_counter).control)),
                msb_of(startup_channel(settings, s.defaults_counter).default as u32),
                lsb_of(startup_channel(settings, s.defaults_counter).default as u32),
            ),
        ],
        s.after(now).defaults_counter == s.defaults_counter + 1,
        s.after(now).adc_counter == s.adc_counter,
{
}

/// One tick of all the settings sends, for each direct channel, exactly one
/// frame with that channel's id while its target differs from its confirmed
/// value, and none once they are equal. Every other channel's frames carry
/// other ids, so they never count for it.
pub proof fn lemma_settings_direct_frames(s: Settings, now: u64, c: ControlValue)
    requires
        s.wf(),
        c == s.beam_energy || c == s.wehnheit || c == s.emission || c == s.filament || c
            == s.screen || c == s.lens1_3 || c == s.lens2 || c == s.suppressor,
        c.setter is Direct,
    ensures
        count_id(s.tick_frames(now), inbound_id(Tag::Control(c.control))) == (if c.target_value
            != c.current_value {
            1int
        } else {
            0int
        }),
{
    let id = inbound_id(Tag::Control(c.control));
    let a = s.beam_energy.tick_frames(now);
    let b = s.wehnheit.tick_frames(now);
    let e = s.emission.tick_frames(now);
    let f = s.filament.tick_frames(now);
    let g = s.screen.tick_frames(now);
    let h = s.lens1_3.tick_frames(now);
    let i = s.lens2.tick_frames(now);
    let j = s.suppressor.tick_frames(now);
    lemma_count_id_add(a, b, id);
    lemma_count_id_add(a + b, e, id);
    lemma_count_id_add(a + b + e, f, id);
    lemma_count_id_add(a + b + e + f, g, id);
    lemma_count_id_add(a + b + e + f + g, h, id);
    lemma_count_id_add(a + b + e + f + g + h, i, id);
    lemma_count_id_add(a + b + e + f + g + h + i, j, id);
    lemma_channel_frame_ids(s.beam_energy, now, id);
    lemma_channel_frame_ids(s.wehnheit, now, id);
    lemma_channel_frame_ids(s.emission, now, id);
    lemma_channel_frame_ids(s.filament, now, id);
    lemma_channel_frame_ids(s.screen, now, id);
    lemma_channel_frame_ids(s.lens1_3, now, id);
    lemma_channel_frame_ids(s.lens2, now, id);
    lemma_channel_frame_ids(s.suppressor, now, id);
}

} // verus!
