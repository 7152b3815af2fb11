//! The bench variant of the instrument controller: the same state machine
//! and channels, leaving received frames to the caller.
use vstd::prelude::*;

use std::collections::VecDeque;

use super::leed_controller::{apply_message, apply_spec, log_after, Currents, Schedule, Settings};
use super::protocol::{Message, Tag};
pub use super::setpoint::{
    send_message as send_control_message, Adjustment, ControlValue, Ramp, Range, Unit,
    ValueSetter,
};

verus! {

/// Raw readbacks from the instrument.
pub type Current = Currents;

/// The instrument's setpoint channels.
pub type Controls = Settings;

#[derive(Debug)]
pub struct Controller {
    pub current: Current,
    pub controls: Controls,
    pub schedule: Schedule,
}

impl Controller {
    pub open spec fn wf(&self) -> bool {
        self.controls.wf() && self.schedule.wf()
    }

    /// A controller in its first startup state; its timers start at `now`.
    pub fn new(now: u64) -> (r: Controller)
        ensures
            r.wf(),
            r.controls.initial(now),
            r.current == Currents::new_spec(),
            r.schedule == Schedule::new_spec(now),
    {
        Controller {
            current: Current::new(),
            controls: Controls::new(now),
            schedule: Schedule::new(now),
        }
    }

    /// One coordinator tick at `now`: when the one-second timer fires, a
    /// startup state pushes its channel's default and advances, and the
    /// steady state polls the next readback; then every channel is
    /// reconciled. Frames go to `outbox` in that order.
    pub fn update(&mut self, now: u64, outbox: &mut Vec<[u8; 6]>)
        requires
            old(self).wf(),
        ensures
            final(self).wf(),
            final(self).current == old(self).current,
            final(self).controls == old(self).controls.after_tick(now),
            final(self).schedule == old(self).schedule.after(now),
            final(outbox)@ == old(outbox)@ + old(self).schedule.frames(old(self).controls, now)
                + old(self).controls.tick_frames(now),
    {
        self.schedule.tick(&self.controls, now, outbox);
        self.controls.update(now, outbox);
        assert(outbox@ =~= old(outbox)@ + old(self).schedule.frames(old(self).controls, now)
            + old(self).controls.tick_frames(now));
    }

    /// Applies one received message; see `apply_message`.
    pub fn update_from_message(&mut self, msg: Message, log_messages: &mut VecDeque<Tag>)
        requires
            old(self).wf(),
            msg.value <= 0xFFFF,
        ensures
            final(self).wf(),
            (final(self).current, final(self).controls) == apply_spec(
                old(self).current,
                old(self).controls,
                msg,
            ),
            final(self).schedule == old(self).schedule,
            final(log_messages)@ == log_after(old(log_messages)@, msg),
    {
        apply_message(&mut self.current, &mut self.controls, msg, log_messages);
    }
}

} // verus!
