//! The bench application: the instrument controller beside an optional
//! motor link, driven by one tick function.
use vstd::prelude::*;

use std::collections::VecDeque;

use crate::common::controller::Controller;
use crate::common::leed_controller::{
    apply_all, apply_frames, decoded_all, log_after_all, Currents, Schedule,
};
use crate::common::protocol::{Message, Tag};
use crate::motors_client::{
    clamp_step, AreaConf, Command, MotorEvent, MotorMessage, MotorsClient,
};
pub use crate::scanner::Position;
use crate::scanner::{clamped, coordinate_all, target_after_all};

verus! {

/// Decodes each received frame in order, drops those that fail, applies the
/// rest to the controller and returns them; see `apply_frames`.
pub fn handle_leed_messages(
    frames: &Vec<[u8; 6]>,
    controller: &mut Controller,
    log_messages: &mut VecDeque<Tag>,
) -> (r: Vec<Message>)
    requires
        old(controller).wf(),
    ensures
        final(controller).wf(),
        r@ == decoded_all(frames@),
        (final(controller).current, final(controller).controls) == apply_all(
            (old(controller).current, old(controller).controls),
            r@,
        ),
        final(controller).schedule == old(controller).schedule,
        final(log_messages)@ == log_after_all(old(log_messages)@, r@),
{
    apply_frames(frames, &mut controller.current, &mut controller.controls, log_messages)
}

/// The instrument controller, the operator's stage target, and the motor
/// link where one is open.
#[derive(Debug)]
pub struct Application {
    pub leed_controller: Controller,
    pub target_pos: Position,
    pub motors: Option<MotorsClient>,
}

impl Application {
    pub open spec fn wf(&self) -> bool {
        &&& self.leed_controller.wf()
        &&& self.motors matches Some(m) ==> m.wf()
    }

    /// A fresh controller whose timers start at `now`, with a motor link
    /// over `motors_area` where one could be opened.
    pub fn new(now: u64, motors_area: Option<AreaConf>) -> (r: Application)
        requires
            motors_area matches Some(a) ==> a.wf(),
        ensures
            r.wf(),
            r.target_pos == (Position { x: 0, y: 0 }),
            r.leed_controller.current == Currents::new_spec(),
            r.leed_controller.controls.initial(now),
            r.leed_controller.schedule == Schedule::new_spec(now),
            r.motors == (match motors_area {
                Some(a) => Some(MotorsClient::new_spec(a)),
                None => None::<MotorsClient>,
            }),
    {
        let motors = match motors_area {
            Some(area) => {
                let m = MotorsClient::new(area);
                Some(m)
            },
            None => None,
        };
        Application {
            leed_controller: Controller::new(now),
            motors,
            target_pos: Position { x: 0, y: 0 },
        }
    }

    /// One tick at `now`: the controller's tick (frames to `leed_outbox`),
    /// then the received instrument frames, then the received motor
    /// messages. Returns the decoded instrument messages and the motor
    /// events for the caller to act on.
    pub fn update(
        &mut self,
        now: u64,
        leed_frames: &Vec<[u8; 6]>,
        leed_outbox: &mut Vec<[u8; 6]>,
        log_messages: &mut VecDeque<Tag>,
        motor_msgs: &Vec<MotorMessage>,
    ) -> (r: (Vec<Message>, Vec<MotorEvent>))
        requires
            old(self).wf(),
        ensures
            final(self).wf(),
            final(self).leed_controller.schedule == old(self).leed_controller.schedule.after(now),
            final(leed_outbox)@ == old(leed_outbox)@ + old(self).leed_controller.schedule.frames(
                old(self).leed_controller.controls,
                now,
            ) + old(self).leed_controller.controls.tick_frames(now),
            r.0@ == decoded_all(leed_frames@),
            (final(self).leed_controller.current, final(self).leed_controller.controls)
                == apply_all(
                (
                    old(self).leed_controller.current,
                    old(self).leed_controller.controls.after_tick(now),
                ),
                r.0@,
            ),
            final(log_messages)@ == log_after_all(old(log_messages)@, r.0@),
            match old(self).motors {
                Some(m) => {
                    &&& final(self).motors == Some(m.applied_all(motor_msgs@))
                    &&& final(self).target_pos == clamped(
                        target_after_all(old(self).target_pos, m, motor_msgs@),
                        m.applied_all(motor_msgs@),
                    )
                    &&& r.1@ == m.events_all(motor_msgs@)
                },
                None => {
                    &&& final(self).motors is None
                    &&& final(self).target_pos == old(self).target_pos
                    &&& r.1@.len() == 0
                },
            },
    {
        self.leed_controller.update(now, leed_outbox);
        let messages = handle_leed_messages(leed_frames, &mut self.leed_controller, log_messages);
        let events = match &mut self.motors {
            Some(motors) => coordinate_all(&mut self.target_pos, motors, motor_msgs),
            None => Vec::new(),
        };
        (messages, events)
    }

    /// Asks the stage to start scanning, where a motor link is open.
    pub fn start_scan(&self, outbox: &mut Vec<Command>)
        ensures
            final(outbox)@ == (if self.motors is Some {
                old(outbox)@.push(Command::StartScan)
            } else {
                old(outbox)@
            }),
    {
        if let Some(motors) = &self.motors {
            motors.start_scan(outbox)
        }
    }

    /// Asks the stage to stop scanning, where a motor link is open.
    pub fn stop_scan(&self, outbox: &mut Vec<Command>)
        ensures
            final(outbox)@ == (if self.motors is Some {
                old(outbox)@.push(Command::StopScan)
            } else {
                old(outbox)@
            }),
    {
        if let Some(motors) = &self.motors {
            motors.stop_scan(outbox)
        }
    }

    /// Sends the working area with the remembered step size, where a motor
    /// link is open.
    pub fn on_start(&self, outbox: &mut Vec<Command>)
        ensures
            final(outbox)@ == (match self.motors {
                Some(m) => old(outbox)@.push(Command::SetConf(m.conf_spec(m.step_size))),
                None => old(outbox)@,
            }),
    {
        if let Some(motors) = &self.motors {
            motors.set_conf(outbox)
        }
    }

    /// The last reported position and the grid limits, where a motor link
    /// is open.
    pub fn get_scan_pos(&self) -> (r: Option<((i32, i32), (i32, i32))>)
        requires
            self.wf(),
        ensures
            match self.motors {
                Some(m) => r == Some(
                    (m.last_pos, (m.limits_spec().0 as i32, m.limits_spec().1 as i32)),
                ),
                None => r is None,
            },
    {
        match &self.motors {
            Some(motors) => Some((motors.get_last_pos(), motors.get_limits())),
            None => None,
        }
    }

    /// Asks the stage to move to the target, where a motor link is open.
    pub fn goto_target_pos(&self, outbox: &mut Vec<Command>)
        ensures
            final(outbox)@ == (if self.motors is Some {
                old(outbox)@.push(Command::SetPos(self.target_pos.x, self.target_pos.y))
            } else {
                old(outbox)@
            }),
    {
        if let Some(motors) = &self.motors {
            motors.set_pos(self.target_pos.x, self.target_pos.y, outbox);
        }
    }

    /// Asks for a step size `amount` thousandths away, clamped, where a
    /// motor link is open.
    pub fn adjust_scan_step(&self, amount: i32, outbox: &mut Vec<Command>)
        requires
            self.wf(),
        ensures
            final(outbox)@ == (match self.motors {
                Some(m) => old(outbox)@.push(
                    Command::SetConf(m.conf_spec(clamp_step(m.step_size + amount) as u32)),
                ),
                None => old(outbox)@,
            }),
    {
        if let Some(motors) = &self.motors {
            motors.adjust_step(amount, outbox);
        }
    }

    /// The confirmed step size in thousandths; zero without a motor link.
    pub fn get_step_size(&self) -> (r: u32)
        ensures
            r == (match self.motors {
                Some(m) => m.step_size,
                None => 0,
            }),
    {
        match &self.motors {
            Some(motors) => motors.step_size,
            None => 0,
        }
    }
}

} // verus!
