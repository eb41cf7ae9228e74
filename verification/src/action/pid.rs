//! The part of PID control that acts on the output device.
//!
//! The controller itself computes, in floating point, for how long the
//! output should be kept on; what happens with that duration is decided here.
use vstd::prelude::*;
use crate::action::routine::Routine;
use crate::io::command::IOCommand;
use crate::io::datum::Datum;
use crate::io::event::IOEvent;
use crate::io::device::{DeviceGetters, DeviceSetters};
use crate::io::output::Output;

verus! {

/// Keep `output` switched on for `duration` microseconds from `now`.
///
/// A positive duration switches the output on (writes `true`) and returns
/// the event of that write, for the device log, with the routine that
/// switches it off (writes `false`) when the duration has passed, to be
/// handed to the routine handler. Otherwise nothing is written and nothing
/// is returned.
pub fn actuate_for<R, W, L>(output: &mut Output<R, W, L>, duration: i64, now: i64) -> (r: Option<
    (IOEvent, Routine<R, W, L>),
>)
    where
        R: Fn() -> Datum + Copy,
        W: Fn(Datum) -> Result<(), ()> + Copy,
        L: Clone,
    requires
        old(output).spec_log() is Some,
        old(output).spec_command() matches Some(c) && (c matches IOCommand::Output(f) && call_requires(
            f,
            (Datum::Binary(Some(true)),),
        )),
        i64::MIN <= now + duration <= i64::MAX,
    ensures
        duration > 0 ==> {
            &&& final(output).spec_state() == Some(Datum::Binary(Some(true)))
            &&& r matches Some((event, routine)) && event.value == Datum::Binary(Some(true))
                && routine.scheduled_at() == now + duration
                && routine.spec_value() == Datum::Binary(Some(false)) && routine.spec_command()
                == old(output).spec_command()->0 && (routine.spec_log() matches Some(l) && cloned(
                old(output).spec_log()->0,
                l,
            ))
        },
        duration <= 0 ==> r is None && final(output).spec_state() == old(output).spec_state(),
        final(output).spec_metadata() == old(output).spec_metadata(),
        final(output).spec_command() == old(output).spec_command(),
        final(output).spec_log() == old(output).spec_log(),
{
    if duration > 0 {
        let on = output.write(Datum::Binary(Some(true)));
        let event = match on {
            Ok(e) => e,
            Err(_) => IOEvent::new(Datum::Binary(Some(true))),
        };
        let routine = output.create_routine_at(Datum::Binary(Some(false)), duration, now);
        Some((event, routine))
    } else {
        None
    }
}

} // verus!
