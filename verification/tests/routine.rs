use std::cell::Cell;
use std::rc::Rc;

use sensd::action::pid::actuate_for;
use sensd::action::routine::{Routine, SchedRoutineHandler};
use sensd::io::command::IOCommand;
use sensd::io::datum::Datum;
use sensd::io::device::{DeviceGetters, DeviceSetters};
use sensd::io::output::Output;

type ReadFn = fn() -> Datum;
type WriteFn = fn(Datum) -> Result<(), ()>;

fn now_micros() -> i64 {
    chrono::Utc::now().timestamp_micros()
}

#[test]
fn test_push() {
    let command: IOCommand<ReadFn, WriteFn> = IOCommand::Output(|_| Ok(()));
    let timestamp = now_micros() + 5;
    let value = Datum::binary(Some(true));
    let routine = Routine::new(timestamp, value, Some(()), command);

    let mut scheduled = SchedRoutineHandler::default();
    assert_eq!(0, scheduled.scheduled().into_iter().count());

    scheduled.push(routine);
    assert_eq!(1, scheduled.scheduled().into_iter().count());

    let command: IOCommand<ReadFn, WriteFn> = IOCommand::Output(|_| Ok(()));
    let timestamp = now_micros() + 5;
    let routine = Routine::new(timestamp, value, Some(()), command);

    scheduled.push(routine);
    assert_eq!(2, scheduled.scheduled().into_iter().count());
}

#[test]
fn test_constructor_w_none() {
    let timestamp = now_micros();
    let value = Datum::binary(Some(true));
    let command: IOCommand<ReadFn, WriteFn> = IOCommand::Output(|_| Ok(()));

    let routine: Routine<ReadFn, WriteFn, ()> = Routine::new(timestamp, value, None, command);

    assert!(routine.attempt().is_some());
}

#[test]
fn routine_runs_command_once_due() {
    let register = Rc::new(Cell::new(Datum::Binary(Some(false))));
    let reg = register.clone();
    let command: IOCommand<ReadFn, _> = IOCommand::Output(move |val| {
        reg.set(val);
        Ok(())
    });
    let timestamp = now_micros() + 10;
    let value = Datum::binary(Some(true));
    let routine: Routine<ReadFn, _, ()> = Routine::new(timestamp, value, None, command);

    assert_ne!(register.get(), value);
    assert!(routine.attempt_at(timestamp - 1).is_none());
    assert_ne!(register.get(), value);

    while now_micros() < timestamp {}
    let event = routine.attempt().expect("routine was due");
    assert_eq!(event.timestamp, timestamp);
    assert_eq!(event.value, value);
    assert_eq!(register.get(), value);
}

#[test]
fn handler_runs_and_clears_due_routines() {
    let count = Rc::new(Cell::new(0u32));
    let mut scheduled = SchedRoutineHandler::new();
    for t in [100i64, 300, 200, 400] {
        let c = count.clone();
        let command: IOCommand<ReadFn, _> = IOCommand::Output(move |_| {
            c.set(c.get() + 1);
            Ok(())
        });
        let routine: Routine<ReadFn, _, ()> = Routine::new(t, Datum::uint(Some(t as u32)), None, command);
        scheduled.push(routine);
    }

    let events = scheduled.attempt_routines_at(50);
    assert!(events.is_empty());
    assert_eq!(4, scheduled.scheduled().len());

    let events = scheduled.attempt_routines_at(300);
    assert_eq!(3, events.len());
    assert_eq!(events[0].0.timestamp, 100);
    assert_eq!(events[1].0.timestamp, 300);
    assert_eq!(events[2].0.timestamp, 200);
    assert_eq!(3, count.get());
    assert_eq!(1, scheduled.scheduled().len());
    assert_eq!(400, scheduled.scheduled()[0].timestamp());

    let events = scheduled.attempt_routines_at(1000);
    assert_eq!(1, events.len());
    assert_eq!(events[0].0.value, Datum::uint(Some(400)));
    assert!(scheduled.scheduled().is_empty());
}

#[test]
fn handler_test_attempt() {
    let command: IOCommand<ReadFn, WriteFn> = IOCommand::Output(|_| Ok(()));
    let timestamp = now_micros() + 30;
    let value = Datum::binary(Some(true));
    let routine = Routine::new(timestamp, value, Some(()), command);

    let mut scheduled = SchedRoutineHandler::default();
    scheduled.push(routine);

    let command: IOCommand<ReadFn, WriteFn> = IOCommand::Output(|_| Ok(()));
    let ts2 = now_micros() + 120;
    let routine = Routine::new(ts2, value, Some(()), command);
    scheduled.push(routine);

    while now_micros() < timestamp {
        assert_eq!(2, scheduled.scheduled().into_iter().count());
        scheduled.attempt_routines();
    }
    scheduled.attempt_routines();
    while now_micros() < ts2 {
        assert_eq!(1, scheduled.scheduled().into_iter().count());
        scheduled.attempt_routines();
    }
    scheduled.attempt_routines();
    assert_eq!(0, scheduled.scheduled().into_iter().count());
}

#[test]
fn test_constructor_w_log() {
    let log = Rc::new(Cell::new(0u32));
    let timestamp = now_micros();
    let value = Datum::binary(Some(true));
    let command: IOCommand<ReadFn, WriteFn> = IOCommand::Output(|_| Ok(()));

    let routine = Routine::new(timestamp, value, Some(log.clone()), command);
    assert!(routine.attempt().is_some());
    assert!(Rc::ptr_eq(routine.log().as_ref().unwrap(), &log));
}

#[test]
fn output_creates_routine() {
    let mut output: Output<ReadFn, WriteFn, u8> = Output::new(1).set_command(IOCommand::Output(|_| Ok(())));
    output.set_log(3);
    let routine = output.create_routine_at(Datum::binary(Some(false)), 250, 1_000);
    assert_eq!(routine.timestamp(), 1_250);
    assert_eq!(routine.value(), Datum::binary(Some(false)));
    assert_eq!(*routine.log(), Some(3));
    let routine = output.create_routine(Datum::binary(Some(true)), 10).unwrap();
    assert!(routine.timestamp() > 0);
    assert!(output.create_routine(Datum::binary(Some(true)), i64::MAX).is_none());
}

#[test]
fn fired_routines_hand_back_their_log() {
    let mut scheduled: SchedRoutineHandler<ReadFn, WriteFn, u8> = SchedRoutineHandler::new();
    scheduled.push(Routine::new(10, Datum::binary(Some(false)), Some(7), IOCommand::Output(|_| Ok(()))));
    scheduled.push(Routine::new(20, Datum::binary(Some(false)), None, IOCommand::Output(|_| Ok(()))));
    let events = scheduled.attempt_routines_at(20);
    assert_eq!(events.len(), 2);
    assert_eq!(events[0].1, Some(7));
    assert_eq!(events[1].1, None);
}

#[test]
fn actuate_for_switches_on_and_schedules_off() {
    let mut output: Output<ReadFn, WriteFn, u8> = Output::new(1).set_command(IOCommand::Output(|_| Ok(())));
    output.set_log(1);
    assert!(actuate_for(&mut output, 0, 500).is_none());
    assert_eq!(None, *output.state());
    let (event, routine) = actuate_for(&mut output, 1500, 500).unwrap();
    assert_eq!(event.value, Datum::binary(Some(true)));
    assert_eq!(Some(Datum::binary(Some(true))), *output.state());
    assert_eq!(routine.timestamp(), 2000);
    assert_eq!(routine.value(), Datum::binary(Some(false)));
}

#[test]
fn past_schedules_always_resolve() {
    let routine: Routine<ReadFn, WriteFn, ()> = Routine::new(0, Datum::binary(Some(true)), None, IOCommand::Output(|_| Ok(())));
    assert!(routine.attempt().is_some());
    let mut output: Output<ReadFn, WriteFn, u8> = Output::new(1).set_command(IOCommand::Output(|_| Ok(())));
    output.set_log(2);
    assert!(output.create_routine(Datum::binary(Some(true)), -5).is_some());
    assert!(output.create_routine(Datum::binary(Some(true)), 0).is_some());
}

#[test]
fn create_routine_succeeds_for_representable_times() {
    let mut output: Output<ReadFn, WriteFn, u8> = Output::new(1).set_command(IOCommand::Output(|_| Ok(())));
    output.set_log(2);
    let now = now_micros();
    let routine = output.create_routine(Datum::binary(Some(true)), 1_000_000).unwrap();
    assert!(routine.timestamp() >= now + 1_000_000);
    let far: Routine<ReadFn, WriteFn, ()> = Routine::new(i64::MAX, Datum::binary(Some(true)), None, IOCommand::Output(|_| Ok(())));
    assert!(far.attempt().is_none());
}
