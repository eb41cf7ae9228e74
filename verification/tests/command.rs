use std::cell::Cell;
use std::rc::Rc;

use sensd::action::commands::{check_alignment, misconfigured_error, GPIOCommand, SimpleNotifier};
use sensd::errors::{no_internal_closure, ErrorKind};
use sensd::io::command::IOCommand;
use sensd::io::datum::Datum;
use sensd::io::device::DeviceTraits;
use sensd::io::device_type::DeviceType;
use sensd::io::input::Input;
use sensd::io::output::Output;
use sensd::io::raw::RawValue;
use sensd::io::IODirection;

type ReadFn = fn() -> RawValue;
type WriteFn = fn(RawValue) -> Result<(), ()>;
type Device = DeviceType<fn() -> Datum, fn(Datum) -> Result<(), ()>, (), ()>;

fn make_device(direction: &IODirection) -> Device {
    match direction {
        IODirection::In => DeviceType::Input(Input::new(0)),
        IODirection::Out => DeviceType::Output(Output::new(0)),
    }
}

#[test]
fn test_agrees() {
    let mut command: IOCommand<ReadFn, WriteFn> = IOCommand::Output(|_| Ok(()));
    assert_eq!((), command.agrees(IODirection::Out).unwrap());
    assert_eq!((), command.agrees(IODirection::In).err().unwrap());

    command = IOCommand::Input(|| RawValue::default());
    assert_eq!((), command.agrees(IODirection::In).unwrap());
    assert_eq!((), command.agrees(IODirection::Out).err().unwrap());
}

#[test]
fn test_check_alignment() {
    {
        let device = make_device(&IODirection::In);
        let command: IOCommand<ReadFn, WriteFn> = IOCommand::Input(|| RawValue::Float(0.0f32.to_bits()));
        assert!(check_alignment(&command, device.direction()).is_ok());
    }
    {
        let device = make_device(&IODirection::Out);
        let command: IOCommand<ReadFn, WriteFn> = IOCommand::Output(|_| Ok(()));
        assert!(check_alignment(&command, device.direction()).is_ok());
    }
    {
        let device = make_device(&IODirection::Out);
        let command: IOCommand<ReadFn, WriteFn> = IOCommand::Input(|| RawValue::Float(0.0f32.to_bits()));
        assert!(check_alignment(&command, device.direction()).is_err());
    }
    {
        let device = make_device(&IODirection::In);
        let command: IOCommand<ReadFn, WriteFn> = IOCommand::Output(|_| Ok(()));
        let err = check_alignment(&command, device.direction()).unwrap_err();
        assert_eq!(err.kind, ErrorKind::CommandError);
        assert_eq!(err.message, misconfigured_error().message);
    }
}

#[test]
fn test_execute() {
    let register = Rc::new(Cell::new(RawValue::PosInt8(255)));
    {
        let reg = register.clone();
        let func: IOCommand<_, WriteFn> = IOCommand::Input(move || reg.get());
        let command = GPIOCommand::new(func, None);
        match command.execute(None) {
            Ok(Some(inner)) => assert_eq!(register.get(), inner),
            _ => panic!("input command returned no value"),
        }
    }
    {
        register.set(RawValue::PosInt8(255));
        let reg = register.clone();
        let func: IOCommand<ReadFn, _> = IOCommand::Output(move |val| {
            reg.set(val);
            Ok(())
        });
        let command = GPIOCommand::new(func, None);
        let value = RawValue::Binary(true);
        assert_ne!(register.get(), value);
        match command.execute(Some(value)) {
            Ok(None) => (),
            _ => panic!("output command returned a value"),
        }
        assert_eq!(register.get(), value);
    }
}

#[test]
fn gpio_command_direction() {
    let c: GPIOCommand<ReadFn, WriteFn> = GPIOCommand::new(IOCommand::Output(|_| Ok(())), Some(IODirection::Out));
    assert_eq!(c.direction(), IODirection::Out);
    let c: GPIOCommand<ReadFn, WriteFn> = GPIOCommand::new(IOCommand::Input(|| RawValue::Int(1)), None);
    assert_eq!(c.direction(), IODirection::In);
    assert!(c.func().is_input());
}

#[test]
fn io_command_predicates() {
    let c: IOCommand<ReadFn, WriteFn> = IOCommand::Output(|_| Ok(()));
    assert!(c.is_output() && !c.is_input());
    assert_eq!(c.direction(), IODirection::Out);
    assert_eq!(None, c.execute(Some(RawValue::Binary(true))).unwrap());
}

#[test]
fn error_constructors() {
    let e = misconfigured_error();
    assert_eq!(e.kind, ErrorKind::CommandError);
    assert_eq!(e.message, "Misconfigured device! Device and command type do not match.");
    let e = no_internal_closure();
    assert_eq!(e.kind, ErrorKind::CommandError);
    assert_eq!(e.message, "Device has no internal closure");
    let n = SimpleNotifier::new(String::from("hello"));
    assert_eq!(n.msg(), "hello");
}
