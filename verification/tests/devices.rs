use sensd::builders::{build_device, ActionBuilder, Group};
use sensd::container::Collection;
use sensd::errors::{DeviceError, ErrorKind};
use sensd::io::command::IOCommand;
use sensd::io::datum::Datum;
use sensd::io::device::{DeviceGetters, DeviceSetters, DeviceTraits, DeviceWrapper};
use sensd::io::device_type::DeviceType;
use sensd::io::input::Input;
use sensd::io::output::Output;
use sensd::io::sensors::MockPhSensor;
use sensd::io::{IODirection, IOKind};

type ReadFn = fn() -> Datum;
type WriteFn = fn(Datum) -> Result<(), ()>;
type In = Input<ReadFn, WriteFn, u8, u8>;
type Out = Output<ReadFn, WriteFn, u8>;

const DUMMY_BITS: u32 = 0x3F99_999A;

fn dummy_read() -> Datum {
    Datum::Float(Some(1.2f32.to_bits()))
}

#[test]
fn input_test_rx() {
    let input: In = Input::default().set_command(IOCommand::Input(dummy_read));
    let event = input.rx().unwrap();
    assert_eq!(event.value, Datum::Float(Some(1.2f32.to_bits())));
    assert_eq!(DUMMY_BITS, 1.2f32.to_bits());
}

#[test]
fn input_test_init_publisher() {
    let mut input: In = Input::default();
    assert_eq!(false, input.has_publisher());
    input = input.init_publisher();
    assert_eq!(true, input.has_publisher());
}

#[test]
fn output_test_tx() {
    let output: Out = Output::default().set_command(IOCommand::Output(|_| Ok(())));
    let value = Datum::binary(Some(true));
    let event = output.tx(value).expect("Unknown error occurred in `tx()`");
    assert_eq!(value, event.value);
}

#[test]
fn input_read_updates_state() {
    let value = Datum::default();
    let mut input: In = Input::default().set_command(IOCommand::Input(|| Datum::default()));
    assert_eq!(None, *input.state());
    let event = input.read().unwrap();
    assert_eq!(event.value, value);
    assert_eq!(input.state().unwrap(), value);
}

#[test]
fn input_without_command_reports_no_command() {
    let mut input: In = Input::new(777).set_name("probe");
    assert_eq!(input.id(), 777);
    match input.read() {
        Err(DeviceError::NoCommand { metadata }) => {
            assert_eq!(metadata.name, "probe");
            assert_eq!(metadata.id, 777);
        },
        _ => panic!("expected NoCommand"),
    }
    assert_eq!(None, *input.state());
}

#[test]
fn output_write_updates_state() {
    let mut output: Out = Output::default().set_command(IOCommand::Output(|_| Ok(())));
    let value = Datum::binary(Some(true));
    assert_eq!(None, *output.state());
    let event = output.write(value).expect("Unknown error returned by `::write()`");
    assert_eq!(value, output.state().unwrap());
    assert_eq!(value, event.value);
}

#[test]
fn output_without_command_reports_no_command() {
    let output: Out = Output::new(3);
    assert!(matches!(output.tx(Datum::binary(Some(false))), Err(DeviceError::NoCommand { .. })));
}

#[test]
fn publisher_is_kept_once_set() {
    let mut input: In = Input::default().init_publisher();
    *input.publisher_mut().unwrap() = 9;
    let input = input.init_publisher();
    assert_eq!(*input.publisher(), Some(9));
}

#[test]
fn setters_and_getters() {
    let mut input: In = Input::new(1).set_kind(IOKind::Flow).set_name(String::from("flow"));
    input.set_id(12);
    input.set_log(4);
    assert_eq!(input.id(), 12);
    assert_eq!(input.kind(), IOKind::Flow);
    assert_eq!(input.direction(), IODirection::In);
    assert_eq!(input.name(), "flow");
    assert!(input.has_log());
    assert_eq!(*input.log(), Some(4));

    let output: Out = Output::new(2);
    assert_eq!(output.direction(), IODirection::Out);
    assert!(!output.has_log());
}

#[test]
fn device_type_reports_wrapped_device() {
    let d: DeviceType<ReadFn, WriteFn, u8, u8> = DeviceType::Output(Output::new(5).set_name("valve"));
    assert!(d.is_output() && !d.is_input());
    assert_eq!(d.name(), "valve");
    assert_eq!(d.id(), 5);
    assert_eq!(d.direction(), IODirection::Out);
}

#[test]
fn build_device_follows_direction() {
    let d: DeviceType<ReadFn, WriteFn, u8, u8> =
        build_device("pump", 4, Some(IOKind::Flow), IODirection::Out, IOCommand::Output(|_| Ok(())));
    assert!(d.is_output());
    assert_eq!(d.name(), "pump");
    assert_eq!(d.kind(), IOKind::Flow);
    let d: DeviceType<ReadFn, WriteFn, u8, u8> =
        build_device("probe", 5, None, IODirection::In, IOCommand::Input(dummy_read));
    assert!(d.is_input());
    assert_eq!(d.kind(), IOKind::Unassigned);
}

#[test]
fn action_builder_rejects_output() {
    let out: DeviceType<ReadFn, WriteFn, u8, u8> = DeviceType::Output(Output::new(1));
    let r = ActionBuilder::<_, u8>::new(out);
    let err = r.err().unwrap();
    assert_eq!(err.kind, ErrorKind::DeviceError);
    assert_eq!(err.message, "Passed device is output. Expected input.");

    let input: DeviceType<ReadFn, WriteFn, u8, u8> = DeviceType::Input(Input::new(1));
    let b = ActionBuilder::<_, u8>::new(input).unwrap();
    assert!(b.output().is_none());
}

#[derive(Clone, Debug, PartialEq)]
struct Handle(bool);

impl DeviceWrapper for Handle {
    fn spec_is_output(&self) -> bool {
        self.0
    }
    fn is_input(&self) -> bool {
        !self.0
    }
    fn is_output(&self) -> bool {
        self.0
    }
}

#[test]
fn action_builder_from_group() {
    let mut group: Group<Handle> = Group::new();
    assert!(group.inputs.add(1, Handle(false)));
    assert!(group.outputs.add(2, Handle(true)));

    let err = ActionBuilder::<Handle, u8>::from_group(&group, 9).err().unwrap();
    assert_eq!(err.kind, ErrorKind::ContainerError);

    let mut b = ActionBuilder::<Handle, u8>::from_group(&group, 1).unwrap();
    assert_eq!(b.input(), &Handle(false));
    assert_eq!(b.attach_output(&group, 1).err().unwrap().kind, ErrorKind::ContainerError);
    assert!(b.output().is_none());
    b.attach_output(&group, 2).unwrap();
    assert_eq!(b.output(), &Some(Handle(true)));
}

#[test]
fn device_text() {
    let input: In = Input::new(3).set_name("probe").set_kind(IOKind::PH);
    assert_eq!(input.text(), "Input Device - { name: probe, id: 3, kind: pH}");
    let output: Out = Output::new(12).set_name("pump");
    assert_eq!(output.text(), "Output Device: - { name: pump, id: 12, kind: Unassigned}");
    assert_eq!(input.metadata().text(), "Device Info { Kind: pH, Direction: Input }");
}

#[test]
fn mock_ph_sensor_reads_constant() {
    let s = MockPhSensor::new(String::from("ph"), 2, ());
    assert_eq!(s.read(), Datum::Float(Some(1.2f32.to_bits())));
    assert_eq!(s.metadata().kind, IOKind::PH);
    assert_eq!(s.metadata().id, 2);
}

#[test]
fn add_publisher_keeps_existing() {
    let input: In = Input::default().add_publisher(3);
    assert_eq!(*input.publisher(), Some(3));
    let input = input.add_publisher(4);
    assert_eq!(*input.publisher(), Some(3));
    let input = input.init_publisher();
    assert_eq!(*input.publisher(), Some(3));
    let fresh: In = Input::default().init_publisher();
    assert_eq!(*fresh.publisher(), Some(0));
}
