use sensd::action::notifier::{Direction, NamedRoutine, ThresholdNotifier};
use sensd::action::subscribers::{PIDMonitor, ThresholdAction};
use sensd::action::threshold::Threshold;
use sensd::action::trigger::{Comparison, Trigger};
use sensd::device::DeviceMetadata as SensorMetadata;
use sensd::errors::ErrorKind;
use sensd::io::datum::Datum;
use sensd::io::event::IOEvent;
use sensd::io::raw::RawValue;
use sensd::io::IOKind;

#[test]
fn threshold_new_name_parameter() {
    let name = "test name";
    let _: Threshold<u8> = Threshold::new(name, RawValue::default(), Trigger::GT);

    let name = String::from(name);
    let _: Threshold<u8> = Threshold::new(name, RawValue::default(), Trigger::GT);
}

#[test]
fn with_output_name_parameter() {
    let name = "test name";
    let t = Threshold::with_output(name, RawValue::default(), Trigger::GT, 1u8);
    assert!(t.output().is_some());

    let name = String::from(name);
    let t = Threshold::with_output(name, RawValue::default(), Trigger::GT, 1u8);
    assert!(t.output().is_some());
}

#[test]
fn threshold_evaluate() {
    let t: Threshold<u8> = Threshold::new("level", RawValue::Int(80), Trigger::GT).set_output(0);
    assert_eq!(t.threshold(), RawValue::Int(80));
    assert_eq!(t.trigger(), Trigger::GT);
    assert_eq!(t.name(), "level");
    let high = IOEvent::with_timestamp(0, Datum::int32(Some(81)));
    let low = IOEvent::with_timestamp(0, Datum::int32(Some(80)));
    assert_eq!(t.evaluate(&high), Datum::binary(Some(true)));
    assert_eq!(t.evaluate(&low), Datum::binary(Some(false)));
    let missing = IOEvent::with_timestamp(0, Datum::int32(None));
    assert_eq!(t.evaluate(&missing), Datum::binary(Some(false)));
}

#[test]
fn threshold_action_evaluate_and_write() {
    let a: ThresholdAction<u8, u8> = ThresholdAction::new(String::from("fill"), RawValue::PosInt(25), Comparison::LT, Some(1));
    assert_eq!(a.threshold(), RawValue::PosInt(25));
    assert_eq!(a.name(), "fill");
    let r = a.evaluate(RawValue::PosInt(10), true);
    assert!(r.notify);
    assert_eq!(r.write, Some(RawValue::Binary(true)));
    let r = a.evaluate(RawValue::PosInt(30), true);
    assert!(!r.notify);
    assert_eq!(r.write, Some(RawValue::Binary(false)));
    let e = a.write(RawValue::Binary(true), false).unwrap_err();
    assert_eq!(e.kind, ErrorKind::DeviceError);
    assert_eq!(e.message, "Associated output device is misconfigured.");

    let b: ThresholdAction<u8, u8> = ThresholdAction::new(String::from("x"), RawValue::Int(0), Comparison::GTE, None);
    let r = b.evaluate(RawValue::Int(0), false);
    assert!(r.notify);
    assert_eq!(r.write, None);
    assert_eq!(b.write(RawValue::Binary(true), true).unwrap_err().message, "ThresholdAction has no device associated as output.");
}

#[test]
fn threshold_action_publisher_is_set_once() {
    let mut a: ThresholdAction<u8, u8> = ThresholdAction::new(String::from("p"), RawValue::Int(1), Comparison::GT, None);
    assert!(a.orphan());
    a.add_publisher(7);
    a.add_publisher(8);
    assert!(!a.orphan());
    assert_eq!(*a.publisher(), Some(7));

    let mut m: PIDMonitor<u8, u8> = PIDMonitor::new(String::from("pid"), RawValue::Int(3), 0);
    m.add_publisher(4);
    m.add_publisher(5);
    assert_eq!(*m.publisher(), Some(4));
    assert_eq!(m.name(), "pid");
    assert_eq!(m.threshold(), RawValue::Int(3));
}

#[test]
fn threshold_notifier() {
    let above: ThresholdNotifier<()> = ThresholdNotifier::new(String::from("hot"), RawValue::Int(30), (), Direction::Above);
    assert_eq!(above.name(), "hot");
    assert!(above.exceeded(RawValue::Int(30)));
    assert!(!above.exceeded(RawValue::Int(29)));
    assert_eq!(above.evaluate(RawValue::Int(31)).unwrap(), "Value exceeded");
    assert!(above.evaluate(RawValue::Int(2)).is_none());

    let below: ThresholdNotifier<()> = ThresholdNotifier::new(String::from("cold"), RawValue::Int(5), (), Direction::Below);
    assert!(below.exceeded(RawValue::Int(5)));
    assert!(below.exceeded(RawValue::Int(-5)));
    assert!(!below.exceeded(RawValue::Int(6)));
    assert_eq!(below.threshold(), RawValue::Int(5));
    assert_eq!(below.direction(), Direction::Below);
}

#[test]
fn sensor_metadata_keeps_values() {
    let m = SensorMetadata::new(String::from("PH Sensor"), 0, 1, IOKind::PH, 0u32, 14u32, 1u32);
    assert_eq!(m.name, "PH Sensor");
    assert_eq!(m.sensor_id, 1);
    assert_eq!(m.kind, IOKind::PH);
    assert_eq!(*m.min_value(), 0);
    assert_eq!(*m.max_value(), 14);
    assert_eq!(*m.resolution(), 1);
}
