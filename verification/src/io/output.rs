//! Generic external output device.
use vstd::prelude::*;
use crate::action::routine::Routine;
use crate::errors::{DeviceError, Error};
use crate::io::command::IOCommand;
use crate::io::datum::Datum;
use crate::io::device::{DeviceGetters, DeviceSetters};
use crate::io::direction::IODirection;
use crate::io::event::{IOEvent, utc_now_micros, CLOCK_MAX_MICROS};
use crate::io::kind::{IOKind, kind_label};
use crate::io::text::{decimal, unsigned_text};
use crate::io::metadata::{DeviceMetadata, IdType, IntoText};

verus! {

/// Generic implementation of any external output device.
///
/// `R` and `W` are the read and write code a command may hold and `L` the
/// handle of the device log.
pub struct Output<R, W, L> {
    metadata: DeviceMetadata,
    state: Option<Datum>,
    log: Option<L>,
    command: Option<IOCommand<R, W>>,
}

impl<R, W, L> Output<R, W, L> {
    /// The low-level command, if one is set.
    pub closed spec fn spec_command(&self) -> Option<IOCommand<R, W>> {
        self.command
    }

    /// An output device with the given id: empty name, unassigned kind, no
    /// command, log or cached state.
    pub fn new(id: IdType) -> (d: Self)
        ensures
            d.spec_metadata().name@ == Seq::<char>::empty(),
            d.spec_metadata().id == id,
            d.spec_metadata().kind == IOKind::Unassigned,
            d.spec_metadata().direction == IODirection::Out,
            d.spec_command() is None,
            d.spec_log() is None,
            d.spec_state() is None,
    {
        Output { metadata: DeviceMetadata::new(id, IODirection::Out), state: None, log: None, command: None }
    }

    /// Builder method setting the command, which must write an output.
    pub fn set_command(self, command: IOCommand<R, W>) -> (d: Self)
        requires
            command is Output,
        ensures
            d.spec_command() == Some(command),
            d.spec_metadata() == self.spec_metadata(),
            d.spec_log() == self.spec_log(),
            d.spec_state() == self.spec_state(),
    {
        let mut d = self;
        d.command = Some(command);
        d
    }

    /// Builder method setting the kind; everything else is kept.
    pub fn set_kind(self, kind: IOKind) -> (d: Self)
        ensures
            d.spec_metadata().kind == kind,
            d.spec_metadata().name == self.spec_metadata().name,
            d.spec_metadata().id == self.spec_metadata().id,
            d.spec_metadata().direction == self.spec_metadata().direction,
            d.spec_command() == self.spec_command(),
            d.spec_log() == self.spec_log(),
            d.spec_state() == self.spec_state(),
    {
        let mut d = self;
        d.metadata.kind = kind;
        d
    }

    /// Builder method setting the name; everything else is kept.
    pub fn set_name<N: IntoText>(self, name: N) -> (d: Self)
        ensures
            d.spec_metadata().name@ == name.text_view(),
            d.spec_metadata().id == self.spec_metadata().id,
            d.spec_metadata().kind == self.spec_metadata().kind,
            d.spec_metadata().direction == self.spec_metadata().direction,
            d.spec_command() == self.spec_command(),
            d.spec_log() == self.spec_log(),
            d.spec_state() == self.spec_state(),
    {
        let mut d = self;
        d.metadata.name = name.into_text();
        d
    }

    /// Name of the device.
    pub fn name(&self) -> (n: &String)
        ensures
            *n == self.spec_metadata().name,
    {
        &self.metadata.name
    }

    /// The low-level command, if one is set.
    pub fn command(&self) -> (c: &Option<IOCommand<R, W>>)
        ensures
            *c == self.spec_command(),
    {
        &self.command
    }

    /// The text the device is shown as: its name, id and kind.
    pub fn text(&self) -> (s: String)
        ensures
            s@ == "Output Device: - { name: "@ + self.spec_metadata().name@ + ", id: "@ + decimal(
                self.spec_metadata().id as nat,
            ) + ", kind: "@ + kind_label(self.spec_metadata().kind) + "}"@,
    {
        proof {
            reveal_strlit("Output Device: - { name: ");
            reveal_strlit(", id: ");
            reveal_strlit(", kind: ");
            reveal_strlit("}");
        }
        let mut s = String::from_str("Output Device: - { name: ");
        s.append(self.metadata.name.as_str());
        s.append(", id: ");
        let id = unsigned_text(self.metadata.id as u64);
        s.append(id.as_str());
        s.append(", kind: ");
        s.append(self.metadata.kind.label());
        s.append("}");
        s
    }

    /// The log handle, if one is set.
    pub fn log(&self) -> (l: &Option<L>)
        ensures
            *l == self.spec_log(),
    {
        &self.log
    }

    /// `true` if a log is set.
    pub fn has_log(&self) -> (b: bool)
        ensures
            b == self.spec_log() is Some,
    {
        self.log.is_some()
    }

    /// Whether the device's command, if any, can be run with `value`: an
    /// output command that accepts it.
    pub open spec fn command_ready(&self, value: Datum) -> bool
        where
            R: Fn() -> Datum,
            W: Fn(Datum) -> Result<(), ()>,
    {
        self.spec_command() matches Some(c) ==> (c matches IOCommand::Output(f) && call_requires(
            f,
            (value,),
        ))
    }

    /// What sending `value` gives: without a command, `NoCommand` carrying
    /// the metadata; otherwise an event holding the value, once the output
    /// code has been run with it.
    pub open spec fn tx_outcome(&self, value: Datum, r: Result<IOEvent, DeviceError>) -> bool
        where
            R: Fn() -> Datum,
            W: Fn(Datum) -> Result<(), ()>,
    {
        match self.spec_command() {
            None => r matches Err(DeviceError::NoCommand { metadata }) && metadata
                == self.spec_metadata(),
            Some(IOCommand::Output(f)) => r matches Ok(e) && e.value == value && exists|
                res: Result<(), ()>,
            | call_ensures(f, (value,), res),
            Some(IOCommand::Input(_)) => r matches Ok(e) && e.value == value,
        }
    }

    /// Send `value` through the low-level command.
    pub fn tx(&self, value: Datum) -> (r: Result<IOEvent, DeviceError>)
        where
            R: Fn() -> Datum,
            W: Fn(Datum) -> Result<(), ()>,
        requires
            self.command_ready(value),
        ensures
            self.tx_outcome(value, r),
    {
        match &self.command {
            Some(command) => {
                match command.execute(Some(value)) {
                    Ok(_) => Ok(IOEvent::new(value)),
                    Err(e) => Err(e),
                }
            },
            None => Err(DeviceError::NoCommand { metadata: self.metadata.clone() }),
        }
    }

    /// Write `value` to the device: the event holds the value and the
    /// cached state becomes the value. A command is required; the caller
    /// records the event in the log.
    pub fn write(&mut self, value: Datum) -> (r: Result<IOEvent, Error>)
        where
            R: Fn() -> Datum,
            W: Fn(Datum) -> Result<(), ()>,
        requires
            old(self).spec_command() is Some,
            old(self).command_ready(value),
        ensures
            r matches Ok(e) && e.value == value,
            old(self).spec_command() matches Some(IOCommand::Output(f)) ==> exists|
                res: Result<(), ()>,
            | call_ensures(f, (value,), res),
            final(self).spec_state() == Some(value),
            final(self).spec_metadata() == old(self).spec_metadata(),
            final(self).spec_command() == old(self).spec_command(),
            final(self).spec_log() == old(self).spec_log(),
    {
        let event = match self.tx(value) {
            Ok(e) => e,
            Err(_) => IOEvent::new(value),
        };
        self.state = Some(event.value);
        Ok(event)
    }

    /// A routine that writes `value` through this device's command
    /// `duration` microseconds after `now`, recorded in this device's log.
    pub fn create_routine_at(&self, value: Datum, duration: i64, now: i64) -> (r: Routine<R, W, L>)
        where R: Copy, W: Copy, L: Clone
        requires
            self.spec_log() is Some,
            self.spec_command() matches Some(c) && c is Output,
            i64::MIN <= now + duration <= i64::MAX,
        ensures
            r.scheduled_at() == now + duration,
            r.spec_value() == value,
            r.spec_command() == self.spec_command()->0,
            r.spec_log() matches Some(l) && cloned(self.spec_log()->0, l),
    {
        let timestamp = now + duration;
        let log = self.log.clone();
        let command = self.command.unwrap();
        Routine::new(timestamp, value, log, command)
    }

    /// A routine that writes `value` through this device's command
    /// `duration` microseconds from the current time, recorded in this
    /// device's log; `None` when the scheduled time is not representable.
    pub fn create_routine(&self, value: Datum, duration: i64) -> (r: Option<Routine<R, W, L>>)
        where R: Copy, W: Copy, L: Clone
        requires
            self.spec_log() is Some,
            self.spec_command() matches Some(c) && c is Output,
        ensures
            r matches Some(routine) ==> routine.spec_value() == value && routine.spec_command()
                == self.spec_command()->0 && (routine.spec_log() matches Some(l) && cloned(
                self.spec_log()->0,
                l,
            )),
            r matches Some(routine) ==> 0 <= routine.scheduled_at() - duration <= CLOCK_MAX_MICROS,
            duration <= i64::MAX - CLOCK_MAX_MICROS ==> r is Some,
    {
        let now = utc_now_micros();
        let timestamp = now.checked_add(duration);
        match timestamp {
            Some(_) => Some(self.create_routine_at(value, duration, now)),
            None => None,
        }
    }
}

impl<R, W, L> DeviceGetters for Output<R, W, L> {
    closed spec fn spec_metadata(&self) -> DeviceMetadata {
        self.metadata
    }

    closed spec fn spec_state(&self) -> Option<Datum> {
        self.state
    }

    fn metadata(&self) -> (m: &DeviceMetadata) {
        &self.metadata
    }

    fn state(&self) -> (s: &Option<Datum>) {
        &self.state
    }
}

impl<R, W, L> DeviceSetters<L> for Output<R, W, L> {
    closed spec fn spec_log(&self) -> Option<L> {
        self.log
    }

    fn set_id(&mut self, id: IdType) {
        self.metadata.id = id;
    }

    fn set_log(&mut self, log: L) {
        self.log = Some(log);
    }
}

impl<R, W, L> Default for Output<R, W, L> {
    fn default() -> (d: Self)
        ensures
            d.spec_metadata().name@ == Seq::<char>::empty(),
            d.spec_metadata().id == 0,
            d.spec_metadata().kind == IOKind::Unassigned,
            d.spec_metadata().direction == IODirection::Out,
            d.spec_command() is None,
            d.spec_log() is None,
            d.spec_state() is None,
    {
        Self::new(0)
    }
}

} // verus!
