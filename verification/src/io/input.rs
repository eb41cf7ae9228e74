//! Generic external input device.
use vstd::prelude::*;
use crate::errors::DeviceError;
use crate::io::command::IOCommand;
use crate::io::datum::Datum;
use crate::io::device::{DeviceGetters, DeviceSetters};
use crate::io::direction::IODirection;
use crate::io::event::IOEvent;
use crate::io::kind::{IOKind, kind_label};
use crate::io::text::{decimal, unsigned_text};
use crate::io::metadata::{DeviceMetadata, IdType, IntoText};

verus! {

/// Generic implementation of any external input device.
///
/// `R` and `W` are the read and write code a command may hold, `L` the handle
/// of the device log and `P` the publisher that hands readings to actions.
pub struct Input<R, W, L, P> {
    metadata: DeviceMetadata,
    log: Option<L>,
    publisher: Option<P>,
    command: Option<IOCommand<R, W>>,
    state: Option<Datum>,
}

impl<R, W, L, P> Input<R, W, L, P> {
    /// The low-level command, if one is set.
    pub closed spec fn spec_command(&self) -> Option<IOCommand<R, W>> {
        self.command
    }

    /// The publisher, if one is set.
    pub closed spec fn spec_publisher(&self) -> Option<P> {
        self.publisher
    }

    /// An input device with the given id: empty name, unassigned kind, no
    /// command, log, publisher or cached state.
    pub fn new(id: IdType) -> (d: Self)
        ensures
            d.spec_metadata().name@ == Seq::<char>::empty(),
            d.spec_metadata().id == id,
            d.spec_metadata().kind == IOKind::Unassigned,
            d.spec_metadata().direction == IODirection::In,
            d.spec_command() is None,
            d.spec_log() is None,
            d.spec_publisher() is None,
            d.spec_state() is None,
    {
        Input {
            metadata: DeviceMetadata::new(id, IODirection::In),
            log: None,
            publisher: None,
            command: None,
            state: None,
        }
    }

    /// Builder method setting the command, which must read an input.
    pub fn set_command(self, command: IOCommand<R, W>) -> (d: Self)
        requires
            command is Input,
        ensures
            d.spec_command() == Some(command),
            d.spec_metadata() == self.spec_metadata(),
            d.spec_log() == self.spec_log(),
            d.spec_publisher() == self.spec_publisher(),
            d.spec_state() == self.spec_state(),
    {
        let mut d = self;
        d.command = Some(command);
        d
    }

    /// Builder method setting the kind; everything else is kept.
    pub fn set_kind(self, kind: IOKind) -> (d: Self)
        ensures
            d.spec_metadata().kind == kind,
            d.spec_metadata().name == self.spec_metadata().name,
            d.spec_metadata().id == self.spec_metadata().id,
            d.spec_metadata().direction == self.spec_metadata().direction,
            d.spec_command() == self.spec_command(),
            d.spec_log() == self.spec_log(),
            d.spec_publisher() == self.spec_publisher(),
            d.spec_state() == self.spec_state(),
    {
        let mut d = self;
        d.metadata.kind = kind;
        d
    }

    /// Builder method setting the name; everything else is kept.
    pub fn set_name<N: IntoText>(self, name: N) -> (d: Self)
        ensures
            d.spec_metadata().name@ == name.text_view(),
            d.spec_metadata().id == self.spec_metadata().id,
            d.spec_metadata().kind == self.spec_metadata().kind,
            d.spec_metadata().direction == self.spec_metadata().direction,
            d.spec_command() == self.spec_command(),
            d.spec_log() == self.spec_log(),
            d.spec_publisher() == self.spec_publisher(),
            d.spec_state() == self.spec_state(),
    {
        let mut d = self;
        d.metadata.name = name.into_text();
        d
    }

    /// Name of the device.
    pub fn name(&self) -> (n: &String)
        ensures
            *n == self.spec_metadata().name,
    {
        &self.metadata.name
    }

    /// The low-level command, if one is set.
    pub fn command(&self) -> (c: &Option<IOCommand<R, W>>)
        ensures
            *c == self.spec_command(),
    {
        &self.command
    }

    /// The text the device is shown as: its name, id and kind.
    pub fn text(&self) -> (s: String)
        ensures
            s@ == "Input Device - { name: "@ + self.spec_metadata().name@ + ", id: "@ + decimal(
                self.spec_metadata().id as nat,
            ) + ", kind: "@ + kind_label(self.spec_metadata().kind) + "}"@,
    {
        proof {
            reveal_strlit("Input Device - { name: ");
            reveal_strlit(", id: ");
            reveal_strlit(", kind: ");
            reveal_strlit("}");
        }
        let mut s = String::from_str("Input Device - { name: ");
        s.append(self.metadata.name.as_str());
        s.append(", id: ");
        let id = unsigned_text(self.metadata.id as u64);
        s.append(id.as_str());
        s.append(", kind: ");
        s.append(self.metadata.kind.label());
        s.append("}");
        s
    }

    /// The log handle, if one is set.
    pub fn log(&self) -> (l: &Option<L>)
        ensures
            *l == self.spec_log(),
    {
        &self.log
    }

    /// `true` if a log is set.
    pub fn has_log(&self) -> (b: bool)
        ensures
            b == self.spec_log() is Some,
    {
        self.log.is_some()
    }

    /// Whether the device's command, if any, can be run: an input command
    /// that accepts being called.
    pub open spec fn command_ready(&self) -> bool
        where
            R: Fn() -> Datum,
            W: Fn(Datum) -> Result<(), ()>,
    {
        self.spec_command() matches Some(c) ==> (c matches IOCommand::Input(f) && call_requires(
            f,
            (),
        ))
    }

    /// What reading the device gives: without a command, `NoCommand`
    /// carrying the metadata; otherwise an event holding what the command
    /// returned.
    pub open spec fn rx_outcome(&self, r: Result<IOEvent, DeviceError>) -> bool
        where
            R: Fn() -> Datum,
            W: Fn(Datum) -> Result<(), ()>,
    {
        match self.spec_command() {
            None => r matches Err(DeviceError::NoCommand { metadata }) && metadata
                == self.spec_metadata(),
            Some(IOCommand::Input(f)) => r matches Ok(e) && call_ensures(f, (), e.value),
            Some(IOCommand::Output(_)) => r matches Err(DeviceError::ValueExpected { metadata })
                && metadata == self.spec_metadata(),
        }
    }

    /// Run the low-level command to read the device.
    ///
    /// Without a command the device has nothing to read; a command that
    /// returns no value is an error; otherwise an event holding the value.
    pub fn rx(&self) -> (r: Result<IOEvent, DeviceError>)
        where
            R: Fn() -> Datum,
            W: Fn(Datum) -> Result<(), ()>,
        requires
            self.command_ready(),
        ensures
            self.rx_outcome(r),
    {
        match &self.command {
            Some(command) => {
                let result = command.execute(None);
                match result {
                    Ok(Some(inner)) => Ok(IOEvent::new(inner)),
                    Ok(None) => Err(DeviceError::ValueExpected { metadata: self.metadata.clone() }),
                    Err(e) => Err(e),
                }
            },
            None => Err(DeviceError::NoCommand { metadata: self.metadata.clone() }),
        }
    }

    /// Read the device: on success the cached state becomes the value read;
    /// on error nothing changes. The event is then handed to the publisher
    /// and the log by the caller.
    pub fn read(&mut self) -> (r: Result<IOEvent, DeviceError>)
        where
            R: Fn() -> Datum,
            W: Fn(Datum) -> Result<(), ()>,
        requires
            old(self).command_ready(),
        ensures
            old(self).rx_outcome(r),
            r matches Ok(e) ==> final(self).spec_state() == Some(e.value),
            r is Err ==> final(self).spec_state() == old(self).spec_state(),
            final(self).spec_metadata() == old(self).spec_metadata(),
            final(self).spec_command() == old(self).spec_command(),
            final(self).spec_log() == old(self).spec_log(),
            final(self).spec_publisher() == old(self).spec_publisher(),
    {
        let event = self.rx();
        if let Ok(e) = &event {
            self.state = Some(e.value);
        }
        event
    }

    /// Create the publisher if there is none; an existing one is kept.
    pub fn init_publisher(self) -> (d: Self)
        where P: Default
        ensures
            publisher_initialized(&self, &d),
            self.spec_publisher() is None ==> call_ensures(P::default, (), d.spec_publisher()->0),
    {
        let mut d = self;
        if d.publisher.is_none() {
            d.publisher = Some(P::default());
        }
        d
    }

    /// Associate `publisher` unless a publisher is already set, in which
    /// case the existing one is kept; everything else is unchanged.
    pub fn add_publisher(self, publisher: P) -> (d: Self)
        ensures
            self.spec_publisher() is None ==> d.spec_publisher() == Some(publisher),
            publisher_initialized(&self, &d),
    {
        let mut d = self;
        if d.publisher.is_none() {
            d.publisher = Some(publisher);
        }
        d
    }

    /// The publisher, if one is set.
    pub fn publisher(&self) -> (p: &Option<P>)
        ensures
            *p == self.spec_publisher(),
    {
        &self.publisher
    }

    /// Mutable access to the publisher, if one is set.
    pub fn publisher_mut(&mut self) -> (p: Option<&mut P>)
        ensures
            p is Some <==> old(self).spec_publisher() is Some,
            p matches Some(r) ==> *r == old(self).spec_publisher()->0 && final(self).spec_publisher()
                == Some(*final(r)),
            p is None ==> final(self).spec_publisher() is None,
            final(self).spec_metadata() == old(self).spec_metadata(),
            final(self).spec_command() == old(self).spec_command(),
            final(self).spec_log() == old(self).spec_log(),
            final(self).spec_state() == old(self).spec_state(),
    {
        self.publisher.as_mut()
    }

    /// `true` if a publisher is set.
    pub fn has_publisher(&self) -> (b: bool)
        ensures
            b == self.spec_publisher() is Some,
    {
        match self.publisher {
            Some(_) => true,
            None => false,
        }
    }
}

/// `after` is `before` with a publisher: the one `before` had, if any, and
/// everything else unchanged.
pub open spec fn publisher_initialized<R, W, L, P>(
    before: &Input<R, W, L, P>,
    after: &Input<R, W, L, P>,
) -> bool {
    &&& after.spec_publisher() is Some
    &&& before.spec_publisher() is Some ==> after.spec_publisher() == before.spec_publisher()
    &&& after.spec_metadata() == before.spec_metadata()
    &&& after.spec_command() == before.spec_command()
    &&& after.spec_log() == before.spec_log()
    &&& after.spec_state() == before.spec_state()
}

/// Initialising the publisher a second time changes nothing.
pub proof fn law_init_publisher_idempotent<R, W, L, P>(
    a: &Input<R, W, L, P>,
    b: &Input<R, W, L, P>,
    c: &Input<R, W, L, P>,
)
    requires
        publisher_initialized(a, b),
        publisher_initialized(b, c),
    ensures
        c.spec_publisher() == b.spec_publisher(),
        c.spec_metadata() == b.spec_metadata(),
        c.spec_command() == b.spec_command(),
        c.spec_log() == b.spec_log(),
        c.spec_state() == b.spec_state(),
{
}

impl<R, W, L, P> DeviceGetters for Input<R, W, L, P> {
    closed spec fn spec_metadata(&self) -> DeviceMetadata {
        self.metadata
    }

    closed spec fn spec_state(&self) -> Option<Datum> {
        self.state
    }

    fn metadata(&self) -> (m: &DeviceMetadata) {
        &self.metadata
    }

    fn state(&self) -> (s: &Option<Datum>) {
        &self.state
    }
}

impl<R, W, L, P> DeviceSetters<L> for Input<R, W, L, P> {
    closed spec fn spec_log(&self) -> Option<L> {
        self.log
    }

    fn set_id(&mut self, id: IdType) {
        self.metadata.id = id;
    }

    fn set_log(&mut self, log: L) {
        self.log = Some(log);
    }
}

impl<R, W, L, P> Default for Input<R, W, L, P> {
    fn default() -> (d: Self)
        ensures
            d.spec_metadata().name@ == Seq::<char>::empty(),
            d.spec_metadata().id == 0,
            d.spec_metadata().kind == IOKind::Unassigned,
            d.spec_metadata().direction == IODirection::In,
            d.spec_command() is None,
            d.spec_log() is None,
            d.spec_publisher() is None,
            d.spec_state() is None,
    {
        Self::new(0)
    }
}

} // verus!
