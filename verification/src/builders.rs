//! Construction of devices and of the actions attached to them.
use vstd::prelude::*;
use crate::container::{Collection, Container};
use crate::errors::{Error, ErrorKind};
use crate::io::command::{IOCommand, command_direction};
use crate::io::device::{DeviceGetters, DeviceSetters, DeviceWrapper};
use crate::io::device_type::{DeviceType, device_metadata};
use crate::io::direction::IODirection;
use crate::io::input::Input;
use crate::io::kind::IOKind;
use crate::io::metadata::IdType;
use crate::io::output::Output;

verus! {

broadcast use vstd::std_specs::hash::group_hash_axioms;

/// The command held by a device, if any.
pub open spec fn device_command<R, W, L, P>(d: &DeviceType<R, W, L, P>) -> Option<IOCommand<R, W>> {
    match d {
        DeviceType::Input(inner) => inner.spec_command(),
        DeviceType::Output(inner) => inner.spec_command(),
    }
}

/// The log handle held by a device, if any.
pub open spec fn device_log<R, W, L, P>(d: &DeviceType<R, W, L, P>) -> Option<L> {
    match d {
        DeviceType::Input(inner) => inner.spec_log(),
        DeviceType::Output(inner) => inner.spec_log(),
    }
}

/// Build the device that a device log is kept for: an output or an input as
/// `direction` says, with the given name, id and kind (unassigned when none
/// is given) and with `command` set; no log and no state yet.
///
/// The command must serve the same direction as the device.
pub fn build_device<R, W, L, P>(
    name: &str,
    id: IdType,
    kind: Option<IOKind>,
    direction: IODirection,
    command: IOCommand<R, W>,
) -> (d: DeviceType<R, W, L, P>)
    requires
        command_direction(command) == direction,
    ensures
        device_metadata(&d).name@ == name@,
        device_metadata(&d).id == id,
        device_metadata(&d).kind == (match kind {
            Some(k) => k,
            None => IOKind::Unassigned,
        }),
        device_metadata(&d).direction == direction,
        d.spec_is_output() == (direction == IODirection::Out),
        device_command(&d) == Some(command),
        device_log(&d) is None,
        (match d {
            DeviceType::Input(inner) => inner.spec_state() is None,
            DeviceType::Output(inner) => inner.spec_state() is None,
        }),
{
    let k = match kind {
        Some(k) => k,
        None => IOKind::Unassigned,
    };
    match direction {
        IODirection::Out => {
            let output = Output::new(id).set_name(name).set_kind(k).set_command(command);
            DeviceType::Output(output)
        },
        IODirection::In => {
            let input = Input::new(id).set_name(name).set_kind(k).set_command(command);
            DeviceType::Input(input)
        },
    }
}

/// The devices of a setup, kept apart by direction and found by id.
pub struct Group<D> {
    pub inputs: Container<D, IdType>,
    pub outputs: Container<D, IdType>,
}

impl<D> Group<D> {
    /// A group without devices.
    pub fn new() -> (g: Self)
        ensures
            g.inputs@ == Map::<IdType, D>::empty(),
            g.outputs@ == Map::<IdType, D>::empty(),
    {
        Group { inputs: Container::new(), outputs: Container::new() }
    }
}

/// Message of the error returned for an id that is not in the group.
pub open spec fn missing_id_message() -> Seq<char> {
    "Incorrect id passed to `ActionBuilder::extract_device()`"@
}

/// Message of the error returned when the device handed to the builder is
/// an output.
pub open spec fn output_passed_message() -> Seq<char> {
    "Passed device is output. Expected input."@
}

/// Builds the actions of an input device and attaches outputs to them.
///
/// `D` is the handle of a shared device and `P` the publisher built for the
/// input.
pub struct ActionBuilder<D, P> {
    input: D,
    output: Option<D>,
    publisher: P,
}

impl<D: DeviceWrapper, P> ActionBuilder<D, P> {
    /// The input device.
    pub closed spec fn spec_input(&self) -> D {
        self.input
    }

    /// The attached output device, if any.
    pub closed spec fn spec_output(&self) -> Option<D> {
        self.output
    }

    /// The publisher.
    pub closed spec fn spec_publisher(&self) -> P {
        self.publisher
    }

    /// Start building actions for `input` with a new publisher; an error of
    /// kind `DeviceError` if the device is an output.
    pub fn new(input: D) -> (r: Result<Self, Error>)
        where P: Default
        ensures
            r is Err <==> input.spec_is_output(),
            r matches Err(e) ==> e.kind == ErrorKind::DeviceError && e.message@
                == output_passed_message(),
            r matches Ok(b) ==> b.spec_input() == input && b.spec_output() is None && call_ensures(
                P::default,
                (),
                b.spec_publisher(),
            ),
    {
        if input.is_output() {
            return Err(Error::new(ErrorKind::DeviceError, "Passed device is output. Expected input."));
        }
        Ok(ActionBuilder { input, output: None, publisher: P::default() })
    }

    /// The device stored under `id`: inputs are taken from the group's
    /// inputs and outputs from its outputs; an error of kind `ContainerError`
    /// if there is no such device.
    fn extract_device<'a>(group: &'a Group<D>, direction: IODirection, id: IdType) -> (r: Result<
        &'a D,
        Error,
    >)
        ensures
            ({
                let store = if direction == IODirection::In {
                    group.inputs@
                } else {
                    group.outputs@
                };
                &&& r is Ok <==> store.contains_key(id)
                &&& r matches Ok(d) ==> *d == store[id]
                &&& r matches Err(e) ==> e.kind == ErrorKind::ContainerError && e.message@
                    == missing_id_message()
            }),
    {
        let result = match direction {
            IODirection::In => group.inputs.get(id),
            IODirection::Out => group.outputs.get(id),
        };
        match result {
            Some(device) => Ok(device),
            None => Err(
                Error::new(
                    ErrorKind::ContainerError,
                    "Incorrect id passed to `ActionBuilder::extract_device()`",
                ),
            ),
        }
    }

    /// Start building actions for the input stored under `id` in `group`.
    ///
    /// An error of kind `ContainerError` if no input has that id; otherwise
    /// what [`ActionBuilder::new`] gives for a clone of the stored handle.
    pub fn from_group(group: &Group<D>, id: IdType) -> (r: Result<Self, Error>)
        where D: Clone, P: Default
        ensures
            !group.inputs@.contains_key(id) ==> (r matches Err(e) && e.kind
                == ErrorKind::ContainerError && e.message@ == missing_id_message()),
            r matches Ok(b) ==> group.inputs@.contains_key(id) && cloned(
                group.inputs@[id],
                b.spec_input(),
            ) && !b.spec_input().spec_is_output() && b.spec_output() is None,
            r matches Err(e) ==> (e.kind == ErrorKind::ContainerError && !group.inputs@.contains_key(
                id,
            )) || (e.kind == ErrorKind::DeviceError && e.message@ == output_passed_message()),
            group.inputs@.contains_key(id) ==> exists|c: D|
                {
                    &&& #[trigger] cloned(group.inputs@[id], c)
                    &&& r is Ok <==> !c.spec_is_output()
                    &&& r matches Ok(b) ==> b.spec_input() == c && call_ensures(
                        P::default,
                        (),
                        b.spec_publisher(),
                    )
                },
    {
        let input = Self::extract_device(group, IODirection::In, id)?;
        let c = input.clone();
        let r = Self::new(c);
        assert(cloned(group.inputs@[id], c));
        r
    }

    /// Attach the output stored under `id` in `group`; an error of kind
    /// `ContainerError`, with nothing changed, if no output has that id.
    pub fn attach_output(&mut self, group: &Group<D>, id: IdType) -> (r: Result<(), Error>)
        where D: Clone
        ensures
            r is Ok <==> group.outputs@.contains_key(id),
            r matches Err(e) ==> e.kind == ErrorKind::ContainerError && e.message@
                == missing_id_message(),
            r is Ok ==> (final(self).spec_output() matches Some(o) && cloned(group.outputs@[id], o)),
            r is Err ==> final(self).spec_output() == old(self).spec_output(),
            final(self).spec_input() == old(self).spec_input(),
            final(self).spec_publisher() == old(self).spec_publisher(),
    {
        let output = Self::extract_device(group, IODirection::Out, id)?;
        self.output = Some(output.clone());
        Ok(())
    }

    /// The input device.
    pub fn input(&self) -> (d: &D)
        ensures
            *d == self.spec_input(),
    {
        &self.input
    }

    /// The attached output device, if any.
    pub fn output(&self) -> (d: &Option<D>)
        ensures
            *d == self.spec_output(),
    {
        &self.output
    }

    /// The publisher.
    pub fn publisher(&self) -> (p: &P)
        ensures
            *p == self.spec_publisher(),
    {
        &self.publisher
    }
}

} // verus!
