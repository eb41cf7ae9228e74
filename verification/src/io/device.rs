//! Common interfaces of input and output devices.
use vstd::prelude::*;
use crate::io::datum::Datum;
use crate::io::direction::IODirection;
use crate::io::kind::IOKind;
use crate::io::metadata::{DeviceMetadata, IdType};

verus! {

/// Getters shared by all device types.
pub trait DeviceGetters {
    /// The device's metadata.
    spec fn spec_metadata(&self) -> DeviceMetadata;

    /// The cached state: `None` until the device was first read or written,
    /// then the last value.
    spec fn spec_state(&self) -> Option<Datum>;

    /// Reference to the device's metadata.
    fn metadata(&self) -> (m: &DeviceMetadata)
        ensures
            *m == self.spec_metadata(),
    ;

    /// The id of the device.
    fn id(&self) -> (r: IdType)
        ensures
            r == self.spec_metadata().id,
    {
        self.metadata().id
    }

    /// The I/O direction of the device.
    fn direction(&self) -> (r: IODirection)
        ensures
            r == self.spec_metadata().direction,
    {
        self.metadata().direction
    }

    /// The kind of the device.
    fn kind(&self) -> (r: IOKind)
        ensures
            r == self.spec_metadata().kind,
    {
        self.metadata().kind
    }

    /// The cached state.
    fn state(&self) -> (s: &Option<Datum>)
        ensures
            *s == self.spec_state(),
    ;
}

/// Setters shared by all device types; `L` is the handle of a device log.
pub trait DeviceSetters<L>: DeviceGetters {
    /// The device's log handle, if one is set.
    spec fn spec_log(&self) -> Option<L>;

    /// Set the id; the name, kind, direction, state and log are kept.
    fn set_id(&mut self, id: IdType)
        ensures
            final(self).spec_metadata().id == id,
            final(self).spec_metadata().name == old(self).spec_metadata().name,
            final(self).spec_metadata().kind == old(self).spec_metadata().kind,
            final(self).spec_metadata().direction == old(self).spec_metadata().direction,
            final(self).spec_state() == old(self).spec_state(),
            final(self).spec_log() == old(self).spec_log(),
    ;

    /// Set the log handle; metadata and state are kept.
    fn set_log(&mut self, log: L)
        ensures
            final(self).spec_log() == Some(log),
            final(self).spec_metadata() == old(self).spec_metadata(),
            final(self).spec_state() == old(self).spec_state(),
    ;
}

/// Devices that report whether they are inputs or outputs.
pub trait DeviceWrapper {
    /// Whether the wrapped device is an output.
    spec fn spec_is_output(&self) -> bool;

    /// `true` for an input device.
    fn is_input(&self) -> (b: bool)
        ensures
            b == !self.spec_is_output(),
    ;

    /// `true` for an output device.
    fn is_output(&self) -> (b: bool)
        ensures
            b == self.spec_is_output(),
    ;
}

/// Devices that report their name, id, kind and direction.
pub trait DeviceTraits {
    /// The name of the device.
    fn name(&self) -> String;

    /// The id of the device.
    fn id(&self) -> IdType;

    /// The kind of the device.
    fn kind(&self) -> IOKind;

    /// The direction of the device.
    fn direction(&self) -> IODirection;
}

} // verus!
