//! A device that is either an input or an output.
use vstd::prelude::*;
use crate::io::device::{DeviceGetters, DeviceWrapper, DeviceTraits};
use crate::io::direction::IODirection;
use crate::io::input::Input;
use crate::io::kind::IOKind;
use crate::io::metadata::{DeviceMetadata, IdType};
use crate::io::output::Output;

verus! {

/// A device that is either an input or an output.
pub enum DeviceType<R, W, L, P> {
    Input(Input<R, W, L, P>),
    Output(Output<R, W, L>),
}

/// The metadata of the wrapped device.
pub open spec fn device_metadata<R, W, L, P>(d: &DeviceType<R, W, L, P>) -> DeviceMetadata {
    match d {
        DeviceType::Input(inner) => inner.spec_metadata(),
        DeviceType::Output(inner) => inner.spec_metadata(),
    }
}

impl<R, W, L, P> DeviceWrapper for DeviceType<R, W, L, P> {
    open spec fn spec_is_output(&self) -> bool {
        *self is Output
    }

    fn is_input(&self) -> (b: bool)
        ensures
            b == (*self is Input),
    {
        match self {
            Self::Input(_) => true,
            Self::Output(_) => false,
        }
    }

    fn is_output(&self) -> (b: bool)
        ensures
            b == (*self is Output),
    {
        match self {
            Self::Input(_) => false,
            Self::Output(_) => true,
        }
    }
}

impl<R, W, L, P> DeviceTraits for DeviceType<R, W, L, P> {
    fn name(&self) -> (n: String)
        ensures
            n == device_metadata(self).name,
    {
        match self {
            Self::Output(inner) => inner.name().clone(),
            Self::Input(inner) => inner.name().clone(),
        }
    }

    fn id(&self) -> (r: IdType)
        ensures
            r == device_metadata(self).id,
    {
        match self {
            Self::Output(inner) => inner.id(),
            Self::Input(inner) => inner.id(),
        }
    }

    fn kind(&self) -> (r: IOKind)
        ensures
            r == device_metadata(self).kind,
    {
        match self {
            Self::Output(inner) => inner.kind(),
            Self::Input(inner) => inner.kind(),
        }
    }

    fn direction(&self) -> (r: IODirection)
        ensures
            r == device_metadata(self).direction,
    {
        match self {
            Self::Output(inner) => inner.direction(),
            Self::Input(inner) => inner.direction(),
        }
    }
}

} // verus!
