//! A reading tagged with the kind of device that produced it.
use vstd::prelude::*;
use crate::io::kind::IOKind;
use crate::io::raw::RawValue;

verus! {

/// Unified data type for returning data: a value with its kind.
#[derive(Debug, Clone, Copy)]
pub struct IOData {
    pub kind: IOKind,
    pub value: RawValue,
}

impl IOData {
    /// Data of `kind` holding `value`.
    pub fn new(kind: IOKind, value: RawValue) -> (d: IOData)
        ensures
            d.kind == kind,
            d.value == value,
    {
        IOData { kind, value }
    }
}

impl Default for IOData {
    fn default() -> (d: IOData)
        ensures
            d.kind == IOKind::Unassigned,
            d.value == RawValue::PosInt8(0),
    {
        IOData { kind: IOKind::Unassigned, value: RawValue::PosInt8(0) }
    }
}

} // verus!
