//! Metadata shared by every device.
use vstd::prelude::*;
use crate::io::kind::{IOKind, kind_label};
use crate::io::direction::{IODirection, direction_label};

verus! {

/// Type used to index and identify I/O devices.
pub type IdType = u32;

/// Traits required of a type to be usable as an id.
pub trait IdTraits: Eq + std::hash::Hash + Default {}

impl IdTraits for IdType {}

/// Types that name something and can be turned into the owned name.
///
/// Implemented for `&str` and `String`, so that constructors accept either.
pub trait IntoText {
    /// The characters of the name.
    spec fn text_view(&self) -> Seq<char>;

    /// The name as an owned `String`.
    fn into_text(self) -> (s: String)
        ensures
            s@ == self.text_view(),
    ;
}

impl<'a> IntoText for &'a str {
    open spec fn text_view(&self) -> Seq<char> {
        (*self)@
    }

    fn into_text(self) -> (s: String) {
        String::from_str(self)
    }
}

impl IntoText for String {
    open spec fn text_view(&self) -> Seq<char> {
        self@
    }

    fn into_text(self) -> (s: String) {
        self
    }
}

/// Information about a physical or abstract device: a user given name and
/// id, the kind of device, and the direction of data flow.
#[derive(Debug)]
pub struct DeviceMetadata {
    /// User given name of device
    pub name: String,
    /// User given device id
    pub id: IdType,
    /// Sensor/device type
    pub kind: IOKind,
    /// I/O direction
    pub direction: IODirection,
}

/// Whether two metadata records are field by field equal.
pub open spec fn metadata_equal(a: DeviceMetadata, b: DeviceMetadata) -> bool {
    &&& a.name@ == b.name@
    &&& a.id == b.id
    &&& a.kind == b.kind
    &&& a.direction == b.direction
}

/// The text a metadata record is displayed as.
pub open spec fn metadata_text(m: DeviceMetadata) -> Seq<char> {
    "Device Info { Kind: "@ + kind_label(m.kind) + ", Direction: "@ + direction_label(m.direction)
        + " }"@
}

impl DeviceMetadata {
    /// Metadata with an empty name, the given id and direction, and an
    /// unassigned kind.
    pub fn new(id: IdType, direction: IODirection) -> (m: DeviceMetadata)
        ensures
            m.name@ == Seq::<char>::empty(),
            m.id == id,
            m.kind == IOKind::Unassigned,
            m.direction == direction,
    {
        DeviceMetadata { name: String::new(), id, kind: IOKind::Unassigned, direction }
    }

    /// Metadata with the given name, id and direction, and an unassigned kind.
    pub fn with_name<N: IntoText>(name: N, id: IdType, direction: IODirection) -> (m: DeviceMetadata)
        ensures
            m.name@ == name.text_view(),
            m.id == id,
            m.kind == IOKind::Unassigned,
            m.direction == direction,
    {
        DeviceMetadata { name: name.into_text(), id, kind: IOKind::Unassigned, direction }
    }

    /// Builder setter for `kind`; the other fields are kept.
    pub fn kind(self, kind: IOKind) -> (m: DeviceMetadata)
        ensures
            m.name == self.name,
            m.id == self.id,
            m.kind == kind,
            m.direction == self.direction,
    {
        let mut m = self;
        m.kind = kind;
        m
    }

    /// The text the metadata is displayed as.
    pub fn text(&self) -> (s: String)
        ensures
            s@ == metadata_text(*self),
    {
        proof {
            reveal_strlit("Device Info { Kind: ");
            reveal_strlit(", Direction: ");
            reveal_strlit(" }");
        }
        let mut s = String::from_str("Device Info { Kind: ");
        s.append(self.kind.label());
        s.append(", Direction: ");
        s.append(self.direction.label());
        s.append(" }");
        s
    }
}

impl Clone for DeviceMetadata {
    fn clone(&self) -> (m: DeviceMetadata)
        ensures
            m == *self,
    {
        DeviceMetadata {
            name: self.name.clone(),
            id: self.id,
            kind: self.kind,
            direction: self.direction,
        }
    }
}

impl Default for DeviceMetadata {
    fn default() -> (m: DeviceMetadata)
        ensures
            m.name@ == Seq::<char>::empty(),
            m.id == 0,
            m.kind == IOKind::Unassigned,
            m.direction == IODirection::In,
    {
        DeviceMetadata {
            name: String::new(),
            id: 0,
            kind: IOKind::Unassigned,
            direction: IODirection::In,
        }
    }
}

impl PartialEq for DeviceMetadata {
    fn eq(&self, other: &DeviceMetadata) -> (r: bool) {
        self.name == other.name && self.id == other.id && self.kind == other.kind
            && self.direction == other.direction
    }
}

impl vstd::std_specs::cmp::PartialEqSpecImpl for DeviceMetadata {
    open spec fn obeys_eq_spec() -> bool {
        true
    }

    open spec fn eq_spec(&self, other: &DeviceMetadata) -> bool {
        metadata_equal(*self, *other)
    }
}

} // verus!
