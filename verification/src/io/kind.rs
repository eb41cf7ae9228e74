use vstd::prelude::*;

verus! {

/// Representation of the physical process that a device measures or controls.
#[derive(Debug, Clone, Copy, PartialEq, Eq, Structural)]
pub enum IOKind {
    Unassigned,
    Light,
    Pressure,
    Proximity,
    RotationVector,
    RelativeHumidity,
    Temperature,
    Voltage,
    Current,
    Color,
    TVOC,
    VocIndex,
    NoxIndex,
    Flow,
    EC,
    PH,
}

/// Text shown for a kind of device.
pub open spec fn kind_label(k: IOKind) -> Seq<char> {
    match k {
        IOKind::Unassigned => "Unassigned"@,
        IOKind::Light => "Light"@,
        IOKind::Pressure => "Pressure"@,
        IOKind::Proximity => "Proximity"@,
        IOKind::RotationVector => "Rotation Vector"@,
        IOKind::RelativeHumidity => "Relative Humidity"@,
        IOKind::Temperature => "Ambient Temperature"@,
        IOKind::Voltage => "Voltage"@,
        IOKind::Current => "Current"@,
        IOKind::Color => "Color"@,
        IOKind::TVOC => "TVOC"@,
        IOKind::VocIndex => "Voc Index"@,
        IOKind::NoxIndex => "Nox Index"@,
        IOKind::Flow => "Flow (liquid)"@,
        IOKind::EC => "Electrical Conductivity (EC)"@,
        IOKind::PH => "pH"@,
    }
}

impl IOKind {
    /// Human readable name of the kind.
    pub fn label(&self) -> (s: &'static str)
        ensures
            s@ == kind_label(*self),
    {
        match self {
            IOKind::Unassigned => "Unassigned",
            IOKind::Light => "Light",
            IOKind::Pressure => "Pressure",
            IOKind::Proximity => "Proximity",
            IOKind::RotationVector => "Rotation Vector",
            IOKind::RelativeHumidity => "Relative Humidity",
            IOKind::Temperature => "Ambient Temperature",
            IOKind::Voltage => "Voltage",
            IOKind::Current => "Current",
            IOKind::Color => "Color",
            IOKind::TVOC => "TVOC",
            IOKind::VocIndex => "Voc Index",
            IOKind::NoxIndex => "Nox Index",
            IOKind::Flow => "Flow (liquid)",
            IOKind::EC => "Electrical Conductivity (EC)",
            IOKind::PH => "pH",
        }
    }
}

impl Default for IOKind {
    fn default() -> (k: IOKind)
        ensures
            k == IOKind::Unassigned,
    {
        IOKind::Unassigned
    }
}

} // verus!
