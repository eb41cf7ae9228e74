use vstd::prelude::*;

verus! {

/// Direction of data flow in relation to the system.
///
/// - `In`: data came from the outside world. This is the default.
/// - `Out`: data is sent out to manipulate the outside world.
#[derive(Debug, Clone, Copy, PartialEq, Eq, Structural)]
pub enum IODirection {
    In,
    Out,
}

/// Text shown for a direction.
pub open spec fn direction_label(d: IODirection) -> Seq<char> {
    match d {
        IODirection::In => "Input"@,
        IODirection::Out => "Output"@,
    }
}

impl IODirection {
    /// Human readable name of the direction.
    pub fn label(&self) -> (s: &'static str)
        ensures
            s@ == direction_label(*self),
    {
        match self {
            IODirection::In => "Input",
            IODirection::Out => "Output",
        }
    }
}

impl Default for IODirection {
    fn default() -> (d: IODirection)
        ensures
            d == IODirection::In,
    {
        IODirection::In
    }
}

} // verus!
