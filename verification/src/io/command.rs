//! Low-level code that reads from or writes to hardware.
use vstd::prelude::*;
use crate::errors::DeviceError;
use crate::io::direction::IODirection;

verus! {

/// Command design pattern for storing low-level I/O code.
///
/// `R` is the code that reads an input and `W` the code that writes an
/// output; the library only inspects which of the two a command holds.
#[derive(Debug, Clone, Copy)]
pub enum IOCommand<R, W> {
    /// Low-level code to read hardware input
    Input(R),
    /// Low-level code to write to hardware output
    Output(W),
}

/// The direction that a command serves.
pub open spec fn command_direction<R, W>(c: IOCommand<R, W>) -> IODirection {
    match c {
        IOCommand::Input(_) => IODirection::In,
        IOCommand::Output(_) => IODirection::Out,
    }
}

impl<R, W> IOCommand<R, W> {
    /// `true` if the command writes an output.
    pub fn is_output(&self) -> (r: bool)
        ensures
            r == (*self is Output),
    {
        match self {
            Self::Input(_) => false,
            Self::Output(_) => true,
        }
    }

    /// `true` if the command reads an input.
    pub fn is_input(&self) -> (r: bool)
        ensures
            r == (*self is Input),
    {
        match self {
            Self::Input(_) => true,
            Self::Output(_) => false,
        }
    }

    /// Direction of the command: `In` for input, `Out` for output.
    pub fn direction(&self) -> (d: IODirection)
        ensures
            d == command_direction(*self),
    {
        match self {
            IOCommand::Input(_) => IODirection::In,
            IOCommand::Output(_) => IODirection::Out,
        }
    }

    /// Check agreement between the command and an external direction:
    /// `Ok` if they agree, `Err` otherwise.
    pub fn agrees(&self, direction: IODirection) -> (r: Result<(), ()>)
        ensures
            r is Ok <==> direction == command_direction(*self),
    {
        match direction == self.direction() {
            true => Ok(()),
            false => Err(()),
        }
    }

    /// Run the stored code: an input command is called and its reading
    /// returned; an output command is called with `value` and nothing is
    /// returned, whatever the code reported. An output command needs a value.
    pub fn execute<T>(&self, value: Option<T>) -> (r: Result<Option<T>, DeviceError>)
        where
            R: Fn() -> T,
            W: Fn(T) -> Result<(), ()>,
        requires
            self matches IOCommand::Input(f) ==> call_requires(f, ()),
            self matches IOCommand::Output(f) ==> (value matches Some(v) && call_requires(f, (v,))),
        ensures
            self matches IOCommand::Input(f) ==> (r matches Ok(Some(v)) && call_ensures(f, (), v)),
            self matches IOCommand::Output(f) ==> (r matches Ok(None) && exists|res: Result<(), ()>|
                call_ensures(f, (value->0,), res)),
    {
        match self {
            IOCommand::Input(f) => {
                let read_value = f();
                Ok(Some(read_value))
            },
            IOCommand::Output(f) => {
                if let Some(v) = value {
                    let res = f(v);
                    assert(call_ensures(f, (v,), res));
                }
                Ok(None)
            },
        }
    }
}

} // verus!
