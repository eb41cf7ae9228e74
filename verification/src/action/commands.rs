//! Commands built on top of low-level I/O code.
use vstd::prelude::*;
use crate::errors::{DeviceError, Error, ErrorKind};
use crate::io::command::{IOCommand, command_direction};
use crate::io::direction::IODirection;

verus! {

/// Command that prints a fixed message.
pub struct SimpleNotifier {
    msg: String,
}

impl SimpleNotifier {
    /// The message printed by the command.
    pub closed spec fn spec_msg(&self) -> Seq<char> {
        self.msg@
    }

    /// A notifier printing `msg`.
    pub fn new(msg: String) -> (n: SimpleNotifier)
        ensures
            n.spec_msg() == msg@,
    {
        Self { msg }
    }

    /// The message printed by the command.
    pub fn msg(&self) -> (m: &String)
        ensures
            m@ == self.spec_msg(),
    {
        &self.msg
    }
}

/// The error for a device and command whose directions do not match.
pub fn misconfigured_error() -> (e: Error)
    ensures
        e.kind == ErrorKind::CommandError,
        e.message@ == "Misconfigured device! Device and command type do not match."@,
{
    Error::new(ErrorKind::CommandError, "Misconfigured device! Device and command type do not match.")
}

/// Check that a command and the direction of its device are aligned:
/// `Ok` when they agree, the misconfiguration error otherwise.
pub fn check_alignment<R, W>(command: &IOCommand<R, W>, device_direction: IODirection) -> (r: Result<
    (),
    Error,
>)
    ensures
        r is Ok <==> command_direction(*command) == device_direction,
        r matches Err(e) ==> e.kind == ErrorKind::CommandError && e.message@
            == "Misconfigured device! Device and command type do not match."@,
{
    let aligned = command.direction() == device_direction;
    match aligned {
        true => Ok(()),
        false => Err(misconfigured_error()),
    }
}

/// A low-level command wrapped for a device.
pub struct GPIOCommand<R, W> {
    func: IOCommand<R, W>,
}

impl<R, W> GPIOCommand<R, W> {
    /// The wrapped command.
    pub closed spec fn spec_func(&self) -> IOCommand<R, W> {
        self.func
    }

    /// Wrap `func`; when the direction of its device is given, it must agree
    /// with the command.
    pub fn new(func: IOCommand<R, W>, device_direction: Option<IODirection>) -> (g: Self)
        requires
            device_direction matches Some(d) ==> command_direction(func) == d,
        ensures
            g.spec_func() == func,
    {
        Self { func }
    }

    /// Direction of the wrapped command.
    pub fn direction(&self) -> (d: IODirection)
        ensures
            d == command_direction(self.spec_func()),
    {
        match self.func {
            IOCommand::Input(_) => IODirection::In,
            IOCommand::Output(_) => IODirection::Out,
        }
    }

    /// The wrapped command.
    pub fn func(&self) -> (f: &IOCommand<R, W>)
        ensures
            *f == self.spec_func(),
    {
        &self.func
    }

    /// Run the wrapped command: an input command returns its reading, an
    /// output command is given `value`, which it needs.
    pub fn execute<T>(&self, value: Option<T>) -> (r: Result<Option<T>, DeviceError>)
        where
            R: Fn() -> T,
            W: Fn(T) -> Result<(), ()>,
        requires
            self.spec_func() matches IOCommand::Input(f) ==> call_requires(f, ()),
            self.spec_func() matches IOCommand::Output(f) ==> (value matches Some(v)
                && call_requires(f, (v,))),
        ensures
            self.spec_func() matches IOCommand::Input(f) ==> (r matches Ok(Some(v)) && call_ensures(
                f,
                (),
                v,
            )),
            self.spec_func() matches IOCommand::Output(f) ==> (r matches Ok(None) && exists|
                res: Result<(), ()>,
            | call_ensures(f, (value->0,), res)),
    {
        self.func.execute(value)
    }
}

} // verus!
