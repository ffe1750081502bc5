//! The commands that change the adapter or a device.

use vstd::prelude::*;

verus! {

/// What can be asked of one device.
#[derive(Clone, Copy, Debug, PartialEq, Eq, Structural)]
pub enum CommandKind {
    Connect,
    Disconnect,
    Pair,
}

impl CommandKind {
    /// Whether the command concerns the pairing of the device, not its
    /// connection.
    pub open spec fn about_pairing(self) -> bool {
        self == CommandKind::Pair
    }

    /// The value of the device's connected flag (of its paired flag, for
    /// `Pair`) in which the command has nothing left to do.
    pub open spec fn goal(self) -> bool {
        self != CommandKind::Disconnect
    }
}

/// A command that changes the state of the adapter or of a device.
#[derive(Debug, PartialEq, Eq)]
pub enum Command {
    /// Switch the adapter on or off.
    SetPower(bool),
    /// Connect, disconnect or pair the device at the address.
    Device(CommandKind, String),
}

/// What a `Command` holds, as mathematical values.
pub enum CommandView {
    SetPower(bool),
    Device(CommandKind, Seq<char>),
}

impl View for Command {
    type V = CommandView;

    open spec fn view(&self) -> CommandView {
        match self {
            Command::SetPower(on) => CommandView::SetPower(*on),
            Command::Device(kind, address) => CommandView::Device(*kind, address@),
        }
    }
}

impl Clone for Command {
    fn clone(&self) -> (copy: Self)
        ensures
            copy == *self,
    {
        match self {
            Command::SetPower(on) => Command::SetPower(*on),
            Command::Device(kind, address) => Command::Device(*kind, address.clone()),
        }
    }
}

} // verus!
