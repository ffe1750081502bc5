//! What the panel shows, as plain values for a toolkit to render.

use vstd::prelude::*;
use crate::command::CommandKind;
use crate::device::{icon_name_of, BluetoothDevice, DeviceView};

verus! {

/// The control at the end of a device row.
#[derive(Clone, Copy, Debug, PartialEq, Eq, Structural)]
pub enum RowControl {
    /// A switch that connects and disconnects; `active` is its position.
    ConnectSwitch { active: bool },
    /// A button that pairs.
    PairButton,
}

/// One row of the device list.
#[derive(Debug, PartialEq, Eq)]
pub struct DeviceRow {
    pub icon_name: String,
    /// The device's name, as plain text.
    pub name: String,
    pub address: String,
    pub control: RowControl,
}

/// What a `DeviceRow` holds, as mathematical values.
pub struct RowView {
    pub icon_name: Seq<char>,
    pub name: Seq<char>,
    pub address: Seq<char>,
    pub control: RowControl,
}

impl View for DeviceRow {
    type V = RowView;

    open spec fn view(&self) -> RowView {
        RowView {
            icon_name: self.icon_name@,
            name: self.name@,
            address: self.address@,
            control: self.control,
        }
    }
}

/// The row that shows `device`: a paired device gets the switch, in the
/// position of its connection; a device that is not paired gets the button.
pub open spec fn row_of(device: DeviceView) -> RowView {
    RowView {
        icon_name: icon_name_of(device.icon),
        name: device.name,
        address: device.address,
        control: if device.paired {
            RowControl::ConnectSwitch { active: device.connected }
        } else {
            RowControl::PairButton
        },
    }
}

/// The text beside the power switch once it was thrown, in Pango markup.
/// A simulated change is marked as such.
pub open spec fn status_text(on: bool, simulated: bool) -> Seq<char> {
    if on {
        if simulated {
            "<b>Bluetooth</b> <span foreground='green'>On</span> <span foreground='orange'>(UI Test)</span>"@
        } else {
            "<b>Bluetooth</b> <span foreground='green'>On</span>"@
        }
    } else {
        if simulated {
            "<b>Bluetooth</b> <span foreground='red'>Off</span> <span foreground='orange'>(UI Test)</span>"@
        } else {
            "<b>Bluetooth</b> <span foreground='red'>Off</span>"@
        }
    }
}

/// The text beside the power switch once it was thrown.
pub fn status_markup(on: bool, simulated: bool) -> (markup: String)
    ensures
        markup@ == status_text(on, simulated),
{
    if on {
        if simulated {
            "<b>Bluetooth</b> <span foreground='green'>On</span> <span foreground='orange'>(UI Test)</span>".to_string()
        } else {
            "<b>Bluetooth</b> <span foreground='green'>On</span>".to_string()
        }
    } else {
        if simulated {
            "<b>Bluetooth</b> <span foreground='red'>Off</span> <span foreground='orange'>(UI Test)</span>".to_string()
        } else {
            "<b>Bluetooth</b> <span foreground='red'>Off</span>".to_string()
        }
    }
}

impl DeviceRow {
    /// The row that shows `device`.
    pub fn new(device: &BluetoothDevice) -> (row: Self)
        ensures
            row@ == row_of(device@),
    {
        DeviceRow {
            icon_name: device.get_icon_name(),
            name: device.name.clone(),
            address: device.address.clone(),
            control: if device.paired {
                RowControl::ConnectSwitch { active: device.connected }
            } else {
                RowControl::PairButton
            },
        }
    }

    /// The command that the row gives when its switch is moved to `state`:
    /// none, where the row has no switch.
    pub fn switch_moved(&self, state: bool) -> (command: Option<CommandKind>)
        ensures
            command == match self.control {
                RowControl::ConnectSwitch { .. } => Some(
                    if state {
                        CommandKind::Connect
                    } else {
                        CommandKind::Disconnect
                    },
                ),
                RowControl::PairButton => None,
            },
    {
        match self.control {
            RowControl::ConnectSwitch { .. } => if state {
                Some(CommandKind::Connect)
            } else {
                Some(CommandKind::Disconnect)
            },
            RowControl::PairButton => None,
        }
    }

    /// The command that the row gives when its button is pressed: none,
    /// where the row has no button.
    pub fn button_pressed(&self) -> (command: Option<CommandKind>)
        ensures
            command == match self.control {
                RowControl::PairButton => Some(CommandKind::Pair),
                RowControl::ConnectSwitch { .. } => None,
            },
    {
        match self.control {
            RowControl::PairButton => Some(CommandKind::Pair),
            RowControl::ConnectSwitch { .. } => None,
        }
    }
}

} // verus!
