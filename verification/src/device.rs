//! Device records: one snapshot per peripheral and enumeration.

use vstd::prelude::*;
use crate::text::same_text;

verus! {

/// Snapshot of one peripheral, taken when the devices were enumerated.
///
/// A record is never patched afterwards: the next enumeration builds a
/// fresh list.
#[derive(Debug, PartialEq, Eq)]
pub struct BluetoothDevice {
    /// Stable identifier of the peripheral, as the transport reports it.
    pub address: String,
    pub name: String,
    /// Device class tag of the transport; selects the icon and nothing else.
    pub icon: String,
    pub connected: bool,
    pub paired: bool,
}

/// What a `BluetoothDevice` holds, as mathematical values.
pub struct DeviceView {
    pub address: Seq<char>,
    pub name: Seq<char>,
    pub icon: Seq<char>,
    pub connected: bool,
    pub paired: bool,
}

impl View for BluetoothDevice {
    type V = DeviceView;

    open spec fn view(&self) -> DeviceView {
        DeviceView {
            address: self.address@,
            name: self.name@,
            icon: self.icon@,
            connected: self.connected,
            paired: self.paired,
        }
    }
}

/// The views of a sequence of records, in the same order.
pub open spec fn views(devices: Seq<BluetoothDevice>) -> Seq<DeviceView> {
    Seq::new(devices.len(), |i: int| devices[i]@)
}

/// What the transport answered about one device. A field is `None` where
/// the device reports no value or the query failed or timed out.
#[derive(Debug, PartialEq, Eq)]
pub struct DeviceProbe {
    pub name: Option<String>,
    pub icon: Option<String>,
    pub connected: Option<bool>,
    pub paired: Option<bool>,
}

/// What a `DeviceProbe` holds, as mathematical values.
pub struct ProbeView {
    pub name: Option<Seq<char>>,
    pub icon: Option<Seq<char>>,
    pub connected: Option<bool>,
    pub paired: Option<bool>,
}

impl View for DeviceProbe {
    type V = ProbeView;

    open spec fn view(&self) -> ProbeView {
        ProbeView {
            name: match self.name {
                Some(text) => Some(text@),
                None => None,
            },
            icon: match self.icon {
                Some(text) => Some(text@),
                None => None,
            },
            connected: self.connected,
            paired: self.paired,
        }
    }
}

impl ProbeView {
    /// A probe in which every query failed.
    pub open spec fn unanswered() -> ProbeView {
        ProbeView { name: None, icon: None, connected: None, paired: None }
    }

    /// Whether a record built from this probe needs a default somewhere.
    pub open spec fn is_partial(self) -> bool {
        self.name is None || self.icon is None || self.connected is None || self.paired is None
    }
}

/// The record of the device at `address` that answered `probe`: a missing
/// name becomes a placeholder, a missing class tag the generic one, a
/// missing flag `false`.
pub open spec fn record_of(address: Seq<char>, probe: ProbeView) -> DeviceView {
    DeviceView {
        address,
        name: match probe.name {
            Some(text) => text,
            None => "Unknown Device"@,
        },
        icon: match probe.icon {
            Some(text) => text,
            None => "bluetooth"@,
        },
        connected: probe.connected == Some(true),
        paired: probe.paired == Some(true),
    }
}

/// The icon shown for a class tag. Tags without an icon of their own get
/// the generic Bluetooth icon.
pub open spec fn icon_name_of(tag: Seq<char>) -> Seq<char> {
    if tag == "audio-card"@ || tag == "audio-headset"@ {
        "audio-headphones"@
    } else if tag == "input-keyboard"@ || tag == "input-mouse"@ || tag == "input-tablet"@
        || tag == "phone"@ || tag == "computer"@ || tag == "camera-photo"@ || tag
        == "camera-video"@ {
        tag
    } else {
        "bluetooth"@
    }
}

impl DeviceProbe {
    /// A probe in which every query failed.
    pub fn unanswered() -> (probe: Self)
        ensures
            probe@ == ProbeView::unanswered(),
    {
        DeviceProbe { name: None, icon: None, connected: None, paired: None }
    }

    /// Whether a record built from this probe needs a default somewhere.
    pub fn is_partial(&self) -> (partial: bool)
        ensures
            partial == self@.is_partial(),
    {
        self.name.is_none() || self.icon.is_none() || self.connected.is_none()
            || self.paired.is_none()
    }
}

impl BluetoothDevice {
    /// Builds the record of the device at `address` from what the transport
    /// answered. The device gets a record whatever failed.
    pub fn from_probe(address: String, probe: DeviceProbe) -> (device: Self)
        ensures
            device@ == record_of(address@, probe@),
    {
        let name = match probe.name {
            Some(text) => text,
            None => "Unknown Device".to_string(),
        };
        let icon = match probe.icon {
            Some(text) => text,
            None => "bluetooth".to_string(),
        };
        let connected = match probe.connected {
            Some(flag) => flag,
            None => false,
        };
        let paired = match probe.paired {
            Some(flag) => flag,
            None => false,
        };
        BluetoothDevice { address, name, icon, connected, paired }
    }

    /// The name of the icon that stands for this device's class.
    pub fn get_icon_name(&self) -> (icon_name: String)
        ensures
            icon_name@ == icon_name_of(self.icon@),
    {
        let tag = self.icon.as_str();
        if same_text(tag, "audio-card") || same_text(tag, "audio-headset") {
            "audio-headphones".to_string()
        } else if same_text(tag, "input-keyboard") || same_text(tag, "input-mouse") || same_text(
            tag,
            "input-tablet",
        ) || same_text(tag, "phone") || same_text(tag, "computer") || same_text(
            tag,
            "camera-photo",
        ) || same_text(tag, "camera-video") {
            self.icon.clone()
        } else {
            "bluetooth".to_string()
        }
    }
}

impl Clone for BluetoothDevice {
    fn clone(&self) -> (copy: Self)
        ensures
            copy == *self,
    {
        BluetoothDevice {
            address: self.address.clone(),
            name: self.name.clone(),
            icon: self.icon.clone(),
            connected: self.connected,
            paired: self.paired,
        }
    }
}

} // verus!
