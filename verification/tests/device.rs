use bluetooth_widget::{BluetoothDevice, DeviceProbe};

fn with_icon(icon: &str) -> BluetoothDevice {
    BluetoothDevice {
        address: "00:11:22:33:44:55".to_string(),
        name: "Device".to_string(),
        icon: icon.to_string(),
        connected: false,
        paired: false,
    }
}

#[test]
fn audio_classes_show_headphones() {
    assert_eq!(with_icon("audio-card").get_icon_name(), "audio-headphones");
    assert_eq!(with_icon("audio-headset").get_icon_name(), "audio-headphones");
}

#[test]
fn known_classes_show_their_own_icon() {
    for tag in [
        "input-keyboard",
        "input-mouse",
        "input-tablet",
        "phone",
        "computer",
        "camera-photo",
        "camera-video",
    ] {
        assert_eq!(with_icon(tag).get_icon_name(), tag);
    }
}

#[test]
fn unknown_classes_show_the_generic_icon() {
    assert_eq!(with_icon("bluetooth").get_icon_name(), "bluetooth");
    assert_eq!(with_icon("").get_icon_name(), "bluetooth");
    assert_eq!(with_icon("audio-headphones").get_icon_name(), "bluetooth");
    assert_eq!(with_icon("Phone").get_icon_name(), "bluetooth");
    assert_eq!(with_icon("network-wireless").get_icon_name(), "bluetooth");
}

#[test]
fn a_full_probe_is_taken_as_it_is() {
    let probe = DeviceProbe {
        name: Some("Keyboard K380".to_string()),
        icon: Some("input-keyboard".to_string()),
        connected: Some(true),
        paired: Some(true),
    };
    assert!(!probe.is_partial());
    let device = BluetoothDevice::from_probe("AA:BB:CC:DD:EE:FF".to_string(), probe);
    assert_eq!(
        device,
        BluetoothDevice {
            address: "AA:BB:CC:DD:EE:FF".to_string(),
            name: "Keyboard K380".to_string(),
            icon: "input-keyboard".to_string(),
            connected: true,
            paired: true,
        }
    );
}

#[test]
fn an_unanswered_probe_gives_a_record_of_defaults() {
    let probe = DeviceProbe::unanswered();
    assert_eq!(probe, DeviceProbe { name: None, icon: None, connected: None, paired: None });
    assert!(probe.is_partial());
    let device = BluetoothDevice::from_probe("AA:BB:CC:DD:EE:FF".to_string(), probe);
    assert_eq!(
        device,
        BluetoothDevice {
            address: "AA:BB:CC:DD:EE:FF".to_string(),
            name: "Unknown Device".to_string(),
            icon: "bluetooth".to_string(),
            connected: false,
            paired: false,
        }
    );
}

#[test]
fn each_missing_field_gets_its_own_default() {
    let probe = DeviceProbe {
        name: None,
        icon: Some("phone".to_string()),
        connected: Some(false),
        paired: None,
    };
    assert!(probe.is_partial());
    let device = BluetoothDevice::from_probe("X".to_string(), probe);
    assert_eq!(device.name, "Unknown Device");
    assert_eq!(device.icon, "phone");
    assert!(!device.connected);
    assert!(!device.paired);

    let probe = DeviceProbe {
        name: Some("Pixel".to_string()),
        icon: None,
        connected: None,
        paired: Some(true),
    };
    assert!(probe.is_partial());
    let device = BluetoothDevice::from_probe("Y".to_string(), probe);
    assert_eq!(device.name, "Pixel");
    assert_eq!(device.icon, "bluetooth");
    assert!(!device.connected);
    assert!(device.paired);
}

#[test]
fn a_record_of_defaults_shows_the_generic_icon() {
    let device = BluetoothDevice::from_probe("X".to_string(), DeviceProbe::unanswered());
    assert_eq!(device.get_icon_name(), "bluetooth");
}

#[test]
fn a_clone_of_a_record_equals_it() {
    let device = with_icon("phone");
    assert_eq!(device.clone(), device);
}
