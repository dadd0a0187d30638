use emt::address::address_to_path;
use emt::address::path_to_address;
use emt::error::Error;
use emt::sysfs::SysfsAttr;
use emt::sysfs::SysfsDir;
use emt::sysfs::SysfsSnapshot;
use emt::usb::DebuggerType;
use emt::usb::Device;
use emt::usb::DeviceRole;
use emt::usb::DeviceType;

fn device_dir(address: &str, attrs: &[(&str, &str)]) -> SysfsDir {
    SysfsDir {
        path: address_to_path(address),
        attrs: attrs
            .iter()
            .map(|(name, content)| SysfsAttr {
                name: name.to_string(),
                content: content.to_string(),
            })
            .collect(),
    }
}

fn snapshot_with(dir: SysfsDir, entries: &[&str]) -> SysfsSnapshot {
    SysfsSnapshot {
        dirs: vec![dir],
        entries: entries.iter().map(|e| e.to_string()).collect(),
    }
}

fn full_attrs<'a>(
    product: &'a str,
    manufacturer: &'a str,
    id_product: &'a str,
    id_vendor: &'a str,
    busnum: &'a str,
    devpath: &'a str,
) -> Vec<(&'a str, &'a str)> {
    vec![
        ("product", product),
        ("manufacturer", manufacturer),
        ("idProduct", id_product),
        ("idVendor", id_vendor),
        ("busnum", busnum),
        ("devpath", devpath),
    ]
}

#[test]
fn from_address_keeps_address() {
    let attrs = full_attrs("Widget\n", "Acme\n", "ea60\n", "10c4\n", "3\n", "1.4\n");
    let fs = snapshot_with(device_dir("3-1.4", &attrs), &["3-1.4/3-1.4:1.0/ttyUSB0"]);
    let d = Device::from_address("3-1.4", DeviceType::Tty, &fs).unwrap();
    assert_eq!(d.address, "3-1.4");
}

#[test]
fn classify_tty_capable_pairs() {
    let cp210x = full_attrs("CP2102\n", "Silicon Labs\n", "ea60\n", "10c4\n", "3\n", "1.2\n");
    let fs = snapshot_with(device_dir("3-1.2", &cp210x), &["3-1.2/3-1.2:1.0/ttyUSB0"]);
    let d = Device::from_address("3-1.2", DeviceType::Tty, &fs).unwrap();
    assert!(matches!(d.role, DeviceRole::Tty { .. }));
    assert_eq!(d.id_vendor, "10c4");
    assert_eq!(d.id_product, "ea60");

    let hl340 = full_attrs("USB Serial\n", "QinHeng\n", "7523\n", "1a86\n", "2\n", "9\n");
    let fs = snapshot_with(device_dir("2-9", &hl340), &["2-9/2-9:1.0/ttyUSB0"]);
    let d = Device::from_address("2-9", DeviceType::Tty, &fs).unwrap();
    assert!(matches!(d.role, DeviceRole::Tty { .. }));
    assert_eq!(d.id_vendor, "1a86");
    assert_eq!(d.id_product, "7523");
}

#[test]
fn classify_stlink_debugger() {
    assert!(matches!(
        Device::determin_debugger_type("0483", "3748"),
        Some(DebuggerType::StLinkv2)
    ));
    let attrs = full_attrs(
        "STM32 STLink\n",
        "STMicroelectronics\n",
        "3748\n",
        "0483\n",
        "1\n",
        "1.1\n",
    );
    let fs = snapshot_with(device_dir("1-1.1", &attrs), &[]);
    let d = Device::from_address("1-1.1", DeviceType::Debugger, &fs).unwrap();
    assert!(matches!(
        d.role,
        DeviceRole::Debugger { debugger_type: DebuggerType::StLinkv2 }
    ));
}

#[test]
fn classify_unknown_debugger() {
    assert!(Device::determin_debugger_type("10c4", "ea60").is_none());
    let attrs = full_attrs("CP2102\n", "Silicon Labs\n", "ea60\n", "10c4\n", "1\n", "2\n");
    let fs = snapshot_with(device_dir("1-2", &attrs), &[]);
    match Device::from_address("1-2", DeviceType::Debugger, &fs) {
        Err(Error::UnknownDebugger { id_vendor, id_product }) => {
            assert_eq!(id_vendor, "10c4");
            assert_eq!(id_product, "ea60");
        }
        _ => assert!(false),
    }
}

#[test]
fn missing_directory_is_path_not_found() {
    let fs = SysfsSnapshot { dirs: vec![], entries: vec![] };
    match Device::from_address("1-1", DeviceType::Tty, &fs) {
        Err(Error::PathNotFound { path }) => {
            assert_eq!(path, "/sys/bus/usb/devices/1-1/");
        }
        _ => assert!(false),
    }
}

#[test]
fn first_unreadable_attribute_is_reported() {
    // With manufacturer absent the construction aborts on it, in read
    // order, even though later attributes are absent too.
    let dir = device_dir(
        "1-3",
        &[("product", "Widget\n"), ("idProduct", "ea60\n"), ("idVendor", "10c4\n")],
    );
    let fs = snapshot_with(dir, &[]);
    match Device::from_address("1-3", DeviceType::Tty, &fs) {
        Err(Error::AttributeReadError { attribute, path }) => {
            assert_eq!(attribute, "manufacturer");
            assert_eq!(path, "/sys/bus/usb/devices/1-3/");
        }
        _ => assert!(false),
    }

    let fs = snapshot_with(device_dir("1-3", &[]), &[]);
    match Device::from_address("1-3", DeviceType::Tty, &fs) {
        Err(Error::AttributeReadError { attribute, .. }) => {
            assert_eq!(attribute, "product");
        }
        _ => assert!(false),
    }
}

#[test]
fn attribute_content_loses_one_trailing_newline() {
    let attrs = vec![
        ("product", "CP2102"),
        ("manufacturer", "Silicon Labs\n\n"),
        ("idProduct", "ea60\n"),
        ("idVendor", "10c4\n"),
        ("busnum", "3\n"),
        ("devpath", "1.2\n"),
    ];
    let fs = snapshot_with(device_dir("3-1.2", &attrs), &["3-1.2/3-1.2:1.0/ttyUSB0"]);
    let d = Device::from_address("3-1.2", DeviceType::Tty, &fs).unwrap();
    assert_eq!(d.product, "CP2102");
    assert_eq!(d.manufacturer, "Silicon Labs\n");
}

#[test]
fn tty_resolution_failure_is_an_error() {
    // Entries that match neither layout: resolution fails, it never falls
    // back to a default path.
    let attrs = full_attrs("CP2102\n", "Silicon Labs\n", "ea60\n", "10c4\n", "3\n", "1.2\n");
    let entries = ["3-1.2/3-1.2:1.0/ep_81", "3-1.2/power"];
    let fs = snapshot_with(device_dir("3-1.2", &attrs), &entries);
    match Device::from_address("3-1.2", DeviceType::Tty, &fs) {
        Err(Error::TtyResolutionError { address }) => assert_eq!(address, "3-1.2"),
        _ => assert!(false),
    }
}

#[test]
fn debugger_carries_no_tty_path() {
    let attrs = full_attrs(
        "STM32 STLink\n",
        "STMicroelectronics\n",
        "3748\n",
        "0483\n",
        "1\n",
        "1.1\n",
    );
    // Even with a serial entry present, a debugger-declared device never
    // resolves a node.
    let fs = snapshot_with(device_dir("1-1.1", &attrs), &["1-1.1/1-1.1:1.0/ttyUSB0"]);
    let d = Device::from_address("1-1.1", DeviceType::Debugger, &fs).unwrap();
    assert!(matches!(d.role, DeviceRole::Debugger { .. }));
    assert_eq!(d.get_tty_path(), "");
}

#[test]
fn codec_round_trip() {
    let dir = device_dir("3-1.2", &[("busnum", "3\n"), ("devpath", "1.2\n")]);
    let path = dir.path.clone();
    let address = path_to_address(&dir).unwrap();
    assert_eq!(address, "3-1.2");
    assert_eq!(address_to_path(&address), path);
}

#[test]
fn address_to_path_joins_base_address_and_slash() {
    assert_eq!(address_to_path("1-1"), "/sys/bus/usb/devices/1-1/");
}

#[test]
fn end_to_end_cp2102() {
    let attrs = full_attrs("CP2102\n", "Silicon Labs\n", "ea60\n", "10c4\n", "3\n", "1.2.1\n");
    let fs = snapshot_with(
        device_dir("3-1.2.1", &attrs),
        &["3-1.2.1/3-1.2.1:1.0/ttyUSB3"],
    );
    let d = Device::from_address("3-1.2.1", DeviceType::Tty, &fs).unwrap();
    assert_eq!(d.address, "3-1.2.1");
    assert_eq!(d.id_vendor, "10c4");
    assert_eq!(d.id_product, "ea60");
    assert_eq!(d.manufacturer, "Silicon Labs");
    assert_eq!(d.product, "CP2102");
    match &d.role {
        DeviceRole::Tty { tty_path } => assert_eq!(tty_path, "/dev/ttyUSB3"),
        _ => assert!(false),
    }
    assert_eq!(d.get_tty_path(), "/dev/ttyUSB3");
}
