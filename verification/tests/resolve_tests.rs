use emt::usb::Device;

fn entries(list: &[&str]) -> Vec<String> {
    list.iter().map(|e| e.to_string()).collect()
}

#[test]
fn acm_layout_wins_over_usb_layout() {
    // The flat ttyUSB entry comes first in filesystem order, yet the
    // nested ACM layout is searched fully before the flat one.
    let es = entries(&["3-1/3-1:1.1/ttyUSB0", "3-1/3-1:1.0/tty/ttyACM0"]);
    assert_eq!(
        Device::find_tty_path("3-1", &es),
        Some("/dev/ttyACM0".to_string())
    );
}

#[test]
fn no_matching_entry_resolves_nothing() {
    let es = entries(&["3-1/3-1:1.0/ep_81", "3-1/power", "3-1/3-1:1.0/tty"]);
    assert_eq!(Device::find_tty_path("3-1", &es), None);
    assert_eq!(Device::find_tty_path("3-1", &entries(&[])), None);
}

#[test]
fn first_entry_wins_within_a_layout() {
    let es = entries(&["2-9/2-9:1.0/ttyUSB7", "2-9/2-9:1.1/ttyUSB0"]);
    assert_eq!(
        Device::find_tty_path("2-9", &es),
        Some("/dev/ttyUSB7".to_string())
    );
}

#[test]
fn entries_of_other_addresses_do_not_match() {
    // "3-1" is a prefix of "3-10", but the segment boundary decides.
    let es = entries(&["3-10/3-10:1.0/tty/ttyACM0"]);
    assert_eq!(Device::find_tty_path("3-1", &es), None);
    assert_eq!(
        Device::find_tty_path("3-10", &es),
        Some("/dev/ttyACM0".to_string())
    );
}

#[test]
fn nested_layout_needs_exactly_one_interface_segment() {
    let es = entries(&["3-1/a/b/tty/ttyACM0"]);
    assert_eq!(Device::find_tty_path("3-1", &es), None);
}

#[test]
fn flat_layout_needs_the_name_directly_below_the_interface() {
    let es = entries(&["3-1/3-1:1.0/sub/ttyUSB0"]);
    assert_eq!(Device::find_tty_path("3-1", &es), None);
}

#[test]
fn node_path_is_dev_plus_final_segment() {
    assert_eq!(
        Device::tty_path_from_sysfs_path("3-1/3-1:1.0/ttyUSB2"),
        Some("/dev/ttyUSB2".to_string())
    );
    assert_eq!(
        Device::tty_path_from_sysfs_path("ttyACM0"),
        Some("/dev/ttyACM0".to_string())
    );
    assert_eq!(Device::tty_path_from_sysfs_path("3-1/3-1:1.0/"), None);
    assert_eq!(Device::tty_path_from_sysfs_path(""), None);
}
