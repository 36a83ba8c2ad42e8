use serial_flash::ports::get_available_ports;
use serial_flash::ports::str_le_exec;
use serial_flash::ports::usb_port_names;
use serial_flash::ports::PortClass;
use serial_flash::ports::PortEntry;

fn entry(name: &str, class: PortClass) -> PortEntry {
    PortEntry { name: name.to_string(), class }
}

#[test]
fn usb_names_are_filtered_and_sorted() {
    let fixture = vec![
        entry("/dev/ttyUSB2", PortClass::Usb),
        entry("/dev/ttyS0", PortClass::Pci),
        entry("/dev/ttyUSB0", PortClass::Usb),
        entry("/dev/rfcomm0", PortClass::Bluetooth),
        entry("/dev/ttyACM1", PortClass::Usb),
        entry("/dev/ttyS1", PortClass::Unknown),
    ];
    let names = usb_port_names(fixture);
    assert_eq!(
        names,
        vec![
            "/dev/ttyACM1".to_string(),
            "/dev/ttyUSB0".to_string(),
            "/dev/ttyUSB2".to_string(),
        ]
    );
}

#[test]
fn duplicate_usb_names_are_kept() {
    let fixture = vec![
        entry("/dev/ttyUSB1", PortClass::Usb),
        entry("/dev/ttyUSB0", PortClass::Usb),
        entry("/dev/ttyUSB1", PortClass::Usb),
    ];
    let names = usb_port_names(fixture);
    assert_eq!(
        names,
        vec![
            "/dev/ttyUSB0".to_string(),
            "/dev/ttyUSB1".to_string(),
            "/dev/ttyUSB1".to_string(),
        ]
    );
}

#[test]
fn empty_and_non_usb_fixtures_give_no_names() {
    assert_eq!(usb_port_names(Vec::new()), Vec::<String>::new());
    let fixture = vec![entry("/dev/ttyS0", PortClass::Pci)];
    assert_eq!(usb_port_names(fixture), Vec::<String>::new());
}

#[test]
fn lexicographic_order_matches_std() {
    let pairs = [
        ("", "a"),
        ("a", "a"),
        ("a", "b"),
        ("ab", "b"),
        ("abc", "abd"),
        ("ttyUSB10", "ttyUSB9"),
        ("ttyUSB2", "ttyUSB10"),
    ];
    for (a, b) in pairs {
        assert_eq!(str_le_exec(a, b), a <= b, "ordering of {:?} and {:?}", a, b);
        assert_eq!(str_le_exec(b, a), b <= a, "ordering of {:?} and {:?}", b, a);
    }
}

#[test]
fn successful_enumeration_is_filtered_and_sorted() {
    let fixture = vec![
        entry("/dev/ttyUSB1", PortClass::Usb),
        entry("/dev/ttyS0", PortClass::Pci),
        entry("/dev/ttyUSB0", PortClass::Usb),
    ];
    let result = get_available_ports(Ok(fixture));
    assert_eq!(
        result,
        Ok(vec!["/dev/ttyUSB0".to_string(), "/dev/ttyUSB1".to_string()])
    );
}

#[test]
fn enumeration_failure_is_reported_with_context() {
    let result = get_available_ports(Err("permission denied".to_string()));
    assert_eq!(
        result,
        Err("could not enumerate serial ports: permission denied".to_string())
    );
}
