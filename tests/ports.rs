use serial_tool::ports::{describe_ports, port_label, PortInfo, PortKind};

#[test]
fn labels_of_each_kind() {
    let usb = PortKind::Usb { product: Some("CP2102".to_string()), manufacturer: Some("Silicon Labs".to_string()) };
    assert_eq!(port_label(&usb), "CP2102");
    let usb = PortKind::Usb { product: None, manufacturer: Some("FTDI".to_string()) };
    assert_eq!(port_label(&usb), "FTDI");
    let usb = PortKind::Usb { product: None, manufacturer: None };
    assert_eq!(port_label(&usb), "USB");
    assert_eq!(port_label(&PortKind::Bluetooth), "蓝牙");
    assert_eq!(port_label(&PortKind::Pci), "PCI");
    assert_eq!(port_label(&PortKind::Unknown), "未知");
}

#[test]
fn describe_keeps_order_and_names() {
    let ports = vec![
        PortInfo { name: "/dev/ttyUSB0".to_string(), kind: PortKind::Usb { product: None, manufacturer: None } },
        PortInfo { name: "/dev/ttyS0".to_string(), kind: PortKind::Unknown },
    ];
    let out = describe_ports(&ports);
    assert_eq!(out.len(), 2);
    assert_eq!(out[0].name, "/dev/ttyUSB0");
    assert_eq!(out[0].port_type, "USB");
    assert_eq!(out[1].name, "/dev/ttyS0");
    assert_eq!(out[1].port_type, "未知");
    assert!(describe_ports(&Vec::new()).is_empty());
}
