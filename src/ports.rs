use vstd::prelude::*;

verus! {

/// The kind of an attached serial device, as the host reports it.
pub enum PortKind {
    Usb { product: Option<String>, manufacturer: Option<String> },
    Bluetooth,
    Pci,
    Unknown,
}

/// An attached device as the host lists it.
pub struct PortInfo {
    pub name: String,
    pub kind: PortKind,
}

/// An attached device with the label shown to the user.
pub struct PortName {
    pub name: String,
    pub port_type: String,
}

/// The label of a device kind: a USB device is named by its product, else
/// its manufacturer, else plainly as USB.
pub open spec fn label_of(k: PortKind) -> Seq<char> {
    match k {
        PortKind::Usb { product, manufacturer } => match product {
            Some(p) => p@,
            None => match manufacturer {
                Some(m) => m@,
                None => "USB"@,
            },
        },
        PortKind::Bluetooth => "蓝牙"@,
        PortKind::Pci => "PCI"@,
        PortKind::Unknown => "未知"@,
    }
}

/// The label shown for a device of kind `k`.
pub fn port_label(k: &PortKind) -> (r: String)
    ensures
        r@ == label_of(*k),
{
    match k {
        PortKind::Usb { product, manufacturer } => match product {
            Some(p) => p.clone(),
            None => match manufacturer {
                Some(m) => m.clone(),
                None => "USB".to_owned(),
            },
        },
        PortKind::Bluetooth => "蓝牙".to_owned(),
        PortKind::Pci => "PCI".to_owned(),
        PortKind::Unknown => "未知".to_owned(),
    }
}

/// Each listed device, in order, with its name and its label.
pub fn describe_ports(ports: &Vec<PortInfo>) -> (r: Vec<PortName>)
    ensures
        r@.len() == ports@.len(),
        forall|i: int|
            0 <= i < ports@.len() ==> #[trigger] r@[i].name@ == ports@[i].name@
                && r@[i].port_type@ == label_of(ports@[i].kind),
{
    let mut out: Vec<PortName> = Vec::new();
    let mut i: usize = 0;
    while i < ports.len()
        invariant
            i <= ports@.len(),
            out@.len() == i,
            forall|j: int|
                0 <= j < i ==> #[trigger] out@[j].name@ == ports@[j].name@
                    && out@[j].port_type@ == label_of(ports@[j].kind),
        decreases ports@.len() - i,
    {
        let p = &ports[i];
        out.push(PortName { name: p.name.clone(), port_type: port_label(&p.kind) });
        i = i + 1;
    }
    out
}

} // verus!
