//! The port directory: from what the OS reports to a list of USB port descriptors.

use vstd::prelude::*;

verus! {

/// What the OS reports of a USB-attached serial device.
pub struct UsbDetails {
    pub vid: u16,
    pub pid: u16,
    pub serial_number: Option<String>,
    pub manufacturer: Option<String>,
    pub product: Option<String>,
}

/// How a serial port is attached to the machine.
pub enum PortKind {
    Usb(UsbDetails),
    Pci,
    Bluetooth,
    Unknown,
}

/// One serial port found by the OS.
pub struct PortEntry {
    pub port_name: String,
    pub kind: PortKind,
}

/// Descriptor of a discoverable USB serial device.
pub struct UsbPortDevice {
    /// The OS-level name used to open the port.
    pub internal_id: String,
    pub vendor_id: u16,
    pub product_id: u16,
    pub serial_number: Option<String>,
    pub manufacturer: Option<String>,
    pub product: Option<String>,
}

/// The mathematical value of a descriptor.
pub ghost struct DeviceModel {
    pub internal_id: Seq<char>,
    pub vendor_id: u16,
    pub product_id: u16,
    pub serial_number: Option<Seq<char>>,
    pub manufacturer: Option<Seq<char>>,
    pub product: Option<Seq<char>>,
}

pub open spec fn text_view(o: Option<String>) -> Option<Seq<char>> {
    match o {
        Some(s) => Some(s@),
        None => None,
    }
}

impl View for UsbPortDevice {
    type V = DeviceModel;

    open spec fn view(&self) -> DeviceModel {
        DeviceModel {
            internal_id: self.internal_id@,
            vendor_id: self.vendor_id,
            product_id: self.product_id,
            serial_number: text_view(self.serial_number),
            manufacturer: text_view(self.manufacturer),
            product: text_view(self.product),
        }
    }
}

/// The descriptor of a port, if it is USB-attached.
pub open spec fn describe(e: PortEntry) -> Option<DeviceModel> {
    match e.kind {
        PortKind::Usb(u) => Some(
            DeviceModel {
                internal_id: e.port_name@,
                vendor_id: u.vid,
                product_id: u.pid,
                serial_number: text_view(u.serial_number),
                manufacturer: text_view(u.manufacturer),
                product: text_view(u.product),
            },
        ),
        _ => None,
    }
}

/// The descriptors of the USB-attached ports among `entries`, in their order.
pub open spec fn usb_devices(entries: Seq<PortEntry>) -> Seq<DeviceModel>
    decreases entries.len(),
{
    if entries.len() == 0 {
        seq![]
    } else {
        let before = usb_devices(entries.drop_last());
        match describe(entries.last()) {
            Some(d) => before.push(d),
            None => before,
        }
    }
}

pub open spec fn models(devices: Seq<UsbPortDevice>) -> Seq<DeviceModel> {
    devices.map_values(|d: UsbPortDevice| d@)
}

fn copy_text(o: &Option<String>) -> (r: Option<String>)
    ensures
        text_view(r) == text_view(*o),
{
    match o {
        Some(s) => Some(s.clone()),
        None => None,
    }
}

/// The descriptor of one port; `None` where it is not USB-attached.
pub fn describe_port(e: &PortEntry) -> (r: Option<UsbPortDevice>)
    ensures
        match r {
            Some(d) => describe(*e) == Some(d@),
            None => describe(*e) is None,
        },
{
    match &e.kind {
        PortKind::Usb(u) => Some(
            UsbPortDevice {
                internal_id: e.port_name.clone(),
                vendor_id: u.vid,
                product_id: u.pid,
                serial_number: copy_text(&u.serial_number),
                manufacturer: copy_text(&u.manufacturer),
                product: copy_text(&u.product),
            },
        ),
        _ => None,
    }
}

/// Keeps the USB-attached ports and describes each; absent optional
/// fields stay absent.
pub fn usb_ports(entries: &Vec<PortEntry>) -> (r: Vec<UsbPortDevice>)
    ensures
        models(r@) == usb_devices(entries@),
{
    let mut out: Vec<UsbPortDevice> = Vec::new();
    let mut i: usize = 0;
    while i < entries.len()
        invariant
            i <= entries@.len(),
            models(out@) == usb_devices(entries@.subrange(0, i as int)),
        decreases entries@.len() - i,
    {
        let ghost done = entries@.subrange(0, i as int);
        let ghost next = entries@.subrange(0, i + 1);
        assert(next.drop_last() == done);
        assert(next.last() == entries@[i as int]);
        match describe_port(&entries[i]) {
            Some(d) => {
                let ghost before = out@;
                out.push(d);
                assert(models(out@) =~= models(before).push(d@));
            },
            None => {},
        }
        i = i + 1;
    }
    assert(entries@.subrange(0, entries@.len() as int) == entries@);
    out
}

} // verus!
