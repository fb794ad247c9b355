//! The capture card on the USB bus: picking it and asking it for frames.
use crate::constants::av::DEFAULT_TIMEOUT_MS;
use crate::constants::av::PID_3DS;
use crate::constants::av::VEND_OUT_BUFF_SIZE;
use crate::constants::av::VEND_OUT_IDX;
use crate::constants::av::VEND_OUT_REQ;
use crate::constants::av::VEND_OUT_VALUE;
use crate::constants::av::VID_3DS;
use vstd::prelude::*;

verus! {

/// What the program has changed about the device on the host.
#[derive(Debug, Clone, Copy)]
pub struct DSConfig {
    /// A kernel driver held the device and has been detached.
    pub using_kernel_driver: bool,
}

impl DSConfig {
    pub fn new(using_kernel_driver: bool) -> (config: Self)
        ensures
            config.using_kernel_driver == using_kernel_driver,
    {
        Self { using_kernel_driver }
    }
}

/// Where on the device the frames are read.
#[derive(Debug, Clone, Copy)]
pub struct Endpoint {
    pub config: u8,
    pub iface: u8,
    pub setting: u8,
    pub address: u8,
}

impl Endpoint {
    pub fn new(config: u8, iface: u8, setting: u8, address: u8) -> (endpoint: Self)
        ensures
            endpoint.config == config,
            endpoint.iface == iface,
            endpoint.setting == setting,
            endpoint.address == address,
    {
        Self { config, iface, setting, address }
    }
}

/// The capture card.
#[derive(Debug, Clone, Copy)]
pub struct DS {
    pub config: DSConfig,
    pub endpoint: Endpoint,
}

/// The ids by which a device on the bus is known.
#[derive(Debug, Clone, Copy)]
pub struct DeviceId {
    pub vendor_id: u16,
    pub product_id: u16,
}

impl DeviceId {
    /// The device is a capture card.
    pub open spec fn is_3ds(self) -> bool {
        self.vendor_id == VID_3DS && self.product_id == PID_3DS
    }
}

/// A device is a capture card exactly when both its ids are those of one.
pub proof fn capture_cards_have_both_ids(id: DeviceId)
    ensures
        id.is_3ds() <==> id.vendor_id == 0x16D0 && id.product_id == 0x06A3,
{
}

/// The outcome of looking for the capture card among the devices on the bus.
#[derive(Debug, Clone, Copy)]
pub enum Search {
    /// The first capture card, by its place on the list.
    Found(usize),
    /// A device whose ids could not be read came before any capture card.
    Unreadable(usize),
    /// No device is a capture card.
    Missing,
}

/// The first `n` devices have their ids known and are no capture cards.
pub open spec fn no_3ds_among(devices: Seq<Option<DeviceId>>, n: int) -> bool {
    forall|i: int|
        0 <= i < n ==> (#[trigger] devices[i] matches Some(id) && !id.is_3ds())
}

/// Having no capture card among the first devices is a matter of each of them.
pub proof fn devices_are_judged_one_by_one(devices: Seq<Option<DeviceId>>, n: int)
    requires
        0 <= n < devices.len(),
    ensures
        no_3ds_among(devices, 0),
        no_3ds_among(devices, n + 1) <==> no_3ds_among(devices, n) && (devices[n] matches Some(id)
            && (id.vendor_id != 0x16D0 || id.product_id != 0x06A3)),
{
    if no_3ds_among(devices, n + 1) {
        assert(devices[n] matches Some(id) && !id.is_3ds());
    }
}

/// Looks for the capture card among the devices on the bus. Each device is listed by its ids,
/// or as `None` where they could not be read.
pub fn find_3ds(devices: &[Option<DeviceId>]) -> (search: Search)
    ensures
        match search {
            Search::Found(i) => {
                &&& i < devices@.len()
                &&& devices@[i as int] matches Some(id) && id.is_3ds()
                &&& no_3ds_among(devices@, i as int)
            },
            Search::Unreadable(i) => {
                &&& i < devices@.len()
                &&& devices@[i as int] is None
                &&& no_3ds_among(devices@, i as int)
            },
            Search::Missing => no_3ds_among(devices@, devices@.len() as int),
        },
        search matches Search::Found(i) ==> devices@[i as int] == Some(
            (DeviceId { vendor_id: VID_3DS, product_id: PID_3DS }),
        ),
        forall|j: int|
            0 <= j < (match search {
                Search::Found(i) => i as int,
                Search::Unreadable(i) => i as int,
                Search::Missing => devices@.len() as int,
            }) ==> (#[trigger] devices@[j] matches Some(id) && (id.vendor_id != VID_3DS
                || id.product_id != PID_3DS)),
{
    let mut i: usize = 0;
    while i < devices.len()
        invariant
            i <= devices@.len(),
            no_3ds_among(devices@, i as int),
        decreases devices@.len() - i,
    {
        match devices[i] {
            Some(id) => {
                if id.vendor_id == VID_3DS && id.product_id == PID_3DS {
                    return Search::Found(i);
                }
            },
            None => {
                return Search::Unreadable(i);
            },
        }
        i = i + 1;
    }
    Search::Missing
}

/// One alternate setting of an interface.
#[derive(Debug)]
pub struct InterfaceDescriptor {
    pub interface_number: u8,
    pub setting_number: u8,
    pub endpoint_addresses: Vec<u8>,
}

/// An interface of a device, with its alternate settings.
#[derive(Debug)]
pub struct Interface {
    pub descriptors: Vec<InterfaceDescriptor>,
}

/// A configuration of a device.
#[derive(Debug)]
pub struct ConfigDescriptor {
    pub number: u8,
    pub interfaces: Vec<Interface>,
}

/// Why the capture card cannot be used.
#[derive(Debug)]
pub enum DeviceError {
    /// No capture card is on the bus.
    NotConnected,
    /// The capture card could not be opened.
    NoHandle,
    /// The configuration could not be read, for the given reason.
    NoConfigDescriptor(String),
    /// The configuration has no interface.
    NoInterface,
    /// The interface has no alternate setting.
    NoInterfaceDescription,
    /// The alternate setting has no endpoint.
    NoEndpointDescription,
}

impl DeviceError {
    /// The error in words.
    pub open spec fn text(self) -> Seq<char> {
        match self {
            DeviceError::NotConnected =>
                "Expected device with VID 0x16D0, PID 0x06A3. Please reconnect your 3DS over USB."@,
            DeviceError::NoHandle => "Could not retrieve device handle."@,
            DeviceError::NoConfigDescriptor(reason) => "Could not fetch config descriptor: "@
                + reason@,
            DeviceError::NoInterface => "Unable to retrieve interface."@,
            DeviceError::NoInterfaceDescription => "Unable to retrieve inferface description."@,
            DeviceError::NoEndpointDescription => "Unable to retrieve endpoint description."@,
        }
    }

    pub fn message(&self) -> (message: String)
        ensures
            message@ == self.text(),
            self matches DeviceError::NoConfigDescriptor(reason) ==> message@
                == "Could not fetch config descriptor: "@ + reason@,
    {
        match self {
            DeviceError::NotConnected =>
                "Expected device with VID 0x16D0, PID 0x06A3. Please reconnect your 3DS over USB.".to_owned(),
            DeviceError::NoHandle => "Could not retrieve device handle.".to_owned(),
            DeviceError::NoConfigDescriptor(reason) => {
                let mut message = "Could not fetch config descriptor: ".to_owned();
                message.append(reason.as_str());
                message
            },
            DeviceError::NoInterface => "Unable to retrieve interface.".to_owned(),
            DeviceError::NoInterfaceDescription =>
                "Unable to retrieve inferface description.".to_owned(),
            DeviceError::NoEndpointDescription =>
                "Unable to retrieve endpoint description.".to_owned(),
        }
    }
}

/// The capture card whose configuration has been read: its frames are read at the last endpoint
/// of the last alternate setting of the last interface. `config` is the configuration, or the
/// reason why it could not be read.
pub fn get_3ds_device(config: Result<ConfigDescriptor, String>) -> (ds: Result<DS, DeviceError>)
    ensures
        match config {
            Err(reason) => ds == Err::<DS, DeviceError>(DeviceError::NoConfigDescriptor(reason)),
            Ok(c) => if c.interfaces@.len() == 0 {
                ds == Err::<DS, DeviceError>(DeviceError::NoInterface)
            } else if c.interfaces@.last().descriptors@.len() == 0 {
                ds == Err::<DS, DeviceError>(DeviceError::NoInterfaceDescription)
            } else {
                let d = c.interfaces@.last().descriptors@.last();
                if d.endpoint_addresses@.len() == 0 {
                    ds == Err::<DS, DeviceError>(DeviceError::NoEndpointDescription)
                } else {
                    ds == Ok::<DS, DeviceError>(
                        (DS {
                            config: (DSConfig { using_kernel_driver: false }),
                            endpoint: (Endpoint {
                                config: c.number,
                                iface: d.interface_number,
                                setting: d.setting_number,
                                address: d.endpoint_addresses@.last(),
                            }),
                        }),
                    )
                }
            },
        },
{
    let config_desc = match config {
        Ok(c) => c,
        Err(reason) => {
            return Err(DeviceError::NoConfigDescriptor(reason));
        },
    };
    let interface = match config_desc.interfaces.as_slice().last() {
        Some(interface) => interface,
        None => {
            return Err(DeviceError::NoInterface);
        },
    };
    let interface_desc = match interface.descriptors.as_slice().last() {
        Some(interface_desc) => interface_desc,
        None => {
            return Err(DeviceError::NoInterfaceDescription);
        },
    };
    let address: u8 = match interface_desc.endpoint_addresses.as_slice().last() {
        Some(address) => *address,
        None => {
            return Err(DeviceError::NoEndpointDescription);
        },
    };
    let endpoint = Endpoint::new(
        config_desc.number,
        interface_desc.interface_number,
        interface_desc.setting_number,
        address,
    );
    Ok(DS::new(endpoint))
}

impl DS {
    /// A capture card that has not been set up yet.
    pub fn new(endpoint: Endpoint) -> (ds: Self)
        ensures
            ds.endpoint == endpoint,
            !ds.config.using_kernel_driver,
    {
        let config = DSConfig::new(false);
        Self { config, endpoint }
    }
}

/// Calls `rusb::request_type` for an outgoing vendor request to the device itself. That function
/// ors the bits of its three arguments, which are 0x00 for `Direction::Out`, 0x40 for
/// `RequestType::Vendor` and 0x00 for `Recipient::Device`.
#[verifier::external_body]
fn vendor_out_request_type() -> (value: u8)
    ensures
        value == 0x40,
{
    rusb::request_type(rusb::Direction::Out, rusb::RequestType::Vendor, rusb::Recipient::Device)
}

/// A control transfer to the device.
pub struct ControlRequest {
    pub request_type: u8,
    pub request: u8,
    pub value: u16,
    pub index: u16,
    pub data: [u8; VEND_OUT_BUFF_SIZE],
    pub timeout_ms: u64,
}

impl DS {
    /// The control transfer that asks the card for the next frame.
    pub fn write_control(&self) -> (request: ControlRequest)
        ensures
            request.request_type == 0x40,
            request.request == VEND_OUT_REQ,
            request.value == VEND_OUT_VALUE,
            request.index == VEND_OUT_IDX,
            forall|i: int| 0 <= i < VEND_OUT_BUFF_SIZE ==> request.data@[i] == 0,
            request.timeout_ms == DEFAULT_TIMEOUT_MS,
    {
        ControlRequest {
            request_type: vendor_out_request_type(),
            request: VEND_OUT_REQ,
            value: VEND_OUT_VALUE,
            index: VEND_OUT_IDX,
            data: [0u8; VEND_OUT_BUFF_SIZE],
            timeout_ms: DEFAULT_TIMEOUT_MS,
        }
    }
}

} // verus!
