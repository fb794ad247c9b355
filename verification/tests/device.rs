use oxids::device::{
    find_3ds, get_3ds_device, ConfigDescriptor, DSConfig, DeviceError, DeviceId, Endpoint, Interface,
    InterfaceDescriptor, Search, DS,
};
use oxids::setup::{Setup, UsbCommand};

fn id(vendor_id: u16, product_id: u16) -> Option<DeviceId> {
    Some(DeviceId { vendor_id, product_id })
}

#[test]
fn constructors_keep_their_arguments() {
    assert!(DSConfig::new(true).using_kernel_driver);
    assert!(!DSConfig::new(false).using_kernel_driver);
    let e = Endpoint::new(1, 2, 3, 130);
    assert_eq!((e.config, e.iface, e.setting, e.address), (1, 2, 3, 130));
    let ds = DS::new(e);
    assert!(!ds.config.using_kernel_driver);
    assert_eq!(ds.endpoint.address, 130);
}

#[test]
fn finds_the_first_capture_card() {
    let devices = [
        id(0x16D0, 0x06A4),
        id(0x16D1, 0x06A3),
        id(0x16D0, 0x06A3),
        id(0x16D0, 0x06A3),
        None,
    ];
    assert!(matches!(find_3ds(&devices), Search::Found(2)));
}

#[test]
fn stops_at_an_unreadable_device() {
    assert!(matches!(find_3ds(&[id(1, 2), None, id(0x16D0, 0x06A3)]), Search::Unreadable(1)));
}

#[test]
fn no_capture_card_is_missing() {
    assert!(matches!(find_3ds(&[id(1, 2), id(0x06A3, 0x16D0)]), Search::Missing));
    assert!(matches!(find_3ds(&[]), Search::Missing));
}

fn setting(interface_number: u8, setting_number: u8, endpoint_addresses: Vec<u8>) -> InterfaceDescriptor {
    InterfaceDescriptor { interface_number, setting_number, endpoint_addresses }
}

#[test]
fn takes_the_last_endpoint() {
    let config = ConfigDescriptor {
        number: 1,
        interfaces: vec![
            Interface { descriptors: vec![setting(0, 0, vec![1])] },
            Interface { descriptors: vec![setting(2, 0, vec![]), setting(2, 5, vec![0x81, 0x82])] },
        ],
    };
    let ds = get_3ds_device(Ok(config)).unwrap();
    let e = ds.endpoint;
    assert_eq!((e.config, e.iface, e.setting, e.address), (1, 2, 5, 0x82));
    assert!(!ds.config.using_kernel_driver);
}

fn message_of(config: Result<ConfigDescriptor, String>) -> String {
    get_3ds_device(config).unwrap_err().message()
}

#[test]
fn errors_say_what_is_missing() {
    assert_eq!(message_of(Err("Pipe".to_string())), "Could not fetch config descriptor: Pipe");
    assert_eq!(
        message_of(Ok(ConfigDescriptor { number: 1, interfaces: vec![] })),
        "Unable to retrieve interface."
    );
    let bare = Interface { descriptors: vec![] };
    assert_eq!(
        message_of(Ok(ConfigDescriptor { number: 1, interfaces: vec![bare] })),
        "Unable to retrieve inferface description."
    );
    let deaf = Interface { descriptors: vec![setting(0, 0, vec![])] };
    assert_eq!(
        message_of(Ok(ConfigDescriptor { number: 1, interfaces: vec![deaf] })),
        "Unable to retrieve endpoint description."
    );
    assert_eq!(
        DeviceError::NotConnected.message(),
        "Expected device with VID 0x16D0, PID 0x06A3. Please reconnect your 3DS over USB."
    );
    assert_eq!(DeviceError::NoHandle.message(), "Could not retrieve device handle.");
}

#[test]
fn asks_for_the_next_frame() {
    let request = DS::new(Endpoint::new(1, 0, 0, 130)).write_control();
    assert_eq!(request.request_type, 0x40);
    assert_eq!(request.request, 0x40);
    assert_eq!((request.value, request.index), (0, 0));
    assert_eq!(request.data, [0u8; 512]);
    assert_eq!(request.timeout_ms, 100);
}

fn run_setup(replies: &[Result<bool, ()>]) -> (Vec<UsbCommand>, Setup, bool) {
    let mut ds = DS::new(Endpoint::new(1, 2, 3, 130));
    let mut stage = Setup::Query;
    let mut given = Vec::new();
    for reply in replies {
        match ds.setup_command(stage) {
            Some(command) => given.push(command),
            None => break,
        }
        stage = ds.configure(stage, *reply);
    }
    (given, stage, ds.config.using_kernel_driver)
}

#[test]
fn sets_up_a_free_device() {
    let expected = vec![
        UsbCommand::QueryKernelDriver { iface: 2 },
        UsbCommand::SetActiveConfiguration { config: 1 },
        UsbCommand::ClaimInterface { iface: 2 },
        UsbCommand::SetAlternateSetting { iface: 2, setting: 3 },
    ];
    for first in [Ok(false), Err(())] {
        let replies = [first, Ok(true), Ok(true), Ok(true), Ok(true)];
        assert_eq!(run_setup(&replies), (expected.clone(), Setup::Done, false));
    }
}

#[test]
fn detaches_a_kernel_driver_first() {
    let expected = vec![
        UsbCommand::QueryKernelDriver { iface: 2 },
        UsbCommand::DetachKernelDriver { iface: 2 },
        UsbCommand::SetActiveConfiguration { config: 1 },
        UsbCommand::ClaimInterface { iface: 2 },
        UsbCommand::SetAlternateSetting { iface: 2, setting: 3 },
    ];
    assert_eq!(run_setup(&[Ok(true); 6]), (expected, Setup::Done, true));
}

#[test]
fn a_failing_command_ends_the_setup() {
    for failing in 1..5 {
        let mut replies = [Ok(true); 5];
        replies[failing] = Err(());
        let (given, stage, _) = run_setup(&replies);
        assert_eq!(given.len(), failing + 1);
        assert_eq!(stage, Setup::Failed);
    }
}
