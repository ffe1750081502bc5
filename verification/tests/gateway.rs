use bluetooth_widget::gateway::{
    BluetoothService, Operation, Outcome, Reply, Request, TRANSPORT_TIMEOUT_MS,
};
use bluetooth_widget::{
    BluetoothDevice, Command, CommandKind, DeviceProbe, OrderingPolicy, ServiceError,
};

/// A device as the stand-in transport knows it.
struct Peer {
    address: String,
    name: Option<String>,
    icon: Option<String>,
    connected: bool,
    paired: bool,
    /// The device answers no query.
    silent: bool,
}

/// A stand-in for the transport. It records every call.
struct Transport {
    opens: bool,
    lists: bool,
    obeys: bool,
    powered: bool,
    peers: Vec<Peer>,
    calls: Vec<Request>,
}

impl Transport {
    fn new(peers: Vec<Peer>) -> Transport {
        Transport { opens: true, lists: true, obeys: true, powered: false, peers, calls: Vec::new() }
    }

    fn peer(&mut self, address: &str) -> Option<&mut Peer> {
        self.peers.iter_mut().find(|p| p.address == address && !p.silent)
    }

    fn answer(&mut self, request: Request) -> Reply {
        let reply = match &request {
            Request::Open => {
                if self.opens {
                    Reply::Done
                } else {
                    Reply::Failed
                }
            }
            Request::ListDevices => {
                if self.lists {
                    Reply::Addresses(self.peers.iter().map(|p| p.address.clone()).collect())
                } else {
                    Reply::Failed
                }
            }
            Request::Describe(address) => match self.peer(address) {
                Some(p) => Reply::Description(DeviceProbe {
                    name: p.name.clone(),
                    icon: p.icon.clone(),
                    connected: Some(p.connected),
                    paired: Some(p.paired),
                }),
                None => Reply::Failed,
            },
            Request::IsPowered => Reply::Flag(self.powered),
            Request::IsConnected(address) => match self.peer(address) {
                Some(p) => Reply::Flag(p.connected),
                None => Reply::Failed,
            },
            Request::IsPaired(address) => match self.peer(address) {
                Some(p) => Reply::Flag(p.paired),
                None => Reply::Failed,
            },
            Request::Apply(command) => {
                if !self.obeys {
                    Reply::Failed
                } else {
                    match command {
                        Command::SetPower(on) => {
                            self.powered = *on;
                            Reply::Done
                        }
                        Command::Device(kind, address) => match self.peer(address) {
                            Some(p) => {
                                match kind {
                                    CommandKind::Connect => p.connected = true,
                                    CommandKind::Disconnect => p.connected = false,
                                    CommandKind::Pair => p.paired = true,
                                }
                                Reply::Done
                            }
                            None => Reply::Failed,
                        },
                    }
                }
            }
        };
        self.calls.push(request);
        reply
    }

    fn changes(&self) -> Vec<&Request> {
        self.calls.iter().filter(|r| r.is_change()).collect()
    }
}

fn peer(address: &str, name: &str, connected: bool, paired: bool) -> Peer {
    Peer {
        address: address.to_string(),
        name: Some(name.to_string()),
        icon: Some("audio-headset".to_string()),
        connected,
        paired,
        silent: false,
    }
}

fn run(operation: Operation, transport: &mut Transport) -> Outcome {
    let mut operation = operation;
    loop {
        match operation.request() {
            Some(request) => {
                assert!(!operation.is_finished());
                let reply = transport.answer(request);
                operation = operation.advance(reply);
            }
            None => {
                assert!(operation.is_finished());
                return operation.into_outcome().unwrap();
            }
        }
    }
}

fn service(transport: &mut Transport) -> BluetoothService {
    match run(BluetoothService::new(), transport) {
        Outcome::Started(Ok(service)) => service,
        other => panic!("no gateway: {:?}", other),
    }
}

fn ready(peers: Vec<Peer>) -> (BluetoothService, Transport) {
    let mut transport = Transport::new(peers);
    let service = service(&mut transport);
    transport.calls.clear();
    (service, transport)
}

#[test]
fn the_transport_timeout_is_a_few_seconds() {
    assert_eq!(TRANSPORT_TIMEOUT_MS, 5000);
}

#[test]
fn startup_opens_the_session_and_powers_the_adapter_on() {
    let mut transport = Transport::new(Vec::new());
    let outcome = run(BluetoothService::new(), &mut transport);
    assert!(matches!(outcome, Outcome::Started(Ok(_))));
    assert_eq!(transport.calls, vec![Request::Open, Request::Apply(Command::SetPower(true))]);
    assert!(transport.powered);
    assert_eq!(outcome.condition(), None);
}

#[test]
fn startup_fails_where_the_session_does_not_open() {
    let mut transport = Transport::new(Vec::new());
    transport.opens = false;
    let outcome = run(BluetoothService::new(), &mut transport);
    assert_eq!(outcome, Outcome::Started(Err(ServiceError::BackendUnavailable)));
    assert_eq!(transport.calls, vec![Request::Open]);
    assert_eq!(outcome.condition(), Some(ServiceError::BackendUnavailable));
}

#[test]
fn startup_fails_where_the_adapter_cannot_be_powered_on() {
    let mut transport = Transport::new(Vec::new());
    transport.obeys = false;
    let outcome = run(BluetoothService::new(), &mut transport);
    assert_eq!(outcome, Outcome::Started(Err(ServiceError::BackendUnavailable)));
    assert_eq!(transport.calls, vec![Request::Open, Request::Apply(Command::SetPower(true))]);
}

#[test]
fn startup_takes_a_reply_of_the_wrong_kind_as_a_failure() {
    let operation = BluetoothService::new().advance(Reply::Flag(true));
    assert_eq!(
        operation.into_outcome(),
        Some(Outcome::Started(Err(ServiceError::BackendUnavailable)))
    );
}

#[test]
fn the_gateway_keeps_the_policy_it_was_started_with() {
    let mut transport = Transport::new(Vec::new());
    let started = run(BluetoothService::new(), &mut transport);
    match started {
        Outcome::Started(Ok(service)) => assert_eq!(service.policy().preferred_name, "WF-C700"),
        other => panic!("no gateway: {:?}", other),
    }
    let policy = OrderingPolicy::new("Buds".to_string());
    match run(BluetoothService::with_policy(policy), &mut transport) {
        Outcome::Started(Ok(service)) => assert_eq!(service.policy().preferred_name, "Buds"),
        other => panic!("no gateway: {:?}", other),
    }
}

#[test]
fn an_operation_in_progress_has_no_outcome() {
    assert_eq!(BluetoothService::new().into_outcome(), None);
    let (service, _) = ready(Vec::new());
    assert_eq!(service.get_devices().into_outcome(), None);
    assert!(!service.is_powered().is_finished());
}

#[test]
fn a_finished_operation_ignores_replies() {
    let (service, _) = ready(Vec::new());
    let done = service.is_powered().advance(Reply::Flag(true));
    assert!(done.is_finished());
    assert_eq!(done.request(), None);
    let still = done.advance(Reply::Flag(false)).advance(Reply::Failed);
    assert_eq!(still.into_outcome(), Some(Outcome::Powered(true)));
}

#[test]
fn the_power_query_reads_the_adapter() {
    let (service, mut transport) = ready(Vec::new());
    assert_eq!(run(service.is_powered(), &mut transport), Outcome::Powered(true));
    transport.powered = false;
    assert_eq!(run(service.is_powered(), &mut transport), Outcome::Powered(false));
    assert_eq!(transport.calls, vec![Request::IsPowered, Request::IsPowered]);
}

#[test]
fn the_power_query_reads_off_where_it_fails() {
    let (service, _) = ready(Vec::new());
    let outcome = service.is_powered().advance(Reply::Failed).into_outcome();
    assert_eq!(outcome, Some(Outcome::Powered(false)));
    let outcome = service.is_powered().advance(Reply::Done).into_outcome();
    assert_eq!(outcome, Some(Outcome::Powered(false)));
}

#[test]
fn power_is_switched_without_a_query() {
    let (service, mut transport) = ready(Vec::new());
    assert_eq!(run(service.power_off(), &mut transport), Outcome::Command(Ok(())));
    assert!(!transport.powered);
    assert_eq!(run(service.power_on(), &mut transport), Outcome::Command(Ok(())));
    assert!(transport.powered);
    assert_eq!(
        transport.calls,
        vec![Request::Apply(Command::SetPower(false)), Request::Apply(Command::SetPower(true))]
    );
}

#[test]
fn a_failed_power_switch_is_a_failed_command() {
    let (service, mut transport) = ready(Vec::new());
    transport.obeys = false;
    let outcome = run(service.power_off(), &mut transport);
    assert_eq!(
        outcome,
        Outcome::Command(Err(ServiceError::CommandFailed(Command::SetPower(false))))
    );
    assert_eq!(
        outcome.condition(),
        Some(ServiceError::CommandFailed(Command::SetPower(false)))
    );
    assert!(transport.powered);
}

#[test]
fn connect_connects_a_device_that_is_not_connected() {
    let (service, mut transport) = ready(vec![peer("X", "Buds", false, true)]);
    let outcome = run(service.connect_device("X".to_string()), &mut transport);
    assert_eq!(outcome, Outcome::Command(Ok(())));
    assert_eq!(
        transport.calls,
        vec![
            Request::IsConnected("X".to_string()),
            Request::Apply(Command::Device(CommandKind::Connect, "X".to_string())),
        ]
    );
    assert!(transport.peers[0].connected);
}

#[test]
fn connect_twice_in_a_row_connects_once() {
    let (service, mut transport) = ready(vec![peer("X", "Buds", false, true)]);
    assert_eq!(
        run(service.connect_device("X".to_string()), &mut transport),
        Outcome::Command(Ok(()))
    );
    assert_eq!(
        run(service.connect_device("X".to_string()), &mut transport),
        Outcome::Command(Ok(()))
    );
    assert_eq!(transport.changes().len(), 1);
}

#[test]
fn connect_leaves_a_connected_device_alone() {
    let (service, mut transport) = ready(vec![peer("X", "Buds", true, true)]);
    for _ in 0..2 {
        let outcome = run(service.connect_device("X".to_string()), &mut transport);
        assert_eq!(outcome, Outcome::Command(Ok(())));
    }
    assert!(transport.changes().is_empty());
    assert_eq!(
        transport.calls,
        vec![Request::IsConnected("X".to_string()), Request::IsConnected("X".to_string())]
    );
}

#[test]
fn pair_leaves_a_paired_device_alone() {
    let (service, mut transport) = ready(vec![peer("Y", "Alpha", false, true)]);
    let outcome = run(service.pair_device("Y".to_string()), &mut transport);
    assert_eq!(outcome, Outcome::Command(Ok(())));
    assert!(transport.changes().is_empty());
    assert_eq!(transport.calls, vec![Request::IsPaired("Y".to_string())]);
}

#[test]
fn pair_pairs_a_device_that_is_not_paired() {
    let (service, mut transport) = ready(vec![peer("Y", "Alpha", false, false)]);
    let outcome = run(service.pair_device("Y".to_string()), &mut transport);
    assert_eq!(outcome, Outcome::Command(Ok(())));
    assert_eq!(
        transport.calls,
        vec![
            Request::IsPaired("Y".to_string()),
            Request::Apply(Command::Device(CommandKind::Pair, "Y".to_string())),
        ]
    );
    assert!(transport.peers[0].paired);
}

#[test]
fn disconnect_disconnects_a_connected_device_only() {
    let (service, mut transport) = ready(vec![peer("X", "Buds", true, true)]);
    for _ in 0..2 {
        let outcome = run(service.disconnect_device("X".to_string()), &mut transport);
        assert_eq!(outcome, Outcome::Command(Ok(())));
    }
    assert_eq!(
        transport.calls,
        vec![
            Request::IsConnected("X".to_string()),
            Request::Apply(Command::Device(CommandKind::Disconnect, "X".to_string())),
            Request::IsConnected("X".to_string()),
        ]
    );
    assert!(!transport.peers[0].connected);
}

#[test]
fn a_command_fails_where_the_state_cannot_be_read() {
    let (service, mut transport) = ready(Vec::new());
    for kind in [CommandKind::Connect, CommandKind::Disconnect, CommandKind::Pair] {
        let command = Command::Device(kind, "gone".to_string());
        let outcome = run(service.execute(command.clone()), &mut transport);
        assert_eq!(outcome, Outcome::Command(Err(ServiceError::CommandFailed(command))));
    }
    assert!(transport.changes().is_empty());
    assert_eq!(transport.calls.len(), 3);
}

#[test]
fn a_command_fails_where_the_transport_refuses_the_change() {
    let (service, mut transport) = ready(vec![peer("X", "Buds", false, false)]);
    transport.obeys = false;
    for kind in [CommandKind::Connect, CommandKind::Pair] {
        let command = Command::Device(kind, "X".to_string());
        let outcome = run(service.execute(command.clone()), &mut transport);
        assert_eq!(
            outcome.condition(),
            Some(ServiceError::CommandFailed(command.clone()))
        );
        assert_eq!(outcome, Outcome::Command(Err(ServiceError::CommandFailed(command))));
    }
    assert_eq!(transport.changes().len(), 2);
    assert!(!transport.peers[0].connected);
    assert!(!transport.peers[0].paired);
}

#[test]
fn execute_does_what_the_named_methods_do() {
    let (service, _) = ready(Vec::new());
    assert_eq!(service.execute(Command::SetPower(true)), service.power_on());
    assert_eq!(service.execute(Command::SetPower(false)), service.power_off());
    assert_eq!(
        service.execute(Command::Device(CommandKind::Connect, "X".to_string())),
        service.connect_device("X".to_string())
    );
    assert_eq!(
        service.execute(Command::Device(CommandKind::Disconnect, "X".to_string())),
        service.disconnect_device("X".to_string())
    );
    assert_eq!(
        service.execute(Command::Device(CommandKind::Pair, "X".to_string())),
        service.pair_device("X".to_string())
    );
}

#[test]
fn only_apply_changes_state() {
    assert!(Request::Apply(Command::SetPower(true)).is_change());
    assert!(Request::Apply(Command::Device(CommandKind::Pair, "X".to_string())).is_change());
    assert!(!Request::Open.is_change());
    assert!(!Request::ListDevices.is_change());
    assert!(!Request::IsPowered.is_change());
    assert!(!Request::Describe("X".to_string()).is_change());
    assert!(!Request::IsConnected("X".to_string()).is_change());
    assert!(!Request::IsPaired("X".to_string()).is_change());
}

#[test]
fn enumeration_lists_the_devices_in_display_order() {
    let (service, mut transport) =
        ready(vec![peer("X", "WF-C700", false, true), peer("Y", "Alpha", true, true)]);
    let outcome = run(service.get_devices(), &mut transport);
    match &outcome {
        Outcome::Devices { devices, partial } => {
            let names: Vec<&str> = devices.iter().map(|d| d.name.as_str()).collect();
            assert_eq!(names, vec!["WF-C700", "Alpha"]);
            assert!(!*partial);
        }
        other => panic!("no devices: {:?}", other),
    }
    assert_eq!(outcome.condition(), None);
    assert_eq!(
        transport.calls,
        vec![
            Request::ListDevices,
            Request::Describe("X".to_string()),
            Request::Describe("Y".to_string()),
        ]
    );
}

#[test]
fn enumeration_breaks_ties_by_name() {
    let (service, mut transport) =
        ready(vec![peer("A", "Zed", true, true), peer("B", "Beta", true, true)]);
    match run(service.get_devices(), &mut transport) {
        Outcome::Devices { devices, partial } => {
            let names: Vec<&str> = devices.iter().map(|d| d.name.as_str()).collect();
            assert_eq!(names, vec!["Beta", "Zed"]);
            assert!(!partial);
        }
        other => panic!("no devices: {:?}", other),
    }
}

#[test]
fn enumeration_keeps_a_device_that_does_not_answer() {
    let mut silent = peer("Q", "Quiet", true, true);
    silent.silent = true;
    let mut nameless = peer("N", "", false, true);
    nameless.name = None;
    let (service, mut transport) = ready(vec![silent, peer("B", "Beta", false, false), nameless]);
    let outcome = run(service.get_devices(), &mut transport);
    assert_eq!(outcome.condition(), Some(ServiceError::PartialEnumeration));
    assert_eq!(
        outcome,
        Outcome::Devices {
            devices: vec![
                BluetoothDevice {
                    address: "N".to_string(),
                    name: "Unknown Device".to_string(),
                    icon: "audio-headset".to_string(),
                    connected: false,
                    paired: true,
                },
                BluetoothDevice {
                    address: "B".to_string(),
                    name: "Beta".to_string(),
                    icon: "audio-headset".to_string(),
                    connected: false,
                    paired: false,
                },
                BluetoothDevice {
                    address: "Q".to_string(),
                    name: "Unknown Device".to_string(),
                    icon: "bluetooth".to_string(),
                    connected: false,
                    paired: false,
                },
            ],
            partial: true,
        }
    );
    assert!(transport.changes().is_empty());
}

#[test]
fn enumeration_lists_nothing_where_the_addresses_cannot_be_read() {
    let (service, mut transport) = ready(vec![peer("X", "Buds", true, true)]);
    transport.lists = false;
    let outcome = run(service.get_devices(), &mut transport);
    assert_eq!(outcome, Outcome::Devices { devices: Vec::new(), partial: false });
    assert_eq!(transport.calls, vec![Request::ListDevices]);
}

#[test]
fn enumeration_of_no_devices_is_an_empty_list() {
    let (service, mut transport) = ready(Vec::new());
    let outcome = run(service.get_devices(), &mut transport);
    assert_eq!(outcome, Outcome::Devices { devices: Vec::new(), partial: false });
    assert_eq!(transport.calls, vec![Request::ListDevices]);
}

#[test]
fn enumeration_orders_by_the_policy_of_the_gateway() {
    let mut transport =
        Transport::new(vec![peer("1", "WF-C700", true, true), peer("2", "Zed", false, false)]);
    let policy = OrderingPolicy::new("Zed".to_string());
    let service = match run(BluetoothService::with_policy(policy), &mut transport) {
        Outcome::Started(Ok(service)) => service,
        other => panic!("no gateway: {:?}", other),
    };
    match run(service.get_devices(), &mut transport) {
        Outcome::Devices { devices, .. } => {
            let names: Vec<&str> = devices.iter().map(|d| d.name.as_str()).collect();
            assert_eq!(names, vec!["Zed", "WF-C700"]);
        }
        other => panic!("no devices: {:?}", other),
    }
}

#[test]
fn a_description_of_the_wrong_kind_counts_as_none() {
    let (service, _) = ready(Vec::new());
    let operation = service
        .get_devices()
        .advance(Reply::Addresses(vec!["X".to_string()]))
        .advance(Reply::Flag(true));
    assert_eq!(
        operation.into_outcome(),
        Some(Outcome::Devices {
            devices: vec![BluetoothDevice {
                address: "X".to_string(),
                name: "Unknown Device".to_string(),
                icon: "bluetooth".to_string(),
                connected: false,
                paired: false,
            }],
            partial: true,
        })
    );
}

#[test]
fn only_a_startup_failure_is_fatal() {
    assert!(ServiceError::BackendUnavailable.is_fatal());
    assert!(!ServiceError::CommandFailed(Command::SetPower(true)).is_fatal());
    assert!(!ServiceError::PartialEnumeration.is_fatal());
    assert!(!ServiceError::SettingsLoadFailure.is_fatal());
}

#[test]
fn an_abandoned_startup_has_no_gateway() {
    let unavailable = Outcome::Started(Err(ServiceError::BackendUnavailable));
    assert_eq!(BluetoothService::new().abandon(), unavailable);
    assert_eq!(BluetoothService::new().advance(Reply::Done).abandon(), unavailable);
}

#[test]
fn an_abandoned_command_has_failed() {
    let (service, _) = ready(Vec::new());
    assert_eq!(
        service.power_on().abandon(),
        Outcome::Command(Err(ServiceError::CommandFailed(Command::SetPower(true))))
    );
    let connect = Command::Device(CommandKind::Connect, "X".to_string());
    assert_eq!(
        service.connect_device("X".to_string()).abandon(),
        Outcome::Command(Err(ServiceError::CommandFailed(connect.clone())))
    );
    assert_eq!(
        service.connect_device("X".to_string()).advance(Reply::Flag(false)).abandon(),
        Outcome::Command(Err(ServiceError::CommandFailed(connect)))
    );
}

#[test]
fn an_abandoned_power_query_reads_off() {
    let (service, _) = ready(Vec::new());
    assert_eq!(service.is_powered().abandon(), Outcome::Powered(false));
}

#[test]
fn an_abandoned_enumeration_lists_every_known_address() {
    let (service, _) = ready(Vec::new());
    assert_eq!(
        service.get_devices().abandon(),
        Outcome::Devices { devices: Vec::new(), partial: false }
    );
    let addresses = vec!["B".to_string(), "A".to_string(), "C".to_string()];
    let description = Reply::Description(DeviceProbe {
        name: Some("Buds".to_string()),
        icon: None,
        connected: Some(true),
        paired: Some(true),
    });
    let operation = service.get_devices().advance(Reply::Addresses(addresses)).advance(description);
    let placeholder = |address: &str| BluetoothDevice {
        address: address.to_string(),
        name: "Unknown Device".to_string(),
        icon: "bluetooth".to_string(),
        connected: false,
        paired: false,
    };
    assert_eq!(
        operation.abandon(),
        Outcome::Devices {
            devices: vec![
                BluetoothDevice {
                    address: "B".to_string(),
                    name: "Buds".to_string(),
                    icon: "bluetooth".to_string(),
                    connected: true,
                    paired: true,
                },
                placeholder("A"),
                placeholder("C"),
            ],
            partial: true,
        }
    );
}

#[test]
fn a_finished_operation_is_abandoned_with_its_outcome() {
    let (service, _) = ready(Vec::new());
    let done = service.is_powered().advance(Reply::Flag(true));
    assert_eq!(done.abandon(), Outcome::Powered(true));
}
