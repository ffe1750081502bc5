//! The gateway to the Bluetooth transport, without its I/O.
//!
//! Every gateway operation is a conversation with the transport: the
//! operation names the next transport call, the caller makes the call
//! and hands the reply back, until the operation has its outcome. What
//! is asked next, and what a failed call means, is decided here.

use vstd::prelude::*;
use crate::command::{Command, CommandKind, CommandView};
use crate::device::{record_of, views, BluetoothDevice, DeviceProbe, DeviceView, ProbeView};
use crate::error::{ServiceError, ServiceErrorView};
use crate::ordering::{OrderingPolicy, PolicyView};

verus! {

/// Upper bound on the time one transport call may take, in milliseconds.
/// A call that takes longer counts as failed.
pub const TRANSPORT_TIMEOUT_MS: u64 = 5000;

/// One call to the transport.
#[derive(Debug, PartialEq, Eq)]
pub enum Request {
    /// Open the session and select the adapter.
    Open,
    /// List the addresses of the known devices.
    ListDevices,
    /// Read name, class tag, connected flag and paired flag of a device.
    Describe(String),
    /// Read whether the adapter is powered.
    IsPowered,
    /// Read whether a device is connected.
    IsConnected(String),
    /// Read whether a device is paired.
    IsPaired(String),
    /// Change the state of the adapter or of a device.
    Apply(Command),
}

/// What a `Request` holds, as mathematical values.
pub enum RequestView {
    Open,
    ListDevices,
    Describe(Seq<char>),
    IsPowered,
    IsConnected(Seq<char>),
    IsPaired(Seq<char>),
    Apply(CommandView),
}

impl RequestView {
    /// Whether the call changes the state of the adapter or of a device.
    pub open spec fn is_change(self) -> bool {
        self is Apply
    }
}

impl View for Request {
    type V = RequestView;

    open spec fn view(&self) -> RequestView {
        match self {
            Request::Open => RequestView::Open,
            Request::ListDevices => RequestView::ListDevices,
            Request::Describe(address) => RequestView::Describe(address@),
            Request::IsPowered => RequestView::IsPowered,
            Request::IsConnected(address) => RequestView::IsConnected(address@),
            Request::IsPaired(address) => RequestView::IsPaired(address@),
            Request::Apply(command) => RequestView::Apply(command@),
        }
    }
}

impl Request {
    /// Whether the call changes the state of the adapter or of a device.
    pub fn is_change(&self) -> (change: bool)
        ensures
            change == self@.is_change(),
    {
        match self {
            Request::Apply(_) => true,
            _ => false,
        }
    }
}

/// What the transport answered to one call.
#[derive(Debug, PartialEq, Eq)]
pub enum Reply {
    /// The call failed or timed out.
    Failed,
    /// The call succeeded and has nothing to report.
    Done,
    /// The flag that was read.
    Flag(bool),
    /// The addresses of the known devices.
    Addresses(Vec<String>),
    /// What a device reported of itself.
    Description(DeviceProbe),
}

/// What a `Reply` holds, as mathematical values.
pub enum ReplyView {
    Failed,
    Done,
    Flag(bool),
    Addresses(Seq<Seq<char>>),
    Description(ProbeView),
}

/// The views of a sequence of texts, in the same order.
pub open spec fn texts(s: Seq<String>) -> Seq<Seq<char>> {
    Seq::new(s.len(), |i: int| s[i]@)
}

impl View for Reply {
    type V = ReplyView;

    open spec fn view(&self) -> ReplyView {
        match self {
            Reply::Failed => ReplyView::Failed,
            Reply::Done => ReplyView::Done,
            Reply::Flag(flag) => ReplyView::Flag(*flag),
            Reply::Addresses(addresses) => ReplyView::Addresses(texts(addresses@)),
            Reply::Description(probe) => ReplyView::Description(probe@),
        }
    }
}

/// The gateway, once the transport session is up. It holds no state of the
/// adapter: whatever is asked is read from the transport anew.
#[derive(Debug, PartialEq, Eq)]
pub struct BluetoothService {
    policy: OrderingPolicy,
}

/// What a `BluetoothService` holds, as mathematical values.
pub struct ServiceView {
    pub policy: PolicyView,
}

impl View for BluetoothService {
    type V = ServiceView;

    closed spec fn view(&self) -> ServiceView {
        ServiceView { policy: self.policy@ }
    }
}

/// What a gateway operation ended with.
#[derive(Debug, PartialEq, Eq)]
pub enum Outcome {
    /// The end of the startup: the gateway, or the reason why there is none.
    Started(Result<BluetoothService, ServiceError>),
    /// The known devices, in display order. `partial` tells that some
    /// record holds a default.
    Devices { devices: Vec<BluetoothDevice>, partial: bool },
    /// Whether the adapter is powered; `false` where it could not be read.
    Powered(bool),
    /// The end of a command.
    Command(Result<(), ServiceError>),
}

/// What an `Outcome` holds, as mathematical values.
pub enum OutcomeView {
    Started(Result<ServiceView, ServiceErrorView>),
    Devices { devices: Seq<DeviceView>, partial: bool },
    Powered(bool),
    Command(Result<(), ServiceErrorView>),
}

impl View for Outcome {
    type V = OutcomeView;

    open spec fn view(&self) -> OutcomeView {
        match self {
            Outcome::Started(Ok(service)) => OutcomeView::Started(Ok(service@)),
            Outcome::Started(Err(error)) => OutcomeView::Started(Err(error@)),
            Outcome::Devices { devices, partial } => OutcomeView::Devices {
                devices: views(devices@),
                partial: *partial,
            },
            Outcome::Powered(on) => OutcomeView::Powered(*on),
            Outcome::Command(Ok(())) => OutcomeView::Command(Ok(())),
            Outcome::Command(Err(error)) => OutcomeView::Command(Err(error@)),
        }
    }
}

impl OutcomeView {
    /// The condition that the outcome carries, to be logged: the error of
    /// a startup or of a command, or that some device record holds a
    /// default.
    pub open spec fn condition(self) -> Option<ServiceErrorView> {
        match self {
            OutcomeView::Started(Err(error)) => Some(error),
            OutcomeView::Command(Err(error)) => Some(error),
            OutcomeView::Devices { partial, .. } if partial => Some(
                ServiceErrorView::PartialEnumeration,
            ),
            _ => None,
        }
    }
}

impl Outcome {
    /// The condition that the outcome carries, to be logged.
    pub fn condition(&self) -> (condition: Option<ServiceError>)
        ensures
            match condition {
                Some(error) => self@.condition() == Some(error@),
                None => self@.condition() is None,
            },
    {
        match self {
            Outcome::Started(Err(error)) => Some(error.clone()),
            Outcome::Command(Err(error)) => Some(error.clone()),
            Outcome::Devices { partial, .. } => if *partial {
                Some(ServiceError::PartialEnumeration)
            } else {
                None
            },
            _ => None,
        }
    }
}

/// A gateway operation in progress.
#[derive(Debug, PartialEq, Eq)]
pub enum Operation {
    /// Startup, before the session is open.
    Opening { policy: OrderingPolicy },
    /// Startup, before the adapter is switched on.
    PoweringOn { policy: OrderingPolicy },
    /// Enumeration, before the addresses are known.
    Listing { policy: OrderingPolicy },
    /// Enumeration, before the device at `current` has answered. `rest`
    /// holds the addresses still to ask, `found` the records so far.
    Describing {
        policy: OrderingPolicy,
        current: String,
        rest: Vec<String>,
        found: Vec<BluetoothDevice>,
        partial: bool,
    },
    /// Power query, before the flag is read.
    ReadingPower,
    /// Device command, before the state of the device is known.
    Checking { kind: CommandKind, address: String },
    /// Command, before the transport has carried it out.
    Applying { command: Command },
    /// The operation is over.
    Finished { outcome: Outcome },
}

/// What an `Operation` holds, as mathematical values. The course of an
/// operation is defined on this view.
pub enum OperationView {
    Opening { policy: PolicyView },
    PoweringOn { policy: PolicyView },
    Listing { policy: PolicyView },
    Describing {
        policy: PolicyView,
        current: Seq<char>,
        rest: Seq<Seq<char>>,
        found: Seq<DeviceView>,
        partial: bool,
    },
    ReadingPower,
    Checking { kind: CommandKind, address: Seq<char> },
    Applying { command: CommandView },
    Finished { outcome: OutcomeView },
}

impl View for Operation {
    type V = OperationView;

    open spec fn view(&self) -> OperationView {
        match self {
            Operation::Opening { policy } => OperationView::Opening { policy: policy@ },
            Operation::PoweringOn { policy } => OperationView::PoweringOn { policy: policy@ },
            Operation::Listing { policy } => OperationView::Listing { policy: policy@ },
            Operation::Describing { policy, current, rest, found, partial } => {
                OperationView::Describing {
                    policy: policy@,
                    current: current@,
                    rest: texts(rest@),
                    found: views(found@),
                    partial: *partial,
                }
            },
            Operation::ReadingPower => OperationView::ReadingPower,
            Operation::Checking { kind, address } => OperationView::Checking {
                kind: *kind,
                address: address@,
            },
            Operation::Applying { command } => OperationView::Applying { command: command@ },
            Operation::Finished { outcome } => OperationView::Finished { outcome: outcome@ },
        }
    }
}

impl OperationView {
    /// The startup of a gateway that orders devices by `policy`.
    pub open spec fn startup(policy: PolicyView) -> OperationView {
        OperationView::Opening { policy }
    }

    /// The enumeration of the known devices.
    pub open spec fn enumeration(policy: PolicyView) -> OperationView {
        OperationView::Listing { policy }
    }

    /// The power query.
    pub open spec fn power_query() -> OperationView {
        OperationView::ReadingPower
    }

    /// The execution of `command`. A device command first asks for the
    /// state of the device; the power switch is thrown at once.
    pub open spec fn execution(command: CommandView) -> OperationView {
        match command {
            CommandView::SetPower(_) => OperationView::Applying { command },
            CommandView::Device(kind, address) => OperationView::Checking { kind, address },
        }
    }

    /// The transport call that the operation waits for, if it is not over.
    pub open spec fn request(self) -> Option<RequestView> {
        match self {
            OperationView::Opening { .. } => Some(RequestView::Open),
            OperationView::PoweringOn { .. } => Some(
                RequestView::Apply(CommandView::SetPower(true)),
            ),
            OperationView::Listing { .. } => Some(RequestView::ListDevices),
            OperationView::Describing { current, .. } => Some(RequestView::Describe(current)),
            OperationView::ReadingPower => Some(RequestView::IsPowered),
            OperationView::Checking { kind, address } => Some(
                if kind.about_pairing() {
                    RequestView::IsPaired(address)
                } else {
                    RequestView::IsConnected(address)
                },
            ),
            OperationView::Applying { command } => Some(RequestView::Apply(command)),
            OperationView::Finished { .. } => None,
        }
    }

    /// The operation after `reply` to its request.
    ///
    /// - Startup ends in `BackendUnavailable` unless the session opens and
    ///   the adapter is switched on.
    /// - Enumeration lists nothing where the addresses cannot be read, and
    ///   lists every address that was read: a device that does not answer
    ///   gets a record of defaults.
    /// - The power query reads `false` where it fails.
    /// - A device command ends at once where the device is in the state
    ///   asked for, fails where that state cannot be read, and else asks the
    ///   transport for the change.
    pub open spec fn step(self, reply: ReplyView) -> OperationView {
        match self {
            OperationView::Opening { policy } => if reply is Done {
                OperationView::PoweringOn { policy }
            } else {
                OperationView::Finished {
                    outcome: OutcomeView::Started(Err(ServiceErrorView::BackendUnavailable)),
                }
            },
            OperationView::PoweringOn { policy } => OperationView::Finished {
                outcome: OutcomeView::Started(
                    if reply is Done {
                        Ok(ServiceView { policy })
                    } else {
                        Err(ServiceErrorView::BackendUnavailable)
                    },
                ),
            },
            OperationView::Listing { policy } => match reply {
                ReplyView::Addresses(addresses) if addresses.len() > 0 => {
                    OperationView::Describing {
                        policy,
                        current: addresses[0],
                        rest: addresses.drop_first(),
                        found: Seq::empty(),
                        partial: false,
                    }
                },
                _ => OperationView::Finished {
                    outcome: OutcomeView::Devices { devices: Seq::empty(), partial: false },
                },
            },
            OperationView::Describing { policy, current, rest, found, partial } => {
                let probe = match reply {
                    ReplyView::Description(probe) => probe,
                    _ => ProbeView::unanswered(),
                };
                let found = found.push(record_of(current, probe));
                let partial = partial || probe.is_partial();
                if rest.len() > 0 {
                    OperationView::Describing {
                        policy,
                        current: rest[0],
                        rest: rest.drop_first(),
                        found,
                        partial,
                    }
                } else {
                    OperationView::Finished {
                        outcome: OutcomeView::Devices { devices: policy.sorted(found), partial },
                    }
                }
            },
            OperationView::ReadingPower => OperationView::Finished {
                outcome: OutcomeView::Powered(reply == ReplyView::Flag(true)),
            },
            OperationView::Checking { kind, address } => match reply {
                ReplyView::Flag(flag) => if flag == kind.goal() {
                    OperationView::Finished { outcome: OutcomeView::Command(Ok(())) }
                } else {
                    OperationView::Applying { command: CommandView::Device(kind, address) }
                },
                _ => OperationView::Finished {
                    outcome: OutcomeView::Command(
                        Err(ServiceErrorView::CommandFailed(CommandView::Device(kind, address))),
                    ),
                },
            },
            OperationView::Applying { command } => OperationView::Finished {
                outcome: OutcomeView::Command(
                    if reply is Done {
                        Ok(())
                    } else {
                        Err(ServiceErrorView::CommandFailed(command))
                    },
                ),
            },
            OperationView::Finished { outcome } => self,
        }
    }
}

impl OperationView {
    /// An upper bound on the calls that are still to come if the transport
    /// fails from now on.
    pub open spec fn calls_left(self) -> nat {
        match self {
            OperationView::Finished { .. } => 0,
            OperationView::Describing { rest, .. } => rest.len() + 1,
            _ => 1,
        }
    }

    /// The outcome of the operation if every call from now on fails.
    pub open spec fn abandoned(self) -> OutcomeView
        decreases self.calls_left(),
    {
        match self {
            OperationView::Finished { outcome } => outcome,
            _ => self.step(ReplyView::Failed).abandoned(),
        }
    }
}

impl BluetoothService {
    /// Begins the startup of a gateway with the panel's own ordering policy.
    /// The gateway is the outcome of the operation, if the session opens
    /// and the adapter is switched on.
    pub fn new() -> (startup: Operation)
        ensures
            startup@ == OperationView::startup(PolicyView::standard()),
    {
        Operation::Opening { policy: OrderingPolicy::default() }
    }

    /// Begins the startup of a gateway that orders devices by `policy`.
    pub fn with_policy(policy: OrderingPolicy) -> (startup: Operation)
        ensures
            startup@ == OperationView::startup(policy@),
    {
        Operation::Opening { policy }
    }

    /// The policy by which this gateway orders devices.
    pub fn policy(&self) -> (policy: &OrderingPolicy)
        ensures
            policy@ == self@.policy,
    {
        &self.policy
    }

    /// Begins the query of the adapter's power state.
    pub fn is_powered(&self) -> (operation: Operation)
        ensures
            operation@ == OperationView::power_query(),
    {
        Operation::ReadingPower
    }

    /// Begins switching the adapter on.
    pub fn power_on(&self) -> (operation: Operation)
        ensures
            operation@ == OperationView::execution(CommandView::SetPower(true)),
    {
        Operation::Applying { command: Command::SetPower(true) }
    }

    /// Begins switching the adapter off.
    pub fn power_off(&self) -> (operation: Operation)
        ensures
            operation@ == OperationView::execution(CommandView::SetPower(false)),
    {
        Operation::Applying { command: Command::SetPower(false) }
    }

    /// Begins the enumeration of the known devices.
    pub fn get_devices(&self) -> (operation: Operation)
        ensures
            operation@ == OperationView::enumeration(self@.policy),
    {
        Operation::Listing { policy: self.policy.clone() }
    }

    /// Begins connecting the device at `address`.
    pub fn connect_device(&self, address: String) -> (operation: Operation)
        ensures
            operation@ == OperationView::execution(
                CommandView::Device(CommandKind::Connect, address@),
            ),
    {
        Operation::Checking { kind: CommandKind::Connect, address }
    }

    /// Begins disconnecting the device at `address`.
    pub fn disconnect_device(&self, address: String) -> (operation: Operation)
        ensures
            operation@ == OperationView::execution(
                CommandView::Device(CommandKind::Disconnect, address@),
            ),
    {
        Operation::Checking { kind: CommandKind::Disconnect, address }
    }

    /// Begins pairing the device at `address`.
    pub fn pair_device(&self, address: String) -> (operation: Operation)
        ensures
            operation@ == OperationView::execution(
                CommandView::Device(CommandKind::Pair, address@),
            ),
    {
        Operation::Checking { kind: CommandKind::Pair, address }
    }

    /// Begins the execution of `command`.
    pub fn execute(&self, command: Command) -> (operation: Operation)
        ensures
            operation@ == OperationView::execution(command@),
    {
        match command {
            Command::SetPower(on) => Operation::Applying { command: Command::SetPower(on) },
            Command::Device(kind, address) => Operation::Checking { kind, address },
        }
    }
}

impl Operation {
    /// The transport call to make next; `None` once the operation is over.
    pub fn request(&self) -> (request: Option<Request>)
        ensures
            match request {
                Some(call) => self@.request() == Some(call@),
                None => self@.request() is None,
            },
    {
        match self {
            Operation::Opening { .. } => Some(Request::Open),
            Operation::PoweringOn { .. } => Some(Request::Apply(Command::SetPower(true))),
            Operation::Listing { .. } => Some(Request::ListDevices),
            Operation::Describing { current, .. } => Some(Request::Describe(current.clone())),
            Operation::ReadingPower => Some(Request::IsPowered),
            Operation::Checking { kind, address } => match kind {
                CommandKind::Pair => Some(Request::IsPaired(address.clone())),
                _ => Some(Request::IsConnected(address.clone())),
            },
            Operation::Applying { command } => Some(Request::Apply(command.clone())),
            Operation::Finished { .. } => None,
        }
    }

    /// Whether the operation is over.
    pub fn is_finished(&self) -> (finished: bool)
        ensures
            finished == (self@ is Finished),
    {
        match self {
            Operation::Finished { .. } => true,
            _ => false,
        }
    }

    /// The outcome of the operation, once it is over.
    pub fn into_outcome(self) -> (result: Option<Outcome>)
        ensures
            match result {
                Some(outcome) => self@ == (OperationView::Finished { outcome: outcome@ }),
                None => !(self@ is Finished),
            },
    {
        match self {
            Operation::Finished { outcome } => Some(outcome),
            _ => None,
        }
    }

    /// Ends the operation without the transport, as if every call from
    /// now on failed. This is what becomes of an operation that cannot
    /// reach the transport at all.
    pub fn abandon(self) -> (outcome: Outcome)
        ensures
            outcome@ == self@.abandoned(),
    {
        let ghost start = self@;
        let mut operation = self;
        loop
            invariant
                start == self@,
                operation@.abandoned() == start.abandoned(),
            decreases operation@.calls_left(),
        {
            match operation {
                Operation::Finished { outcome } => {
                    return outcome;
                },
                pending => {
                    operation = pending.advance(Reply::Failed);
                },
            }
        }
    }

    /// Takes the transport's reply to the pending request and moves on.
    /// A reply of the wrong kind counts as a failed call. Once the
    /// operation is over, replies change nothing.
    pub fn advance(self, reply: Reply) -> (next: Operation)
        ensures
            next@ == self@.step(reply@),
    {
        match self {
            Operation::Opening { policy } => match reply {
                Reply::Done => Operation::PoweringOn { policy },
                _ => Operation::Finished {
                    outcome: Outcome::Started(Err(ServiceError::BackendUnavailable)),
                },
            },
            Operation::PoweringOn { policy } => match reply {
                Reply::Done => Operation::Finished {
                    outcome: Outcome::Started(Ok(BluetoothService { policy })),
                },
                _ => Operation::Finished {
                    outcome: Outcome::Started(Err(ServiceError::BackendUnavailable)),
                },
            },
            Operation::Listing { policy } => match reply {
                Reply::Addresses(addresses) => {
                    let found: Vec<BluetoothDevice> = Vec::new();
                    proof {
                        assert(views(found@) == Seq::<DeviceView>::empty());
                    }
                    Self::describe_next(policy, addresses, found, false)
                },
                _ => {
                    let devices: Vec<BluetoothDevice> = Vec::new();
                    proof {
                        assert(views(devices@) == Seq::<DeviceView>::empty());
                    }
                    Operation::Finished { outcome: Outcome::Devices { devices, partial: false } }
                },
            },
            Operation::Describing { policy, current, rest, found, partial } => {
                let probe = match reply {
                    Reply::Description(probe) => probe,
                    _ => DeviceProbe::unanswered(),
                };
                let partial = partial || probe.is_partial();
                let mut found = found;
                let ghost before = found@;
                found.push(BluetoothDevice::from_probe(current, probe));
                proof {
                    assert(views(found@) == views(before).push(found@.last()@));
                }
                Self::describe_next(policy, rest, found, partial)
            },
            Operation::ReadingPower => match reply {
                Reply::Flag(on) => Operation::Finished { outcome: Outcome::Powered(on) },
                _ => Operation::Finished { outcome: Outcome::Powered(false) },
            },
            Operation::Checking { kind, address } => match reply {
                Reply::Flag(flag) => {
                    let reached = match kind {
                        CommandKind::Disconnect => !flag,
                        _ => flag,
                    };
                    if reached {
                        Operation::Finished { outcome: Outcome::Command(Ok(())) }
                    } else {
                        Operation::Applying { command: Command::Device(kind, address) }
                    }
                },
                _ => Operation::Finished {
                    outcome: Outcome::Command(
                        Err(ServiceError::CommandFailed(Command::Device(kind, address))),
                    ),
                },
            },
            Operation::Applying { command } => match reply {
                Reply::Done => Operation::Finished { outcome: Outcome::Command(Ok(())) },
                _ => Operation::Finished {
                    outcome: Outcome::Command(Err(ServiceError::CommandFailed(command))),
                },
            },
            Operation::Finished { outcome } => Operation::Finished { outcome },
        }
    }

    /// The enumeration with `found` on record and `pending` still to ask:
    /// the next device is asked, or the list is put in order and handed out.
    fn describe_next(
        policy: OrderingPolicy,
        pending: Vec<String>,
        found: Vec<BluetoothDevice>,
        partial: bool,
    ) -> (next: Operation)
        ensures
            next@ == if pending@.len() > 0 {
                OperationView::Describing {
                    policy: policy@,
                    current: texts(pending@)[0],
                    rest: texts(pending@).drop_first(),
                    found: views(found@),
                    partial,
                }
            } else {
                OperationView::Finished {
                    outcome: OutcomeView::Devices {
                        devices: policy@.sorted(views(found@)),
                        partial,
                    },
                }
            },
    {
        let mut pending = pending;
        let mut found = found;
        if pending.len() > 0 {
            let ghost all = pending@;
            let current = pending.remove(0);
            proof {
                assert(texts(pending@) == texts(all).drop_first());
            }
            Operation::Describing { policy, current, rest: pending, found, partial }
        } else {
            policy.sort(&mut found);
            Operation::Finished { outcome: Outcome::Devices { devices: found, partial } }
        }
    }
}

} // verus!
