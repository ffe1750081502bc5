//! The coordinator: the single owner of the gateway.
//!
//! Whatever wants the gateway asks the coordinator. The coordinator lets
//! one operation at a time have it and keeps the others waiting in the
//! order in which they were asked for. Nothing here blocks: a request
//! returns at once with a receipt, and the end of an operation is reported
//! with `complete`.

use vstd::prelude::*;
use crate::command::{Command, CommandKind, CommandView};
use crate::config::{Config, ConfigView};
use crate::device::{views, BluetoothDevice, DeviceView};
use crate::gateway::{BluetoothService, Operation, OperationView, Outcome, OutcomeView};
use crate::ordering::PolicyView;

verus! {

/// What is wanted of the gateway.
enum Intent {
    /// Enumerate the devices.
    Refresh,
    /// Read the adapter's power state.
    PowerState,
    /// Carry out a command.
    Execute(Command),
}

/// What an `Intent` holds, as mathematical values.
pub enum IntentView {
    Refresh,
    PowerState,
    Execute(CommandView),
}

impl View for Intent {
    type V = IntentView;

    closed spec fn view(&self) -> IntentView {
        match self {
            Intent::Refresh => IntentView::Refresh,
            Intent::PowerState => IntentView::PowerState,
            Intent::Execute(command) => IntentView::Execute(command@),
        }
    }
}

/// A request that waits for the gateway.
pub struct PendingView {
    pub ticket: u64,
    pub intent: IntentView,
}

/// A gateway operation that may run now, under its ticket.
#[derive(Debug, PartialEq, Eq)]
pub struct Job {
    pub ticket: u64,
    pub operation: Operation,
}

/// What a `Job` holds, as mathematical values.
pub struct JobView {
    pub ticket: u64,
    pub operation: OperationView,
}

impl View for Job {
    type V = JobView;

    open spec fn view(&self) -> JobView {
        JobView { ticket: self.ticket, operation: self.operation@ }
    }
}

/// The answer to a request.
#[derive(Debug, PartialEq, Eq)]
pub enum Receipt {
    /// The command was not handed to the gateway and counts as done: the
    /// settings switch the Bluetooth functions off.
    Simulated,
    /// The gateway was free: the job is to be run now.
    Started(Job),
    /// The gateway is busy: the request waits under this ticket.
    Queued(u64),
    /// A refresh waits already, under this ticket; it serves this request
    /// too.
    Coalesced(u64),
    /// No ticket is left. The request is dropped.
    Exhausted,
}

/// What a `Receipt` holds, as mathematical values.
pub enum ReceiptView {
    Simulated,
    Started(JobView),
    Queued(u64),
    Coalesced(u64),
    Exhausted,
}

impl View for Receipt {
    type V = ReceiptView;

    open spec fn view(&self) -> ReceiptView {
        match self {
            Receipt::Simulated => ReceiptView::Simulated,
            Receipt::Started(job) => ReceiptView::Started(job@),
            Receipt::Queued(ticket) => ReceiptView::Queued(*ticket),
            Receipt::Coalesced(ticket) => ReceiptView::Coalesced(*ticket),
            Receipt::Exhausted => ReceiptView::Exhausted,
        }
    }
}

/// What the end of an operation led to.
#[derive(Debug, PartialEq, Eq)]
pub struct Completed {
    /// The job that has the gateway next, to be run now.
    pub next: Option<Job>,
    /// Whether the device list was replaced.
    pub refreshed: bool,
}

/// What a `Completed` holds, as mathematical values.
pub struct CompletedView {
    pub next: Option<JobView>,
    pub refreshed: bool,
}

impl View for Completed {
    type V = CompletedView;

    open spec fn view(&self) -> CompletedView {
        CompletedView {
            next: match self.next {
                Some(job) => Some(job@),
                None => None,
            },
            refreshed: self.refreshed,
        }
    }
}

/// The ticket of the first refresh among `waiting`.
pub open spec fn first_refresh(waiting: Seq<PendingView>) -> Option<u64>
    decreases waiting.len(),
{
    if waiting.len() == 0 {
        None
    } else if waiting[0].intent is Refresh {
        Some(waiting[0].ticket)
    } else {
        first_refresh(waiting.drop_first())
    }
}

/// `first_refresh` finds a refresh exactly where one waits.
pub proof fn lemma_first_refresh(waiting: Seq<PendingView>)
    ensures
        match first_refresh(waiting) {
            Some(ticket) => exists|i: int|
                #![trigger waiting[i]]
                0 <= i < waiting.len() && waiting[i].intent is Refresh && waiting[i].ticket
                    == ticket,
            None => forall|i: int|
                #![trigger waiting[i]]
                0 <= i < waiting.len() ==> !(waiting[i].intent is Refresh),
        },
    decreases waiting.len(),
{
    if waiting.len() > 0 && !(waiting[0].intent is Refresh) {
        let rest = waiting.drop_first();
        lemma_first_refresh(rest);
        match first_refresh(rest) {
            Some(ticket) => {
                let i = choose|i: int|
                    #![trigger rest[i]]
                    0 <= i < rest.len() && rest[i].intent is Refresh && rest[i].ticket == ticket;
            },
            None => {
                assert forall|i: int|
                    #![trigger waiting[i]]
                    0 <= i < waiting.len() implies !(waiting[i].intent is Refresh) by {
                    if i > 0 {
                        assert(waiting[i] == rest[i - 1]);
                    }
                }
            },
        }
    }
}

/// The state of a coordinator, as mathematical values. What a request and
/// the end of an operation do is defined on this view.
pub struct CoordinatorView {
    pub config: ConfigView,
    pub policy: PolicyView,
    /// The device list that is shown.
    pub devices: Seq<DeviceView>,
    /// The ticket of the refresh that brought the shown list; 0 before the
    /// first list.
    pub shown: u64,
    /// The last ticket given out. Tickets start at 1 and grow.
    pub issued: u64,
    /// The ticket of the operation that has the gateway.
    pub active: Option<u64>,
    /// The requests that wait for the gateway, first come first.
    pub waiting: Seq<PendingView>,
}

impl CoordinatorView {
    /// The coordinator at the start: nothing shown, nothing asked.
    pub open spec fn initial(config: ConfigView, policy: PolicyView) -> CoordinatorView {
        CoordinatorView {
            config,
            policy,
            devices: Seq::empty(),
            shown: 0,
            issued: 0,
            active: None,
            waiting: Seq::empty(),
        }
    }

    /// What holds of every coordinator.
    ///
    /// - The shown list is in display order and belongs to a ticket that
    ///   was given out.
    /// - Requests wait only while an operation has the gateway. They wait
    ///   in the order of their tickets, which are later than the ticket of
    ///   that operation.
    /// - At most one refresh waits.
    pub open spec fn wf(self) -> bool {
        &&& self.policy.is_ordered(self.devices)
        &&& self.shown <= self.issued
        &&& self.active matches Some(ticket) ==> 1 <= ticket <= self.issued
        &&& self.waiting.len() > 0 ==> self.active is Some
        &&& forall|i: int|
            #![trigger self.waiting[i]]
            0 <= i < self.waiting.len() ==> self.active.unwrap() < self.waiting[i].ticket
                <= self.issued
        &&& forall|i: int, j: int|
            #![trigger self.waiting[i], self.waiting[j]]
            0 <= i < j < self.waiting.len() ==> self.waiting[i].ticket < self.waiting[j].ticket
        &&& forall|i: int, j: int|
            #![trigger self.waiting[i], self.waiting[j]]
            0 <= i < j < self.waiting.len() ==> !(self.waiting[i].intent is Refresh
                && self.waiting[j].intent is Refresh)
    }

    /// The gateway operation that serves `intent`.
    pub open spec fn operation_for(self, intent: IntentView) -> OperationView {
        match intent {
            IntentView::Refresh => OperationView::enumeration(self.policy),
            IntentView::PowerState => OperationView::power_query(),
            IntentView::Execute(command) => OperationView::execution(command),
        }
    }

    /// Takes up a request for the gateway: it gets the next ticket, and
    /// the gateway if that is free; else it waits behind the others.
    pub open spec fn submit(self, intent: IntentView) -> (CoordinatorView, ReceiptView) {
        if self.issued == u64::MAX {
            (self, ReceiptView::Exhausted)
        } else {
            let ticket = (self.issued + 1) as u64;
            if self.active is None {
                (
                    CoordinatorView { issued: ticket, active: Some(ticket), ..self },
                    ReceiptView::Started(
                        JobView { ticket, operation: self.operation_for(intent) },
                    ),
                )
            } else {
                (
                    CoordinatorView {
                        issued: ticket,
                        waiting: self.waiting.push(PendingView { ticket, intent }),
                        ..self
                    },
                    ReceiptView::Queued(ticket),
                )
            }
        }
    }

    /// A request to enumerate the devices. Where a refresh waits already,
    /// that one serves.
    pub open spec fn refresh(self) -> (CoordinatorView, ReceiptView) {
        match first_refresh(self.waiting) {
            Some(ticket) => (self, ReceiptView::Coalesced(ticket)),
            None => self.submit(IntentView::Refresh),
        }
    }

    /// A request to read the adapter's power state.
    pub open spec fn power_state(self) -> (CoordinatorView, ReceiptView) {
        self.submit(IntentView::PowerState)
    }

    /// A request to carry out `command`. With the Bluetooth functions
    /// switched off in the settings, the command counts as done and
    /// nothing else happens.
    pub open spec fn execute(self, command: CommandView) -> (CoordinatorView, ReceiptView) {
        if self.config.enable_bluetooth_functionality {
            self.submit(IntentView::Execute(command))
        } else {
            (self, ReceiptView::Simulated)
        }
    }

    /// Whether a device list under `ticket` is taken over: the ticket was
    /// given out, and no list of a later ticket is shown.
    pub open spec fn accepts(self, ticket: u64) -> bool {
        1 <= ticket && self.shown <= ticket <= self.issued
    }

    /// The end of the operation under `ticket`.
    ///
    /// A device list replaces the shown one as a whole, in display order,
    /// unless it is stale. Where the operation had the gateway, the gateway
    /// goes to the request that has waited longest, or is free.
    pub open spec fn complete(self, ticket: u64, outcome: OutcomeView) -> (
        CoordinatorView,
        CompletedView,
    ) {
        let refreshed = outcome is Devices && self.accepts(ticket);
        let shown = if refreshed {
            CoordinatorView {
                devices: self.policy.sorted(outcome->devices),
                shown: ticket,
                ..self
            }
        } else {
            self
        };
        if self.active == Some(ticket) {
            if self.waiting.len() > 0 {
                let first = self.waiting[0];
                (
                    CoordinatorView {
                        active: Some(first.ticket),
                        waiting: self.waiting.drop_first(),
                        ..shown
                    },
                    CompletedView {
                        next: Some(
                            JobView {
                                ticket: first.ticket,
                                operation: self.operation_for(first.intent),
                            },
                        ),
                        refreshed,
                    },
                )
            } else {
                (
                    CoordinatorView { active: None, ..shown },
                    CompletedView { next: None, refreshed },
                )
            }
        } else {
            (shown, CompletedView { next: None, refreshed })
        }
    }
}

/// A request that waits for the gateway.
struct Pending {
    ticket: u64,
    intent: Intent,
}

/// The views of the waiting requests, in the same order.
spec fn pendings(waiting: Seq<Pending>) -> Seq<PendingView> {
    Seq::new(
        waiting.len(),
        |i: int| PendingView { ticket: waiting[i].ticket, intent: waiting[i].intent@ },
    )
}

/// The single owner of the gateway, and the keeper of the shown device
/// list.
pub struct Coordinator {
    config: Config,
    gateway: BluetoothService,
    devices: Vec<BluetoothDevice>,
    shown: u64,
    issued: u64,
    active: Option<u64>,
    waiting: Vec<Pending>,
}

impl View for Coordinator {
    type V = CoordinatorView;

    closed spec fn view(&self) -> CoordinatorView {
        CoordinatorView {
            config: self.config@,
            policy: self.gateway@.policy,
            devices: views(self.devices@),
            shown: self.shown,
            issued: self.issued,
            active: self.active,
            waiting: pendings(self.waiting@),
        }
    }
}

impl Coordinator {
    /// Every coordinator is well formed, at all times.
    #[verifier::type_invariant]
    spec fn inv(self) -> bool {
        self@.wf()
    }

    /// A coordinator for `gateway`, under the settings `config`.
    pub fn new(config: Config, gateway: BluetoothService) -> (coordinator: Self)
        ensures
            coordinator@ == CoordinatorView::initial(config@, gateway@.policy),
    {
        let coordinator = Coordinator {
            config,
            gateway,
            devices: Vec::new(),
            shown: 0,
            issued: 0,
            active: None,
            waiting: Vec::new(),
        };
        proof {
            assert(coordinator@.devices == Seq::<DeviceView>::empty());
            assert(coordinator@.waiting == Seq::<PendingView>::empty());
        }
        coordinator
    }

    /// The gateway operation that serves `intent`.
    fn operation_for(&self, intent: Intent) -> (operation: Operation)
        ensures
            operation@ == self@.operation_for(intent@),
    {
        match intent {
            Intent::Refresh => self.gateway.get_devices(),
            Intent::PowerState => self.gateway.is_powered(),
            Intent::Execute(command) => self.gateway.execute(command),
        }
    }

    /// Takes up a request for the gateway.
    fn submit(&mut self, intent: Intent) -> (receipt: Receipt)
        requires
            intent@ is Refresh ==> first_refresh(old(self)@.waiting) is None,
        ensures
            (final(self)@, receipt@) == old(self)@.submit(intent@),
    {
        proof {
            use_type_invariant(&*self);
            lemma_first_refresh(self@.waiting);
        }
        if self.issued == u64::MAX {
            return Receipt::Exhausted;
        }
        let ticket: u64 = self.issued + 1;
        if self.active.is_none() {
            let operation = self.operation_for(intent);
            self.issued = ticket;
            self.active = Some(ticket);
            Receipt::Started(Job { ticket, operation })
        } else {
            let mut waiting: Vec<Pending> = Vec::new();
            core::mem::swap(&mut waiting, &mut self.waiting);
            let ghost before = waiting@;
            waiting.push(Pending { ticket, intent });
            proof {
                assert(pendings(waiting@) == pendings(before).push(
                    PendingView { ticket, intent: intent@ },
                ));
            }
            self.issued = ticket;
            self.waiting = waiting;
            Receipt::Queued(ticket)
        }
    }

    /// The ticket of the refresh that waits, if one does.
    fn waiting_refresh(&self) -> (found: Option<u64>)
        ensures
            found == first_refresh(self@.waiting),
    {
        let ghost all = pendings(self.waiting@);
        let mut i: usize = 0;
        proof {
            assert(all.skip(0) == all);
        }
        while i < self.waiting.len()
            invariant
                i <= self.waiting@.len(),
                all == pendings(self.waiting@),
                first_refresh(all) == first_refresh(all.skip(i as int)),
            decreases self.waiting@.len() - i,
        {
            proof {
                assert(all.skip(i as int).drop_first() == all.skip(i + 1));
            }
            match self.waiting[i].intent {
                Intent::Refresh => {
                    return Some(self.waiting[i].ticket);
                },
                _ => {},
            }
            i += 1;
        }
        None
    }

    /// Asks for an enumeration of the devices. The receipt tells whether
    /// the enumeration is to be run now, waits, or is served by a refresh
    /// that waits already: beyond the operation that has the gateway, at
    /// most one refresh is kept.
    pub fn request_refresh(&mut self) -> (receipt: Receipt)
        ensures
            (final(self)@, receipt@) == old(self)@.refresh(),
    {
        match self.waiting_refresh() {
            Some(ticket) => Receipt::Coalesced(ticket),
            None => self.submit(Intent::Refresh),
        }
    }

    /// Asks for the adapter's power state, which is read from the
    /// transport each time.
    pub fn current_power_state(&mut self) -> (receipt: Receipt)
        ensures
            (final(self)@, receipt@) == old(self)@.power_state(),
    {
        self.submit(Intent::PowerState)
    }

    /// Asks to switch the adapter on or off. The settings are consulted at
    /// every call: with the Bluetooth functions switched off there, the
    /// command counts as done and the gateway is left alone.
    pub fn request_power(&mut self, on: bool) -> (receipt: Receipt)
        ensures
            (final(self)@, receipt@) == old(self)@.execute(CommandView::SetPower(on)),
    {
        if self.config.enable_bluetooth_functionality {
            self.submit(Intent::Execute(Command::SetPower(on)))
        } else {
            Receipt::Simulated
        }
    }

    /// Asks to connect, disconnect or pair the device at `address`. The
    /// settings are consulted as for `request_power`.
    pub fn request_command(&mut self, kind: CommandKind, address: String) -> (receipt: Receipt)
        ensures
            (final(self)@, receipt@) == old(self)@.execute(CommandView::Device(kind, address@)),
    {
        if self.config.enable_bluetooth_functionality {
            self.submit(Intent::Execute(Command::Device(kind, address)))
        } else {
            Receipt::Simulated
        }
    }

    /// Reports the end of the operation that ran under `ticket`.
    ///
    /// A device list replaces the shown list as a whole, unless a list of
    /// a later refresh is shown already or the ticket was never given out.
    /// Where the operation had the gateway, the request that has waited
    /// longest gets it: its job is handed out to be run now.
    pub fn complete(&mut self, ticket: u64, outcome: Outcome) -> (completed: Completed)
        ensures
            (final(self)@, completed@) == old(self)@.complete(ticket, outcome@),
    {
        proof {
            use_type_invariant(&*self);
        }
        let mut refreshed = false;
        match outcome {
            Outcome::Devices { devices, partial } => {
                if 1 <= ticket && self.shown <= ticket && ticket <= self.issued {
                    let mut devices = devices;
                    self.gateway.policy().sort(&mut devices);
                    self.devices = devices;
                    self.shown = ticket;
                    refreshed = true;
                }
            },
            _ => {},
        }
        let holds_gateway = match self.active {
            Some(active) => active == ticket,
            None => false,
        };
        if !holds_gateway {
            Completed { next: None, refreshed }
        } else if self.waiting.len() == 0 {
            self.active = None;
            Completed { next: None, refreshed }
        } else {
            let mut waiting: Vec<Pending> = Vec::new();
            core::mem::swap(&mut waiting, &mut self.waiting);
            let ghost before = waiting@;
            let first = waiting.remove(0);
            proof {
                assert(pendings(waiting@) == pendings(before).drop_first());
            }
            self.active = Some(first.ticket);
            self.waiting = waiting;
            let operation = self.operation_for(first.intent);
            Completed { next: Some(Job { ticket: first.ticket, operation }), refreshed }
        }
    }

    /// The device list that is shown, in display order.
    pub fn devices(&self) -> (devices: &Vec<BluetoothDevice>)
        ensures
            views(devices@) == self@.devices,
    {
        &self.devices
    }

    /// The settings under which the coordinator runs.
    pub fn config(&self) -> (config: &Config)
        ensures
            config@ == self@.config,
    {
        &self.config
    }

    /// Whether an operation has the gateway.
    pub fn is_busy(&self) -> (busy: bool)
        ensures
            busy == self@.active is Some,
    {
        self.active.is_some()
    }

    /// The number of requests that wait for the gateway.
    pub fn backlog(&self) -> (count: usize)
        ensures
            count == self@.waiting.len(),
    {
        self.waiting.len()
    }
}

} // verus!
