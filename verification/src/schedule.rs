//! What holds of every course of events at the coordinator.

use vstd::prelude::*;
use crate::command::CommandView;
use crate::config::ConfigView;
use crate::coordinator::{first_refresh, lemma_first_refresh, CoordinatorView, ReceiptView};
use crate::device::DeviceView;
use crate::gateway::OutcomeView;
use crate::ordering::PolicyView;

verus! {

/// Something that happens at the coordinator.
pub enum Event {
    /// A refresh is asked for.
    Refresh,
    /// The adapter's power state is asked for.
    PowerState,
    /// A command is given.
    Execute(CommandView),
    /// The operation under the ticket is reported as over.
    Complete(u64, OutcomeView),
}

/// An operation taking or giving up the gateway.
pub enum Passage {
    Enter(u64),
    Leave(u64),
}

/// Whether `log` shows one operation at a time in the gateway, given the
/// operation that is inside when the log begins: none enters while another
/// is inside, and the one that leaves is the one inside.
pub open spec fn exclusive(log: Seq<Passage>, inside: Option<u64>) -> bool
    decreases log.len(),
{
    if log.len() == 0 {
        true
    } else {
        match log[0] {
            Passage::Enter(ticket) => inside is None && exclusive(log.drop_first(), Some(ticket)),
            Passage::Leave(ticket) => inside == Some(ticket) && exclusive(log.drop_first(), None),
        }
    }
}

/// Whether the operations of `log` enter the gateway in the order of their
/// tickets, all of them later than `floor`.
pub open spec fn in_ticket_order(log: Seq<Passage>, floor: u64) -> bool
    decreases log.len(),
{
    if log.len() == 0 {
        true
    } else {
        match log[0] {
            Passage::Enter(ticket) => floor < ticket && in_ticket_order(log.drop_first(), ticket),
            Passage::Leave(_) => in_ticket_order(log.drop_first(), floor),
        }
    }
}

impl CoordinatorView {
    /// The coordinator and its answer after `event`.
    pub open spec fn react(self, event: Event) -> (CoordinatorView, Option<u64>) {
        match event {
            Event::Refresh => (self.refresh().0, started(self.refresh().1)),
            Event::PowerState => (self.power_state().0, started(self.power_state().1)),
            Event::Execute(command) => (self.execute(command).0, started(self.execute(command).1)),
            Event::Complete(ticket, outcome) => (
                self.complete(ticket, outcome).0,
                match self.complete(ticket, outcome).1.next {
                    Some(job) => Some(job.ticket),
                    None => None,
                },
            ),
        }
    }

    /// The coordinator after `event`.
    pub open spec fn apply(self, event: Event) -> CoordinatorView {
        self.react(event).0
    }

    /// The passages through the gateway that `event` brings: the reported
    /// operation leaves if it was inside, and the job that is handed out
    /// enters.
    pub open spec fn passages_of(self, event: Event) -> Seq<Passage> {
        let leaving = match event {
            Event::Complete(ticket, _) if self.active == Some(ticket) => seq![
                Passage::Leave(ticket),
            ],
            _ => Seq::empty(),
        };
        let entering = match self.react(event).1 {
            Some(ticket) => seq![Passage::Enter(ticket)],
            None => Seq::empty(),
        };
        leaving + entering
    }

    /// The passages through the gateway in the course of `events`.
    pub open spec fn passages(self, events: Seq<Event>) -> Seq<Passage>
        decreases events.len(),
    {
        if events.len() == 0 {
            Seq::empty()
        } else {
            self.passages_of(events[0]) + self.apply(events[0]).passages(events.drop_first())
        }
    }

    /// The coordinator after the `events`, one after the other.
    pub open spec fn after(self, events: Seq<Event>) -> CoordinatorView
        decreases events.len(),
    {
        if events.len() == 0 {
            self
        } else {
            self.apply(events[0]).after(events.drop_first())
        }
    }

    /// The ticket that every later entry into the gateway exceeds: that of
    /// the operation inside, or the last ticket given out.
    pub open spec fn floor(self) -> u64 {
        match self.active {
            Some(ticket) => ticket,
            None => self.issued,
        }
    }

    /// The coordinator is well formed at the start.
    pub proof fn lemma_initial_wf(config: ConfigView, policy: PolicyView)
        ensures
            Self::initial(config, policy).wf(),
    {
    }

    /// Whatever happens, the coordinator stays well formed: the shown list
    /// is in display order, at most one refresh waits, and requests wait
    /// in the order in which they came.
    pub proof fn lemma_apply_keeps_wf(self, event: Event)
        requires
            self.wf(),
        ensures
            self.apply(event).wf(),
    {
        lemma_first_refresh(self.waiting);
        if let Event::Complete(_, OutcomeView::Devices { devices, .. }) = event {
            self.policy.lemma_sorted_is_ordered(devices);
        }
    }

    /// Whatever happens, one operation at a time has the gateway: no job
    /// is handed out while an operation is inside, and the gateway is
    /// given up only by the operation that has it. Operations enter in
    /// the order of their tickets, that is, in the order in which they
    /// were asked for.
    pub proof fn lemma_gateway_is_exclusive(self, events: Seq<Event>)
        requires
            self.wf(),
        ensures
            exclusive(self.passages(events), self.active),
            in_ticket_order(self.passages(events), self.floor()),
        decreases events.len(),
    {
        if events.len() > 0 {
            let event = events[0];
            let next = self.apply(event);
            let later = next.passages(events.drop_first());
            self.lemma_apply_keeps_wf(event);
            next.lemma_gateway_is_exclusive(events.drop_first());
            lemma_first_refresh(self.waiting);
            lemma_lower_floor(later, self.floor(), next.floor());
            let leaves = event matches Event::Complete(ticket, _) && self.active == Some(ticket);
            let inside = self.active.unwrap();
            match self.react(event).1 {
                Some(ticket) => {
                    let entry = seq![Passage::Enter(ticket)] + later;
                    lemma_prepend(Passage::Enter(ticket), later, None, self.floor());
                    if leaves {
                        lemma_prepend(Passage::Leave(inside), entry, self.active, self.floor());
                        assert(self.passages(events) == seq![Passage::Leave(inside)] + entry);
                    }
                },
                None => {
                    if leaves {
                        lemma_prepend(Passage::Leave(inside), later, self.active, self.floor());
                    }
                },
            }
        }
    }

    /// With the Bluetooth functions switched off in the settings, a command
    /// is reported as done, the coordinator stays as it is, and nothing
    /// enters the gateway.
    pub proof fn lemma_simulation(self, command: CommandView)
        requires
            !self.config.enable_bluetooth_functionality,
        ensures
            self.execute(command) == (self, ReceiptView::Simulated),
            self.passages_of(Event::Execute(command)) == Seq::<Passage>::empty(),
    {
    }

    /// The settings never change, so a coordinator that simulates goes on
    /// simulating: in no course of events does a command reach the gateway.
    pub proof fn lemma_settings_stay(self, events: Seq<Event>)
        ensures
            self.after(events).config == self.config,
            self.after(events).policy == self.policy,
        decreases events.len(),
    {
        if events.len() > 0 {
            self.apply(events[0]).lemma_settings_stay(events.drop_first());
        }
    }

    /// A stale list is discarded: once the list of a refresh is shown, the
    /// list of an earlier refresh that arrives late changes nothing.
    pub proof fn lemma_stale_list_is_discarded(
        self,
        earlier: u64,
        later: u64,
        stale: Seq<DeviceView>,
        fresh: Seq<DeviceView>,
        stale_partial: bool,
        fresh_partial: bool,
    )
        requires
            self.wf(),
            earlier < later,
            self.accepts(later),
        ensures
            ({
                let first = self.complete(
                    later,
                    OutcomeView::Devices { devices: fresh, partial: fresh_partial },
                );
                let second = first.0.complete(
                    earlier,
                    OutcomeView::Devices { devices: stale, partial: stale_partial },
                );
                &&& first.1.refreshed
                &&& !second.1.refreshed
                &&& second.0.devices == self.policy.sorted(fresh)
                &&& second.0.shown == later
            }),
    {
    }

    /// The shown list never goes back: whatever happens, the ticket of the
    /// shown list does not decrease.
    pub proof fn lemma_shown_never_goes_back(self, events: Seq<Event>)
        ensures
            self.shown <= self.after(events).shown,
        decreases events.len(),
    {
        if events.len() > 0 {
            self.apply(events[0]).lemma_shown_never_goes_back(events.drop_first());
        }
    }
}

/// The ticket of the job that a receipt hands out.
pub open spec fn started(receipt: ReceiptView) -> Option<u64> {
    match receipt {
        ReceiptView::Started(job) => Some(job.ticket),
        _ => None,
    }
}

/// What one more passage at the front of a log asks for.
proof fn lemma_prepend(passage: Passage, log: Seq<Passage>, inside: Option<u64>, floor: u64)
    ensures
        exclusive(seq![passage] + log, inside) == match passage {
            Passage::Enter(ticket) => inside is None && exclusive(log, Some(ticket)),
            Passage::Leave(ticket) => inside == Some(ticket) && exclusive(log, None),
        },
        in_ticket_order(seq![passage] + log, floor) == match passage {
            Passage::Enter(ticket) => floor < ticket && in_ticket_order(log, ticket),
            Passage::Leave(_) => in_ticket_order(log, floor),
        },
{
    assert((seq![passage] + log).drop_first() == log);
}

/// Entries that are later than `floor` are later than any lower one.
proof fn lemma_lower_floor(log: Seq<Passage>, lower: u64, floor: u64)
    requires
        lower <= floor,
        in_ticket_order(log, floor),
    ensures
        in_ticket_order(log, lower),
    decreases log.len(),
{
    if log.len() > 0 {
        match log[0] {
            Passage::Enter(_) => {},
            Passage::Leave(_) => {
                lemma_lower_floor(log.drop_first(), lower, floor);
            },
        }
    }
}

} // verus!
