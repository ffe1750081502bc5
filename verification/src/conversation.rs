//! What holds of every conversation between a gateway operation and the
//! transport.

use vstd::prelude::*;
use crate::command::{CommandKind, CommandView};
use crate::device::{record_of, DeviceView, ProbeView};
use crate::error::ServiceErrorView;
use crate::gateway::{OperationView, OutcomeView, ReplyView, ServiceView};
use crate::ordering::PolicyView;

verus! {

/// What a device reported of itself according to `reply`: nothing, where
/// the reply is no description.
pub open spec fn probe_in(reply: ReplyView) -> ProbeView {
    match reply {
        ReplyView::Description(probe) => probe,
        _ => ProbeView::unanswered(),
    }
}

/// The records of the devices at `addresses`, where the device at
/// `addresses[i]` was answered for by `replies[i]`.
pub open spec fn records(addresses: Seq<Seq<char>>, replies: Seq<ReplyView>) -> Seq<DeviceView> {
    Seq::new(addresses.len(), |i: int| record_of(addresses[i], probe_in(replies[i])))
}

/// Records of defaults for the devices at `addresses`.
pub open spec fn placeholders(addresses: Seq<Seq<char>>) -> Seq<DeviceView> {
    Seq::new(addresses.len(), |i: int| record_of(addresses[i], ProbeView::unanswered()))
}

/// Whether some reply leaves a field of its device to a default.
pub open spec fn some_partial(replies: Seq<ReplyView>) -> bool {
    exists|i: int| 0 <= i < replies.len() && #[trigger] probe_in(replies[i]).is_partial()
}

impl OperationView {
    /// The operation after the transport has answered with `replies`, one
    /// reply to each request.
    pub open spec fn run(self, replies: Seq<ReplyView>) -> OperationView
        decreases replies.len(),
    {
        if replies.len() == 0 {
            self
        } else {
            self.step(replies[0]).run(replies.drop_first())
        }
    }

    /// How many of the calls that `replies` answer change the state of the
    /// adapter or of a device.
    pub open spec fn changes(self, replies: Seq<ReplyView>) -> nat
        decreases replies.len(),
    {
        if replies.len() == 0 {
            0
        } else {
            let rest = self.step(replies[0]).changes(replies.drop_first());
            match self.request() {
                Some(call) if call.is_change() => 1 + rest,
                _ => rest,
            }
        }
    }

    /// What giving up comes to: startup ends with `BackendUnavailable`, a
    /// command with `CommandFailed`, the power query reads `false`, and
    /// enumeration lists what it has on record and a record of defaults
    /// for each device that is still to ask, or nothing where the
    /// addresses are not known yet.
    pub proof fn lemma_abandoned(self)
        ensures
            self.abandoned() == match self {
                OperationView::Opening { .. } | OperationView::PoweringOn { .. } => {
                    OutcomeView::Started(Err(ServiceErrorView::BackendUnavailable))
                },
                OperationView::Listing { .. } => OutcomeView::Devices {
                    devices: Seq::empty(),
                    partial: false,
                },
                OperationView::Describing { policy, current, rest, found, partial } => {
                    OutcomeView::Devices {
                        devices: policy.sorted(found + placeholders(seq![current] + rest)),
                        partial: true,
                    }
                },
                OperationView::ReadingPower => OutcomeView::Powered(false),
                OperationView::Checking { kind, address } => OutcomeView::Command(
                    Err(ServiceErrorView::CommandFailed(CommandView::Device(kind, address))),
                ),
                OperationView::Applying { command } => OutcomeView::Command(
                    Err(ServiceErrorView::CommandFailed(command)),
                ),
                OperationView::Finished { outcome } => outcome,
            },
        decreases self.calls_left(),
    {
        match self {
            OperationView::Finished { .. } => {},
            OperationView::Describing { policy, current, rest, found, partial } => {
                let longer = found.push(record_of(current, ProbeView::unanswered()));
                let all = placeholders(seq![current] + rest);
                self.step(ReplyView::Failed).lemma_abandoned();
                if rest.len() > 0 {
                    let later = placeholders(seq![rest[0]] + rest.drop_first());
                    assert(longer + later == found + all);
                } else {
                    assert(longer == found + all);
                }
            },
            _ => {
                self.step(ReplyView::Failed).lemma_abandoned();
            },
        }
    }

    /// An operation that is over stays as it is and calls nothing.
    pub proof fn lemma_finished_is_final(self, replies: Seq<ReplyView>)
        requires
            self is Finished,
        ensures
            self.run(replies) == self,
            self.changes(replies) == 0,
        decreases replies.len(),
    {
        if replies.len() > 0 {
            self.lemma_finished_is_final(replies.drop_first());
        }
    }

    /// Startup yields the gateway exactly when the session opens and the
    /// adapter is switched on; any failure ends it with
    /// `BackendUnavailable`, and the adapter is not touched in a session
    /// that did not open.
    pub proof fn lemma_startup(policy: PolicyView, replies: Seq<ReplyView>)
        requires
            replies.len() >= 1,
            replies[0] is Done ==> replies.len() >= 2,
        ensures
            Self::startup(policy).run(replies) == (OperationView::Finished {
                outcome: OutcomeView::Started(
                    if replies[0] is Done && replies[1] is Done {
                        Ok(ServiceView { policy })
                    } else {
                        Err(ServiceErrorView::BackendUnavailable)
                    },
                ),
            }),
            !(replies[0] is Done) ==> Self::startup(policy).changes(replies) == 0,
    {
        let first = Self::startup(policy).step(replies[0]);
        let tail = replies.drop_first();
        if replies[0] is Done {
            first.step(tail[0]).lemma_finished_is_final(tail.drop_first());
        } else {
            first.lemma_finished_is_final(tail);
        }
    }

    /// The power query reads what the transport reports, and `false` where
    /// the transport fails.
    pub proof fn lemma_power_query(replies: Seq<ReplyView>)
        requires
            replies.len() >= 1,
        ensures
            Self::power_query().run(replies) == (OperationView::Finished {
                outcome: OutcomeView::Powered(replies[0] == ReplyView::Flag(true)),
            }),
            Self::power_query().changes(replies) == 0,
    {
        Self::power_query().step(replies[0]).lemma_finished_is_final(replies.drop_first());
    }

    /// Whatever the transport answers, a command changes the state of the
    /// adapter or of a device at most once.
    pub proof fn lemma_command_changes_once(command: CommandView, replies: Seq<ReplyView>)
        ensures
            Self::execution(command).changes(replies) <= 1,
    {
        let start = Self::execution(command);
        if replies.len() > 0 {
            let second = start.step(replies[0]);
            let tail = replies.drop_first();
            if second is Finished {
                second.lemma_finished_is_final(tail);
            } else if tail.len() > 0 {
                second.step(tail[0]).lemma_finished_is_final(tail.drop_first());
            }
        }
    }

    /// A device command is idempotent: where the device is in the state
    /// asked for, the command succeeds without a change being asked of the
    /// transport.
    pub proof fn lemma_command_in_goal_state(
        kind: CommandKind,
        address: Seq<char>,
        replies: Seq<ReplyView>,
    )
        requires
            replies.len() >= 1,
            replies[0] == ReplyView::Flag(kind.goal()),
        ensures
            Self::execution(CommandView::Device(kind, address)).run(replies) == (
            OperationView::Finished { outcome: OutcomeView::Command(Ok(())) }),
            Self::execution(CommandView::Device(kind, address)).changes(replies) == 0,
    {
        let start = Self::execution(CommandView::Device(kind, address));
        start.step(replies[0]).lemma_finished_is_final(replies.drop_first());
    }

    /// A device command given twice in a row changes the device at most
    /// once, where the second finds the device in the state asked for.
    pub proof fn lemma_repeated_command(
        kind: CommandKind,
        address: Seq<char>,
        first: Seq<ReplyView>,
        second: Seq<ReplyView>,
    )
        requires
            second.len() >= 1,
            second[0] == ReplyView::Flag(kind.goal()),
        ensures
            Self::execution(CommandView::Device(kind, address)).changes(first) + Self::execution(
                CommandView::Device(kind, address),
            ).changes(second) <= 1,
    {
        Self::lemma_command_changes_once(CommandView::Device(kind, address), first);
        Self::lemma_command_in_goal_state(kind, address, second);
    }

    /// A device command whose state query fails, fails: nothing is asked of
    /// the transport on a guess.
    pub proof fn lemma_command_unread_state(
        kind: CommandKind,
        address: Seq<char>,
        replies: Seq<ReplyView>,
    )
        requires
            replies.len() >= 1,
            !(replies[0] is Flag),
        ensures
            Self::execution(CommandView::Device(kind, address)).run(replies) == (
            OperationView::Finished {
                outcome: OutcomeView::Command(
                    Err(ServiceErrorView::CommandFailed(CommandView::Device(kind, address))),
                ),
            }),
            Self::execution(CommandView::Device(kind, address)).changes(replies) == 0,
    {
        let start = Self::execution(CommandView::Device(kind, address));
        start.step(replies[0]).lemma_finished_is_final(replies.drop_first());
    }

    /// Enumeration from the middle on: with `found` on record, the device
    /// at `current` asked and those at `rest` still to ask, the replies of
    /// these devices complete the list.
    proof fn lemma_describing(
        policy: PolicyView,
        current: Seq<char>,
        rest: Seq<Seq<char>>,
        found: Seq<DeviceView>,
        partial: bool,
        replies: Seq<ReplyView>,
    )
        requires
            replies.len() == rest.len() + 1,
        ensures
            (OperationView::Describing { policy, current, rest, found, partial }).run(replies) == (
            OperationView::Finished {
                outcome: OutcomeView::Devices {
                    devices: policy.sorted(found + records(seq![current] + rest, replies)),
                    partial: partial || some_partial(replies),
                },
            }),
            (OperationView::Describing { policy, current, rest, found, partial }).changes(replies)
                == 0,
        decreases rest.len(),
    {
        let state = OperationView::Describing { policy, current, rest, found, partial };
        let tail = replies.drop_first();
        let probe = probe_in(replies[0]);
        let longer = found.push(record_of(current, probe));
        let all = records(seq![current] + rest, replies);
        if rest.len() > 0 {
            Self::lemma_describing(
                policy,
                rest[0],
                rest.drop_first(),
                longer,
                partial || probe.is_partial(),
                tail,
            );
            let later = records(seq![rest[0]] + rest.drop_first(), tail);
            assert(longer + later == found + all);
            if some_partial(replies) && !probe.is_partial() {
                let i = choose|i: int|
                    0 <= i < replies.len() && #[trigger] probe_in(replies[i]).is_partial();
                assert(probe_in(tail[i - 1]).is_partial());
            }
        } else {
            assert(longer == found + all);
            state.step(replies[0]).lemma_finished_is_final(tail);
        }
    }

    /// Enumeration lists every address that the transport reports, in
    /// display order: a device whose fields cannot be read gets a record
    /// of defaults and is not left out. No state is changed.
    pub proof fn lemma_enumeration(
        policy: PolicyView,
        addresses: Seq<Seq<char>>,
        replies: Seq<ReplyView>,
    )
        requires
            replies.len() == addresses.len(),
        ensures
            Self::enumeration(policy).run(seq![ReplyView::Addresses(addresses)] + replies) == (
            OperationView::Finished {
                outcome: OutcomeView::Devices {
                    devices: policy.sorted(records(addresses, replies)),
                    partial: some_partial(replies),
                },
            }),
            policy.sorted(records(addresses, replies)).len() == addresses.len(),
            Self::enumeration(policy).changes(seq![ReplyView::Addresses(addresses)] + replies)
                == 0,
    {
        let all = seq![ReplyView::Addresses(addresses)] + replies;
        assert(all.drop_first() == replies);
        policy.lemma_sorted_is_ordered(records(addresses, replies));
        if addresses.len() > 0 {
            Self::lemma_describing(
                policy,
                addresses[0],
                addresses.drop_first(),
                Seq::empty(),
                false,
                replies,
            );
            assert(seq![addresses[0]] + addresses.drop_first() == addresses);
            assert(Seq::<DeviceView>::empty() + records(addresses, replies) == records(
                addresses,
                replies,
            ));
        } else {
            assert(records(addresses, replies) == Seq::<DeviceView>::empty());
            Self::enumeration(policy).step(all[0]).lemma_finished_is_final(replies);
        }
    }

    /// Enumeration lists nothing where the addresses cannot be read.
    pub proof fn lemma_enumeration_unlisted(policy: PolicyView, replies: Seq<ReplyView>)
        requires
            replies.len() >= 1,
            !(replies[0] is Addresses),
        ensures
            Self::enumeration(policy).run(replies) == (OperationView::Finished {
                outcome: OutcomeView::Devices { devices: Seq::empty(), partial: false },
            }),
            Self::enumeration(policy).changes(replies) == 0,
    {
        Self::enumeration(policy).step(replies[0]).lemma_finished_is_final(replies.drop_first());
    }
}

} // verus!
