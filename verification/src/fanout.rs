//! One connection's share of the event streams.
//!
//! A fanout holds the set of communities that its connection is subscribed
//! to. Batches of [`SubscribeCommand`] change that set; events that arrive
//! from the mailboxes are passed on in the order of their arrival, until a
//! mailbox reports that the connection fell behind.
//!
//! The fanout decides, and the task that owns the connection acts: it waits
//! on the control channel and on the receivers, tells the fanout what came,
//! and does what the fanout answers.

use crate::aspen_protocol::server_event::ServerEvent;
use crate::broadcast::Received;
use crate::ids::CommunityId;
use crate::mailbox::{CommunityMailboxManager, MailboxReceiver, Mailboxes, MAILBOX_SIZE};
use std::sync::Arc;
use vstd::prelude::*;

verus! {

/// Asks for a community's events to be delivered, or no longer.
#[derive(Debug, Clone, Copy, PartialEq, Eq, Structural)]
pub struct SubscribeCommand {
    pub community: CommunityId,
    /// True means a subscription should be made. False means it should be
    /// unsubscribed.
    pub desire_subscribed: bool,
}

/// Where a fanout stands.
#[derive(Debug, Clone, Copy, PartialEq, Eq, Structural)]
pub enum FanoutState {
    /// No community is subscribed; only commands are awaited.
    Idle,
    /// At least one community is subscribed.
    Active,
    /// The connection fell behind and is being torn down; nothing is
    /// delivered any more.
    Draining,
    /// The end: every receiver is dropped.
    Closed,
}

/// What the owner of the receivers does for one command.
pub enum FanoutAction {
    /// Wait on this receiver for its community, in place of any that is
    /// waited on for the same community.
    Attach(MailboxReceiver),
    /// Drop the receiver of this community, if there is one.
    Detach(CommunityId),
}

/// What the connection does with what one receiver gave.
#[derive(Debug, Clone, PartialEq, Eq)]
pub enum FanoutStep {
    /// Send this event to the client.
    Deliver(Arc<ServerEvent>),
    /// Nothing to send.
    Skip,
    /// The client fell behind: close the connection, with the number of
    /// events that it missed.
    Disconnect(u64),
}

/// What came of sending one event to the client.
#[derive(Debug, Clone, Copy, PartialEq, Eq, Structural)]
pub enum Delivery {
    /// The event was written to a stream of its own.
    Sent,
    /// The event could not be serialized; it is skipped.
    NotSerialized,
    /// A stream was opened, but the event could not be written to it.
    NotWritten,
    /// No stream could be opened: the connection is gone.
    NoStream,
}

/// The subscribed set after one command.
pub open spec fn apply_command(subscribed: Set<CommunityId>, command: SubscribeCommand) -> Set<
    CommunityId,
> {
    if command.desire_subscribed {
        subscribed.insert(command.community)
    } else {
        subscribed.remove(command.community)
    }
}

/// The subscribed set after a batch of commands, applied in their order.
pub open spec fn apply_batch(subscribed: Set<CommunityId>, batch: Seq<SubscribeCommand>) -> Set<
    CommunityId,
>
    decreases batch.len(),
{
    if batch.len() == 0 {
        subscribed
    } else {
        apply_command(apply_batch(subscribed, batch.drop_last()), batch.last())
    }
}

/// What the last command of a batch that names `community` asks for, if any
/// command names it.
pub open spec fn last_desire(batch: Seq<SubscribeCommand>, community: CommunityId) -> Option<bool>
    decreases batch.len(),
{
    if batch.len() == 0 {
        None
    } else if batch.last().community == community {
        Some(batch.last().desire_subscribed)
    } else {
        last_desire(batch.drop_last(), community)
    }
}

/// Whether `action` is what `command` calls for.
pub open spec fn action_answers(action: FanoutAction, command: SubscribeCommand) -> bool {
    match action {
        FanoutAction::Attach(receiver) => command.desire_subscribed && receiver.community
            == command.community,
        FanoutAction::Detach(community) => !command.desire_subscribed && community
            == command.community,
    }
}

/// The registry after the subscriptions that stand behind `actions`.
pub open spec fn mailboxes_after(before: Mailboxes, actions: Seq<FanoutAction>) -> Mailboxes
    decreases actions.len(),
{
    if actions.len() == 0 {
        before
    } else {
        let earlier = mailboxes_after(before, actions.drop_last());
        match actions.last() {
            FanoutAction::Attach(receiver) => earlier.subscribe(
                receiver.community,
                !receiver.fresh,
                MAILBOX_SIZE as nat,
            ),
            FanoutAction::Detach(_) => earlier,
        }
    }
}

/// Whether the receiver of each subscription among `actions` reads the
/// channel that the registry held for its community once that subscription
/// was made.
pub open spec fn receivers_match(before: Mailboxes, actions: Seq<FanoutAction>) -> bool {
    forall|i: int|
        0 <= i < actions.len() ==> attached_to(
            #[trigger] actions[i],
            mailboxes_after(before, actions.take(i + 1)),
        )
}

/// Whether the receiver of a subscription reads the channel that `registry`
/// holds for its community.
pub open spec fn attached_to(action: FanoutAction, registry: Mailboxes) -> bool {
    match action {
        FanoutAction::Attach(receiver) => receiver.serial == registry.serial[receiver.community],
        FanoutAction::Detach(_) => true,
    }
}

/// The state of an open fanout with this subscribed set.
pub open spec fn open_state(subscribed: Set<CommunityId>) -> FanoutState {
    if subscribed == Set::<CommunityId>::empty() {
        FanoutState::Idle
    } else {
        FanoutState::Active
    }
}

/// What a fanout holds.
pub struct Fanout {
    pub state: FanoutState,
    pub subscribed: Set<CommunityId>,
}

impl Fanout {
    /// A fanout is open while it takes commands: idle or active.
    pub open spec fn is_open(self) -> bool {
        self.state is Idle || self.state is Active
    }

    /// Whether an event of `community` is passed on.
    pub open spec fn delivers(self, community: CommunityId) -> bool {
        self.state is Active && self.subscribed.contains(community)
    }

    /// The fanout after a batch of commands.
    pub open spec fn after_commands(self, batch: Seq<SubscribeCommand>) -> Fanout {
        if self.is_open() {
            let subscribed = apply_batch(self.subscribed, batch);
            Fanout { state: open_state(subscribed), subscribed }
        } else {
            self
        }
    }

    /// The fanout after a receiver of `community` gave `received`.
    pub open spec fn after_event(self, community: CommunityId, received: Received<Arc<ServerEvent>>)
        -> Fanout {
        if !self.delivers(community) {
            self
        } else {
            match received {
                Received::Event(_) => self,
                Received::Empty => self,
                Received::Closed => {
                    let subscribed = self.subscribed.remove(community);
                    Fanout { state: open_state(subscribed), subscribed }
                },
                Received::Lagged(_) => Fanout {
                    state: FanoutState::Draining,
                    subscribed: Set::empty(),
                },
            }
        }
    }

    /// What the connection is told to do after a receiver of `community`
    /// gave `received`.
    pub open spec fn step_for(self, community: CommunityId, received: Received<Arc<ServerEvent>>)
        -> FanoutStep {
        if !self.delivers(community) {
            FanoutStep::Skip
        } else {
            match received {
                Received::Event(event) => FanoutStep::Deliver(event),
                Received::Empty => FanoutStep::Skip,
                Received::Closed => FanoutStep::Skip,
                Received::Lagged(missed) => FanoutStep::Disconnect(missed),
            }
        }
    }

    /// The closed fanout.
    pub open spec fn closed() -> Fanout {
        Fanout { state: FanoutState::Closed, subscribed: Set::empty() }
    }
}

/// What one receiver gave, and for which community.
pub struct Arrival {
    pub community: CommunityId,
    pub received: Received<Arc<ServerEvent>>,
}

/// The events that a fanout passes on, in their order, when `arrivals` reach
/// it one after the other.
pub open spec fn deliveries(fanout: Fanout, arrivals: Seq<Arrival>) -> Seq<Arc<ServerEvent>>
    decreases arrivals.len(),
{
    if arrivals.len() == 0 {
        Seq::empty()
    } else {
        let first = arrivals.first();
        let rest = deliveries(
            fanout.after_event(first.community, first.received),
            arrivals.drop_first(),
        );
        match fanout.step_for(first.community, first.received) {
            FanoutStep::Deliver(event) => seq![event] + rest,
            _ => rest,
        }
    }
}

/// The events among `arrivals` that belong to a community of `subscribed`, in
/// the order of their arrival.
pub open spec fn events_of(subscribed: Set<CommunityId>, arrivals: Seq<Arrival>) -> Seq<
    Arc<ServerEvent>,
>
    decreases arrivals.len(),
{
    if arrivals.len() == 0 {
        Seq::empty()
    } else {
        let rest = events_of(subscribed, arrivals.drop_first());
        match arrivals.first().received {
            Received::Event(event) if subscribed.contains(arrivals.first().community) => seq![event]
                + rest,
            _ => rest,
        }
    }
}

/// After a batch, a community is subscribed exactly if the last command that
/// names it asks for that, or, where no command names it, if it was
/// subscribed before. No earlier command of the batch shows in the result.
pub proof fn lemma_last_command_decides(
    subscribed: Set<CommunityId>,
    batch: Seq<SubscribeCommand>,
    community: CommunityId,
)
    ensures
        apply_batch(subscribed, batch).contains(community) == (match last_desire(batch, community) {
            Some(desire) => desire,
            None => subscribed.contains(community),
        }),
    decreases batch.len(),
{
    if batch.len() > 0 {
        lemma_last_command_decides(subscribed, batch.drop_last(), community);
    }
}

/// Subscribing to `a`, then to `b`, then unsubscribing from `a`, as one batch
/// on a fanout without subscriptions, leaves exactly `b` subscribed.
pub proof fn lemma_subscribe_both_unsubscribe_first(a: CommunityId, b: CommunityId)
    requires
        a != b,
    ensures
        (Fanout { state: FanoutState::Idle, subscribed: Set::empty() }).after_commands(
            seq![
                SubscribeCommand { community: a, desire_subscribed: true },
                SubscribeCommand { community: b, desire_subscribed: true },
                SubscribeCommand { community: a, desire_subscribed: false },
            ],
        ) == (Fanout { state: FanoutState::Active, subscribed: set![b] }),
{
    let batch = seq![
        SubscribeCommand { community: a, desire_subscribed: true },
        SubscribeCommand { community: b, desire_subscribed: true },
        SubscribeCommand { community: a, desire_subscribed: false },
    ];
    let after = apply_batch(Set::<CommunityId>::empty(), batch);
    assert forall|c: CommunityId| after.contains(c) == set![b].contains(c) by {
        lemma_last_command_decides(Set::<CommunityId>::empty(), batch, c);
        reveal_with_fuel(last_desire, 4);
        assert(batch.drop_last().last().community == b);
        assert(batch.drop_last().drop_last().last().community == a);
    }
    assert(after =~= set![b]);
    assert(after.contains(b));
}

/// While nothing lags and no channel ends, an active fanout passes on every
/// event of its subscribed communities, and in the order of arrival. So the
/// events of one community leave in the order in which its mailbox gave them.
pub proof fn lemma_events_leave_in_arrival_order(fanout: Fanout, arrivals: Seq<Arrival>)
    requires
        fanout.state is Active,
        forall|i: int|
            0 <= i < arrivals.len() ==> (#[trigger] arrivals[i]).received is Event
                || arrivals[i].received is Empty,
    ensures
        deliveries(fanout, arrivals) == events_of(fanout.subscribed, arrivals),
    decreases arrivals.len(),
{
    if arrivals.len() > 0 {
        let first = arrivals.first();
        assert(first == arrivals[0]);
        assert(fanout.after_event(first.community, first.received) == fanout);
        let rest = arrivals.drop_first();
        assert forall|i: int| 0 <= i < rest.len() implies (#[trigger] rest[i]).received is Event
            || rest[i].received is Empty by {
            assert(rest[i] == arrivals[i + 1]);
        }
        lemma_events_leave_in_arrival_order(fanout, rest);
    }
}

/// A fanout that is not active passes nothing on, whatever arrives: once a
/// lag was seen, no further event reaches the client.
pub proof fn lemma_nothing_leaves_unless_active(fanout: Fanout, arrivals: Seq<Arrival>)
    requires
        !(fanout.state is Active),
    ensures
        deliveries(fanout, arrivals) == Seq::<Arc<ServerEvent>>::empty(),
    decreases arrivals.len(),
{
    if arrivals.len() > 0 {
        lemma_nothing_leaves_unless_active(fanout, arrivals.drop_first());
    }
}

/// A lag of a subscribed community ends delivery at once: the events that
/// came before it are passed on, the ones after it are not.
pub proof fn lemma_lag_ends_delivery(
    fanout: Fanout,
    community: CommunityId,
    missed: u64,
    later: Seq<Arrival>,
)
    requires
        fanout.delivers(community),
    ensures
        deliveries(
            fanout,
            seq![Arrival { community, received: Received::Lagged(missed) }] + later,
        ) == Seq::<Arc<ServerEvent>>::empty(),
{
    let arrivals = seq![Arrival { community, received: Received::Lagged(missed) }] + later;
    assert(arrivals.drop_first() =~= later);
    lemma_nothing_leaves_unless_active(
        fanout.after_event(community, Received::Lagged(missed)),
        later,
    );
}

fn position(list: &Vec<CommunityId>, community: &CommunityId) -> (at: Option<usize>)
    ensures
        match at {
            Some(i) => i < list@.len() && list@[i as int] == *community,
            None => !list@.contains(*community),
        },
{
    let mut i: usize = 0;
    while i < list.len()
        invariant
            i <= list@.len(),
            forall|j: int| 0 <= j < i ==> list@[j] != *community,
        decreases list@.len() - i,
    {
        if list[i] == *community {
            return Some(i);
        }
        i += 1;
    }
    None
}

/// The event fanout of one connection.
pub struct ConnectionFanout {
    state: FanoutState,
    subscribed: Vec<CommunityId>,
}

impl View for ConnectionFanout {
    type V = Fanout;

    closed spec fn view(&self) -> Fanout {
        Fanout { state: self.state, subscribed: self.subscribed@.to_set() }
    }
}

impl ConnectionFanout {
    /// No community is listed twice, and the state goes with the list: active
    /// with a subscription, idle without one, and none is left once the
    /// fanout is draining or closed.
    pub closed spec fn wf(&self) -> bool {
        &&& self.subscribed@.no_duplicates()
        &&& self.state is Active <==> self.subscribed@.len() > 0
    }

    /// A well-formed fanout is active exactly while it has a subscription.
    pub proof fn lemma_view_wf(&self)
        requires
            self.wf(),
        ensures
            self@.subscribed.finite(),
            self@.state is Active <==> self@.subscribed != Set::<CommunityId>::empty(),
            self@.is_open() ==> self@.state == open_state(self@.subscribed),
    {
        let list = self.subscribed@;
        if list.len() > 0 {
            assert(list.to_set().contains(list[0]));
        } else {
            assert(list.to_set() =~= Set::<CommunityId>::empty());
        }
    }

    /// An idle fanout, for a connection that was just accepted.
    pub fn new() -> (fanout: Self)
        ensures
            fanout.wf(),
            fanout@ == (Fanout { state: FanoutState::Idle, subscribed: Set::empty() }),
    {
        let fanout = ConnectionFanout { state: FanoutState::Idle, subscribed: Vec::new() };
        assert(fanout.subscribed@.to_set() =~= Set::<CommunityId>::empty());
        fanout
    }

    pub fn state(&self) -> (state: FanoutState)
        ensures
            state == self@.state,
    {
        self.state
    }

    pub fn is_subscribed(&self, community: &CommunityId) -> (subscribed: bool)
        ensures
            subscribed == self@.subscribed.contains(*community),
    {
        position(&self.subscribed, community).is_some()
    }

    /// The subscribed communities, each once.
    pub fn subscribed(&self) -> (list: Vec<CommunityId>)
        requires
            self.wf(),
        ensures
            list@.no_duplicates(),
            list@.to_set() == self@.subscribed,
    {
        let mut list: Vec<CommunityId> = Vec::new();
        let mut i: usize = 0;
        while i < self.subscribed.len()
            invariant
                i <= self.subscribed@.len(),
                list@ == self.subscribed@.take(i as int),
            decreases self.subscribed@.len() - i,
        {
            list.push(self.subscribed[i]);
            assert(self.subscribed@.take(i + 1) =~= self.subscribed@.take(i as int).push(
                self.subscribed@[i as int],
            ));
            i += 1;
        }
        assert(self.subscribed@.take(i as int) =~= self.subscribed@);
        list
    }

    fn settle(&mut self)
        requires
            old(self).state is Idle || old(self).state is Active,
            old(self).subscribed@.no_duplicates(),
        ensures
            final(self).wf(),
            final(self).subscribed == old(self).subscribed,
            final(self)@.state == open_state(final(self)@.subscribed),
    {
        if self.subscribed.len() == 0 {
            self.state = FanoutState::Idle;
            assert(self.subscribed@.to_set() =~= Set::<CommunityId>::empty());
        } else {
            self.state = FanoutState::Active;
            assert(self.subscribed@.to_set().contains(self.subscribed@[0]));
        }
    }

    fn insert(&mut self, community: CommunityId)
        requires
            old(self).subscribed@.no_duplicates(),
        ensures
            final(self).subscribed@.no_duplicates(),
            final(self).subscribed@.to_set() == old(self).subscribed@.to_set().insert(community),
            final(self).state == old(self).state,
    {
        if position(&self.subscribed, &community).is_none() {
            self.subscribed.push(community);
            assert(self.subscribed@.to_set() =~= old(self).subscribed@.to_set().insert(community))
                by {
                let before = old(self).subscribed@;
                let after = self.subscribed@;
                assert forall|c: CommunityId| after.to_set().contains(c) <==> before.to_set().insert(
                    community,
                ).contains(c) by {
                    if after.contains(c) {
                        let j = choose|j: int| 0 <= j < after.len() && after[j] == c;
                        if j < before.len() {
                            assert(before[j] == c);
                        }
                    }
                    if before.contains(c) {
                        let j = choose|j: int| 0 <= j < before.len() && before[j] == c;
                        assert(after[j] == c);
                    }
                    if c == community {
                        assert(after[before.len() as int] == c);
                    }
                }
            }
        } else {
            assert(self.subscribed@.to_set() =~= old(self).subscribed@.to_set().insert(community));
        }
    }

    fn remove(&mut self, community: CommunityId)
        requires
            old(self).subscribed@.no_duplicates(),
        ensures
            final(self).subscribed@.no_duplicates(),
            final(self).subscribed@.to_set() == old(self).subscribed@.to_set().remove(community),
            final(self).state == old(self).state,
    {
        match position(&self.subscribed, &community) {
            Some(at) => {
                self.subscribed.remove(at);
                let ghost before = old(self).subscribed@;
                let ghost after = self.subscribed@;
                assert(after =~= before.remove(at as int));
                assert forall|c: CommunityId| after.to_set().contains(c) <==> before.to_set().remove(
                    community,
                ).contains(c) by {
                    if after.contains(c) {
                        let j = choose|j: int| 0 <= j < after.len() && after[j] == c;
                        if j < at {
                            assert(before[j] == c);
                        } else {
                            assert(before[j + 1] == c);
                        }
                    }
                    if before.contains(c) && c != community {
                        let j = choose|j: int| 0 <= j < before.len() && before[j] == c;
                        if j < at {
                            assert(after[j] == c);
                        } else {
                            assert(after[j - 1] == c);
                        }
                    }
                }
                assert(after.to_set() =~= before.to_set().remove(community));
            },
            None => {
                assert(self.subscribed@.to_set() =~= old(self).subscribed@.to_set().remove(
                    community,
                ));
            },
        }
    }

    /// Applies a batch of commands as one step.
    ///
    /// An open fanout takes the commands in their order: a subscription is
    /// made with the registry for each command that asks for one, and the set
    /// that the merge loop sees afterwards is the set after the whole batch.
    /// The answer holds one action for each command, in the same order. A
    /// fanout that is draining or closed ignores the batch.
    pub fn apply_commands(
        &mut self,
        mailboxes: &mut CommunityMailboxManager,
        batch: &Vec<SubscribeCommand>,
    ) -> (actions: Vec<FanoutAction>)
        requires
            old(self).wf(),
            old(mailboxes).wf(),
        ensures
            final(self).wf(),
            final(mailboxes).wf(),
            final(self)@ == old(self)@.after_commands(batch@),
            final(mailboxes)@ == mailboxes_after(old(mailboxes)@, actions@),
            receivers_match(old(mailboxes)@, actions@),
            old(self)@.is_open() ==> actions@.len() == batch@.len(),
            old(self)@.is_open() ==> forall|i: int|
                0 <= i < batch@.len() ==> action_answers(#[trigger] actions@[i], batch@[i]),
            !old(self)@.is_open() ==> actions@.len() == 0,
    {
        let mut actions: Vec<FanoutAction> = Vec::new();
        match self.state {
            FanoutState::Draining | FanoutState::Closed => {
                return actions;
            },
            _ => {},
        }
        let ghost start = self@.subscribed;
        let ghost registry = mailboxes@;
        let mut i: usize = 0;
        assert(batch@.take(0) =~= Seq::<SubscribeCommand>::empty());
        while i < batch.len()
            invariant
                i <= batch@.len(),
                self.state == old(self).state,
                self.state is Idle || self.state is Active,
                self.subscribed@.no_duplicates(),
                mailboxes.wf(),
                self.subscribed@.to_set() == apply_batch(start, batch@.take(i as int)),
                mailboxes@ == mailboxes_after(registry, actions@),
                receivers_match(registry, actions@),
                actions@.len() == i,
                forall|j: int| 0 <= j < i ==> action_answers(#[trigger] actions@[j], batch@[j]),
            decreases batch@.len() - i,
        {
            let command = batch[i];
            let ghost earlier = actions@;
            if command.desire_subscribed {
                let receiver = mailboxes.subscribe_mailbox(&command.community);
                self.insert(command.community);
                actions.push(FanoutAction::Attach(receiver));
            } else {
                self.remove(command.community);
                actions.push(FanoutAction::Detach(command.community));
            }
            assert(actions@.drop_last() =~= earlier);
            assert(receivers_match(registry, actions@)) by {
                assert forall|j: int| 0 <= j < actions@.len() implies attached_to(
                    #[trigger] actions@[j],
                    mailboxes_after(registry, actions@.take(j + 1)),
                ) by {
                    if j < earlier.len() {
                        assert(actions@[j] == earlier[j]);
                        assert(actions@.take(j + 1) =~= earlier.take(j + 1));
                    } else {
                        assert(actions@.take(j + 1) =~= actions@);
                    }
                }
            }
            assert(batch@.take(i + 1).drop_last() =~= batch@.take(i as int));
            assert(batch@.take(i + 1).last() == command);
            i += 1;
        }
        assert(batch@.take(i as int) =~= batch@);
        self.settle();
        actions
    }

    /// Takes what a receiver of `community` gave and says what to do with it.
    ///
    /// An active fanout passes on each event of a subscribed community, so
    /// events leave in the order in which they came. A lag ends delivery:
    /// the fanout drops its subscriptions, begins to drain, and asks for the
    /// connection to be closed. A channel that ended is dropped silently.
    /// Whatever comes for a community that is not subscribed, or after
    /// delivery has ended, is skipped.
    pub fn on_event(&mut self, community: &CommunityId, received: Received<Arc<ServerEvent>>) -> (step:
        FanoutStep)
        requires
            old(self).wf(),
        ensures
            final(self).wf(),
            final(self)@ == old(self)@.after_event(*community, received),
            step == old(self)@.step_for(*community, received),
    {
        let active = match self.state {
            FanoutState::Active => true,
            _ => false,
        };
        if !active || !self.is_subscribed(community) {
            return FanoutStep::Skip;
        }
        match received {
            Received::Event(event) => FanoutStep::Deliver(event),
            Received::Empty => FanoutStep::Skip,
            Received::Closed => {
                self.remove(*community);
                self.settle();
                FanoutStep::Skip
            },
            Received::Lagged(missed) => {
                self.subscribed.clear();
                self.state = FanoutState::Draining;
                assert(self.subscribed@.to_set() =~= Set::<CommunityId>::empty());
                FanoutStep::Disconnect(missed)
            },
        }
    }

    /// Takes what came of sending an event and says whether to go on. An
    /// event that cannot be serialized or written is lost and the fanout goes
    /// on; where no stream can be opened the fanout closes.
    pub fn after_delivery(&mut self, delivery: Delivery) -> (go_on: bool)
        requires
            old(self).wf(),
        ensures
            final(self).wf(),
            go_on == !(delivery is NoStream),
            final(self)@ == (if delivery is NoStream {
                Fanout::closed()
            } else {
                old(self)@
            }),
    {
        match delivery {
            Delivery::NoStream => {
                self.close();
                false
            },
            _ => true,
        }
    }

    /// Ends the fanout: the control channel is closed or the connection is
    /// gone. Every subscription is dropped.
    pub fn close(&mut self)
        ensures
            final(self).wf(),
            final(self)@ == Fanout::closed(),
    {
        self.subscribed.clear();
        self.state = FanoutState::Closed;
        assert(self.subscribed@.to_set() =~= Set::<CommunityId>::empty());
    }
}

} // verus!
