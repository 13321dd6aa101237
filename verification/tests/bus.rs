use aspen_core::aspen_config::{default_event_queue_size, AspenConfig};
use aspen_core::nats_connection_manager::{
    after_forward, drive_broadcast_channel, join_seen, Backhaul, BridgeEvent, BridgeStep,
    NatsConnectionManager,
};
use tokio::sync::broadcast::error::TryRecvError;

fn s(text: &str) -> String {
    text.to_string()
}

fn opened(backhaul: Backhaul<u32>) -> (tokio::sync::broadcast::Sender<u32>, tokio::sync::broadcast::Receiver<u32>) {
    match backhaul {
        Backhaul::Opened(sender, receiver) => (sender.into_sender(), receiver),
        Backhaul::Joined(_) => panic!("a channel should have been opened"),
    }
}

#[test]
fn default_queue_size_is_256() {
    assert_eq!(default_event_queue_size(), 256);
}

#[test]
fn queue_capacity_rejects_what_no_channel_takes() {
    let mut config = AspenConfig {
        event_queue_size: default_event_queue_size(),
        database_url: s("postgres://localhost/aspen"),
        nats_url: s("nats://localhost"),
        nats_auth_token: s("token"),
    };
    assert_eq!(config.queue_capacity(), Some(256));
    config.event_queue_size = 0;
    assert_eq!(config.queue_capacity(), None);
    config.event_queue_size = 1;
    assert_eq!(config.queue_capacity(), Some(1));
    config.event_queue_size = usize::MAX / 2;
    assert_eq!(config.queue_capacity(), Some(usize::MAX / 2));
    config.event_queue_size = usize::MAX / 2 + 1;
    assert_eq!(config.queue_capacity(), None);
}

#[test]
fn an_unknown_subject_has_no_channel() {
    let manager: NatsConnectionManager<u32> = NatsConnectionManager::new();
    assert_eq!(manager.opened(), 0);
    assert!(manager.subscribe(&s("chat.1")).is_none());
    assert!(manager.queue_subscribe(&s("chat.1"), &s("workers")).is_none());
    assert_eq!(manager.serial_of(&s("chat.1")), None);
    assert_eq!(manager.queue_serial_of(&s("chat.1"), &s("workers")), None);
}

#[test]
fn subscribers_of_one_subject_share_the_backhaul() {
    let mut manager: NatsConnectionManager<u32> = NatsConnectionManager::new();
    let (sender, mut first) = opened(manager.new_backhaul_connection_subscribe(s("chat.1"), 256));
    assert_eq!(manager.opened(), 1);
    assert_eq!(manager.serial_of(&s("chat.1")), Some(1));
    let mut second = manager.subscribe(&s("chat.1")).expect("the channel is live");
    let mut third = manager.subscribe(&s("chat.1")).expect("the channel is live");
    assert_eq!(manager.opened(), 1);
    assert_eq!(sender.receiver_count(), 3);
    assert_eq!(drive_broadcast_channel(&sender, BridgeEvent::Message(41)), BridgeStep::Forwarded(3));
    assert_eq!(drive_broadcast_channel(&sender, BridgeEvent::Message(42)), BridgeStep::Forwarded(3));
    for receiver in [&mut first, &mut second, &mut third] {
        assert_eq!(receiver.try_recv(), Ok(41));
        assert_eq!(receiver.try_recv(), Ok(42));
        assert_eq!(receiver.try_recv(), Err(TryRecvError::Empty));
    }
}

#[test]
fn opening_joins_a_channel_that_is_live_by_then() {
    let mut manager: NatsConnectionManager<u32> = NatsConnectionManager::new();
    let (sender, _first) = opened(manager.new_backhaul_connection_subscribe(s("chat.1"), 16));
    match manager.new_backhaul_connection_subscribe(s("chat.1"), 16) {
        Backhaul::Joined(_) => {}
        Backhaul::Opened(_, _) => panic!("a second channel was opened"),
    }
    assert_eq!(manager.opened(), 1);
    assert_eq!(sender.receiver_count(), 1);
}

#[test]
fn a_channel_without_its_bridge_is_replaced() {
    let mut manager: NatsConnectionManager<u32> = NatsConnectionManager::new();
    let (sender, first) = opened(manager.new_backhaul_connection_subscribe(s("chat.1"), 16));
    drop(first);
    assert_eq!(drive_broadcast_channel(&sender, BridgeEvent::Message(1)), BridgeStep::Stop);
    drop(sender);
    assert!(manager.subscribe(&s("chat.1")).is_none());
    assert_eq!(manager.serial_of(&s("chat.1")), Some(1));
    let (sender, mut receiver) = opened(manager.new_backhaul_connection_subscribe(s("chat.1"), 16));
    assert_eq!(manager.opened(), 2);
    assert_eq!(manager.serial_of(&s("chat.1")), Some(2));
    assert_eq!(drive_broadcast_channel(&sender, BridgeEvent::Message(7)), BridgeStep::Forwarded(1));
    assert_eq!(receiver.try_recv(), Ok(7));
}

#[test]
fn plain_and_queue_subscriptions_are_kept_apart() {
    let mut manager: NatsConnectionManager<u32> = NatsConnectionManager::new();
    let (_plain, _r1) = opened(manager.new_backhaul_connection_subscribe(s("chat.1"), 16));
    assert!(manager.queue_subscribe(&s("chat.1"), &s("workers")).is_none());
    let (_queue, _r2) =
        opened(manager.new_backhaul_connection_queue_subscribe(s("chat.1"), s("workers"), 16));
    let (_other, _r3) =
        opened(manager.new_backhaul_connection_queue_subscribe(s("chat.1"), s("auditors"), 16));
    let (_empty, _r4) =
        opened(manager.new_backhaul_connection_queue_subscribe(s("chat.1"), s(""), 16));
    assert_eq!(manager.opened(), 4);
    assert_eq!(manager.serial_of(&s("chat.1")), Some(1));
    assert_eq!(manager.queue_serial_of(&s("chat.1"), &s("workers")), Some(2));
    assert_eq!(manager.queue_serial_of(&s("chat.1"), &s("auditors")), Some(3));
    assert_eq!(manager.queue_serial_of(&s("chat.1"), &s("")), Some(4));
    assert_eq!(manager.queue_serial_of(&s("chat.2"), &s("workers")), None);
    assert!(manager.queue_subscribe(&s("chat.1"), &s("workers")).is_some());
    assert!(manager.subscribe(&s("chat.1")).is_some());
    assert!(manager.subscribe(&s("chat.2")).is_none());
}

#[test]
fn the_channel_holds_the_configured_number_of_messages() {
    let mut manager: NatsConnectionManager<u32> = NatsConnectionManager::new();
    let (sender, mut receiver) = opened(manager.new_backhaul_connection_subscribe(s("chat.1"), 4));
    for n in 0..6 {
        assert_eq!(drive_broadcast_channel(&sender, BridgeEvent::Message(n)), BridgeStep::Forwarded(1));
    }
    assert_eq!(receiver.try_recv(), Err(TryRecvError::Lagged(2)));
    assert_eq!(receiver.try_recv(), Ok(2));
}

#[test]
fn the_bridge_stops_when_receivers_or_upstream_are_gone() {
    let mut manager: NatsConnectionManager<u32> = NatsConnectionManager::new();
    let (sender, _receiver) = opened(manager.new_backhaul_connection_subscribe(s("chat.1"), 4));
    assert_eq!(drive_broadcast_channel(&sender, BridgeEvent::ReceiversGone), BridgeStep::Stop);
    assert_eq!(drive_broadcast_channel(&sender, BridgeEvent::UpstreamEnded), BridgeStep::Stop);
}

#[test]
fn a_forward_without_receivers_stops_the_bridge() {
    assert_eq!(after_forward(None), BridgeStep::Stop);
    assert_eq!(after_forward(Some(1)), BridgeStep::Forwarded(1));
    assert_eq!(after_forward(Some(9)), BridgeStep::Forwarded(9));
}

#[test]
fn only_a_channel_with_a_receiver_is_joined() {
    assert!(join_seen::<u32>(None).is_none());
    let (sender, mut first) = tokio::sync::broadcast::channel::<u32>(4);
    let mut joined = join_seen(Some((sender.clone(), 1))).expect("a receiver was seen");
    assert_eq!(sender.receiver_count(), 2);
    assert_eq!(sender.send(3).ok(), Some(2));
    assert_eq!(first.try_recv(), Ok(3));
    assert_eq!(joined.try_recv(), Ok(3));
    assert!(join_seen(Some((sender.clone(), 0))).is_none());
    assert_eq!(sender.receiver_count(), 2);
    assert!(join_seen(Some((sender.clone(), usize::MAX))).is_some());
}

#[test]
fn a_channel_without_receivers_is_replaced_though_its_bridge_lives() {
    let mut manager: NatsConnectionManager<u32> = NatsConnectionManager::new();
    let (old_sender, first) = opened(manager.new_backhaul_connection_subscribe(s("chat.1"), 16));
    drop(first);
    assert_eq!(old_sender.receiver_count(), 0);
    assert!(manager.subscribe(&s("chat.1")).is_none());
    assert_eq!(manager.opened(), 1);
    let (new_sender, mut receiver) =
        opened(manager.new_backhaul_connection_subscribe(s("chat.1"), 16));
    assert_eq!(manager.opened(), 2);
    assert_eq!(manager.serial_of(&s("chat.1")), Some(2));
    assert!(!new_sender.same_channel(&old_sender));
    assert_eq!(old_sender.receiver_count(), 0);
    assert_eq!(drive_broadcast_channel(&old_sender, BridgeEvent::Message(1)), BridgeStep::Stop);
    assert_eq!(
        drive_broadcast_channel(&new_sender, BridgeEvent::Message(2)),
        BridgeStep::Forwarded(1)
    );
    assert_eq!(receiver.try_recv(), Ok(2));
    let mut second = manager.subscribe(&s("chat.1")).expect("the new channel has a receiver");
    assert_eq!(new_sender.receiver_count(), 2);
    assert_eq!(
        drive_broadcast_channel(&new_sender, BridgeEvent::Message(3)),
        BridgeStep::Forwarded(2)
    );
    assert_eq!(second.try_recv(), Ok(3));
}

#[test]
fn opening_follows_what_was_seen() {
    let mut manager: NatsConnectionManager<u32> = NatsConnectionManager::new();
    let (sender, _first) = opened(manager.open_seen(s("chat.1"), None, 8, None));
    assert_eq!(manager.opened(), 1);
    match manager.open_seen(s("chat.1"), None, 8, Some((sender.clone(), 1))) {
        Backhaul::Joined(_) => {}
        Backhaul::Opened(_, _) => panic!("a channel with a receiver is joined"),
    }
    assert_eq!(manager.opened(), 1);
    match manager.open_seen(s("chat.1"), None, 8, Some((sender.clone(), 0))) {
        Backhaul::Opened(made, _) => assert_eq!(made.capacity(), 8),
        Backhaul::Joined(_) => panic!("a channel without receivers is replaced"),
    }
    assert_eq!(manager.opened(), 2);
    match manager.open_seen(s("chat.1"), Some(s("workers")), 32, None) {
        Backhaul::Opened(made, _) => assert_eq!(made.capacity(), 32),
        Backhaul::Joined(_) => panic!("nothing was there to join"),
    }
    assert_eq!(manager.opened(), 3);
    assert_eq!(manager.queue_serial_of(&s("chat.1"), &s("workers")), Some(3));
}
