use async_channel::{TryRecvError, TrySendError};
use futures::FutureExt;
use mining_supervisor::bindings::MAX_SLOTS;
use mining_supervisor::fabric::{
    Capacity, Fanout, Link, PoolChannel, PoolFabric, ProxyChannel, ProxyFabric, DATA_SLOTS,
    HANDOFF_SLOTS, NOTIFY_SLOTS,
};
use tokio::sync::broadcast::error::TryRecvError as NotifyRecvError;

type TestPoolFabric = PoolFabric<String, u64, u32, Vec<u8>>;
type TestProxyFabric = ProxyFabric<String, u8, u16, u32, u64, (Vec<u8>, u32), String>;

#[test]
fn slot_counts_are_fixed() {
    assert_eq!(DATA_SLOTS, 10);
    assert_eq!(HANDOFF_SLOTS, 1);
    assert_eq!(NOTIFY_SLOTS, 10);
    assert_eq!(MAX_SLOTS, 1024);
}

#[test]
fn pool_channels_have_their_capacities() {
    assert_eq!(PoolChannel::Status.capacity(), Capacity::Unbounded);
    assert_eq!(PoolChannel::NewTemplate.capacity(), Capacity::Bounded(10));
    assert_eq!(PoolChannel::NewPrevHash.capacity(), Capacity::Bounded(10));
    assert_eq!(PoolChannel::Solution.capacity(), Capacity::Bounded(10));
    assert_eq!(PoolChannel::MessageReceived.capacity(), Capacity::Bounded(10));
}

#[test]
fn proxy_channels_have_their_capacities() {
    assert_eq!(ProxyChannel::Status.capacity(), Capacity::Unbounded);
    assert_eq!(ProxyChannel::DownstreamMessages.capacity(), Capacity::Unbounded);
    assert_eq!(ProxyChannel::SubmitShares.capacity(), Capacity::Bounded(10));
    assert_eq!(ProxyChannel::NewPrevHash.capacity(), Capacity::Bounded(10));
    assert_eq!(ProxyChannel::NewExtendedJob.capacity(), Capacity::Bounded(10));
    assert_eq!(ProxyChannel::Extranonce.capacity(), Capacity::Bounded(1));
}

#[test]
fn link_is_opened_with_the_capacity_asked_for() {
    let link = Link::<u32>::open(Capacity::Bounded(3)).unwrap();
    assert_eq!(link.capacity(), Capacity::Bounded(3));
    let (tx, rx) = link.into_ends();
    assert_eq!(tx.capacity(), Some(3));
    assert_eq!(rx.capacity(), Some(3));

    let link = Link::<u32>::open(Capacity::Unbounded).unwrap();
    assert_eq!(link.capacity(), Capacity::Unbounded);
    let (tx, _rx) = link.into_ends();
    assert_eq!(tx.capacity(), None);
}

#[test]
fn link_ends_belong_to_one_queue() {
    let (tx, rx) = Link::<u32>::open(Capacity::Bounded(2)).unwrap().into_ends();
    tx.try_send(11).unwrap();
    tx.try_send(12).unwrap();
    assert_eq!(rx.try_recv(), Ok(11));
    assert_eq!(rx.try_recv(), Ok(12));
    assert_eq!(rx.try_recv(), Err(TryRecvError::Empty));
}

#[test]
fn link_of_an_inadmissible_capacity_is_not_opened() {
    assert!(Link::<u32>::open(Capacity::Bounded(0)).is_none());
    assert!(Link::<u32>::open(Capacity::Bounded(MAX_SLOTS + 1)).is_none());
    assert!(Link::<u32>::open(Capacity::Bounded(usize::MAX)).is_none());
    assert!(Link::<u32>::open(Capacity::Bounded(1)).is_some());
    assert!(Link::<u32>::open(Capacity::Bounded(MAX_SLOTS)).is_some());
}

#[test]
fn fanout_is_opened_with_the_slots_asked_for() {
    let fanout = Fanout::<u32>::open(10).unwrap();
    assert_eq!(fanout.slots(), 10);
    assert!(Fanout::<u32>::open(0).is_none());
    assert!(Fanout::<u32>::open(MAX_SLOTS + 1).is_none());
    assert!(Fanout::<u32>::open(1).is_some());
    assert!(Fanout::<u32>::open(MAX_SLOTS).is_some());
}

#[test]
fn pool_fabric_follows_the_plan() {
    let fabric = TestPoolFabric::open();
    assert_eq!(fabric.status.capacity(), Capacity::Unbounded);
    assert_eq!(fabric.new_template.capacity(), Capacity::Bounded(10));
    assert_eq!(fabric.new_prev_hash.capacity(), Capacity::Bounded(10));
    assert_eq!(fabric.solution.capacity(), Capacity::Bounded(10));
    assert_eq!(fabric.message_received.capacity(), Capacity::Bounded(10));
    assert_eq!(fabric.status.into_ends().0.capacity(), None);
    assert_eq!(fabric.new_template.into_ends().0.capacity(), Some(10));
    assert_eq!(fabric.new_prev_hash.into_ends().0.capacity(), Some(10));
    assert_eq!(fabric.solution.into_ends().0.capacity(), Some(10));
    assert_eq!(fabric.message_received.into_ends().0.capacity(), Some(10));
}

#[test]
fn proxy_fabric_follows_the_plan() {
    let fabric = TestProxyFabric::open();
    assert_eq!(fabric.status.capacity(), Capacity::Unbounded);
    assert_eq!(fabric.downstream_messages.capacity(), Capacity::Unbounded);
    assert_eq!(fabric.submit_shares.capacity(), Capacity::Bounded(10));
    assert_eq!(fabric.new_prev_hash.capacity(), Capacity::Bounded(10));
    assert_eq!(fabric.new_extended_job.capacity(), Capacity::Bounded(10));
    assert_eq!(fabric.extranonce.capacity(), Capacity::Bounded(1));
    assert_eq!(fabric.notify.slots(), 10);
    assert_eq!(fabric.status.into_ends().0.capacity(), None);
    assert_eq!(fabric.downstream_messages.into_ends().0.capacity(), None);
    assert_eq!(fabric.submit_shares.into_ends().0.capacity(), Some(10));
    assert_eq!(fabric.new_prev_hash.into_ends().0.capacity(), Some(10));
    assert_eq!(fabric.new_extended_job.into_ends().0.capacity(), Some(10));
    assert_eq!(fabric.extranonce.into_ends().0.capacity(), Some(1));
}

#[test]
fn fabric_carries_the_messages_of_the_services() {
    let pool = PoolFabric::<
        pool_sv2::status::Status,
        roles_logic_sv2::template_distribution_sv2::NewTemplate<'static>,
        roles_logic_sv2::template_distribution_sv2::SetNewPrevHash<'static>,
        roles_logic_sv2::template_distribution_sv2::SubmitSolution<'static>,
    >::open();
    let (status_tx, status_rx) = pool.status.into_ends();
    status_tx
        .try_send(pool_sv2::status::Status {
            state: pool_sv2::status::State::DownstreamInstanceDropped(3),
        })
        .unwrap();
    assert!(matches!(
        status_rx.try_recv().unwrap().state,
        pool_sv2::status::State::DownstreamInstanceDropped(3)
    ));

    let proxy = ProxyFabric::<
        translator_sv2::status::Status<'static>,
        translator_sv2::downstream_sv1::DownstreamMessages,
        roles_logic_sv2::mining_sv2::SubmitSharesExtended<'static>,
        roles_logic_sv2::mining_sv2::SetNewPrevHash<'static>,
        roles_logic_sv2::mining_sv2::NewExtendedMiningJob<'static>,
        (roles_logic_sv2::mining_sv2::ExtendedExtranonce, u32),
        sv1_api::server_to_client::Notify<'static>,
    >::open();
    let (status_tx, status_rx) = proxy.status.into_ends();
    status_tx
        .try_send(translator_sv2::status::Status {
            state: translator_sv2::status::State::Healthy("up".to_string()),
        })
        .unwrap();
    assert!(matches!(
        status_rx.try_recv().unwrap().state,
        translator_sv2::status::State::Healthy(text) if text == "up"
    ));
    assert_eq!(proxy.extranonce.into_ends().0.capacity(), Some(1));
}

#[test]
fn status_queue_never_holds_a_sender_back() {
    let (tx, rx) = TestPoolFabric::open().status.into_ends();
    for n in 0..10_000 {
        assert!(tx.send(format!("report {}", n)).now_or_never().is_some());
    }
    assert_eq!(rx.len(), 10_000);
    assert_eq!(rx.try_recv(), Ok("report 0".to_string()));
}

#[test]
fn full_queue_holds_the_sender_back_and_drops_nothing() {
    let (tx, rx) = TestPoolFabric::open().new_template.into_ends();
    for n in 0..10u64 {
        assert_eq!(tx.send(n).now_or_never(), Some(Ok(())));
    }
    assert!(tx.is_full());
    // The eleventh send neither completes nor fails: it waits.
    assert_eq!(tx.send(10).now_or_never(), None);
    assert_eq!(tx.try_send(10), Err(TrySendError::Full(10)));
    assert_eq!(rx.len(), 10);
    // Once a slot is free the send goes through, and nothing was lost.
    assert_eq!(rx.try_recv(), Ok(0));
    assert_eq!(tx.send(10).now_or_never(), Some(Ok(())));
    for n in 1..=10u64 {
        assert_eq!(rx.try_recv(), Ok(n));
    }
    assert_eq!(rx.try_recv(), Err(TryRecvError::Empty));
}

#[test]
fn extranonce_queue_takes_one_message() {
    let (tx, rx) = TestProxyFabric::open().extranonce.into_ends();
    assert_eq!(tx.send((vec![1, 2], 7)).now_or_never(), Some(Ok(())));
    assert_eq!(tx.send((vec![3], 8)).now_or_never(), None);
    assert_eq!(rx.try_recv(), Ok((vec![1, 2], 7)));
    assert_eq!(tx.send((vec![3], 8)).now_or_never(), Some(Ok(())));
    assert_eq!(rx.try_recv(), Ok((vec![3], 8)));
}

#[test]
fn subscriber_sees_only_what_is_sent_after_it_subscribed() {
    let (tx, mut first) = TestProxyFabric::open().notify.into_ends();
    assert_eq!(tx.send("early".to_string()).unwrap(), 1);
    let mut second = tx.subscribe();
    assert_eq!(tx.send("late".to_string()).unwrap(), 2);
    let mut third = tx.subscribe();
    assert_eq!(tx.send("last".to_string()).unwrap(), 3);

    assert_eq!(first.try_recv(), Ok("early".to_string()));
    assert_eq!(first.try_recv(), Ok("late".to_string()));
    assert_eq!(first.try_recv(), Ok("last".to_string()));
    assert_eq!(first.try_recv(), Err(NotifyRecvError::Empty));

    assert_eq!(second.try_recv(), Ok("late".to_string()));
    assert_eq!(second.try_recv(), Ok("last".to_string()));
    assert_eq!(second.try_recv(), Err(NotifyRecvError::Empty));

    assert_eq!(third.try_recv(), Ok("last".to_string()));
    assert_eq!(third.try_recv(), Err(NotifyRecvError::Empty));
}

#[test]
fn notify_channel_keeps_ten_messages_for_a_slow_receiver() {
    let (tx, mut rx) = TestProxyFabric::open().notify.into_ends();
    for n in 0..10 {
        tx.send(format!("job {}", n)).unwrap();
    }
    for n in 0..10 {
        assert_eq!(rx.try_recv(), Ok(format!("job {}", n)));
    }
    assert_eq!(rx.try_recv(), Err(NotifyRecvError::Empty));
}
