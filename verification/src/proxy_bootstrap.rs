//! The start-up of the proxy service.
//!
//! The proxy comes up in stages, each of which needs what the one before it
//! produced: the connection to the pool, the handshake, the two tasks that
//! read from and write to the pool, the extranonce that the pool hands out,
//! a mining target that is no longer the all-zero sentinel, the bridge, and at
//! last the acceptor of mining devices. The caller does the work of each stage
//! and reports how it went; this module says what comes next.
//!
//! Once the connection to the pool exists the caller watches the status
//! channel, and runs the remaining stages in a task of their own.

use crate::status::ProxyReporter;
use crate::target::{is_sentinel, is_unset, TargetReading};
use vstd::prelude::*;

verus! {

/// The time given to the pool to come up before the proxy is started, in
/// milliseconds. The proxy connects to the pool, so the pool goes first.
pub const PROXY_START_DELAY_MS: u64 = 1000;

/// The pause between two looks at a target that is still the sentinel, in
/// milliseconds.
pub const TARGET_POLL_MS: u64 = 100;

/// Why the start-up of the proxy has failed.
#[derive(Clone, Copy, Debug, PartialEq, Eq, Structural)]
pub enum ProxyBootError {
    /// The connection to the pool could not be set up.
    Upstream,
    /// The handshake with the pool failed.
    Handshake,
    /// The task that reads the pool's messages could not be started.
    Parser,
    /// The task that hands shares to the pool could not be started.
    SubmitHandler,
    /// The channel that carries the extranonce closed before one arrived.
    ExtranonceLost,
    /// The target cell could not be read, or did not hold 32 bytes.
    TargetUnreadable,
    /// An event arrived that the stage was not waiting for.
    OutOfOrder,
}

/// How far the start-up has come. `X` is the extranonce with the identifier
/// of the upstream connection, as the pool hands them out.
#[derive(Debug, PartialEq, Eq)]
pub enum ProxyStage<X> {
    CreatingUpstream,
    Handshaking,
    StartingParser,
    StartingSubmitHandler,
    AwaitingExtranonce,
    /// The extranonce is here; the target is still the sentinel.
    AwaitingTarget(X),
    StartingBridge,
    /// The acceptor was told to start: the start-up is complete.
    Accepting,
    Failed(ProxyBootError),
}

/// What the caller reports back.
#[derive(Debug, PartialEq, Eq)]
pub enum ProxyEvent<X> {
    /// Setting up the connection to the pool succeeded or failed.
    UpstreamCreated(bool),
    /// The handshake succeeded or failed.
    HandshakeDone(bool),
    /// The reading task was started, or could not be.
    ParserStarted(bool),
    /// The submitting task was started, or could not be.
    SubmitHandlerStarted(bool),
    /// The extranonce arrived, or its channel closed without one.
    Extranonce(Option<X>),
    /// The target cell was looked at.
    TargetRead(TargetReading),
    /// The bridge was built and started.
    BridgeStarted,
}

/// What the caller is to do next.
#[derive(Debug, PartialEq, Eq)]
pub enum ProxyAction<X> {
    /// Set up the connection to the pool.
    CreateUpstream,
    /// Perform the handshake within the supported range of versions. The
    /// connection to the pool exists now: from here on the caller watches the
    /// status channel while the stages go on.
    Handshake,
    /// Start the task that reads the pool's messages.
    StartParser,
    /// Start the task that hands shares to the pool.
    StartSubmitHandler,
    /// Wait for the extranonce on its channel.
    AwaitExtranonce,
    /// Wait for `wait_ms` milliseconds, then look at the target cell.
    ReadTarget { wait_ms: u64 },
    /// Build the bridge from this extranonce and this target, and start it.
    StartBridge { extranonce: X, target: [u8; 32] },
    /// Start accepting mining devices.
    AcceptDownstream,
    /// Give up the start-up for this reason.
    Stop(ProxyBootError),
    /// The start-up was complete already; there is nothing to do.
    Nothing,
}

impl<X> ProxyAction<X> {
    /// The tag under which the task that the action starts sends its reports:
    /// the connection to the pool as the upstream, the bridge as the bridge,
    /// the acceptor as the downstream listener.
    pub open spec fn spec_reporter(&self) -> Option<ProxyReporter> {
        match *self {
            ProxyAction::CreateUpstream => Some(ProxyReporter::Upstream),
            ProxyAction::StartBridge { .. } => Some(ProxyReporter::Bridge),
            ProxyAction::AcceptDownstream => Some(ProxyReporter::DownstreamListener),
            _ => None,
        }
    }

    /// The tag for the status sender that goes with the action, if it starts
    /// a task that reports.
    #[verifier::when_used_as_spec(spec_reporter)]
    pub fn reporter(&self) -> (tag: Option<ProxyReporter>)
        ensures
            tag == self.spec_reporter(),
    {
        match self {
            ProxyAction::CreateUpstream => Some(ProxyReporter::Upstream),
            ProxyAction::StartBridge { .. } => Some(ProxyReporter::Bridge),
            ProxyAction::AcceptDownstream => Some(ProxyReporter::DownstreamListener),
            _ => None,
        }
    }
}

/// The stage and the first action of a start-up.
pub fn proxy_boot_start<X>() -> (first: (ProxyStage<X>, ProxyAction<X>))
    ensures
        first == (ProxyStage::<X>::CreatingUpstream, ProxyAction::<X>::CreateUpstream),
{
    (ProxyStage::CreatingUpstream, ProxyAction::CreateUpstream)
}

/// The stage and action that follow when the work of a stage went well
/// (`ok`), or the failure `error` when it did not.
pub open spec fn advance_if<X>(
    ok: bool,
    stage: ProxyStage<X>,
    action: ProxyAction<X>,
    error: ProxyBootError,
) -> (ProxyStage<X>, ProxyAction<X>) {
    if ok {
        (stage, action)
    } else {
        (ProxyStage::Failed(error), ProxyAction::Stop(error))
    }
}

/// The stage that follows `stage` on `event`, and what the caller is to do.
///
/// Each stage waits for one kind of event. A failure, or an event of another
/// kind, ends the start-up. A failed start-up stays failed, a complete one
/// stays complete. While the target reads as the sentinel the stage does not
/// change and the target is read again after [`TARGET_POLL_MS`].
pub open spec fn proxy_boot_next<X>(stage: ProxyStage<X>, event: ProxyEvent<X>) -> (
    ProxyStage<X>,
    ProxyAction<X>,
) {
    match (stage, event) {
        (ProxyStage::Failed(error), _) => (ProxyStage::Failed(error), ProxyAction::Stop(error)),
        (ProxyStage::Accepting, _) => (ProxyStage::Accepting, ProxyAction::Nothing),
        (ProxyStage::CreatingUpstream, ProxyEvent::UpstreamCreated(ok)) => advance_if(
            ok,
            ProxyStage::Handshaking,
            ProxyAction::Handshake,
            ProxyBootError::Upstream,
        ),
        (ProxyStage::Handshaking, ProxyEvent::HandshakeDone(ok)) => advance_if(
            ok,
            ProxyStage::StartingParser,
            ProxyAction::StartParser,
            ProxyBootError::Handshake,
        ),
        (ProxyStage::StartingParser, ProxyEvent::ParserStarted(ok)) => advance_if(
            ok,
            ProxyStage::StartingSubmitHandler,
            ProxyAction::StartSubmitHandler,
            ProxyBootError::Parser,
        ),
        (ProxyStage::StartingSubmitHandler, ProxyEvent::SubmitHandlerStarted(ok)) => advance_if(
            ok,
            ProxyStage::AwaitingExtranonce,
            ProxyAction::AwaitExtranonce,
            ProxyBootError::SubmitHandler,
        ),
        (ProxyStage::AwaitingExtranonce, ProxyEvent::Extranonce(Some(extranonce))) => (
            ProxyStage::AwaitingTarget(extranonce),
            ProxyAction::ReadTarget { wait_ms: 0 },
        ),
        (ProxyStage::AwaitingExtranonce, ProxyEvent::Extranonce(None)) => (
            ProxyStage::Failed(ProxyBootError::ExtranonceLost),
            ProxyAction::Stop(ProxyBootError::ExtranonceLost),
        ),
        (ProxyStage::AwaitingTarget(extranonce), ProxyEvent::TargetRead(reading)) => match reading {
            TargetReading::Ready(target) => if is_sentinel(target@) {
                (
                    ProxyStage::AwaitingTarget(extranonce),
                    ProxyAction::ReadTarget { wait_ms: TARGET_POLL_MS },
                )
            } else {
                (ProxyStage::StartingBridge, ProxyAction::StartBridge { extranonce, target })
            },
            TargetReading::Pending => (
                ProxyStage::AwaitingTarget(extranonce),
                ProxyAction::ReadTarget { wait_ms: TARGET_POLL_MS },
            ),
            TargetReading::Unreadable => (
                ProxyStage::Failed(ProxyBootError::TargetUnreadable),
                ProxyAction::Stop(ProxyBootError::TargetUnreadable),
            ),
        },
        (ProxyStage::StartingBridge, ProxyEvent::BridgeStarted) => (
            ProxyStage::Accepting,
            ProxyAction::AcceptDownstream,
        ),
        _ => (
            ProxyStage::Failed(ProxyBootError::OutOfOrder),
            ProxyAction::Stop(ProxyBootError::OutOfOrder),
        ),
    }
}

fn advance<X>(
    ok: bool,
    stage: ProxyStage<X>,
    action: ProxyAction<X>,
    error: ProxyBootError,
) -> (next: (ProxyStage<X>, ProxyAction<X>))
    ensures
        next == advance_if(ok, stage, action, error),
{
    if ok {
        (stage, action)
    } else {
        (ProxyStage::Failed(error), ProxyAction::Stop(error))
    }
}

fn out_of_order<X>() -> (next: (ProxyStage<X>, ProxyAction<X>))
    ensures
        next == (
            ProxyStage::<X>::Failed(ProxyBootError::OutOfOrder),
            ProxyAction::<X>::Stop(ProxyBootError::OutOfOrder),
        ),
{
    (ProxyStage::Failed(ProxyBootError::OutOfOrder), ProxyAction::Stop(ProxyBootError::OutOfOrder))
}

/// Moves the start-up on by one event.
pub fn proxy_boot_step<X>(stage: ProxyStage<X>, event: ProxyEvent<X>) -> (next: (
    ProxyStage<X>,
    ProxyAction<X>,
))
    ensures
        next == proxy_boot_next(stage, event),
{
    match stage {
        ProxyStage::Failed(error) => (ProxyStage::Failed(error), ProxyAction::Stop(error)),
        ProxyStage::Accepting => (ProxyStage::Accepting, ProxyAction::Nothing),
        ProxyStage::CreatingUpstream => match event {
            ProxyEvent::UpstreamCreated(ok) => advance(
                ok,
                ProxyStage::Handshaking,
                ProxyAction::Handshake,
                ProxyBootError::Upstream,
            ),
            _ => out_of_order(),
        },
        ProxyStage::Handshaking => match event {
            ProxyEvent::HandshakeDone(ok) => advance(
                ok,
                ProxyStage::StartingParser,
                ProxyAction::StartParser,
                ProxyBootError::Handshake,
            ),
            _ => out_of_order(),
        },
        ProxyStage::StartingParser => match event {
            ProxyEvent::ParserStarted(ok) => advance(
                ok,
                ProxyStage::StartingSubmitHandler,
                ProxyAction::StartSubmitHandler,
                ProxyBootError::Parser,
            ),
            _ => out_of_order(),
        },
        ProxyStage::StartingSubmitHandler => match event {
            ProxyEvent::SubmitHandlerStarted(ok) => advance(
                ok,
                ProxyStage::AwaitingExtranonce,
                ProxyAction::AwaitExtranonce,
                ProxyBootError::SubmitHandler,
            ),
            _ => out_of_order(),
        },
        ProxyStage::AwaitingExtranonce => match event {
            ProxyEvent::Extranonce(Some(extranonce)) => (
                ProxyStage::AwaitingTarget(extranonce),
                ProxyAction::ReadTarget { wait_ms: 0 },
            ),
            ProxyEvent::Extranonce(None) => (
                ProxyStage::Failed(ProxyBootError::ExtranonceLost),
                ProxyAction::Stop(ProxyBootError::ExtranonceLost),
            ),
            _ => out_of_order(),
        },
        ProxyStage::AwaitingTarget(extranonce) => match event {
            ProxyEvent::TargetRead(TargetReading::Ready(target)) => {
                if is_unset(&target) {
                    (
                        ProxyStage::AwaitingTarget(extranonce),
                        ProxyAction::ReadTarget { wait_ms: TARGET_POLL_MS },
                    )
                } else {
                    (ProxyStage::StartingBridge, ProxyAction::StartBridge { extranonce, target })
                }
            },
            ProxyEvent::TargetRead(TargetReading::Pending) => (
                ProxyStage::AwaitingTarget(extranonce),
                ProxyAction::ReadTarget { wait_ms: TARGET_POLL_MS },
            ),
            ProxyEvent::TargetRead(TargetReading::Unreadable) => (
                ProxyStage::Failed(ProxyBootError::TargetUnreadable),
                ProxyAction::Stop(ProxyBootError::TargetUnreadable),
            ),
            _ => out_of_order(),
        },
        ProxyStage::StartingBridge => match event {
            ProxyEvent::BridgeStarted => (ProxyStage::Accepting, ProxyAction::AcceptDownstream),
            _ => out_of_order(),
        },
    }
}

/// The stage of a start-up that was fed `events` in order.
pub open spec fn proxy_boot_stage<X>(events: Seq<ProxyEvent<X>>) -> ProxyStage<X>
    decreases events.len(),
{
    if events.len() == 0 {
        ProxyStage::CreatingUpstream
    } else {
        proxy_boot_next(proxy_boot_stage(events.drop_last()), events.last()).0
    }
}

/// The action with which a start-up answers the event at place `k` of `events`.
pub open spec fn proxy_boot_action<X>(events: Seq<ProxyEvent<X>>, k: int) -> ProxyAction<X>
    recommends
        0 <= k < events.len(),
{
    proxy_boot_next(proxy_boot_stage(events.take(k)), events[k]).1
}

/// The event shows a target that is no longer the sentinel.
pub open spec fn shows_target<X>(event: ProxyEvent<X>) -> bool {
    event matches ProxyEvent::TargetRead(TargetReading::Ready(target)) && !is_sentinel(target@)
}

/// The event is a look at the target cell that found the sentinel.
pub open spec fn shows_sentinel<X>(event: ProxyEvent<X>) -> bool {
    &&& event matches ProxyEvent::TargetRead(reading)
    &&& !(reading is Unreadable)
    &&& !shows_target(event)
}

/// The first four events are the successes of the first four stages.
pub open spec fn upstream_is_up<X>(events: Seq<ProxyEvent<X>>) -> bool {
    &&& events.len() >= 4
    &&& events[0] == ProxyEvent::<X>::UpstreamCreated(true)
    &&& events[1] == ProxyEvent::<X>::HandshakeDone(true)
    &&& events[2] == ProxyEvent::<X>::ParserStarted(true)
    &&& events[3] == ProxyEvent::<X>::SubmitHandlerStarted(true)
}

/// The events are those of a start-up up to the moment at which the bridge
/// is built: the first four stages went well, the extranonce arrived, every
/// look at the target but the last found the sentinel, and the last look
/// found a target.
pub open spec fn leads_to_bridge<X>(events: Seq<ProxyEvent<X>>) -> bool {
    &&& events.len() >= 6
    &&& upstream_is_up(events)
    &&& events[4] matches ProxyEvent::Extranonce(Some(_))
    &&& forall|j: int| 5 <= j < events.len() - 1 ==> shows_sentinel(#[trigger] events[j])
    &&& shows_target(events.last())
}

/// The events before place `n` lead to the bridge, and the event at place `n`
/// says that it was started.
pub open spec fn bridge_started_at<X>(events: Seq<ProxyEvent<X>>, n: int) -> bool {
    &&& 6 <= n < events.len()
    &&& leads_to_bridge(events.take(n))
    &&& events[n] == ProxyEvent::<X>::BridgeStarted
}

/// What having reached `stage` says of the events so far. Every stage but a
/// failure is reached by one history only.
pub open spec fn history_of<X>(stage: ProxyStage<X>, events: Seq<ProxyEvent<X>>) -> bool {
    match stage {
        ProxyStage::CreatingUpstream => events.len() == 0,
        ProxyStage::Handshaking => {
            &&& events.len() == 1
            &&& events[0] == ProxyEvent::<X>::UpstreamCreated(true)
        },
        ProxyStage::StartingParser => {
            &&& events.len() == 2
            &&& events[0] == ProxyEvent::<X>::UpstreamCreated(true)
            &&& events[1] == ProxyEvent::<X>::HandshakeDone(true)
        },
        ProxyStage::StartingSubmitHandler => {
            &&& events.len() == 3
            &&& events[0] == ProxyEvent::<X>::UpstreamCreated(true)
            &&& events[1] == ProxyEvent::<X>::HandshakeDone(true)
            &&& events[2] == ProxyEvent::<X>::ParserStarted(true)
        },
        ProxyStage::AwaitingExtranonce => events.len() == 4 && upstream_is_up(events),
        ProxyStage::AwaitingTarget(extranonce) => {
            &&& events.len() >= 5
            &&& upstream_is_up(events)
            &&& events[4] == ProxyEvent::Extranonce(Some(extranonce))
            &&& forall|j: int| 5 <= j < events.len() ==> shows_sentinel(#[trigger] events[j])
        },
        ProxyStage::StartingBridge => leads_to_bridge(events),
        ProxyStage::Accepting => exists|n: int| bridge_started_at(events, n),
        ProxyStage::Failed(_) => true,
    }
}

/// The stage that a start-up has reached tells how it got there.
pub proof fn stage_tells_history<X>(events: Seq<ProxyEvent<X>>)
    ensures
        history_of(proxy_boot_stage(events), events),
    decreases events.len(),
{
    if events.len() > 0 {
        let head = events.drop_last();
        stage_tells_history(head);
        assert forall|j: int| 0 <= j < head.len() implies head[j] == events[j] by {}
        match proxy_boot_stage(head) {
            ProxyStage::StartingBridge => {
                if events.last() == ProxyEvent::<X>::BridgeStarted {
                    assert(events.take(head.len() as int) == head);
                    assert(bridge_started_at(events, head.len() as int));
                }
            },
            ProxyStage::Accepting => {
                let n = choose|n: int| bridge_started_at(head, n);
                assert(events.take(n) == head.take(n));
                assert(bridge_started_at(events, n));
            },
            _ => {},
        }
    }
}

/// The bridge is built only once the extranonce has arrived and a look at
/// the target cell has found a target that is not the sentinel; it is built
/// from that extranonce and that target.
pub proof fn bridge_waits_for_extranonce_and_target<X>(events: Seq<ProxyEvent<X>>, k: int)
    requires
        0 <= k < events.len(),
        proxy_boot_action(events, k) is StartBridge,
    ensures
        !is_sentinel(proxy_boot_action(events, k)->target@),
        events[k] == ProxyEvent::<X>::TargetRead(
            TargetReading::Ready(proxy_boot_action(events, k)->target),
        ),
        k >= 5,
        events[4] == ProxyEvent::Extranonce(Some(proxy_boot_action(events, k)->extranonce)),
        upstream_is_up(events),
{
    let before = events.take(k);
    stage_tells_history(before);
    assert forall|j: int| 0 <= j < before.len() implies before[j] == events[j] by {}
}

/// While no look at the target cell finds anything but the sentinel, the
/// bridge is never built and the acceptor never started.
pub proof fn no_bridge_while_target_is_sentinel<X>(events: Seq<ProxyEvent<X>>)
    requires
        forall|i: int| 0 <= i < events.len() ==> !shows_target(#[trigger] events[i]),
    ensures
        forall|k: int|
            0 <= k < events.len() ==> !(#[trigger] proxy_boot_action(events, k) is StartBridge)
                && !(proxy_boot_action(events, k) is AcceptDownstream),
        !(proxy_boot_stage(events) is StartingBridge),
        !(proxy_boot_stage(events) is Accepting),
{
    stage_tells_history(events);
    if proxy_boot_stage(events) is Accepting {
        let n = choose|n: int| bridge_started_at(events, n);
        assert(events.take(n).last() == events[n - 1]);
    }
    assert forall|k: int| 0 <= k < events.len() implies !(#[trigger] proxy_boot_action(
        events,
        k,
    ) is StartBridge) && !(proxy_boot_action(events, k) is AcceptDownstream) by {
        let before = events.take(k);
        stage_tells_history(before);
        if proxy_boot_stage(before) is StartingBridge {
            assert(before.last() == events[k - 1]);
        }
    }
}

/// The handshake, and with it the watch over the status channel, begins only
/// after the connection to the pool was set up, and only once.
pub proof fn handshake_follows_upstream<X>(events: Seq<ProxyEvent<X>>, k: int)
    requires
        0 <= k < events.len(),
        proxy_boot_action(events, k) is Handshake,
    ensures
        k == 0,
        events[0] == ProxyEvent::<X>::UpstreamCreated(true),
{
    stage_tells_history(events.take(k));
}

/// A start-up is complete only if every stage went well, in order.
pub proof fn accepting_follows_every_stage<X>(events: Seq<ProxyEvent<X>>)
    requires
        proxy_boot_stage(events) is Accepting,
    ensures
        exists|n: int| bridge_started_at(events, n),
{
    stage_tells_history(events);
}

} // verus!
